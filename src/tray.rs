//! One indicator update: what to show, and the order and failure rules of the
//! steps that apply it to the tray. The icon goes first and is the only step
//! whose failure fails the update; the template flag, badge and tooltip that
//! follow are best effort.

use vstd::prelude::*;
use crate::error::RadarError;
use crate::icon::{create_tray_icon_image, is_icon_of};
use crate::text::{badge_text, create_tray_title, create_tray_tooltip, tooltip_text, TrayIndicatorPayload};
use crate::handoff::opt_text;

verus! {

/// Everything the tray shows for one set of counters.
pub struct TrayVisual {
    /// The 18 x 18 RGBA icon.
    pub icon: Vec<u8>,
    /// The badge; `None` clears it.
    pub title: Option<String>,
    pub tooltip: String,
}

/// Computes the icon, badge and tooltip for the counters.
pub fn tray_visual(payload: &TrayIndicatorPayload) -> (v: TrayVisual)
    ensures
        is_icon_of(
            v.icon@,
            payload.conflict_count as int,
            payload.failed_ci_count as int,
            payload.review_pending_count as int,
        ),
        opt_text(v.title) == badge_text(payload.actionable_total_count as nat),
        v.tooltip@ == tooltip_text(*payload),
{
    let icon = create_tray_icon_image(
        payload.conflict_count,
        payload.failed_ci_count,
        payload.review_pending_count,
    );
    let title = create_tray_title(payload);
    let tooltip = create_tray_tooltip(payload);
    TrayVisual { icon, title, tooltip }
}

/// The steps of an update, in the order they are applied.
#[derive(Clone, Copy, Debug, PartialEq, Eq, Structural)]
pub enum IndicatorStep {
    /// Replace the tray icon.
    SetIcon,
    /// Turn off template rendering, so the platform keeps the icon's colours.
    ClearTemplate,
    /// Set or clear the badge.
    SetTitle,
    /// Set the tooltip.
    SetTooltip,
}

/// Where an update stands after a step.
#[derive(Clone, Copy, Debug, PartialEq, Eq, Structural)]
pub enum IndicatorProgress {
    /// Apply this step next.
    Next(IndicatorStep),
    /// Every step has been tried; the update succeeded.
    Done,
    /// The update failed with this error.
    Failed(RadarError),
}

/// How an update starts: with the icon when the tray exists, with
/// `TrayNotFound` and nothing applied when it does not.
pub fn begin_indicator_update(tray_found: bool) -> (p: IndicatorProgress)
    ensures
        tray_found ==> p == IndicatorProgress::Next(IndicatorStep::SetIcon),
        !tray_found ==> p == IndicatorProgress::Failed(RadarError::TrayNotFound),
{
    if tray_found {
        IndicatorProgress::Next(IndicatorStep::SetIcon)
    } else {
        IndicatorProgress::Failed(RadarError::TrayNotFound)
    }
}

/// What follows a step that did or did not succeed.
pub open spec fn progress_after(step: IndicatorStep, succeeded: bool) -> IndicatorProgress {
    match step {
        IndicatorStep::SetIcon => if succeeded {
            IndicatorProgress::Next(IndicatorStep::ClearTemplate)
        } else {
            IndicatorProgress::Failed(RadarError::TrayIconRejected)
        },
        IndicatorStep::ClearTemplate => IndicatorProgress::Next(IndicatorStep::SetTitle),
        IndicatorStep::SetTitle => IndicatorProgress::Next(IndicatorStep::SetTooltip),
        IndicatorStep::SetTooltip => IndicatorProgress::Done,
    }
}

/// The next move after `step` was applied with the given outcome.
pub fn after_indicator_step(step: IndicatorStep, succeeded: bool) -> (p: IndicatorProgress)
    ensures
        p == progress_after(step, succeeded),
        step != IndicatorStep::SetIcon ==> !(p is Failed),
{
    match step {
        IndicatorStep::SetIcon => if succeeded {
            IndicatorProgress::Next(IndicatorStep::ClearTemplate)
        } else {
            IndicatorProgress::Failed(RadarError::TrayIconRejected)
        },
        IndicatorStep::ClearTemplate => IndicatorProgress::Next(IndicatorStep::SetTitle),
        IndicatorStep::SetTitle => IndicatorProgress::Next(IndicatorStep::SetTooltip),
        IndicatorStep::SetTooltip => IndicatorProgress::Done,
    }
}

/// Once the icon is in place the update succeeds, whatever the later steps
/// report: from the icon's success, the steps run template, badge, tooltip
/// and end in `Done`.
pub proof fn lemma_cosmetic_failures_do_not_fail(template_ok: bool, title_ok: bool, tooltip_ok: bool)
    ensures
        progress_after(IndicatorStep::SetIcon, true) == IndicatorProgress::Next(
            IndicatorStep::ClearTemplate,
        ),
        progress_after(IndicatorStep::ClearTemplate, template_ok) == IndicatorProgress::Next(
            IndicatorStep::SetTitle,
        ),
        progress_after(IndicatorStep::SetTitle, title_ok) == IndicatorProgress::Next(
            IndicatorStep::SetTooltip,
        ),
        progress_after(IndicatorStep::SetTooltip, tooltip_ok) == IndicatorProgress::Done,
{
}

} // verus!

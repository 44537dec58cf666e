use action_radar::error::RadarError;
use action_radar::icon::create_tray_icon_image;
use action_radar::text::TrayIndicatorPayload;
use action_radar::tray::{
    after_indicator_step, begin_indicator_update, tray_visual, IndicatorProgress, IndicatorStep,
};

#[test]
fn visual_bundles_icon_badge_and_tooltip() {
    let p = TrayIndicatorPayload {
        conflict_count: 1,
        failed_ci_count: 2,
        review_pending_count: 0,
        actionable_total_count: 150,
    };
    let v = tray_visual(&p);
    assert_eq!(v.icon, create_tray_icon_image(1, 2, 0));
    assert_eq!(v.title, Some("99+".to_string()));
    assert_eq!(
        v.tooltip,
        "GitLab Action Radar: 合計150件（競合 1 / CI失敗 2 / レビュー待ち 0）"
    );
}

#[test]
fn missing_tray_fails_before_any_step() {
    assert_eq!(begin_indicator_update(false), IndicatorProgress::Failed(RadarError::TrayNotFound));
    assert_eq!(begin_indicator_update(true), IndicatorProgress::Next(IndicatorStep::SetIcon));
}

#[test]
fn only_the_icon_step_can_fail_the_update() {
    assert_eq!(
        after_indicator_step(IndicatorStep::SetIcon, false),
        IndicatorProgress::Failed(RadarError::TrayIconRejected)
    );
    assert_eq!(
        after_indicator_step(IndicatorStep::SetIcon, true),
        IndicatorProgress::Next(IndicatorStep::ClearTemplate)
    );
    for ok in [true, false] {
        assert_eq!(
            after_indicator_step(IndicatorStep::ClearTemplate, ok),
            IndicatorProgress::Next(IndicatorStep::SetTitle)
        );
        assert_eq!(
            after_indicator_step(IndicatorStep::SetTitle, ok),
            IndicatorProgress::Next(IndicatorStep::SetTooltip)
        );
        assert_eq!(after_indicator_step(IndicatorStep::SetTooltip, ok), IndicatorProgress::Done);
    }
}

//! The tray's tooltip and badge text, computed from the counters.

use vstd::prelude::*;
use vstd::string::*;

verus! {

/// The counters behind one indicator update. `actionable_total_count` is
/// supplied by the caller and drives the text alone; the bars use the three
/// category counts.
#[derive(Clone, Copy, Debug, PartialEq, Eq, Structural)]
pub struct TrayIndicatorPayload {
    pub conflict_count: u32,
    pub failed_ci_count: u32,
    pub review_pending_count: u32,
    pub actionable_total_count: u32,
}

/// Largest total shown as a number on the badge.
pub const BADGE_MAX: u32 = 99;

/// The character of decimal digit `d`.
pub open spec fn digit_char(d: nat) -> char {
    if d == 0 {
        '0'
    } else if d == 1 {
        '1'
    } else if d == 2 {
        '2'
    } else if d == 3 {
        '3'
    } else if d == 4 {
        '4'
    } else if d == 5 {
        '5'
    } else if d == 6 {
        '6'
    } else if d == 7 {
        '7'
    } else if d == 8 {
        '8'
    } else {
        '9'
    }
}

/// Decimal notation of `n`, without leading zeros.
pub open spec fn decimal(n: nat) -> Seq<char>
    decreases n,
{
    if n < 10 {
        seq![digit_char(n)]
    } else {
        decimal(n / 10).push(digit_char(n % 10))
    }
}

fn digit_str(d: u32) -> (s: &'static str)
    requires
        d < 10,
    ensures
        s@ == seq![digit_char(d as nat)],
{
    proof {
        reveal_strlit("0");
        reveal_strlit("1");
        reveal_strlit("2");
        reveal_strlit("3");
        reveal_strlit("4");
        reveal_strlit("5");
        reveal_strlit("6");
        reveal_strlit("7");
        reveal_strlit("8");
        reveal_strlit("9");
    }
    match d {
        0 => "0",
        1 => "1",
        2 => "2",
        3 => "3",
        4 => "4",
        5 => "5",
        6 => "6",
        7 => "7",
        8 => "8",
        _ => "9",
    }
}

/// Decimal notation of `n`.
pub fn decimal_string(n: u32) -> (s: String)
    ensures
        s@ == decimal(n as nat),
    decreases n,
{
    if n < 10 {
        String::from_str(digit_str(n))
    } else {
        let mut s = decimal_string(n / 10);
        s.append(digit_str(n % 10));
        s
    }
}


/// Tooltip shown while nothing needs attention.
pub open spec fn idle_tooltip() -> Seq<char> {
    "GitLab Action Radar: 対応が必要なMRはありません"@
}

/// Tooltip for the counters: the fixed idle message when the total is zero,
/// otherwise the total and the three category counts, in that order, in a
/// fixed template.
pub open spec fn tooltip_text(p: TrayIndicatorPayload) -> Seq<char> {
    if p.actionable_total_count == 0 {
        idle_tooltip()
    } else {
        "GitLab Action Radar: 合計"@ + decimal(p.actionable_total_count as nat) + "件（競合 "@
            + decimal(p.conflict_count as nat) + " / CI失敗 "@ + decimal(
            p.failed_ci_count as nat,
        ) + " / レビュー待ち "@ + decimal(p.review_pending_count as nat) + "）"@
    }
}

/// Badge for a total: none at zero, the number up to 99, "99+" above.
pub open spec fn badge_text(total: nat) -> Option<Seq<char>> {
    if total == 0 {
        None
    } else if total > BADGE_MAX {
        Some("99+"@)
    } else {
        Some(decimal(total))
    }
}

/// The tray tooltip for the counters.
pub fn create_tray_tooltip(payload: &TrayIndicatorPayload) -> (tip: String)
    ensures
        tip@ == tooltip_text(*payload),
{
    if payload.actionable_total_count == 0 {
        return String::from_str("GitLab Action Radar: 対応が必要なMRはありません");
    }
    let mut tip = String::from_str("GitLab Action Radar: 合計");
    tip.append(decimal_string(payload.actionable_total_count).as_str());
    tip.append("件（競合 ");
    tip.append(decimal_string(payload.conflict_count).as_str());
    tip.append(" / CI失敗 ");
    tip.append(decimal_string(payload.failed_ci_count).as_str());
    tip.append(" / レビュー待ち ");
    tip.append(decimal_string(payload.review_pending_count).as_str());
    tip.append("）");
    tip
}

/// The tray badge (title) for the counters: `None` clears it.
pub fn create_tray_title(payload: &TrayIndicatorPayload) -> (title: Option<String>)
    ensures
        title matches Some(t) ==> badge_text(payload.actionable_total_count as nat) == Some(t@),
        title is None <==> badge_text(payload.actionable_total_count as nat) is None,
{
    let total = payload.actionable_total_count;
    if total == 0 {
        None
    } else if total > BADGE_MAX {
        Some(String::from_str("99+"))
    } else {
        Some(decimal_string(total))
    }
}

} // verus!

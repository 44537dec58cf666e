//! The notification handoff: a single slot that carries at most one pending
//! "open this tab" request from a notification-click callback to the UI.
//! Writing overwrites whatever was not yet taken; taking empties the slot.
//! The process-wide instance sits behind a lock held by the caller for the
//! duration of each call.

use vstd::prelude::*;
use vstd::string::*;

verus! {

/// The text of an optional string.
pub open spec fn opt_text(o: Option<String>) -> Option<Seq<char>> {
    match o {
        Some(s) => Some(s@),
        None => None,
    }
}

/// The tab identifiers that a notification may ask the UI to open.
pub open spec fn is_known_tab(tab: Seq<char>) -> bool {
    tab == "assigned"@ || tab == "review"@
}

/// The slot after a write of `tab`: the write wins over whatever was there.
pub open spec fn after_set(slot: Option<Seq<char>>, tab: Seq<char>) -> Option<Seq<char>> {
    Some(tab)
}

/// A take from the slot: what it hands out, and what it leaves behind.
pub open spec fn taken(slot: Option<Seq<char>>) -> (Option<Seq<char>>, Option<Seq<char>>) {
    (slot, None)
}

/// A single-slot mailbox for the tab a clicked notification asks for.
pub struct PendingTabSlot {
    tab: Option<String>,
}

impl View for PendingTabSlot {
    type V = Option<Seq<char>>;

    closed spec fn view(&self) -> Option<Seq<char>> {
        opt_text(self.tab)
    }
}

/// A fresh, empty slot.
pub fn pending_notification_tab_slot() -> (slot: PendingTabSlot)
    ensures
        slot@ is None,
{
    PendingTabSlot { tab: None }
}

/// Puts `tab` in the slot; an earlier request that was not taken is lost.
pub fn set_pending_notification_tab(slot: &mut PendingTabSlot, tab: String)
    ensures
        final(slot)@ == after_set(old(slot)@, tab@),
{
    slot.tab = Some(tab);
}

/// Takes the pending request, if any, and leaves the slot empty.
pub fn take_pending_notification_tab(slot: &mut PendingTabSlot) -> (tab: Option<String>)
    ensures
        (opt_text(tab), final(slot)@) == taken(old(slot)@),
{
    let tab = slot.tab.take();
    tab
}

/// Whether `tab` is one of the identifiers a notification may carry.
pub fn is_notification_tab(tab: &String) -> (r: bool)
    ensures
        r == is_known_tab(tab@),
{
    let assigned = String::from_str("assigned");
    let review = String::from_str("review");
    *tab == assigned || *tab == review
}

/// Puts `tab` in the slot when it is a known identifier; any other value is
/// dropped and the slot is left as it was. Returns whether it was stored.
pub fn offer_notification_tab(slot: &mut PendingTabSlot, tab: String) -> (stored: bool)
    ensures
        stored == is_known_tab(tab@),
        stored ==> final(slot)@ == Some(tab@),
        !stored ==> final(slot)@ == old(slot)@,
{
    if is_notification_tab(&tab) {
        set_pending_notification_tab(slot, tab);
        true
    } else {
        false
    }
}

/// Two takes in a row, after two writes: the first take hands out the later
/// write, the second finds nothing; a fresh slot has nothing to hand out.
pub proof fn lemma_last_write_taken_once(start: Option<Seq<char>>, first: Seq<char>, second: Seq<char>)
    ensures
        taken(after_set(after_set(start, first), second)) == (Some(second), None::<Seq<char>>),
        taken(taken(after_set(after_set(start, first), second)).1).0 is None,
        taken(None).0 is None,
{
}

} // verus!

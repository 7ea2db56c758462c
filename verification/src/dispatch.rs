//! Routing of menu-activation events.
//!
//! An activation event carries the string identifier of the activated item.
//! Classification of an identifier is a pure, total function into one of
//! three categories; `dispatch` turns one event into the outcome the
//! application must carry out: the notifications to broadcast and one
//! diagnostic trace entry.

use vstd::prelude::*;

use crate::text::str_eq;

verus! {

/// The category an identifier falls in. Every identifier, including ones
/// never declared in the menu, falls in exactly one.
#[derive(Clone, Copy, PartialEq, Eq, Structural, Debug)]
pub enum ActionCategory {
    /// Activation broadcasts a `DebugActionNotification`.
    DebugAction,
    /// Recognized but not wired yet: activation only logs.
    PlaceholderAction,
    /// Not a known identifier: activation logs a warning.
    Unknown,
}

/// The identifiers whose activation broadcasts a debug-action notification.
pub open spec fn is_debug_id(id: Seq<char>) -> bool {
    ||| id == "add_sample_tempo_event"@
    ||| id == "add_sample_time_signature_event"@
    ||| id == "add_doremiredo_notes"@
}

/// The recognized identifiers with no wired behavior yet.
pub open spec fn is_placeholder_id(id: Seq<char>) -> bool {
    ||| id == "new_file"@
    ||| id == "open_file"@
    ||| id == "import_file"@
    ||| id == "save_file"@
    ||| id == "save_as_file"@
    ||| id == "undo"@
    ||| id == "redo"@
    ||| id == "cut"@
    ||| id == "copy"@
    ||| id == "paste"@
}

/// The one category an identifier maps to.
pub open spec fn category_of(id: Seq<char>) -> ActionCategory {
    if is_debug_id(id) {
        ActionCategory::DebugAction
    } else if is_placeholder_id(id) {
        ActionCategory::PlaceholderAction
    } else {
        ActionCategory::Unknown
    }
}

/// Classify an identifier against the static action table.
pub fn classify(id: &str) -> (c: ActionCategory)
    ensures
        c == category_of(id@),
{
    if str_eq(id, "add_sample_tempo_event") || str_eq(id, "add_sample_time_signature_event")
        || str_eq(id, "add_doremiredo_notes") {
        ActionCategory::DebugAction
    } else if str_eq(id, "new_file") || str_eq(id, "open_file") || str_eq(id, "import_file")
        || str_eq(id, "save_file") || str_eq(id, "save_as_file") || str_eq(id, "undo")
        || str_eq(id, "redo") || str_eq(id, "cut") || str_eq(id, "copy")
        || str_eq(id, "paste") {
        ActionCategory::PlaceholderAction
    } else {
        ActionCategory::Unknown
    }
}

/// The payload broadcast to the whole application when a debug action is
/// activated: the triggering identifier itself.
pub struct DebugActionNotification {
    pub action: String,
}

/// One diagnostic trace entry. The category keeps the three kinds of line
/// distinguishable; `item` is the identifier the entry is about.
pub struct TraceEntry {
    pub category: ActionCategory,
    pub item: String,
}

/// Everything one activation event obliges the application to do: broadcast
/// each notification, in order, and record the one trace entry.
pub struct DispatchOutcome {
    pub notifications: Vec<DebugActionNotification>,
    pub trace: TraceEntry,
}

/// The actions of the notifications an identifier must trigger: exactly one,
/// equal to the identifier, for a debug identifier; none otherwise.
pub open spec fn notification_actions_for(id: Seq<char>) -> Seq<Seq<char>> {
    if is_debug_id(id) {
        seq![id]
    } else {
        Seq::empty()
    }
}

/// The actions carried by a sequence of notifications, in order.
pub open spec fn actions_of(notifications: Seq<DebugActionNotification>) -> Seq<Seq<char>> {
    notifications.map_values(|n: DebugActionNotification| n.action@)
}

/// What a correct outcome for an activation of `id` looks like.
pub open spec fn outcome_obeys(out: DispatchOutcome, id: Seq<char>) -> bool {
    &&& actions_of(out.notifications@) == notification_actions_for(id)
    &&& is_debug_id(id) ==> out.notifications@.len() == 1 && out.notifications@[0].action@ == id
    &&& !is_debug_id(id) ==> out.notifications@.len() == 0
    &&& out.trace.category == category_of(id)
    &&& out.trace.item@ == id
}

/// Handle one activation event. Stateless: the outcome is a function of the
/// identifier alone, and no dispatch disturbs a later one.
pub fn dispatch(id: &str) -> (out: DispatchOutcome)
    ensures
        outcome_obeys(out, id@),
{
    let category = classify(id);
    let mut notifications: Vec<DebugActionNotification> = Vec::new();
    if category == ActionCategory::DebugAction {
        notifications.push(DebugActionNotification { action: String::from_str(id) });
    }
    let out = DispatchOutcome {
        notifications,
        trace: TraceEntry { category, item: String::from_str(id) },
    };
    proof {
        assert(actions_of(out.notifications@) =~= notification_actions_for(id@));
    }
    out
}

/// The debug and placeholder identifier sets are disjoint, so classification
/// puts every identifier in exactly one category.
pub proof fn lemma_categories_disjoint(id: Seq<char>)
    ensures
        !(is_debug_id(id) && is_placeholder_id(id)),
{
    reveal_strlit("add_sample_tempo_event");
    reveal_strlit("add_sample_time_signature_event");
    reveal_strlit("add_doremiredo_notes");
    reveal_strlit("new_file");
    reveal_strlit("open_file");
    reveal_strlit("import_file");
    reveal_strlit("save_file");
    reveal_strlit("save_as_file");
    reveal_strlit("undo");
    reveal_strlit("redo");
    reveal_strlit("cut");
    reveal_strlit("copy");
    reveal_strlit("paste");
    assert("add_sample_tempo_event"@.len() == 22);
    assert("add_sample_time_signature_event"@.len() == 31);
    assert("add_doremiredo_notes"@.len() == 20);
    assert("new_file"@.len() == 8);
    assert("open_file"@.len() == 9);
    assert("import_file"@.len() == 11);
    assert("save_file"@.len() == 9);
    assert("save_as_file"@.len() == 12);
    assert("undo"@.len() == 4);
    assert("redo"@.len() == 4);
    assert("cut"@.len() == 3);
    assert("copy"@.len() == 4);
    assert("paste"@.len() == 5);
}

/// A debug identifier obliges exactly one notification, carrying that very
/// identifier; any other identifier obliges none.
pub proof fn lemma_debug_notifications(out: DispatchOutcome, id: Seq<char>)
    requires
        outcome_obeys(out, id),
    ensures
        is_debug_id(id) ==> out.notifications@.len() == 1 && out.notifications@[0].action@ == id,
        !is_debug_id(id) ==> out.notifications@.len() == 0,
{
}

/// A placeholder identifier obliges no notification, only the one trace
/// entry, recorded under the placeholder category.
pub proof fn lemma_placeholder_outcome(out: DispatchOutcome, id: Seq<char>)
    requires
        outcome_obeys(out, id),
        is_placeholder_id(id),
    ensures
        out.notifications@.len() == 0,
        out.trace.category == ActionCategory::PlaceholderAction,
        out.trace.item@ == id,
{
    lemma_categories_disjoint(id);
    lemma_debug_notifications(out, id);
}

/// An unrecognized identifier obliges no notification, only the one trace
/// entry, recorded under the distinguishable unknown category.
pub proof fn lemma_unknown_outcome(out: DispatchOutcome, id: Seq<char>)
    requires
        outcome_obeys(out, id),
        !is_debug_id(id),
        !is_placeholder_id(id),
    ensures
        out.notifications@.len() == 0,
        out.trace.category == ActionCategory::Unknown,
        out.trace.item@ == id,
{
    lemma_debug_notifications(out, id);
}

/// Dispatch is stateless: two outcomes of the same activation event carry the
/// same actions, so dispatching an event twice broadcasts its notification
/// twice — two independent, equal notifications, never a deduplicated one.
pub proof fn lemma_dispatch_stateless(first: DispatchOutcome, second: DispatchOutcome, id: Seq<char>)
    requires
        outcome_obeys(first, id),
        outcome_obeys(second, id),
    ensures
        actions_of(first.notifications@) == actions_of(second.notifications@),
        first.trace.category == second.trace.category,
        is_debug_id(id) ==> actions_of(first.notifications@ + second.notifications@) =~= seq![id, id],
        !is_debug_id(id) ==> (first.notifications@ + second.notifications@).len() == 0,
{
    lemma_debug_notifications(first, id);
    lemma_debug_notifications(second, id);
    assert(actions_of(first.notifications@ + second.notifications@) =~= actions_of(
        first.notifications@,
    ) + actions_of(second.notifications@));
}

} // verus!

use menu_dispatch::dispatch::{classify, dispatch, ActionCategory, DebugActionNotification};
use menu_dispatch::text::str_eq;

const DEBUG_IDS: [&str; 3] = [
    "add_sample_tempo_event",
    "add_sample_time_signature_event",
    "add_doremiredo_notes",
];

const PLACEHOLDER_IDS: [&str; 10] = [
    "new_file",
    "open_file",
    "import_file",
    "save_file",
    "save_as_file",
    "undo",
    "redo",
    "cut",
    "copy",
    "paste",
];

#[test]
fn classify_debug_identifiers() {
    for id in DEBUG_IDS {
        assert_eq!(classify(id), ActionCategory::DebugAction);
    }
}

#[test]
fn classify_placeholder_identifiers() {
    for id in PLACEHOLDER_IDS {
        assert_eq!(classify(id), ActionCategory::PlaceholderAction);
    }
}

#[test]
fn classify_unknown_identifiers() {
    assert_eq!(classify("frobnicate"), ActionCategory::Unknown);
    assert_eq!(classify(""), ActionCategory::Unknown);
    assert_eq!(classify("save_file "), ActionCategory::Unknown);
    assert_eq!(classify("Undo"), ActionCategory::Unknown);
}

#[test]
fn debug_dispatch_broadcasts_exactly_one_notification() {
    for id in DEBUG_IDS {
        let out = dispatch(id);
        assert_eq!(out.notifications.len(), 1);
        assert_eq!(out.notifications[0].action, id);
        assert_eq!(out.trace.category, ActionCategory::DebugAction);
        assert_eq!(out.trace.item, id);
    }
}

#[test]
fn placeholder_dispatch_broadcasts_nothing() {
    for id in PLACEHOLDER_IDS {
        let out = dispatch(id);
        assert_eq!(out.notifications.len(), 0);
        assert_eq!(out.trace.category, ActionCategory::PlaceholderAction);
        assert_eq!(out.trace.item, id);
    }
}

#[test]
fn unknown_dispatch_broadcasts_nothing_and_does_not_panic() {
    let out = dispatch("frobnicate");
    assert_eq!(out.notifications.len(), 0);
    assert_eq!(out.trace.category, ActionCategory::Unknown);
    assert_eq!(out.trace.item, "frobnicate");
}

#[test]
fn dispatch_twice_yields_two_independent_notifications() {
    let mut bus: Vec<DebugActionNotification> = Vec::new();
    let first = dispatch("add_sample_tempo_event");
    bus.extend(first.notifications);
    let second = dispatch("add_sample_tempo_event");
    bus.extend(second.notifications);
    assert_eq!(bus.len(), 2);
    assert_eq!(bus[0].action, "add_sample_tempo_event");
    assert_eq!(bus[1].action, "add_sample_tempo_event");
}

#[test]
fn activate_add_doremiredo_notes_scenario() {
    let mut observed: Vec<String> = Vec::new();
    let out = dispatch("add_doremiredo_notes");
    for n in &out.notifications {
        observed.push(n.action.clone());
    }
    assert_eq!(observed, vec!["add_doremiredo_notes"]);
}

#[test]
fn activate_save_file_scenario() {
    let mut observed: Vec<String> = Vec::new();
    let mut log: Vec<String> = Vec::new();
    let out = dispatch("save_file");
    for n in &out.notifications {
        observed.push(n.action.clone());
    }
    match out.trace.category {
        ActionCategory::PlaceholderAction => log.push(format!("menu item clicked: {}", out.trace.item)),
        _ => panic!("save_file must classify as a placeholder action"),
    }
    assert_eq!(observed.len(), 0);
    assert_eq!(log.len(), 1);
}

#[test]
fn str_eq_agrees_with_equality() {
    assert!(str_eq("", ""));
    assert!(str_eq("undo", "undo"));
    assert!(!str_eq("undo", "redo"));
    assert!(!str_eq("undo", "und"));
    assert!(!str_eq("und", "undo"));
    assert!(str_eq("año", "año"));
    assert!(!str_eq("año", "ano"));
}

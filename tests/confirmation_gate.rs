use fileman::gate::{delete_prompt_message, ConfirmationGate, GateAction};

fn paths(xs: &[&str]) -> Vec<String> {
    xs.iter().map(|x| x.to_string()).collect()
}

#[test]
fn confirmed_selection_is_taken_once() {
    let mut gate = ConfirmationGate::new();
    assert!(gate.press_delete());
    let action = gate.on_selection_response(paths(&["/tmp/a", "/tmp/b"]));
    assert_eq!(
        action,
        GateAction::AskConfirmation {
            paths: paths(&["/tmp/a", "/tmp/b"]),
            message: "Are you sure you want to delete 2 selected item(s)?".to_string(),
        }
    );
    assert_eq!(gate.take_confirmed(), None);
    gate.confirm();
    assert_eq!(gate.take_confirmed(), Some(paths(&["/tmp/a", "/tmp/b"])));
    assert_eq!(gate.take_confirmed(), None);
}

#[test]
fn held_delete_trigger_sends_one_request() {
    let mut gate = ConfirmationGate::new();
    assert!(gate.press_delete());
    assert!(!gate.press_delete());
    assert!(!gate.press_delete());
    let action = gate.on_selection_response(paths(&["/tmp/a"]));
    assert!(matches!(action, GateAction::AskConfirmation { .. }));
    assert!(!gate.press_delete());
    gate.cancel();
    assert!(gate.press_delete());
}

#[test]
fn unsolicited_response_never_deletes() {
    let mut gate = ConfirmationGate::new();
    assert_eq!(gate.on_selection_response(paths(&["/tmp/a"])), GateAction::Ignore);
    gate.confirm();
    assert_eq!(gate.take_confirmed(), None);
}

#[test]
fn empty_selection_returns_to_idle() {
    let mut gate = ConfirmationGate::new();
    assert!(gate.press_delete());
    assert_eq!(gate.on_selection_response(Vec::new()), GateAction::Ignore);
    gate.confirm();
    assert_eq!(gate.take_confirmed(), None);
    assert_eq!(gate.on_selection_response(paths(&["/tmp/a"])), GateAction::Ignore);
    assert!(gate.press_delete());
}

#[test]
fn cancelled_prompt_deletes_nothing() {
    let mut gate = ConfirmationGate::new();
    assert!(gate.press_delete());
    let _ = gate.on_selection_response(paths(&["/tmp/a"]));
    gate.cancel();
    gate.confirm();
    assert_eq!(gate.take_confirmed(), None);
}

#[test]
fn properties_request_is_answered_first() {
    let mut gate = ConfirmationGate::new();
    gate.press_properties();
    assert!(gate.press_delete());
    assert_eq!(
        gate.on_selection_response(paths(&["/tmp/p"])),
        GateAction::ShowProperties(paths(&["/tmp/p"]))
    );
    let second = gate.on_selection_response(paths(&["/tmp/d"]));
    assert!(matches!(second, GateAction::AskConfirmation { .. }));
    gate.confirm();
    assert_eq!(gate.take_confirmed(), Some(paths(&["/tmp/d"])));
}

#[test]
fn prompt_names_a_single_entry() {
    assert_eq!(
        delete_prompt_message(&paths(&["/home/user/notes.txt"])),
        "Are you sure you want to delete \"notes.txt\"?"
    );
    assert_eq!(delete_prompt_message(&paths(&["/"])), "Are you sure you want to delete \"<unnamed>\"?");
    assert_eq!(
        delete_prompt_message(&paths(&["/a", "/b", "/c", "/d", "/e", "/f", "/g", "/h", "/i", "/j", "/k", "/l"])),
        "Are you sure you want to delete 12 selected item(s)?"
    );
}

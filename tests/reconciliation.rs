use fileman::navigation::NavigationState;
use fileman::sync::{ancestor_chain, recover, recovery_target, LocationSync, ViewSync};

fn s(x: &str) -> String {
    x.to_string()
}

#[test]
fn vanished_directory_recovers_to_nearest_existing_ancestor() {
    let mut nav = NavigationState::new(s("/home/user"));
    nav.navigate_to(s("/home/user/docs"));
    nav.navigate_to(s("/home/user/docs/a"));
    let chain = ancestor_chain(&s("/home/user/docs/a"));
    assert_eq!(chain, vec![s("/home/user/docs/a"), s("/home/user/docs"), s("/home/user"), s("/home"), s("/")]);
    let exists = vec![false, false, true, true, true];
    assert_eq!(recover(&mut nav, &chain, &exists), Some(s("/home/user")));
    assert_eq!(nav.get_current_path(), s("/home/user"));
    assert!(!nav.can_go_forward());
}

#[test]
fn existing_directory_needs_no_recovery() {
    let chain = ancestor_chain(&s("/srv/data"));
    assert_eq!(chain, vec![s("/srv/data"), s("/srv"), s("/")]);
    assert_eq!(recovery_target(&chain, &vec![true, true, true]), None);
    assert_eq!(recovery_target(&chain, &vec![false, false, false]), None);
    assert_eq!(recovery_target(&chain, &vec![false, false, true]), Some(s("/")));
}

#[test]
fn relative_chain_ends_without_root() {
    assert_eq!(ancestor_chain(&s("a/b")), vec![s("a/b"), s("a"), s("")]);
}

#[test]
fn canonical_path_is_written_down_then_component_moves_are_written_up() {
    let mut nav = NavigationState::new(s("/home"));
    let mut sync = ViewSync::new(s("/home"));
    nav.navigate_to(s("/tmp"));
    let canonical = nav.get_current_path();
    assert_eq!(sync.write_down(&canonical, &s("/home")), Some(s("/tmp")));
    assert!(!sync.write_up(&mut nav, &s("/tmp")));
    assert_eq!(nav.get_current_path(), s("/tmp"));
    let canonical = nav.get_current_path();
    assert_eq!(sync.write_down(&canonical, &s("/tmp")), None);
    assert!(sync.write_up(&mut nav, &s("/tmp/inner")));
    assert_eq!(nav.get_current_path(), s("/tmp/inner"));
    assert_eq!(nav.go_back(), Some(s("/tmp")));
}

#[test]
fn location_bar_follows_canonical_changes_only() {
    let mut loc = LocationSync::new(s("/home"));
    assert_eq!(loc.sync(&s("/home")), None);
    let view = loc.sync(&s("/home/user")).unwrap();
    assert_eq!(view.text, s("/home/user"));
    let ids: Vec<String> = view.crumbs.iter().map(|c| c.id.clone()).collect();
    assert_eq!(ids, vec![s("/"), s("/home"), s("/home/user")]);
    assert_eq!(loc.sync(&s("/home/user")), None);
}

use nav_history::History;

#[derive(Clone, Debug, PartialEq)]
enum Nav {
    Home,
    Search,
    Album1,
    Playlist1,
}

#[test]
fn fresh_history_cannot_move() {
    let mut h: History<Nav> = History::new();
    assert!(!h.can_navigate_back());
    assert!(!h.can_navigate_forward());
    assert_eq!(h.navigate_back(), None);
    assert_eq!(h.navigate_forward(), None);
    assert!(h.entries().is_empty());
    assert_eq!(h.cursor(), 0);
}

#[test]
fn self_navigation_is_ignored() {
    let mut h = History::new();
    assert_eq!(h.navigate(&Nav::Home, &Nav::Home), None);
    assert!(h.entries().is_empty());
    assert_eq!(h.cursor(), 0);
    h.navigate(&Nav::Home, &Nav::Search);
    assert_eq!(h.navigate(&Nav::Search, &Nav::Search), None);
    assert_eq!(h.entries().len(), 2);
    assert_eq!(h.cursor(), 1);
}

#[test]
fn navigate_then_back_reports_departed_location() {
    let mut h = History::new();
    assert_eq!(h.navigate(&Nav::Home, &Nav::Search), Some(Nav::Search));
    assert!(h.can_navigate_back());
    assert_eq!(h.navigate_back(), Some(Nav::Home));
    assert_eq!(h.navigate(&Nav::Home, &Nav::Album1), Some(Nav::Album1));
    assert!(h.can_navigate_back());
    assert_eq!(h.navigate_back(), Some(Nav::Home));
}

#[test]
fn branching_drops_forward_entries() {
    let mut h = History::new();
    h.navigate(&Nav::Home, &Nav::Search);
    assert_eq!(h.navigate_back(), Some(Nav::Home));
    assert!(h.can_navigate_forward());
    h.navigate(&Nav::Home, &Nav::Album1);
    assert_eq!(h.entries(), &[Nav::Home, Nav::Home, Nav::Album1][..]);
    assert!(!h.entries().contains(&Nav::Search));
    assert!(!h.can_navigate_forward());
    assert_eq!(h.navigate_forward(), None);
    assert_eq!(h.cursor(), 2);
}

#[test]
fn back_then_forward_restores_state() {
    let mut h = History::new();
    h.navigate(&Nav::Home, &Nav::Search);
    h.navigate(&Nav::Search, &Nav::Album1);
    let before = h.cursor();
    assert_eq!(h.navigate_back(), Some(Nav::Search));
    assert_eq!(h.navigate_forward(), Some(Nav::Album1));
    assert_eq!(h.cursor(), before);
    assert_eq!(h.entries()[h.cursor()], Nav::Album1);
}

#[test]
fn forward_at_start_moves_without_back() {
    let mut h = History::new();
    h.navigate(&Nav::Home, &Nav::Search);
    assert_eq!(h.navigate_back(), Some(Nav::Home));
    assert_eq!(h.navigate_back(), None);
    assert_eq!(h.cursor(), 0);
    assert_eq!(h.navigate_forward(), Some(Nav::Search));
    assert_eq!(h.cursor(), 1);
}

#[test]
fn browsing_scenario() {
    let mut h = History::new();
    assert_eq!(h.navigate(&Nav::Home, &Nav::Search), Some(Nav::Search));
    assert_eq!(h.entries(), &[Nav::Home, Nav::Search][..]);
    assert_eq!(h.cursor(), 1);
    assert!(h.can_navigate_back());
    assert!(!h.can_navigate_forward());

    assert_eq!(h.navigate(&Nav::Search, &Nav::Album1), Some(Nav::Album1));
    assert_eq!(
        h.entries(),
        &[Nav::Home, Nav::Search, Nav::Search, Nav::Album1][..]
    );
    assert_eq!(h.cursor(), 3);

    assert_eq!(h.navigate_back(), Some(Nav::Search));
    assert_eq!(h.cursor(), 2);
    assert_eq!(h.navigate_back(), Some(Nav::Search));
    assert_eq!(h.cursor(), 1);

    assert_eq!(h.navigate(&Nav::Search, &Nav::Playlist1), Some(Nav::Playlist1));
    assert_eq!(
        h.entries(),
        &[Nav::Home, Nav::Search, Nav::Search, Nav::Playlist1][..]
    );
    assert_eq!(h.cursor(), 3);
    assert_eq!(h.navigate_forward(), None);
    assert!(!h.entries().contains(&Nav::Album1));
}

#[test]
fn clone_keeps_timeline() {
    let mut h = History::new();
    h.navigate(&1u32, &2u32);
    let c = h.clone();
    assert_eq!(c.entries(), h.entries());
    assert_eq!(c.cursor(), h.cursor());
}

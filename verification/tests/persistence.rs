use route_persist::route::{MainRoute, Menu1Route};
use route_persist::sync::{
    classify, record_main_route, record_menu1_route, restore, save, PathClass, StoredState,
};

fn submenu2_state() -> StoredState {
    StoredState {
        route: Some(MainRoute::Menu1Submenu),
        submenu: Some(Menu1Route::Submenu2),
    }
}

#[test]
fn save_submenu2_prefix_sets_slots() {
    for path in ["/menu1/submenu2", "/menu1/submenu2/", "/menu1/submenu2/deep/page"] {
        let mut s = StoredState::empty();
        save(path, &mut s);
        assert_eq!(s.route, Some(MainRoute::Menu1Submenu));
        assert_eq!(s.submenu, Some(Menu1Route::Submenu2));
    }
}

#[test]
fn save_submenu3_prefix_sets_slots() {
    for path in ["/menu1/submenu3", "/menu1/submenu3/x", "/menu1/submenu34"] {
        let mut s = submenu2_state();
        save(path, &mut s);
        assert_eq!(s.route, Some(MainRoute::Menu1Submenu));
        assert_eq!(s.submenu, Some(Menu1Route::Submenu3));
    }
}

#[test]
fn save_menu1_sets_index() {
    let mut s = submenu2_state();
    save("/menu1", &mut s);
    assert_eq!(s.route, Some(MainRoute::Menu1));
    assert_eq!(s.submenu, Some(Menu1Route::Index));
}

#[test]
fn save_root_sets_home_and_deletes_submenu() {
    let mut s = submenu2_state();
    save("/", &mut s);
    assert_eq!(s.route, Some(MainRoute::Home));
    assert_eq!(s.submenu, None);
}

#[test]
fn save_twice_same_as_once() {
    for path in ["/menu1/submenu2", "/menu1/submenu3/a", "/menu1", "/", "/unknown"] {
        let mut once = submenu2_state();
        save(path, &mut once);
        let mut twice = submenu2_state();
        save(path, &mut twice);
        save(path, &mut twice);
        assert_eq!(once, twice);
    }
}

#[test]
fn restore_round_trip_submenu3() {
    let mut s = StoredState::empty();
    save("/menu1/submenu3", &mut s);
    let before = s;
    let redirect = restore("/", &mut s);
    assert_eq!(redirect, Some(Menu1Route::Submenu3));
    assert_eq!(redirect.unwrap().path(), "/menu1/submenu3");
    assert_eq!(s, before);
}

#[test]
fn restore_round_trip_submenu2() {
    let mut s = StoredState::empty();
    save("/menu1/submenu2/nested", &mut s);
    let redirect = restore("/", &mut s);
    assert_eq!(redirect, Some(Menu1Route::Submenu2));
    assert_eq!(redirect.unwrap().path(), "/menu1/submenu2");
}

#[test]
fn restore_fallback_to_menu1() {
    let mut s = StoredState::empty();
    save("/menu1", &mut s);
    // The submenu slot is lost while the coarse route survives.
    s.submenu = None;
    let redirect = restore("/", &mut s);
    assert_eq!(redirect, Some(Menu1Route::Index));
    assert_eq!(redirect.unwrap().path(), "/menu1");
}

#[test]
fn restore_fallback_from_coarse_submenu_marker() {
    let mut s = StoredState {
        route: Some(MainRoute::Menu1Submenu),
        submenu: None,
    };
    let redirect = restore("/", &mut s);
    assert_eq!(redirect, Some(Menu1Route::Index));
}

#[test]
fn restore_at_root_with_empty_slots_redirects_nowhere() {
    let mut s = StoredState::empty();
    let redirect = restore("/", &mut s);
    assert_eq!(redirect, None);
    assert_eq!(s, StoredState::empty());
}

#[test]
fn restore_at_root_with_home_stored_redirects_nowhere() {
    let mut s = StoredState {
        route: Some(MainRoute::Home),
        submenu: None,
    };
    let redirect = restore("/", &mut s);
    assert_eq!(redirect, None);
}

#[test]
fn restore_at_root_with_not_found_submenu_falls_back_to_route() {
    // A stored not-found marker names no page, so the coarse slot is
    // read next and decides the redirect.
    let mut s = StoredState {
        route: Some(MainRoute::Menu1Submenu),
        submenu: Some(Menu1Route::NotFound),
    };
    let redirect = restore("/", &mut s);
    assert_eq!(redirect, Some(Menu1Route::Index));

    let mut home = StoredState {
        route: Some(MainRoute::Home),
        submenu: Some(Menu1Route::NotFound),
    };
    assert_eq!(restore("/", &mut home), None);

    let mut bare = StoredState {
        route: None,
        submenu: Some(Menu1Route::NotFound),
    };
    assert_eq!(restore("/", &mut bare), None);
}

#[test]
fn restore_away_from_root_resyncs_slots() {
    let mut s = StoredState::empty();
    let redirect = restore("/menu1/submenu2", &mut s);
    assert_eq!(redirect, None);
    assert_eq!(s.route, Some(MainRoute::Menu1Submenu));
    assert_eq!(s.submenu, Some(Menu1Route::Submenu2));
}

#[test]
fn save_unmatched_path_leaves_slots_unchanged() {
    for path in ["/unknown", "/404", "/menu1/404", "/menu1/", "/menu1x", "", "menu1"] {
        let mut s = submenu2_state();
        save(path, &mut s);
        assert_eq!(s, submenu2_state());
    }
}

#[test]
fn classify_exact_buckets() {
    assert_eq!(classify("/menu1/submenu2"), PathClass::Submenu2Prefix);
    assert_eq!(classify("/menu1/submenu23"), PathClass::Submenu2Prefix);
    assert_eq!(classify("/menu1/submenu3/page"), PathClass::Submenu3Prefix);
    assert_eq!(classify("/menu1"), PathClass::Menu1Exact);
    assert_eq!(classify("/"), PathClass::RootExact);
    assert_eq!(classify("/menu1/"), PathClass::Unmatched);
    assert_eq!(classify("/menu1/submenu"), PathClass::Unmatched);
    assert_eq!(classify("/home"), PathClass::Unmatched);
}

#[test]
fn main_route_tags_round_trip() {
    for r in [
        MainRoute::Home,
        MainRoute::Menu1,
        MainRoute::Menu1Submenu,
        MainRoute::NotFound,
    ] {
        assert_eq!(MainRoute::from_tag(r.tag()), Some(r));
    }
}

#[test]
fn menu1_route_tags_round_trip() {
    for r in [
        Menu1Route::Index,
        Menu1Route::Submenu2,
        Menu1Route::Submenu3,
        Menu1Route::NotFound,
    ] {
        assert_eq!(Menu1Route::from_tag(r.tag()), Some(r));
    }
}

#[test]
fn main_route_tag_values() {
    assert_eq!(MainRoute::Home.tag(), "Home");
    assert_eq!(MainRoute::Menu1.tag(), "Menu1");
    assert_eq!(MainRoute::Menu1Submenu.tag(), "Menu1Submenu");
    assert_eq!(MainRoute::NotFound.tag(), "NotFound");
}

#[test]
fn menu1_route_tag_values() {
    assert_eq!(Menu1Route::Index.tag(), "Index");
    assert_eq!(Menu1Route::Submenu2.tag(), "Submenu2");
    assert_eq!(Menu1Route::Submenu3.tag(), "Submenu3");
    assert_eq!(Menu1Route::NotFound.tag(), "NotFound");
}

#[test]
fn corrupt_tags_decode_to_nothing() {
    assert_eq!(MainRoute::from_tag(""), None);
    assert_eq!(MainRoute::from_tag("home"), None);
    assert_eq!(MainRoute::from_tag("Menu2"), None);
    assert_eq!(Menu1Route::from_tag(""), None);
    assert_eq!(Menu1Route::from_tag("Submenu4"), None);
    assert_eq!(Menu1Route::from_tag("index"), None);
}

#[test]
fn menu1_route_paths() {
    assert_eq!(Menu1Route::Index.path(), "/menu1");
    assert_eq!(Menu1Route::Submenu2.path(), "/menu1/submenu2");
    assert_eq!(Menu1Route::Submenu3.path(), "/menu1/submenu3");
    assert_eq!(Menu1Route::NotFound.path(), "/menu1/404");
}

#[test]
fn record_main_route_home_clears_submenu() {
    let mut s = submenu2_state();
    record_main_route(MainRoute::Home, &mut s);
    assert_eq!(s.route, Some(MainRoute::Home));
    assert_eq!(s.submenu, None);
}

#[test]
fn record_main_route_keeps_submenu_elsewhere() {
    let mut s = submenu2_state();
    record_main_route(MainRoute::Menu1, &mut s);
    assert_eq!(s.route, Some(MainRoute::Menu1));
    assert_eq!(s.submenu, Some(Menu1Route::Submenu2));
}

#[test]
fn record_menu1_route_sets_both_slots() {
    let mut s = StoredState::empty();
    record_menu1_route(Menu1Route::Index, &mut s);
    assert_eq!(s.route, Some(MainRoute::Menu1));
    assert_eq!(s.submenu, Some(Menu1Route::Index));

    record_menu1_route(Menu1Route::Submenu3, &mut s);
    assert_eq!(s.route, Some(MainRoute::Menu1Submenu));
    assert_eq!(s.submenu, Some(Menu1Route::Submenu3));

    record_menu1_route(Menu1Route::NotFound, &mut s);
    assert_eq!(s.route, Some(MainRoute::Menu1Submenu));
    assert_eq!(s.submenu, Some(Menu1Route::NotFound));
}

#[test]
fn empty_state_has_no_slots() {
    let s = StoredState::empty();
    assert_eq!(s.route, None);
    assert_eq!(s.submenu, None);
}

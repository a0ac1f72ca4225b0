//! The route synchronizer: classifying a URL path and keeping the two
//! stored slots in step with it.
//!
//! `save` maps the current URL path to the pair of slots; `restore`,
//! run once at startup, either re-runs that mapping (away from the root)
//! or turns the stored slots back into a redirect target (at the root).
//! `record_main_route` and `record_menu1_route` are the writes that the
//! view layer performs each time it renders a route.

use vstd::prelude::*;
use crate::route::{MainRoute, Menu1Route};

verus! {

/// The two per-tab storage slots, as the synchronizer sees them.
///
/// Both slots are absent until the first navigation; a slot that fails to
/// read (missing, corrupt, storage unavailable) counts as absent too.
#[derive(Clone, Copy, PartialEq, Eq, Debug)]
pub struct StoredState {
    /// The `currentRoute` slot.
    pub route: Option<MainRoute>,
    /// The `currentSubmenu` slot.
    pub submenu: Option<Menu1Route>,
}

impl StoredState {
    /// The state of a fresh tab: nothing stored yet.
    pub fn empty() -> (s: StoredState)
        ensures
            s.route == Option::<MainRoute>::None,
            s.submenu == Option::<Menu1Route>::None,
    {
        StoredState { route: None, submenu: None }
    }

    /// The slots agree with each other: a fine-grained submenu entry is
    /// only ever recorded under the matching coarse route, and the home
    /// page leaves no submenu behind.
    pub open spec fn wf(self) -> bool {
        &&& (match self.submenu {
            Some(sm) => if sm == Menu1Route::Index {
                self.route == Some(MainRoute::Menu1)
            } else {
                self.route == Some(MainRoute::Menu1Submenu)
            },
            None => true,
        })
        &&& (self.route == Some(MainRoute::Home) ==> self.submenu is None)
    }
}

/// The bucket a URL path falls into, checked in this priority order.
#[derive(Clone, Copy, PartialEq, Eq, Structural, Debug)]
pub enum PathClass {
    /// The path starts with `/menu1/submenu2`.
    Submenu2Prefix,
    /// The path starts with `/menu1/submenu3` (and not `/menu1/submenu2`).
    Submenu3Prefix,
    /// The path is exactly `/menu1`.
    Menu1Exact,
    /// The path is exactly `/`.
    RootExact,
    /// Any other path; it leaves the stored slots alone.
    Unmatched,
}

/// The bucket the path `p` falls into.
pub open spec fn classify_spec(p: Seq<char>) -> PathClass {
    if "/menu1/submenu2"@.is_prefix_of(p) {
        PathClass::Submenu2Prefix
    } else if "/menu1/submenu3"@.is_prefix_of(p) {
        PathClass::Submenu3Prefix
    } else if p == "/menu1"@ {
        PathClass::Menu1Exact
    } else if p == "/"@ {
        PathClass::RootExact
    } else {
        PathClass::Unmatched
    }
}

/// Classify the current URL path.
pub fn classify(path: &str) -> (c: PathClass)
    ensures
        c == classify_spec(path@),
{
    if crate::strutil::str_starts_with(path, "/menu1/submenu2") {
        PathClass::Submenu2Prefix
    } else if crate::strutil::str_starts_with(path, "/menu1/submenu3") {
        PathClass::Submenu3Prefix
    } else if crate::strutil::str_eq(path, "/menu1") {
        PathClass::Menu1Exact
    } else if crate::strutil::str_eq(path, "/") {
        PathClass::RootExact
    } else {
        PathClass::Unmatched
    }
}

/// What the slots hold after `save` runs on the path `p` over the
/// previous state `s`.
pub open spec fn save_spec(p: Seq<char>, s: StoredState) -> StoredState {
    match classify_spec(p) {
        PathClass::Submenu2Prefix => StoredState {
            route: Some(MainRoute::Menu1Submenu),
            submenu: Some(Menu1Route::Submenu2),
        },
        PathClass::Submenu3Prefix => StoredState {
            route: Some(MainRoute::Menu1Submenu),
            submenu: Some(Menu1Route::Submenu3),
        },
        PathClass::Menu1Exact => StoredState {
            route: Some(MainRoute::Menu1),
            submenu: Some(Menu1Route::Index),
        },
        PathClass::RootExact => StoredState { route: Some(MainRoute::Home), submenu: None },
        PathClass::Unmatched => s,
    }
}

/// Write both slots according to the current URL path.
///
/// An unmatched path (including any not-found page) is silently ignored
/// and leaves both slots as they were.
pub fn save(path: &str, state: &mut StoredState)
    ensures
        *final(state) == save_spec(path@, *old(state)),
{
    match classify(path) {
        PathClass::Submenu2Prefix => {
            *state = StoredState {
                route: Some(MainRoute::Menu1Submenu),
                submenu: Some(Menu1Route::Submenu2),
            };
        },
        PathClass::Submenu3Prefix => {
            *state = StoredState {
                route: Some(MainRoute::Menu1Submenu),
                submenu: Some(Menu1Route::Submenu3),
            };
        },
        PathClass::Menu1Exact => {
            *state = StoredState {
                route: Some(MainRoute::Menu1),
                submenu: Some(Menu1Route::Index),
            };
        },
        PathClass::RootExact => {
            *state = StoredState { route: Some(MainRoute::Home), submenu: None };
        },
        PathClass::Unmatched => {},
    }
}

/// What the slots hold after `restore` runs at the path `p`: away from
/// the root it re-runs `save`, at the root it only reads.
pub open spec fn restore_state_spec(p: Seq<char>, s: StoredState) -> StoredState {
    if p == "/"@ {
        s
    } else {
        save_spec(p, s)
    }
}

/// The page `restore` redirects to, if any.  Only a start at the root
/// consults the slots; a submenu slot naming a real page wins over the
/// coarse route slot, and otherwise a coarse route under `/menu1` falls
/// back to the submenu index page.
pub open spec fn restore_redirect_spec(p: Seq<char>, s: StoredState) -> Option<Menu1Route> {
    if p == "/"@ {
        match s.submenu {
            Some(Menu1Route::Submenu2) => Some(Menu1Route::Submenu2),
            Some(Menu1Route::Submenu3) => Some(Menu1Route::Submenu3),
            Some(Menu1Route::Index) => Some(Menu1Route::Index),
            _ => match s.route {
                Some(MainRoute::Menu1) => Some(Menu1Route::Index),
                Some(MainRoute::Menu1Submenu) => Some(Menu1Route::Index),
                _ => None,
            },
        }
    } else {
        None
    }
}

/// Run once at startup: bring the slots in step with the current path,
/// and say which page, if any, the browser should be sent to.
///
/// The caller redirects to `r.path()` when `Some(r)` comes back.
pub fn restore(path: &str, state: &mut StoredState) -> (redirect: Option<Menu1Route>)
    ensures
        *final(state) == restore_state_spec(path@, *old(state)),
        redirect == restore_redirect_spec(path@, *old(state)),
{
    if crate::strutil::str_eq(path, "/") {
        match state.submenu {
            Some(Menu1Route::Submenu2) => Some(Menu1Route::Submenu2),
            Some(Menu1Route::Submenu3) => Some(Menu1Route::Submenu3),
            Some(Menu1Route::Index) => Some(Menu1Route::Index),
            _ => match state.route {
                Some(MainRoute::Menu1) => Some(Menu1Route::Index),
                Some(MainRoute::Menu1Submenu) => Some(Menu1Route::Index),
                _ => None,
            },
        }
    } else {
        save(path, state);
        None
    }
}

/// What the slots hold after the view layer renders the main route `r`:
/// the coarse slot is overwritten, and reaching the home page clears the
/// submenu slot.
pub open spec fn record_main_route_spec(r: MainRoute, s: StoredState) -> StoredState {
    StoredState {
        route: Some(r),
        submenu: if r == MainRoute::Home {
            None
        } else {
            s.submenu
        },
    }
}

/// The write performed each time a main route is rendered.
pub fn record_main_route(r: MainRoute, state: &mut StoredState)
    ensures
        *final(state) == record_main_route_spec(r, *old(state)),
{
    state.route = Some(r);
    if matches!(r, MainRoute::Home) {
        state.submenu = None;
    }
}

/// What the slots hold after the view layer renders the submenu route
/// `r`: the submenu slot is overwritten, and the coarse slot is set to
/// `Menu1` for the index page and to `Menu1Submenu` for every other one.
pub open spec fn record_menu1_route_spec(r: Menu1Route) -> StoredState {
    StoredState {
        route: if r == Menu1Route::Index {
            Some(MainRoute::Menu1)
        } else {
            Some(MainRoute::Menu1Submenu)
        },
        submenu: Some(r),
    }
}

/// The write performed each time a submenu route is rendered.  It always
/// leaves the two slots consistent with each other.
pub fn record_menu1_route(r: Menu1Route, state: &mut StoredState)
    ensures
        *final(state) == record_menu1_route_spec(r),
        final(state).wf(),
{
    state.submenu = Some(r);
    if matches!(r, Menu1Route::Index) {
        state.route = Some(MainRoute::Menu1);
    } else {
        state.route = Some(MainRoute::Menu1Submenu);
    }
}

} // verus!

//! The guarantees the synchronizer gives, stated and proved once for all
//! paths and all prior slot contents.

use vstd::prelude::*;
use crate::route::{MainRoute, Menu1Route};
use crate::sync::{classify_spec, restore_redirect_spec, restore_state_spec, save_spec, PathClass,
    StoredState};

verus! {

/// Saving any path that starts with `/menu1/submenu2` records the
/// Submenu2 page, whatever the slots held before.
pub proof fn lemma_save_submenu2_prefix(p: Seq<char>, s: StoredState)
    requires
        "/menu1/submenu2"@.is_prefix_of(p),
    ensures
        save_spec(p, s).submenu == Some(Menu1Route::Submenu2),
        save_spec(p, s).route == Some(MainRoute::Menu1Submenu),
{
}

/// Saving any path that starts with `/menu1/submenu3` records the
/// Submenu3 page, whatever the slots held before.
pub proof fn lemma_save_submenu3_prefix(p: Seq<char>, s: StoredState)
    requires
        "/menu1/submenu3"@.is_prefix_of(p),
    ensures
        save_spec(p, s).submenu == Some(Menu1Route::Submenu3),
        save_spec(p, s).route == Some(MainRoute::Menu1Submenu),
{
    reveal_strlit("/menu1/submenu2");
    reveal_strlit("/menu1/submenu3");
    if "/menu1/submenu2"@.is_prefix_of(p) {
        assert(p[14] == "/menu1/submenu2"@[14]);
        assert(p[14] == "/menu1/submenu3"@[14]);
        assert(false);
    }
}

/// Saving exactly `/menu1` records the submenu index under the `Menu1`
/// route, whatever the slots held before.
pub proof fn lemma_save_menu1(s: StoredState)
    ensures
        save_spec("/menu1"@, s) == (StoredState {
            route: Some(MainRoute::Menu1),
            submenu: Some(Menu1Route::Index),
        }),
{
    reveal_strlit("/menu1");
    reveal_strlit("/menu1/submenu2");
    reveal_strlit("/menu1/submenu3");
    assert("/menu1"@.len() == 6);
    assert("/menu1/submenu2"@.len() == 15);
    assert("/menu1/submenu3"@.len() == 15);
}

/// Saving exactly `/` records the home route and deletes the submenu
/// slot, whatever the slots held before.
pub proof fn lemma_save_root(s: StoredState)
    ensures
        save_spec("/"@, s) == (StoredState { route: Some(MainRoute::Home), submenu: None }),
{
    reveal_strlit("/");
    reveal_strlit("/menu1");
    reveal_strlit("/menu1/submenu2");
    reveal_strlit("/menu1/submenu3");
    assert("/"@.len() == 1);
    assert("/menu1"@.len() == 6);
    assert("/menu1/submenu2"@.len() == 15);
    assert("/menu1/submenu3"@.len() == 15);
}

/// Saving the same path twice leaves exactly what saving it once left.
pub proof fn lemma_save_idempotent(p: Seq<char>, s: StoredState)
    ensures
        save_spec(p, save_spec(p, s)) == save_spec(p, s),
{
}

/// A path that matches no bucket leaves both slots exactly as they were.
pub proof fn lemma_save_unmatched(p: Seq<char>, s: StoredState)
    requires
        classify_spec(p) == PathClass::Unmatched,
    ensures
        save_spec(p, s) == s,
{
}

/// Saving keeps the slots consistent: from agreeing slots, every path
/// leads to agreeing slots again.
pub proof fn lemma_save_preserves_wf(p: Seq<char>, s: StoredState)
    requires
        s.wf(),
    ensures
        save_spec(p, s).wf(),
{
}

/// Restoring keeps the slots consistent as well, at the root and away
/// from it.
pub proof fn lemma_restore_preserves_wf(p: Seq<char>, s: StoredState)
    requires
        s.wf(),
    ensures
        restore_state_spec(p, s).wf(),
{
    lemma_save_preserves_wf(p, s);
}

/// A redirect target is always a real page, never a not-found marker.
pub proof fn lemma_redirect_is_page(p: Seq<char>, s: StoredState)
    ensures
        restore_redirect_spec(p, s) != Some(Menu1Route::NotFound),
{
}

/// Restoration round-trip: after saving a path that names a page, a
/// restart at the root redirects to a page, and that page's own path
/// both falls into the same bucket as the saved path and re-saves to
/// exactly the state that was stored.
pub proof fn lemma_restore_round_trip(p: Seq<char>, s: StoredState)
    requires
        classify_spec(p) != PathClass::Unmatched,
        classify_spec(p) != PathClass::RootExact,
    ensures
        ({
            let saved = save_spec(p, s);
            &&& restore_redirect_spec("/"@, saved) is Some
            &&& ({
                let target = restore_redirect_spec("/"@, saved)->Some_0;
                &&& classify_spec(target.path_spec()) == classify_spec(p)
                &&& save_spec(target.path_spec(), saved) == saved
            })
        }),
{
    reveal_strlit("/");
    reveal_strlit("/menu1");
    reveal_strlit("/menu1/submenu2");
    reveal_strlit("/menu1/submenu3");
    assert("/"@.len() == 1);
    assert("/menu1"@.len() == 6);
    assert("/menu1/submenu2"@.len() == 15);
    assert("/menu1/submenu3"@.len() == 15);
    assert("/menu1/submenu2"@.is_prefix_of("/menu1/submenu2"@)) by {
        assert("/menu1/submenu2"@ =~= "/menu1/submenu2"@.subrange(0, 15));
    }
    assert("/menu1/submenu3"@.is_prefix_of("/menu1/submenu3"@)) by {
        assert("/menu1/submenu3"@ =~= "/menu1/submenu3"@.subrange(0, 15));
    }
    if "/menu1/submenu2"@.is_prefix_of("/menu1/submenu3"@) {
        assert("/menu1/submenu2"@[14] == "/menu1/submenu3"@[14]);
        assert(false);
    }
}

/// Restoration fallback: when only the coarse slot survived and says the
/// tab was somewhere under `/menu1`, a restart at the root redirects to
/// the submenu index page.
pub proof fn lemma_restore_fallback(s: StoredState)
    requires
        s.submenu is None,
        s.route == Some(MainRoute::Menu1) || s.route == Some(MainRoute::Menu1Submenu),
    ensures
        restore_redirect_spec("/"@, s) == Some(Menu1Route::Index),
{
}

/// With both slots absent, a restart at the root redirects nowhere.
pub proof fn lemma_restore_root_no_op(s: StoredState)
    requires
        s.submenu is None,
        s.route is None,
    ensures
        restore_redirect_spec("/"@, s) is None,
        restore_state_spec("/"@, s) == s,
{
}

} // verus!

//! The two route enumerations and the codec that serializes them.
//!
//! Every variant is a unit variant, so a route is stored as its variant
//! name alone.  The codec is shared by the write path and the read path,
//! and decoding is proved to invert encoding.

use vstd::prelude::*;

verus! {

/// A top-level page of the application.
///
/// `Menu1Submenu` is a catch-all marker meaning "some page under
/// `/menu1/*` that is not `/menu1` itself".
#[derive(Clone, Copy, PartialEq, Eq, Structural, Debug)]
pub enum MainRoute {
    Home,
    Menu1,
    Menu1Submenu,
    NotFound,
}

/// A page of the submenu level nested under `/menu1`.
#[derive(Clone, Copy, PartialEq, Eq, Structural, Debug)]
pub enum Menu1Route {
    Index,
    Submenu2,
    Submenu3,
    NotFound,
}

impl MainRoute {
    /// The canonical string under which this variant is stored.
    pub open spec fn tag_spec(self) -> Seq<char> {
        match self {
            MainRoute::Home => "Home"@,
            MainRoute::Menu1 => "Menu1"@,
            MainRoute::Menu1Submenu => "Menu1Submenu"@,
            MainRoute::NotFound => "NotFound"@,
        }
    }

    /// Encode this route for storage.
    pub fn tag(self) -> (r: &'static str)
        ensures
            r@ == self.tag_spec(),
    {
        match self {
            MainRoute::Home => "Home",
            MainRoute::Menu1 => "Menu1",
            MainRoute::Menu1Submenu => "Menu1Submenu",
            MainRoute::NotFound => "NotFound",
        }
    }

    /// What a stored string decodes to: the variant whose tag it is,
    /// or nothing when it is no tag at all (a corrupt slot reads as absent).
    pub open spec fn from_tag_spec(t: Seq<char>) -> Option<MainRoute> {
        if t == "Home"@ {
            Some(MainRoute::Home)
        } else if t == "Menu1"@ {
            Some(MainRoute::Menu1)
        } else if t == "Menu1Submenu"@ {
            Some(MainRoute::Menu1Submenu)
        } else if t == "NotFound"@ {
            Some(MainRoute::NotFound)
        } else {
            None
        }
    }

    /// Decode a stored string.
    pub fn from_tag(t: &str) -> (r: Option<MainRoute>)
        ensures
            r == Self::from_tag_spec(t@),
    {
        if crate::strutil::str_eq(t, "Home") {
            Some(MainRoute::Home)
        } else if crate::strutil::str_eq(t, "Menu1") {
            Some(MainRoute::Menu1)
        } else if crate::strutil::str_eq(t, "Menu1Submenu") {
            Some(MainRoute::Menu1Submenu)
        } else if crate::strutil::str_eq(t, "NotFound") {
            Some(MainRoute::NotFound)
        } else {
            None
        }
    }
}

/// Decoding a main route's tag gives that route back: the stored
/// representation loses nothing.
pub proof fn lemma_main_route_round_trip(r: MainRoute)
    ensures
        MainRoute::from_tag_spec(r.tag_spec()) == Some(r),
{
    reveal_strlit("Home");
    reveal_strlit("Menu1");
    reveal_strlit("Menu1Submenu");
    reveal_strlit("NotFound");
    assert("Home"@.len() == 4);
    assert("Menu1"@.len() == 5);
    assert("Menu1Submenu"@.len() == 12);
    assert("NotFound"@.len() == 8);
}

impl Menu1Route {
    /// The canonical string under which this variant is stored.
    pub open spec fn tag_spec(self) -> Seq<char> {
        match self {
            Menu1Route::Index => "Index"@,
            Menu1Route::Submenu2 => "Submenu2"@,
            Menu1Route::Submenu3 => "Submenu3"@,
            Menu1Route::NotFound => "NotFound"@,
        }
    }

    /// Encode this route for storage.
    pub fn tag(self) -> (r: &'static str)
        ensures
            r@ == self.tag_spec(),
    {
        match self {
            Menu1Route::Index => "Index",
            Menu1Route::Submenu2 => "Submenu2",
            Menu1Route::Submenu3 => "Submenu3",
            Menu1Route::NotFound => "NotFound",
        }
    }

    /// What a stored string decodes to: the variant whose tag it is,
    /// or nothing when it is no tag at all (a corrupt slot reads as absent).
    pub open spec fn from_tag_spec(t: Seq<char>) -> Option<Menu1Route> {
        if t == "Index"@ {
            Some(Menu1Route::Index)
        } else if t == "Submenu2"@ {
            Some(Menu1Route::Submenu2)
        } else if t == "Submenu3"@ {
            Some(Menu1Route::Submenu3)
        } else if t == "NotFound"@ {
            Some(Menu1Route::NotFound)
        } else {
            None
        }
    }

    /// Decode a stored string.
    pub fn from_tag(t: &str) -> (r: Option<Menu1Route>)
        ensures
            r == Self::from_tag_spec(t@),
    {
        if crate::strutil::str_eq(t, "Index") {
            Some(Menu1Route::Index)
        } else if crate::strutil::str_eq(t, "Submenu2") {
            Some(Menu1Route::Submenu2)
        } else if crate::strutil::str_eq(t, "Submenu3") {
            Some(Menu1Route::Submenu3)
        } else if crate::strutil::str_eq(t, "NotFound") {
            Some(Menu1Route::NotFound)
        } else {
            None
        }
    }

    /// The URL path of the page this route names; a redirect target goes
    /// through this mapping.
    pub open spec fn path_spec(self) -> Seq<char> {
        match self {
            Menu1Route::Index => "/menu1"@,
            Menu1Route::Submenu2 => "/menu1/submenu2"@,
            Menu1Route::Submenu3 => "/menu1/submenu3"@,
            Menu1Route::NotFound => "/menu1/404"@,
        }
    }

    /// The URL path of the page this route names.
    pub fn path(self) -> (r: &'static str)
        ensures
            r@ == self.path_spec(),
    {
        match self {
            Menu1Route::Index => "/menu1",
            Menu1Route::Submenu2 => "/menu1/submenu2",
            Menu1Route::Submenu3 => "/menu1/submenu3",
            Menu1Route::NotFound => "/menu1/404",
        }
    }
}

/// Decoding a submenu route's tag gives that route back: the stored
/// representation loses nothing.
pub proof fn lemma_menu1_route_round_trip(r: Menu1Route)
    ensures
        Menu1Route::from_tag_spec(r.tag_spec()) == Some(r),
{
    reveal_strlit("Index");
    reveal_strlit("Submenu2");
    reveal_strlit("Submenu3");
    reveal_strlit("NotFound");
    assert("Index"@.len() == 5);
    assert("Submenu2"@.len() == 8);
    assert("Submenu3"@.len() == 8);
    assert("NotFound"@.len() == 8);
    assert("Submenu2"@ != "NotFound"@) by {
        assert("Submenu2"@[0] != "NotFound"@[0]);
    }
    assert("Submenu3"@ != "NotFound"@) by {
        assert("Submenu3"@[0] != "NotFound"@[0]);
    }
    assert("Submenu2"@ != "Submenu3"@) by {
        assert("Submenu2"@[7] != "Submenu3"@[7]);
    }
}

} // verus!

//! Locale selection and message lookup over plain key/value catalogs.
//!
//! A catalog holds the translated messages of one locale; the first
//! catalog is the default one. Selecting an unknown locale falls back to
//! the default, and looking a key up falls back first to the default
//! catalog and then to the key itself.
use vstd::prelude::*;

verus! {

/// One locale's catalog: its name (such as a language tag) and its
/// key-to-message entries.
pub struct LocaleCatalog {
    pub name: String,
    pub entries: Vec<(String, String)>,
}

/// The value under a key: the first matching entry's message.
pub open spec fn catalog_lookup(s: Seq<(String, String)>, key: Seq<char>) -> Option<Seq<char>>
    decreases s.len(),
{
    if s.len() == 0 {
        None
    } else if s[0].0@ == key {
        Some(s[0].1@)
    } else {
        catalog_lookup(s.drop_first(), key)
    }
}

/// The loaded catalogs and the currently selected one; the catalog at
/// index zero is the default locale.
pub struct Translations {
    pub catalogs: Vec<LocaleCatalog>,
    pub current: usize,
}

impl Translations {
    /// At least the default catalog is present and the selection is in
    /// range.
    pub open spec fn wf(self) -> bool {
        self.catalogs@.len() > 0 && self.current < self.catalogs@.len()
    }

    /// Whether some catalog carries this locale name.
    pub open spec fn spec_has_locale(self, lang: Seq<char>) -> bool {
        exists|i: int| 0 <= i < self.catalogs@.len() && self.catalogs@[i].name@ == lang
    }

    /// What a lookup of `key` returns: the current catalog's message,
    /// else the default catalog's message, else the key itself.
    pub open spec fn spec_translate(self, key: Seq<char>) -> Seq<char> {
        match catalog_lookup(self.catalogs@[self.current as int].entries@, key) {
            Some(v) => v,
            None => match catalog_lookup(self.catalogs@[0].entries@, key) {
                Some(v) => v,
                None => key,
            },
        }
    }

    /// A fresh state over the given catalogs, with the default locale
    /// selected.
    pub fn new(catalogs: Vec<LocaleCatalog>) -> (r: Translations)
        requires
            catalogs@.len() > 0,
        ensures
            r.catalogs == catalogs,
            r.current == 0,
            r.wf(),
    {
        Translations { catalogs, current: 0 }
    }
}

/// Looks a key up in one catalog's entries.
fn lookup_entry(entries: &Vec<(String, String)>, key: &String) -> (r: Option<String>)
    ensures
        match r {
            Some(v) => catalog_lookup(entries@, key@) == Some(v@),
            None => catalog_lookup(entries@, key@) is None,
        },
{
    let n = entries.len();
    proof {
        assert(entries@.skip(0) =~= entries@);
    }
    for i in 0..n
        invariant
            n == entries@.len(),
            catalog_lookup(entries@, key@) == catalog_lookup(entries@.skip(i as int), key@),
    {
        proof {
            assert(entries@.skip(i as int)[0] == entries@[i as int]);
            assert(entries@.skip(i as int).drop_first() =~= entries@.skip(i as int + 1));
        }
        if entries[i].0 == *key {
            return Some(entries[i].1.clone());
        }
    }
    proof {
        assert(entries@.skip(n as int).len() == 0);
    }
    None
}

/// Selects a locale by name: an unknown name selects the default locale.
pub fn set_locale(state: &mut Translations, lang: &String)
    requires
        old(state).wf(),
    ensures
        final(state).catalogs == old(state).catalogs,
        final(state).wf(),
        old(state).spec_has_locale(lang@) ==> final(state).catalogs@[final(state).current as int].name@
            == lang@,
        !old(state).spec_has_locale(lang@) ==> final(state).current == 0,
{
    let n = state.catalogs.len();
    for i in 0..n
        invariant
            n == state.catalogs@.len(),
            *state == *old(state),
            forall|j: int| 0 <= j < i ==> state.catalogs@[j].name@ != lang@,
    {
        if state.catalogs[i].name == *lang {
            state.current = i;
            return ;
        }
    }
    state.current = 0;
}

/// Translates a key: the selected catalog's message for it, falling back
/// to the default catalog, falling back to the key itself.
pub fn t(state: &Translations, key: &String) -> (r: String)
    requires
        state.wf(),
    ensures
        r@ == state.spec_translate(key@),
{
    match lookup_entry(&state.catalogs[state.current].entries, key) {
        Some(v) => v,
        None => match lookup_entry(&state.catalogs[0].entries, key) {
            Some(v) => v,
            None => key.clone(),
        },
    }
}

} // verus!

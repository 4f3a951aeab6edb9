//! Translation tables with locale fallback: a key is looked up in the
//! current locale, then in English, and failing both comes back verbatim.

use vstd::prelude::*;
use crate::text::str_eq_string;

verus! {

/// The translations of one locale.
#[derive(Debug)]
pub struct LocaleTable {
    pub locale: String,
    pub entries: Vec<(String, String)>,
}

/// Index of the first table for the given locale, or -1.
pub open spec fn find_locale(tables: Seq<LocaleTable>, locale: Seq<char>) -> int
    decreases tables.len(),
{
    if tables.len() == 0 {
        -1
    } else if tables.first().locale@ == locale {
        0
    } else {
        let r = find_locale(tables.drop_first(), locale);
        if r < 0 {
            -1
        } else {
            r + 1
        }
    }
}

pub proof fn lemma_find_locale(tables: Seq<LocaleTable>, locale: Seq<char>)
    ensures
        find_locale(tables, locale) == -1 || find_locale(tables, locale) >= 0,
        find_locale(tables, locale) >= 0 ==> find_locale(tables, locale) < tables.len()
            && tables[find_locale(tables, locale)].locale@ == locale && forall|j: int|
            0 <= j < find_locale(tables, locale) ==> tables[j].locale@ != locale,
        find_locale(tables, locale) == -1 ==> forall|j: int|
            0 <= j < tables.len() ==> tables[j].locale@ != locale,
    decreases tables.len(),
{
    if tables.len() > 0 {
        let rest = tables.drop_first();
        lemma_find_locale(rest, locale);
        assert(forall|j: int| 0 <= j < rest.len() ==> rest[j] == tables[j + 1]);
        if tables.first().locale@ == locale {
        } else {
            let r = find_locale(rest, locale);
            let f = find_locale(tables, locale);
            if r >= 0 {
                assert(tables[f] == rest[r]);
                assert forall|j: int| 0 <= j < f implies tables[j].locale@ != locale by {
                    if j > 0 {
                        assert(tables[j] == rest[j - 1]);
                    }
                }
            } else {
                assert forall|j: int| 0 <= j < tables.len() implies tables[j].locale@ != locale by {
                    if j > 0 {
                        assert(tables[j] == rest[j - 1]);
                    }
                }
            }
        }
    }
}

/// Index of the first entry for the given key, or -1.
pub open spec fn find_key(entries: Seq<(String, String)>, key: Seq<char>) -> int
    decreases entries.len(),
{
    if entries.len() == 0 {
        -1
    } else if entries.first().0@ == key {
        0
    } else {
        let r = find_key(entries.drop_first(), key);
        if r < 0 {
            -1
        } else {
            r + 1
        }
    }
}

pub proof fn lemma_find_key(entries: Seq<(String, String)>, key: Seq<char>)
    ensures
        find_key(entries, key) == -1 || find_key(entries, key) >= 0,
        find_key(entries, key) >= 0 ==> find_key(entries, key) < entries.len()
            && entries[find_key(entries, key)].0@ == key && forall|j: int|
            0 <= j < find_key(entries, key) ==> entries[j].0@ != key,
        find_key(entries, key) == -1 ==> forall|j: int|
            0 <= j < entries.len() ==> entries[j].0@ != key,
    decreases entries.len(),
{
    if entries.len() > 0 {
        let rest = entries.drop_first();
        lemma_find_key(rest, key);
        assert(forall|j: int| 0 <= j < rest.len() ==> rest[j] == entries[j + 1]);
        if entries.first().0@ == key {
        } else {
            let r = find_key(rest, key);
            let f = find_key(entries, key);
            if r >= 0 {
                assert(entries[f] == rest[r]);
                assert forall|j: int| 0 <= j < f implies entries[j].0@ != key by {
                    if j > 0 {
                        assert(entries[j] == rest[j - 1]);
                    }
                }
            } else {
                assert forall|j: int| 0 <= j < entries.len() implies entries[j].0@ != key by {
                    if j > 0 {
                        assert(entries[j] == rest[j - 1]);
                    }
                }
            }
        }
    }
}

/// The translation store with its current locale.
#[derive(Debug)]
pub struct I18n {
    pub translations: Vec<LocaleTable>,
    pub current_locale: String,
}

/// The translation of `key` in one locale's table, or nothing.
pub open spec fn lookup_spec(tables: Seq<LocaleTable>, locale: Seq<char>, key: Seq<char>) -> Option<
    Seq<char>,
> {
    let li = find_locale(tables, locale);
    if li >= 0 {
        let ki = find_key(tables[li].entries@, key);
        if ki >= 0 {
            Some(tables[li].entries@[ki].1@)
        } else {
            None
        }
    } else {
        None
    }
}

impl I18n {
    /// What `get` returns: the current locale's translation, else the
    /// English one, else the key itself.
    pub open spec fn get_spec(self, key: Seq<char>) -> Seq<char> {
        match lookup_spec(self.translations@, self.current_locale@, key) {
            Some(v) => v,
            None => match lookup_spec(self.translations@, "en"@, key) {
                Some(v) => v,
                None => key,
            },
        }
    }

    pub fn new(default_locale: &str) -> (r: I18n)
        ensures
            r.translations@.len() == 0,
            r.current_locale@ == default_locale@,
    {
        I18n { translations: Vec::new(), current_locale: default_locale.to_owned() }
    }

    /// Stores one translation: the value replaces the locale's first entry
    /// for the key, or lands at the end of the locale's table; a missing
    /// locale table is created.
    pub fn add_translation(&mut self, locale: &str, key: &str, value: &str)
        ensures
            final(self).current_locale == old(self).current_locale,
            ({
                let tables = old(self).translations@;
                let li = find_locale(tables, locale@);
                &&& (li == -1 ==> {
                    let added = final(self).translations@.last();
                    &&& final(self).translations@.len() == tables.len() + 1
                    &&& final(self).translations@.take(tables.len() as int) == tables
                    &&& added.locale@ == locale@
                    &&& added.entries@.len() == 1
                    &&& added.entries@[0].0@ == key@
                    &&& added.entries@[0].1@ == value@
                })
                &&& (li >= 0 ==> {
                    let entries = tables[li].entries@;
                    let ki = find_key(entries, key@);
                    let updated = final(self).translations@[li];
                    &&& final(self).translations@.len() == tables.len()
                    &&& (forall|j: int|
                        0 <= j < tables.len() && j != li ==> final(self).translations@[j]
                            == tables[j])
                    &&& updated.locale@ == tables[li].locale@
                    &&& (ki >= 0 ==> updated.entries@.len() == entries.len() && (forall|j: int|
                        0 <= j < entries.len() && j != ki ==> updated.entries@[j] == entries[j])
                        && updated.entries@[ki].0@ == key@ && updated.entries@[ki].1@ == value@)
                    &&& (ki == -1 ==> updated.entries@.len() == entries.len() + 1
                        && updated.entries@.take(entries.len() as int) == entries
                        && updated.entries@.last().0@ == key@ && updated.entries@.last().1@
                        == value@)
                })
            }),
    {
        let n = self.translations.len();
        let mut i: usize = 0;
        while i < n && !str_eq_string(locale, &self.translations[i].locale)
            invariant
                *self == *old(self),
                0 <= i <= n == self.translations@.len(),
                forall|j: int| 0 <= j < i ==> self.translations@[j].locale@ != locale@,
            decreases n - i,
        {
            i = i + 1;
        }
        proof {
            lemma_find_locale(self.translations@, locale@);
        }
        if i >= n {
            let mut entries: Vec<(String, String)> = Vec::new();
            entries.push((key.to_owned(), value.to_owned()));
            let table = LocaleTable { locale: locale.to_owned(), entries };
            self.translations.push(table);
            proof {
                assert(self.translations@.take(old(self).translations@.len() as int)
                    =~= old(self).translations@);
            }
            return ;
        }
        let m = self.translations[i].entries.len();
        let mut k: usize = 0;
        while k < m && !str_eq_string(key, &self.translations[i].entries[k].0)
            invariant
                *self == *old(self),
                i < self.translations@.len(),
                0 <= k <= m == self.translations@[i as int].entries@.len(),
                forall|j: int| 0 <= j < k ==> self.translations@[i as int].entries@[j].0@ != key@,
            decreases m - k,
        {
            k = k + 1;
        }
        proof {
            lemma_find_key(self.translations@[i as int].entries@, key@);
        }
        if k >= m {
            let table = &mut self.translations[i];
            table.entries.push((key.to_owned(), value.to_owned()));
            proof {
                let entries0 = old(self).translations@[i as int].entries@;
                assert(self.translations@[i as int].entries@.take(entries0.len() as int)
                    =~= entries0);
            }
        } else {
            let table = &mut self.translations[i];
            let slot = &mut table.entries[k];
            *slot = (key.to_owned(), value.to_owned());
        }
    }

    /// Switches the current locale; an unknown locale changes nothing.
    pub fn set_locale(&mut self, locale: &str)
        ensures
            final(self).translations@ == old(self).translations@,
            find_locale(old(self).translations@, locale@) >= 0 ==> final(self).current_locale@
                == locale@,
            find_locale(old(self).translations@, locale@) == -1 ==> final(self).current_locale
                == old(self).current_locale,
    {
        let n = self.translations.len();
        let mut i: usize = 0;
        while i < n && !str_eq_string(locale, &self.translations[i].locale)
            invariant
                *self == *old(self),
                0 <= i <= n == self.translations@.len(),
                forall|j: int| 0 <= j < i ==> self.translations@[j].locale@ != locale@,
            decreases n - i,
        {
            i = i + 1;
        }
        proof {
            lemma_find_locale(self.translations@, locale@);
        }
        if i < n {
            self.current_locale = locale.to_owned();
        }
    }

    /// The translation of `key`: current locale first, then English, then
    /// the key itself.
    pub fn get(&self, key: &str) -> (r: String)
        ensures
            r@ == self.get_spec(key@),
    {
        match self.lookup(&self.current_locale, key) {
            Some(v) => v,
            None => {
                let en = "en".to_owned();
                match self.lookup(&en, key) {
                    Some(v) => v,
                    None => key.to_owned(),
                }
            },
        }
    }

    /// One locale's translation of `key`, if stored.
    fn lookup(&self, locale: &String, key: &str) -> (r: Option<String>)
        ensures
            match r {
                Some(v) => lookup_spec(self.translations@, locale@, key@) == Some(v@),
                None => lookup_spec(self.translations@, locale@, key@) is None,
            },
    {
        let n = self.translations.len();
        let mut i: usize = 0;
        while i < n && !(self.translations[i].locale == *locale)
            invariant
                0 <= i <= n == self.translations@.len(),
                forall|j: int| 0 <= j < i ==> self.translations@[j].locale@ != locale@,
            decreases n - i,
        {
            i = i + 1;
        }
        proof {
            lemma_find_locale(self.translations@, locale@);
        }
        if i >= n {
            return None;
        }
        let m = self.translations[i].entries.len();
        let mut k: usize = 0;
        while k < m && !str_eq_string(key, &self.translations[i].entries[k].0)
            invariant
                i < self.translations@.len(),
                0 <= k <= m == self.translations@[i as int].entries@.len(),
                forall|j: int| 0 <= j < k ==> self.translations@[i as int].entries@[j].0@ != key@,
            decreases m - k,
        {
            k = k + 1;
        }
        proof {
            lemma_find_key(self.translations@[i as int].entries@, key@);
        }
        if k >= m {
            None
        } else {
            Some(self.translations[i].entries[k].1.clone())
        }
    }
}

} // verus!

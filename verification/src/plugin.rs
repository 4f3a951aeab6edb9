//! A registry of named capability handlers: plain records with metadata
//! and an enabled flag, looked up by name. No runtime type identification
//! is involved; a handler's behavior is fixed by its record.

use vstd::prelude::*;
use crate::text::str_eq_string;

verus! {

/// Metadata of one registered capability handler.
#[derive(Debug)]
pub struct PluginRecord {
    pub name: String,
    pub version: String,
    pub description: String,
    pub author: String,
    pub license: String,
    pub enabled: bool,
}

/// Index of the first record with the given name, or -1.
pub open spec fn find_plugin(plugins: Seq<PluginRecord>, name: Seq<char>) -> int
    decreases plugins.len(),
{
    if plugins.len() == 0 {
        -1
    } else if plugins.first().name@ == name {
        0
    } else {
        let r = find_plugin(plugins.drop_first(), name);
        if r < 0 {
            -1
        } else {
            r + 1
        }
    }
}

pub proof fn lemma_find_plugin(plugins: Seq<PluginRecord>, name: Seq<char>)
    ensures
        find_plugin(plugins, name) == -1 || find_plugin(plugins, name) >= 0,
        find_plugin(plugins, name) >= 0 ==> find_plugin(plugins, name) < plugins.len()
            && plugins[find_plugin(plugins, name)].name@ == name && forall|j: int|
            0 <= j < find_plugin(plugins, name) ==> plugins[j].name@ != name,
        find_plugin(plugins, name) == -1 ==> forall|j: int|
            0 <= j < plugins.len() ==> plugins[j].name@ != name,
    decreases plugins.len(),
{
    if plugins.len() > 0 {
        let rest = plugins.drop_first();
        lemma_find_plugin(rest, name);
        assert(forall|j: int| 0 <= j < rest.len() ==> rest[j] == plugins[j + 1]);
        if plugins.first().name@ == name {
        } else {
            let r = find_plugin(rest, name);
            let f = find_plugin(plugins, name);
            if r >= 0 {
                assert(plugins[f] == rest[r]);
                assert forall|j: int| 0 <= j < f implies plugins[j].name@ != name by {
                    if j > 0 {
                        assert(plugins[j] == rest[j - 1]);
                    }
                }
            } else {
                assert forall|j: int| 0 <= j < plugins.len() implies plugins[j].name@ != name by {
                    if j > 0 {
                        assert(plugins[j] == rest[j - 1]);
                    }
                }
            }
        }
    }
}

/// The capability registry.
#[derive(Debug)]
pub struct PluginManager {
    plugins: Vec<PluginRecord>,
}

impl PluginManager {
    /// The registered records, in registration order.
    pub closed spec fn records(self) -> Seq<PluginRecord> {
        self.plugins@
    }

    pub fn new() -> (m: PluginManager)
        ensures
            m.records().len() == 0,
    {
        PluginManager { plugins: Vec::new() }
    }

    pub fn register_plugin(&mut self, plugin: PluginRecord)
        ensures
            final(self).records() == old(self).records().push(plugin),
    {
        self.plugins.push(plugin);
    }

    /// Sets the enabled flag of the first record with the given name;
    /// returns whether one was found.
    pub fn enable_plugin(&mut self, name: &str) -> (found: bool)
        ensures
            ({
                let f = find_plugin(old(self).records(), name@);
                &&& found == (f >= 0)
                &&& (f == -1 ==> *final(self) == *old(self))
                &&& (f >= 0 ==> final(self).records() == old(self).records().update(
                    f,
                    PluginRecord { enabled: true, ..old(self).records()[f] },
                ))
            }),
    {
        let n = self.plugins.len();
        let mut i: usize = 0;
        while i < n && !str_eq_string(name, &self.plugins[i].name)
            invariant
                *self == *old(self),
                0 <= i <= n == self.plugins@.len(),
                forall|j: int| 0 <= j < i ==> self.plugins@[j].name@ != name@,
            decreases n - i,
        {
            i = i + 1;
        }
        proof {
            lemma_find_plugin(self.plugins@, name@);
        }
        if i >= n {
            false
        } else {
            let p = &mut self.plugins[i];
            p.enabled = true;
            true
        }
    }

    /// Clears the enabled flag of the first record with the given name;
    /// returns whether one was found.
    pub fn disable_plugin(&mut self, name: &str) -> (found: bool)
        ensures
            ({
                let f = find_plugin(old(self).records(), name@);
                &&& found == (f >= 0)
                &&& (f == -1 ==> *final(self) == *old(self))
                &&& (f >= 0 ==> final(self).records() == old(self).records().update(
                    f,
                    PluginRecord { enabled: false, ..old(self).records()[f] },
                ))
            }),
    {
        let n = self.plugins.len();
        let mut i: usize = 0;
        while i < n && !str_eq_string(name, &self.plugins[i].name)
            invariant
                *self == *old(self),
                0 <= i <= n == self.plugins@.len(),
                forall|j: int| 0 <= j < i ==> self.plugins@[j].name@ != name@,
            decreases n - i,
        {
            i = i + 1;
        }
        proof {
            lemma_find_plugin(self.plugins@, name@);
        }
        if i >= n {
            false
        } else {
            let p = &mut self.plugins[i];
            p.enabled = false;
            true
        }
    }

    /// The first record with the given name, if any.
    pub fn get_plugin(&self, name: &str) -> (r: Option<&PluginRecord>)
        ensures
            ({
                let f = find_plugin(self.records(), name@);
                match r {
                    Some(p) => f >= 0 && *p == self.records()[f],
                    None => f == -1,
                }
            }),
    {
        let n = self.plugins.len();
        let mut i: usize = 0;
        while i < n && !str_eq_string(name, &self.plugins[i].name)
            invariant
                0 <= i <= n == self.plugins@.len(),
                forall|j: int| 0 <= j < i ==> self.plugins@[j].name@ != name@,
            decreases n - i,
        {
            i = i + 1;
        }
        proof {
            lemma_find_plugin(self.plugins@, name@);
        }
        if i >= n {
            None
        } else {
            Some(&self.plugins[i])
        }
    }

    /// A mutable borrow of the first record with the given name, if any.
    pub fn get_plugin_mut(&mut self, name: &str) -> (r: Option<&mut PluginRecord>)
        ensures
            ({
                let f = find_plugin(old(self).records(), name@);
                match r {
                    Some(p) => f >= 0 && *p == old(self).records()[f] && final(self).records()
                        == old(self).records().update(f, *final(p)),
                    None => f == -1 && *final(self) == *old(self),
                }
            }),
    {
        let n = self.plugins.len();
        let mut i: usize = 0;
        while i < n && !str_eq_string(name, &self.plugins[i].name)
            invariant
                *self == *old(self),
                0 <= i <= n == self.plugins@.len(),
                forall|j: int| 0 <= j < i ==> self.plugins@[j].name@ != name@,
            decreases n - i,
        {
            i = i + 1;
        }
        proof {
            lemma_find_plugin(self.plugins@, name@);
        }
        if i >= n {
            None
        } else {
            Some(&mut self.plugins[i])
        }
    }
}

} // verus!

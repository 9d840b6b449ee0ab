//! The lock record: the single source of truth for what is currently
//! installed. It holds the core's metadata and one entry per installed
//! plugin, keyed by plugin name. The record is mutated in place through a
//! reconciliation pass, one committed item at a time; serializing those
//! mutations and persisting the record durably is the caller's concern.

use vstd::prelude::*;

use crate::settings::Provider;

verus! {

/// What is currently installed as the core.
#[derive(Clone, Debug, PartialEq)]
pub struct CoreMeta {
    pub provider: Provider,
    pub version: String,
    pub build: Option<String>,
    pub path: String,
}

impl CoreMeta {
    pub fn new(provider: Provider, version: String, build: Option<String>, path: String) -> (r:
        CoreMeta)
        ensures
            r.provider == provider,
            r.version == version,
            r.build == build,
            r.path == path,
    {
        CoreMeta { provider, version, build, path }
    }

    pub fn build(&self) -> (r: Option<&String>)
        ensures
            r is Some <==> self.build is Some,
            r is Some ==> *r->0 == self.build->0,
    {
        self.build.as_ref()
    }
}

/// The persisted metadata of one installed plugin.
#[derive(Clone, Debug, PartialEq)]
pub struct ExtensionMeta {
    /// The build identifier of the installed artifact.
    pub build: String,
    /// Where the artifact lives on disk.
    pub path: String,
    /// The plugin's unique name, the key of its lock entry.
    pub name: String,
}

impl ExtensionMeta {
    pub fn new(build: String, path: String, name: String) -> (r: ExtensionMeta)
        ensures
            r.build == build,
            r.path == path,
            r.name == name,
    {
        ExtensionMeta { build, path, name }
    }

    pub fn build(&self) -> (r: &String)
        ensures
            r == self.build,
    {
        &self.build
    }

    pub fn name(&self) -> (r: &String)
        ensures
            r == self.name,
    {
        &self.name
    }
}

/// No two entries of the sequence share a name.
pub open spec fn distinct_names(s: Seq<ExtensionMeta>) -> bool {
    forall|a: int, b: int| 0 <= a < b < s.len() ==> (#[trigger] s[a]).name@ != (#[trigger] s[b]).name@
}

/// Some entry of the sequence carries the name `k`.
pub open spec fn has_name(s: Seq<ExtensionMeta>, k: Seq<char>) -> bool {
    exists|i: int| 0 <= i < s.len() && (#[trigger] s[i]).name@ == k
}

/// The plugin entries of a lock record, read as a map from plugin name to
/// entry. Later entries shadow earlier ones of the same name; a
/// well-formed record has no such duplicates.
pub open spec fn plugins_map_of(s: Seq<ExtensionMeta>) -> Map<Seq<char>, ExtensionMeta>
    decreases s.len(),
{
    if s.len() == 0 {
        Map::empty()
    } else {
        plugins_map_of(s.drop_last()).insert(s.last().name@, s.last())
    }
}

/// With distinct names, the map of a plugin sequence holds exactly the
/// entries of the sequence, each under its own name.
pub proof fn lemma_plugins_map_characterize(s: Seq<ExtensionMeta>)
    requires
        distinct_names(s),
    ensures
        forall|k: Seq<char>| #[trigger] plugins_map_of(s).contains_key(k) <==> has_name(s, k),
        forall|i: int|
            0 <= i < s.len() ==> plugins_map_of(s).contains_key((#[trigger] s[i]).name@)
                && plugins_map_of(s)[s[i].name@] == s[i],
    decreases s.len(),
{
    if s.len() > 0 {
        assert(distinct_names(s.drop_last())) by {
            assert(forall|a: int|
                0 <= a < s.drop_last().len() ==> s.drop_last()[a] == s[a]);
        }
        lemma_plugins_map_characterize(s.drop_last());
        assert forall|k: Seq<char>| #[trigger] plugins_map_of(s).contains_key(k) implies has_name(
            s,
            k,
        ) by {
            if k == s.last().name@ {
                assert((s[s.len() - 1]).name@ == k);
            } else {
                assert(plugins_map_of(s.drop_last()).contains_key(k));
                assert(has_name(s.drop_last(), k));
                let i = choose|i: int|
                    0 <= i < s.drop_last().len() && (#[trigger] s.drop_last()[i]).name@ == k;
                assert(s.drop_last()[i] == s[i]);
                assert((s[i]).name@ == k);
            }
        }
        assert forall|k: Seq<char>| has_name(s, k) implies plugins_map_of(s).contains_key(k) by {
            let i = choose|i: int| 0 <= i < s.len() && (#[trigger] s[i]).name@ == k;
            if i < s.len() - 1 {
                assert((s.drop_last()[i]).name@ == k);
            }
        }
        assert forall|i: int| 0 <= i < s.len() implies plugins_map_of(s).contains_key(
            (#[trigger] s[i]).name@,
        ) && plugins_map_of(s)[s[i].name@] == s[i] by {
            if i < s.len() - 1 {
                assert(s.drop_last()[i] == s[i]);
                assert(s[i].name@ != s.last().name@);
            }
        }
    }
}

/// Removing the sequence element at `i` removes exactly its name from the
/// map, provided names are distinct.
pub proof fn lemma_plugins_map_remove_idx(s: Seq<ExtensionMeta>, i: int)
    requires
        0 <= i < s.len(),
        distinct_names(s),
    ensures
        plugins_map_of(s.remove(i)) == plugins_map_of(s).remove(s[i].name@),
    decreases s.len(),
{
    lemma_plugins_map_characterize(s);
    assert(distinct_names(s.drop_last())) by {
        assert(forall|a: int| 0 <= a < s.drop_last().len() ==> s.drop_last()[a] == s[a]);
    }
    lemma_plugins_map_characterize(s.drop_last());
    if i == s.len() - 1 {
        assert(s.remove(i) =~= s.drop_last());
        assert(!plugins_map_of(s.drop_last()).contains_key(s[i].name@)) by {
            if has_name(s.drop_last(), s[i].name@) {
                let j = choose|j: int|
                    0 <= j < s.drop_last().len()
                        && (#[trigger] s.drop_last()[j]).name@ == s[i].name@;
                assert(s[j].name@ == s[i].name@);
            }
        }
        assert(plugins_map_of(s.drop_last()) =~= plugins_map_of(s).remove(s[i].name@));
    } else {
        let t = s.remove(i);
        assert(t.drop_last() =~= s.drop_last().remove(i)) by {
            assert(forall|a: int|
                0 <= a < t.drop_last().len() ==> t.drop_last()[a] == s.drop_last().remove(i)[a]);
        }
        assert(t.last() == s.last());
        lemma_plugins_map_remove_idx(s.drop_last(), i);
        assert(s.last().name@ != s[i].name@);
        assert(plugins_map_of(t) == plugins_map_of(s.drop_last()).remove(s[i].name@).insert(
            s.last().name@,
            s.last(),
        ));
        assert(plugins_map_of(s.drop_last()).remove(s[i].name@).insert(s.last().name@, s.last())
            =~= plugins_map_of(s).remove(s[i].name@));
    }
}

/// The current reconciliation record.
#[derive(Clone, Debug, PartialEq)]
pub struct Lock {
    pub core: CoreMeta,
    pub plugins: Vec<ExtensionMeta>,
}

impl Lock {
    /// Well-formed: no two plugin entries share a name.
    pub open spec fn wf(&self) -> bool {
        distinct_names(self.plugins@)
    }

    /// The plugin entries as a map keyed by name.
    pub open spec fn plugins_map(&self) -> Map<Seq<char>, ExtensionMeta> {
        plugins_map_of(self.plugins@)
    }

    /// The empty record, standing in for an absent lock file: no build
    /// installed, no plugins.
    pub fn new(provider: Provider) -> (r: Lock)
        ensures
            r.core.provider == provider,
            r.core.build is None,
            r.plugins@.len() == 0,
            r.wf(),
    {
        Lock {
            core: CoreMeta { provider, version: String::new(), build: None, path: String::new() },
            plugins: Vec::new(),
        }
    }

    /// Replaces the core field; the exclusive, atomic core mutation.
    pub fn set_core(&mut self, meta: CoreMeta)
        ensures
            final(self).core == meta,
            final(self).plugins == old(self).plugins,
    {
        self.core = meta;
    }

    /// The index of the entry named `name`, if one exists.
    fn find_plugin_index(&self, name: &String) -> (r: Option<usize>)
        ensures
            match r {
                Some(i) => i < self.plugins@.len() && self.plugins@[i as int].name@ == name@,
                None => !has_name(self.plugins@, name@),
            },
    {
        let mut i: usize = 0;
        while i < self.plugins.len()
            invariant
                i <= self.plugins@.len(),
                forall|j: int| 0 <= j < i ==> (#[trigger] self.plugins@[j]).name@ != name@,
            decreases self.plugins@.len() - i,
        {
            if self.plugins[i].name == *name {
                return Some(i);
            }
            i = i + 1;
        }
        None
    }

    /// The entry of the plugin named `name`, if one is recorded.
    pub fn get_plugin(&self, name: &String) -> (r: Option<&ExtensionMeta>)
        requires
            self.wf(),
        ensures
            match r {
                Some(m) => self.plugins_map().contains_key(name@) && *m
                    == self.plugins_map().index(name@),
                None => !self.plugins_map().contains_key(name@),
            },
    {
        proof {
            lemma_plugins_map_characterize(self.plugins@);
        }
        match self.find_plugin_index(name) {
            Some(i) => Some(&self.plugins[i]),
            None => None,
        }
    }

    /// Removes the entry named `name`, if any; the lock's map loses that
    /// key and nothing else changes.
    pub fn remove_plugin(&mut self, name: &String)
        requires
            old(self).wf(),
        ensures
            final(self).wf(),
            final(self).core == old(self).core,
            final(self).plugins_map() == old(self).plugins_map().remove(name@),
            !has_name(final(self).plugins@, name@),
    {
        proof {
            lemma_plugins_map_characterize(self.plugins@);
        }
        let ghost s0 = self.plugins@;
        match self.find_plugin_index(name) {
            Some(i) => {
                self.plugins.remove(i);
                proof {
                    lemma_plugins_map_remove_idx(s0, i as int);
                    assert(forall|a: int|
                        0 <= a < self.plugins@.len() ==> #[trigger] self.plugins@[a] == (if a < i {
                            s0[a]
                        } else {
                            s0[a + 1]
                        }));
                    assert(!has_name(self.plugins@, name@)) by {
                        if has_name(self.plugins@, name@) {
                            let j = choose|j: int|
                                0 <= j < self.plugins@.len() && (#[trigger] self.plugins@[j]).name@
                                    == name@;
                        }
                    }
                }
            },
            None => {
                proof {
                    assert(!self.plugins_map().contains_key(name@));
                    assert(self.plugins_map() =~= self.plugins_map().remove(name@));
                }
            },
        }
    }

    /// Inserts or replaces the entry for `meta.name`; the lock's map gains
    /// exactly that binding and nothing else changes.
    pub fn upsert_plugin(&mut self, meta: ExtensionMeta)
        requires
            old(self).wf(),
        ensures
            final(self).wf(),
            final(self).core == old(self).core,
            final(self).plugins_map() == old(self).plugins_map().insert(meta.name@, meta),
    {
        let ghost m0 = self.plugins_map();
        let name = meta.name.clone();
        self.remove_plugin(&name);
        let ghost s1 = self.plugins@;
        self.plugins.push(meta);
        proof {
            assert(self.plugins@.drop_last() =~= s1);
            assert(self.plugins@.last() == meta);
            assert(self.plugins_map() == plugins_map_of(s1).insert(meta.name@, meta));
            assert(plugins_map_of(s1).insert(meta.name@, meta) =~= m0.insert(meta.name@, meta));
            assert(distinct_names(self.plugins@)) by {
                assert(forall|a: int|
                    0 <= a < s1.len() ==> #[trigger] self.plugins@[a] == s1[a]);
                assert(forall|a: int|
                    0 <= a < s1.len() ==> (#[trigger] s1[a]).name@ != meta.name@);
            }
        }
    }
}

} // verus!

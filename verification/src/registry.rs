//! Plugin registry for tracking installed plugins.
//!
//! The registry is an index of installed plugins, keyed by full crate name
//! and kept in the order of installation. It is persisted as a TOML file
//! (`registry.toml` in the storage's base directory); reading and writing
//! that file is the caller's part, after every change made here.

use crate::storage::{crate_name_of, PluginManagerError, PluginStorage, PluginType};
use crate::text::{clone_opt, opt_text, str_eq};
use crate::version::{display, Version, VersionView};
use vstd::prelude::*;

verus! {

/// Information about an installed plugin.
#[derive(Debug, Clone, PartialEq, Eq)]
pub struct InstalledPlugin {
    /// Full crate name (e.g., "unduler-parser-conventional").
    pub crate_name: String,
    /// Plugin type.
    pub plugin_type: PluginType,
    /// Short name (e.g., "conventional").
    pub short_name: String,
    /// Installed version.
    pub version: Version,
    /// Description from crates.io.
    pub description: Option<String>,
    /// Source repository URL.
    pub repository: Option<String>,
    /// Installation timestamp, in seconds since the Unix epoch.
    pub installed_at: i64,
}

/// The mathematical content of an [`InstalledPlugin`].
pub struct InstalledPluginView {
    pub crate_name: Seq<char>,
    pub plugin_type: PluginType,
    pub short_name: Seq<char>,
    pub version: VersionView,
    pub description: Option<Seq<char>>,
    pub repository: Option<Seq<char>>,
    pub installed_at: int,
}

impl View for InstalledPlugin {
    type V = InstalledPluginView;

    open spec fn view(&self) -> InstalledPluginView {
        InstalledPluginView {
            crate_name: self.crate_name@,
            plugin_type: self.plugin_type,
            short_name: self.short_name@,
            version: self.version@,
            description: opt_text(self.description),
            repository: opt_text(self.repository),
            installed_at: self.installed_at as int,
        }
    }
}

impl InstalledPlugin {
    /// A copy of this record.
    pub fn duplicate(&self) -> (r: InstalledPlugin)
        ensures
            r@ == self@,
    {
        InstalledPlugin {
            crate_name: self.crate_name.clone(),
            plugin_type: self.plugin_type,
            short_name: self.short_name.clone(),
            version: self.version.duplicate(),
            description: clone_opt(&self.description),
            repository: clone_opt(&self.repository),
            installed_at: self.installed_at,
        }
    }
}

/// The views of a list of records.
pub open spec fn plugin_views(list: Seq<InstalledPlugin>) -> Seq<InstalledPluginView> {
    list.map_values(|p: InstalledPlugin| p@)
}

/// The views of a list of borrowed records.
pub open spec fn borrowed_views(list: Seq<&InstalledPlugin>) -> Seq<InstalledPluginView> {
    list.map_values(|p: &InstalledPlugin| p@)
}

/// No crate name occurs twice among the records.
pub open spec fn distinct_names(entries: Seq<InstalledPluginView>) -> bool {
    forall|i: int, j: int|
        0 <= i < j < entries.len() ==> entries[i].crate_name != entries[j].crate_name
}

/// The position of the record of `name`, if there is one.
pub open spec fn position_of(entries: Seq<InstalledPluginView>, name: Seq<char>) -> Option<int>
    decreases entries.len(),
{
    if entries.len() == 0 {
        None
    } else if entries[0].crate_name == name {
        Some(0)
    } else {
        match position_of(entries.skip(1), name) {
            Some(i) => Some(i + 1),
            None => None,
        }
    }
}

/// The record of `name`, if there is one.
pub open spec fn record_of(entries: Seq<InstalledPluginView>, name: Seq<char>) -> Option<
    InstalledPluginView,
> {
    match position_of(entries, name) {
        Some(i) => Some(entries[i]),
        None => None,
    }
}

/// What `position_of` returns is the first position that holds the name.
pub proof fn lemma_position_of(entries: Seq<InstalledPluginView>, name: Seq<char>)
    ensures
        match position_of(entries, name) {
            Some(i) => 0 <= i < entries.len() && entries[i].crate_name == name && forall|j: int|
                0 <= j < i ==> entries[j].crate_name != name,
            None => forall|j: int| 0 <= j < entries.len() ==> entries[j].crate_name != name,
        },
    decreases entries.len(),
{
    if entries.len() > 0 && entries[0].crate_name != name {
        lemma_position_of(entries.skip(1), name);
        match position_of(entries.skip(1), name) {
            Some(i) => {
                assert forall|j: int| 0 <= j < i + 1 implies entries[j].crate_name != name by {
                    if j > 0 {
                        assert(entries.skip(1)[j - 1] == entries[j]);
                    }
                }
            },
            None => {
                assert forall|j: int| 0 <= j < entries.len() implies entries[j].crate_name
                    != name by {
                    if j > 0 {
                        assert(entries.skip(1)[j - 1] == entries[j]);
                    }
                }
            },
        }
    }
}

/// A position that holds the name, with none before it that does, is what
/// `position_of` returns.
pub proof fn lemma_position_is(entries: Seq<InstalledPluginView>, name: Seq<char>, at: int)
    requires
        0 <= at < entries.len(),
        entries[at].crate_name == name,
        forall|j: int| 0 <= j < at ==> entries[j].crate_name != name,
    ensures
        position_of(entries, name) == Some(at),
{
    lemma_position_of(entries, name);
}

/// The records after `record` is put in: the record of the same crate name
/// is replaced in place, or the record goes to the end where there is none.
pub open spec fn entries_with(
    entries: Seq<InstalledPluginView>,
    record: InstalledPluginView,
) -> Seq<InstalledPluginView> {
    match position_of(entries, record.crate_name) {
        Some(i) => entries.update(i, record),
        None => entries.push(record),
    }
}

/// The records after the record of `name` is taken out; the same records
/// where there is none.
pub open spec fn entries_without(entries: Seq<InstalledPluginView>, name: Seq<char>) -> Seq<
    InstalledPluginView,
> {
    match position_of(entries, name) {
        Some(i) => entries.remove(i),
        None => entries,
    }
}

/// Putting a record in behaves as it does in a map: its crate name then
/// holds the record, every other name holds what it held, and no name gets
/// a second record.
pub proof fn lemma_entries_with(
    entries: Seq<InstalledPluginView>,
    record: InstalledPluginView,
    other: Seq<char>,
)
    ensures
        record_of(entries_with(entries, record), record.crate_name) == Some(record),
        other != record.crate_name ==> record_of(entries_with(entries, record), other)
            == record_of(entries, other),
        distinct_names(entries) ==> distinct_names(entries_with(entries, record)),
{
    let after = entries_with(entries, record);
    lemma_position_of(entries, record.crate_name);
    match position_of(entries, record.crate_name) {
        Some(i) => {
            lemma_position_is(after, record.crate_name, i);
        },
        None => {
            lemma_position_is(after, record.crate_name, entries.len() as int);
        },
    }
    if other != record.crate_name {
        lemma_position_of(entries, other);
        lemma_position_of(after, other);
        if position_of(entries, other) is Some {
            lemma_position_is(after, other, position_of(entries, other)->0);
        }
        if position_of(after, other) is Some {
            lemma_position_is(entries, other, position_of(after, other)->0);
        }
    }
}

/// Taking a record out behaves as it does in a map, where no name has two
/// records: the name then holds nothing, and every other name holds what it
/// held.
pub proof fn lemma_entries_without(
    entries: Seq<InstalledPluginView>,
    name: Seq<char>,
    other: Seq<char>,
)
    requires
        distinct_names(entries),
    ensures
        record_of(entries_without(entries, name), name) is None,
        other != name ==> record_of(entries_without(entries, name), other) == record_of(
            entries,
            other,
        ),
        distinct_names(entries_without(entries, name)),
{
    let after = entries_without(entries, name);
    lemma_position_of(entries, name);
    lemma_position_of(after, name);
    match position_of(entries, name) {
        Some(i) => {
            if position_of(after, name) is Some {
                let k = position_of(after, name)->0;
                if k < i {
                    assert(entries[k].crate_name == name);
                } else {
                    assert(entries[k + 1].crate_name == name);
                }
            }
            if other != name {
                lemma_position_of(entries, other);
                lemma_position_of(after, other);
                if position_of(entries, other) is Some {
                    let k = position_of(entries, other)->0;
                    if k < i {
                        lemma_position_is(after, other, k);
                    } else {
                        assert(after[k - 1] == entries[k]);
                        assert forall|j: int| 0 <= j < k - 1 implies after[j].crate_name
                            != other by {
                            if j < i {
                                assert(after[j] == entries[j]);
                            } else {
                                assert(after[j] == entries[j + 1]);
                            }
                        }
                        lemma_position_is(after, other, k - 1);
                    }
                }
                if position_of(after, other) is Some {
                    let k = position_of(after, other)->0;
                    if k < i {
                        assert(entries[k].crate_name == other);
                    } else {
                        assert(entries[k + 1].crate_name == other);
                    }
                }
            }
            assert forall|a: int, b: int| 0 <= a < b < after.len() implies after[a].crate_name
                != after[b].crate_name by {
                let x = if a < i { a } else { a + 1 };
                let y = if b < i { b } else { b + 1 };
                assert(after[a] == entries[x]);
                assert(after[b] == entries[y]);
            }
        },
        None => {},
    }
}

/// The records of one kind, in order.
pub open spec fn of_kind(entries: Seq<InstalledPluginView>, kind: PluginType) -> Seq<
    InstalledPluginView,
> {
    entries.filter(|p: InstalledPluginView| p.plugin_type == kind)
}

/// Plugin registry for tracking installed plugins.
pub struct PluginRegistry {
    storage: PluginStorage,
    plugins: Vec<InstalledPlugin>,
}

impl PluginRegistry {
    /// The records of the registry, in the order of installation.
    pub closed spec fn entries(&self) -> Seq<InstalledPluginView> {
        plugin_views(self.plugins@)
    }

    /// The base directory of the storage that the registry belongs to.
    pub closed spec fn base(&self) -> Seq<char> {
        self.storage.base()
    }

    /// The registry is well formed: no crate name has two records.
    pub open spec fn wf(&self) -> bool {
        distinct_names(self.entries())
    }

    /// Whether a plugin of that name is on record.
    pub open spec fn has(&self, name: Seq<char>) -> bool {
        position_of(self.entries(), name) is Some
    }

    /// Creates a new, empty registry.
    pub fn new(storage: PluginStorage) -> (r: PluginRegistry)
        ensures
            r.wf(),
            r.entries().len() == 0,
            r.base() == storage.base(),
    {
        PluginRegistry { storage, plugins: Vec::new() }
    }

    /// Creates a registry from the records of a registry file, in their
    /// order. `None` where two records have the same crate name.
    pub fn with_plugins(storage: PluginStorage, records: Vec<InstalledPlugin>) -> (r: Option<
        PluginRegistry,
    >)
        ensures
            match r {
                Some(registry) => distinct_names(plugin_views(records@)) && registry.wf()
                    && registry.base() == storage.base() && registry.entries() == plugin_views(
                    records@,
                ),
                None => !distinct_names(plugin_views(records@)),
            },
    {
        let mut registry = PluginRegistry::new(storage);
        let mut i: usize = 0;
        while i < records.len()
            invariant
                i <= records.len(),
                registry.wf(),
                registry.base() == storage.base(),
                registry.entries() == plugin_views(records@).take(i as int),
            decreases records.len() - i,
        {
            let ghost seen = plugin_views(records@).take(i as int);
            let record = records[i].duplicate();
            assert(plugin_views(records@).take(i + 1) == seen.push(record@));
            match registry.register(record) {
                Ok(()) => {},
                Err(_) => {
                    proof {
                        lemma_position_of(seen, record@.crate_name);
                        let k = position_of(seen, record@.crate_name)->0;
                        assert(plugin_views(records@)[k] == seen[k]);
                        assert(plugin_views(records@)[i as int] == record@);
                    }
                    return None;
                },
            }
            i += 1;
        }
        assert(plugin_views(records@).take(records@.len() as int) == plugin_views(records@));
        Some(registry)
    }

    /// Returns a reference to the storage.
    pub fn storage(&self) -> (r: &PluginStorage)
        ensures
            r.base() == self.base(),
    {
        &self.storage
    }

    /// The position of the record of `crate_name`.
    fn find(&self, crate_name: &str) -> (r: Option<usize>)
        ensures
            match r {
                Some(i) => position_of(self.entries(), crate_name@) == Some(i as int) && i
                    < self.plugins.len(),
                None => position_of(self.entries(), crate_name@) is None,
            },
    {
        let mut i: usize = 0;
        while i < self.plugins.len()
            invariant
                i <= self.plugins.len(),
                forall|j: int| 0 <= j < i ==> self.entries()[j].crate_name != crate_name@,
            decreases self.plugins.len() - i,
        {
            if str_eq(self.plugins[i].crate_name.as_str(), crate_name) {
                proof {
                    assert(self.entries()[i as int].crate_name == crate_name@);
                    lemma_position_of(self.entries(), crate_name@);
                }
                return Some(i);
            }
            i += 1;
        }
        proof {
            lemma_position_of(self.entries(), crate_name@);
        }
        None
    }

    /// Lists all installed plugins, in the order of installation.
    pub fn list(&self) -> (r: Vec<&InstalledPlugin>)
        ensures
            borrowed_views(r@) == self.entries(),
    {
        let mut out: Vec<&InstalledPlugin> = Vec::new();
        let mut i: usize = 0;
        while i < self.plugins.len()
            invariant
                i <= self.plugins.len(),
                borrowed_views(out@) == self.entries().take(i as int),
            decreases self.plugins.len() - i,
        {
            out.push(&self.plugins[i]);
            assert(borrowed_views(out@) == self.entries().take(i as int).push(
                self.entries()[i as int],
            ));
            i += 1;
        }
        assert(self.entries().take(self.entries().len() as int) == self.entries());
        out
    }

    /// Lists installed plugins by type, in the order of installation.
    pub fn list_by_type(&self, plugin_type: PluginType) -> (r: Vec<&InstalledPlugin>)
        ensures
            borrowed_views(r@) == of_kind(self.entries(), plugin_type),
    {
        let mut out: Vec<&InstalledPlugin> = Vec::new();
        let mut i: usize = 0;
        let ghost keep = |p: InstalledPluginView| p.plugin_type == plugin_type;
        assert(self.entries().take(0).filter(keep) == Seq::<InstalledPluginView>::empty());
        while i < self.plugins.len()
            invariant
                i <= self.plugins.len(),
                keep == |p: InstalledPluginView| p.plugin_type == plugin_type,
                borrowed_views(out@) == self.entries().take(i as int).filter(keep),
            decreases self.plugins.len() - i,
        {
            let ghost before = borrowed_views(out@);
            proof {
                let upto = self.entries().take(i + 1);
                assert(upto.drop_last() == self.entries().take(i as int));
                assert(upto.last() == self.entries()[i as int]);
                reveal(Seq::filter);
            }
            if self.plugins[i].plugin_type == plugin_type {
                out.push(&self.plugins[i]);
                assert(borrowed_views(out@) == before.push(self.entries()[i as int]));
            }
            i += 1;
        }
        assert(self.entries().take(self.entries().len() as int) == self.entries());
        out
    }

    /// Gets an installed plugin by crate name.
    pub fn get(&self, crate_name: &str) -> (r: Option<&InstalledPlugin>)
        ensures
            match r {
                Some(p) => record_of(self.entries(), crate_name@) == Some(p@),
                None => record_of(self.entries(), crate_name@) is None,
            },
    {
        match self.find(crate_name) {
            Some(i) => Some(&self.plugins[i]),
            None => None,
        }
    }

    /// Gets an installed plugin by short name and type.
    pub fn get_by_short_name(&self, short_name: &str, plugin_type: PluginType) -> (r: Option<
        &InstalledPlugin,
    >)
        ensures
            match r {
                Some(p) => record_of(self.entries(), crate_name_of(plugin_type, short_name@))
                    == Some(p@),
                None => record_of(self.entries(), crate_name_of(plugin_type, short_name@)) is None,
            },
    {
        let mut crate_name = String::from_str(plugin_type.crate_prefix());
        crate_name.append(short_name);
        self.get(crate_name.as_str())
    }

    /// Checks if a plugin is installed.
    pub fn is_installed(&self, crate_name: &str) -> (r: bool)
        ensures
            r == self.has(crate_name@),
    {
        self.find(crate_name).is_some()
    }

    /// Registers an installed plugin. Fails, and changes nothing, if a
    /// plugin of that name is on record already (use `upgrade` instead).
    pub fn register(&mut self, plugin: InstalledPlugin) -> (r: Result<(), PluginManagerError>)
        requires
            old(self).wf(),
        ensures
            final(self).wf(),
            final(self).base() == old(self).base(),
            match r {
                Ok(()) => !old(self).has(plugin@.crate_name) && final(self).entries() == old(
                    self,
                ).entries().push(plugin@),
                Err(e) => old(self).has(plugin@.crate_name) && final(self).entries() == old(
                    self,
                ).entries() && e.is_already_installed(
                    plugin@.crate_name,
                    display(plugin@.version),
                ),
            },
    {
        if self.is_installed(plugin.crate_name.as_str()) {
            return Err(
                PluginManagerError::AlreadyInstalled {
                    name: plugin.crate_name.clone(),
                    version: plugin.version.to_string(),
                },
            );
        }
        proof {
            lemma_position_of(self.entries(), plugin@.crate_name);
        }
        self.plugins.push(plugin);
        assert(self.entries() == old(self).entries().push(plugin@));
        Ok(())
    }

    /// Updates an installed plugin to a new version: the record of that
    /// name is replaced, in place. Fails, and changes nothing, if no plugin
    /// of that name is on record.
    pub fn upgrade(&mut self, plugin: InstalledPlugin) -> (r: Result<(), PluginManagerError>)
        requires
            old(self).wf(),
        ensures
            final(self).wf(),
            final(self).base() == old(self).base(),
            match r {
                Ok(()) => old(self).has(plugin@.crate_name) && final(self).entries() == old(
                    self,
                ).entries().update(
                    position_of(old(self).entries(), plugin@.crate_name)->0,
                    plugin@,
                ),
                Err(e) => !old(self).has(plugin@.crate_name) && final(self).entries() == old(
                    self,
                ).entries() && e.is_not_found(plugin@.crate_name),
            },
    {
        match self.find(plugin.crate_name.as_str()) {
            None => Err(PluginManagerError::PluginNotFound { name: plugin.crate_name.clone() }),
            Some(i) => {
                proof {
                    lemma_position_of(self.entries(), plugin@.crate_name);
                }
                self.plugins.set(i, plugin);
                assert(self.entries() == old(self).entries().update(i as int, plugin@));
                Ok(())
            },
        }
    }

    /// Unregisters a plugin: its record is taken out and returned. Fails,
    /// and changes nothing, if no plugin of that name is on record.
    pub fn unregister(&mut self, crate_name: &str) -> (r: Result<
        InstalledPlugin,
        PluginManagerError,
    >)
        requires
            old(self).wf(),
        ensures
            final(self).wf(),
            final(self).base() == old(self).base(),
            match r {
                Ok(plugin) => record_of(old(self).entries(), crate_name@) == Some(plugin@)
                    && final(self).entries() == old(self).entries().remove(
                    position_of(old(self).entries(), crate_name@)->0,
                ) && !final(self).has(crate_name@),
                Err(e) => !old(self).has(crate_name@) && final(self).entries() == old(
                    self,
                ).entries() && e.is_not_found(crate_name@),
            },
    {
        match self.find(crate_name) {
            None => Err(PluginManagerError::PluginNotFound { name: String::from_str(crate_name) }),
            Some(i) => {
                proof {
                    lemma_position_of(self.entries(), crate_name@);
                }
                let plugin = self.plugins.remove(i);
                proof {
                    assert(self.entries() == old(self).entries().remove(i as int));
                    lemma_position_of(self.entries(), crate_name@);
                    if position_of(self.entries(), crate_name@) is Some {
                        let k = position_of(self.entries(), crate_name@)->0;
                        if k < i {
                            assert(old(self).entries()[k].crate_name == crate_name@);
                        } else {
                            assert(old(self).entries()[k + 1].crate_name == crate_name@);
                        }
                    }
                }
                Ok(plugin)
            },
        }
    }
}

} // verus!

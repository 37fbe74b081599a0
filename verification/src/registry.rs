use vstd::prelude::*;

use crate::errors::PluginError;
use crate::metadata::{
    fresh_metadata, info_of, InfoView, MetadataView, PluginInfo, PluginMetadata, PluginType,
    PluginTypeView,
};
use crate::plugin::Plugin;

verus! {

/// Whether some entry of the store carries this name.
pub open spec fn has_name(s: Seq<MetadataView>, name: Seq<char>) -> bool {
    exists|i: int| 0 <= i < s.len() && s[i].name == name
}

/// The position of the entry carrying this name; meaningful only when
/// `has_name` holds and names are pairwise distinct.
pub open spec fn index_of(s: Seq<MetadataView>, name: Seq<char>) -> int {
    choose|i: int| 0 <= i < s.len() && s[i].name == name
}

/// The entry carrying this name; meaningful only when `has_name` holds.
pub open spec fn entry_of(s: Seq<MetadataView>, name: Seq<char>) -> MetadataView {
    s[index_of(s, name)]
}

/// The store's invariant: names are pairwise distinct.
pub open spec fn distinct_names(s: Seq<MetadataView>) -> bool {
    forall|i: int, j: int| 0 <= i < j < s.len() ==> s[i].name != s[j].name
}

/// One entry with its enabled flag set to `enabled` and all else kept.
pub open spec fn with_enabled(m: MetadataView, enabled: bool) -> MetadataView {
    MetadataView { enabled, ..m }
}

/// The projections of all entries, in store order.
pub open spec fn infos_of(s: Seq<MetadataView>) -> Seq<InfoView> {
    s.map_values(|m: MetadataView| info_of(m))
}

/// The projections of the entries of one category, in store order.
pub open spec fn infos_by_type(s: Seq<MetadataView>, t: PluginTypeView) -> Seq<InfoView>
    decreases s.len(),
{
    if s.len() == 0 {
        Seq::empty()
    } else {
        let rest = infos_by_type(s.drop_last(), t);
        if s.last().plugin_type == t {
            rest.push(info_of(s.last()))
        } else {
            rest
        }
    }
}

/// The store of one metadata record per registered plugin, keyed by the
/// plugin's name; it owns name uniqueness and the enabled flags. Every
/// mutation is one call taking exclusive access, so a registration's
/// check-and-insert is a single critical section; a host sharing the store
/// across tasks puts it behind one reader/writer lock.
///
/// Its view is the sequence of entry models in registration order; queries
/// report entries in that order, which this implementation fixes
/// deliberately so that listings are deterministic.
pub struct PluginRegistry {
    entries: Vec<PluginMetadata>,
}

impl View for PluginRegistry {
    type V = Seq<MetadataView>;

    closed spec fn view(&self) -> Seq<MetadataView> {
        self.entries.deep_view()
    }
}

impl PluginRegistry {
    /// Every registry keeps its names pairwise distinct, from construction
    /// on; this hands that invariant to a caller, at no run-time cost.
    pub fn names_distinct(&self)
        ensures
            distinct_names(self@),
    {
        proof {
            use_type_invariant(&*self);
        }
    }

    #[verifier::type_invariant]
    spec fn wf(self) -> bool {
        distinct_names(self.view())
    }

    /// An empty store.
    pub fn new() -> (r: Self)
        ensures
            r@ == Seq::<MetadataView>::empty(),
    {
        let entries: Vec<PluginMetadata> = Vec::new();
        proof {
            assert(entries.deep_view() =~= Seq::<MetadataView>::empty());
        }
        PluginRegistry { entries }
    }

    /// The position of the entry named `name`, if any.
    fn find_index(&self, name: &str) -> (r: Option<usize>)
        ensures
            match r {
                Some(i) => i < self@.len() && self@[i as int].name == name@,
                None => !has_name(self@, name@),
            },
    {
        let key: String = name.to_owned();
        let n = self.entries.len();
        let mut i: usize = 0;
        while i < n
            invariant
                n == self@.len(),
                i <= n,
                key@ == name@,
                forall|j: int| 0 <= j < i ==> self@[j].name != name@,
            decreases n - i,
        {
            if self.entries[i].name.eq(&key) {
                return Some(i);
            }
            i = i + 1;
        }
        None
    }

    /// Registers a plugin under its self-reported name. Fails with
    /// `DuplicateRegistration`, leaving the store untouched, exactly when the
    /// name is already present; otherwise appends a fresh record (enabled,
    /// no hooks, no dependencies) for the plugin's identity.
    pub fn register<P: Plugin>(&mut self, plugin: &P) -> (r: Result<(), PluginError>)
        ensures
            match r {
                Ok(()) => {
                    &&& final(self)@.len() == old(self)@.len() + 1
                    &&& final(self)@.drop_last() == old(self)@
                    &&& !has_name(old(self)@, final(self)@.last().name)
                    &&& crate::metadata::default_fields(final(self)@.last())
                },
                Err(e) => {
                    &&& final(self)@ == old(self)@
                    &&& e matches PluginError::DuplicateRegistration(n) && has_name(
                        old(self)@,
                        n@,
                    )
                },
            },
    {
        let name: String = plugin.name().to_owned();
        let version: String = plugin.version().to_owned();
        let plugin_type = plugin.plugin_type();
        self.register_entry(name, version, plugin_type)
    }

    /// The store transition behind `register`, for a known identity: exact in
    /// the name where `register` can only speak of whatever the plugin
    /// reported.
    pub fn register_entry(
        &mut self,
        name: String,
        version: String,
        plugin_type: PluginType,
    ) -> (r: Result<(), PluginError>)
        ensures
            match r {
                Ok(()) => {
                    &&& !has_name(old(self)@, name@)
                    &&& final(self)@.len() == old(self)@.len() + 1
                    &&& final(self)@.drop_last() == old(self)@
                    &&& fresh_metadata(final(self)@.last(), name@, version@, plugin_type@)
                    &&& final(self)@ == register_effect(old(self)@, final(self)@.last())
                },
                Err(e) => {
                    &&& has_name(old(self)@, name@)
                    &&& final(self)@ == old(self)@
                    &&& e matches PluginError::DuplicateRegistration(n) && n@ == name@
                },
            },
    {
        proof {
            use_type_invariant(&*self);
        }
        match self.find_index(name.as_str()) {
            Some(_) => Err(PluginError::DuplicateRegistration(name)),
            None => {
                let ghost prior = self@;
                let meta = PluginMetadata::new(name, version, plugin_type);
                let mut entries: Vec<PluginMetadata> = Vec::new();
                core::mem::swap(&mut entries, &mut self.entries);
                entries.push(meta);
                proof {
                    assert(entries.deep_view() =~= prior.push(meta@));
                    assert(entries.deep_view().drop_last() =~= prior);
                }
                self.entries = entries;
                Ok(())
            },
        }
    }

    /// Removes the entry named `name` and hands its record back, or reports
    /// its absence as `None`: absence is an expected outcome here, not an
    /// error. Every other entry keeps its place and order.
    pub fn unregister(&mut self, name: &str) -> (r: Option<PluginMetadata>)
        ensures
            match r {
                None => !has_name(old(self)@, name@) && final(self)@ == old(self)@,
                Some(m) => {
                    &&& has_name(old(self)@, name@)
                    &&& m@ == entry_of(old(self)@, name@)
                    &&& final(self)@ == old(self)@.remove(index_of(old(self)@, name@))
                },
            },
    {
        proof {
            use_type_invariant(&*self);
        }
        match self.find_index(name) {
            None => None,
            Some(i) => {
                let ghost prior = self@;
                proof {
                    assert(index_of(prior, name@) == i) by {
                        let j = index_of(prior, name@);
                        assert(0 <= j < prior.len() && prior[j].name == name@);
                    }
                }
                let mut entries: Vec<PluginMetadata> = Vec::new();
                core::mem::swap(&mut entries, &mut self.entries);
                let removed = entries.remove(i);
                proof {
                    assert(entries.deep_view() =~= prior.remove(i as int));
                }
                self.entries = entries;
                Some(removed)
            },
        }
    }

    /// A copy of the record for `name`, if one is registered.
    pub fn get_metadata(&self, name: &str) -> (r: Option<PluginMetadata>)
        ensures
            match r {
                Some(m) => has_name(self@, name@) && m@ == entry_of(self@, name@),
                None => !has_name(self@, name@),
            },
    {
        proof {
            use_type_invariant(&*self);
        }
        match self.find_index(name) {
            None => None,
            Some(i) => {
                proof {
                    assert(index_of(self@, name@) == i) by {
                        let j = index_of(self@, name@);
                        assert(0 <= j < self@.len() && self@[j].name == name@);
                    }
                }
                Some(self.entries[i].clone())
            },
        }
    }

    /// A snapshot of every entry's projection, in registration order.
    pub fn list_plugins(&self) -> (r: Vec<PluginInfo>)
        ensures
            r.deep_view() == infos_of(self@),
    {
        let n = self.entries.len();
        let mut r: Vec<PluginInfo> = Vec::new();
        let mut i: usize = 0;
        while i < n
            invariant
                n == self@.len(),
                i <= n,
                r.deep_view().len() == i,
                forall|j: int| 0 <= j < i ==> r.deep_view()[j] == info_of(self@[j]),
            decreases n - i,
        {
            let e = &self.entries[i];
            let info = project(e);
            let ghost prev = r.deep_view();
            r.push(info);
            proof {
                assert forall|j: int| 0 <= j < i + 1 implies r.deep_view()[j] == info_of(
                    self@[j],
                ) by {
                    if j < i {
                        assert(r.deep_view()[j] == prev[j]);
                    } else {
                        assert(r.deep_view()[j] == info@);
                    }
                }
            }
            i = i + 1;
        }
        proof {
            assert(r.deep_view() =~= infos_of(self@));
        }
        r
    }

    /// The snapshot restricted to one category, compared by exact equality,
    /// `Custom` labels included; order is registration order.
    pub fn list_by_type(&self, plugin_type: PluginType) -> (r: Vec<PluginInfo>)
        ensures
            r.deep_view() == infos_by_type(self@, plugin_type@),
    {
        let n = self.entries.len();
        let mut r: Vec<PluginInfo> = Vec::new();
        let mut i: usize = 0;
        while i < n
            invariant
                n == self@.len(),
                i <= n,
                r.deep_view() == infos_by_type(self@.take(i as int), plugin_type@),
            decreases n - i,
        {
            let ghost prefix = self@.take(i as int);
            let e = &self.entries[i];
            if e.plugin_type == plugin_type {
                r.push(project(e));
            }
            proof {
                assert(self@.take(i + 1).drop_last() =~= prefix);
                assert(self@.take(i + 1).last() == self@[i as int]);
                if e@.plugin_type == plugin_type@ {
                    assert(r.deep_view() =~= infos_by_type(self@.take(i + 1), plugin_type@));
                }
            }
            i = i + 1;
        }
        proof {
            assert(self@.take(n as int) =~= self@);
        }
        r
    }

    /// Turns the enabled flag on. Fails with `NotFound`, leaving the store
    /// untouched, exactly when the name is absent; no other field and no
    /// other entry changes.
    pub fn enable(&mut self, name: &str) -> (r: Result<(), PluginError>)
        ensures
            match r {
                Ok(()) => has_name(old(self)@, name@) && final(self)@ == old(self)@.update(
                    index_of(old(self)@, name@),
                    with_enabled(entry_of(old(self)@, name@), true),
                ),
                Err(e) => {
                    &&& !has_name(old(self)@, name@)
                    &&& final(self)@ == old(self)@
                    &&& e matches PluginError::NotFound(n) && n@ == name@
                },
            },
    {
        self.set_enabled(name, true)
    }

    /// Turns the enabled flag off; the exact mirror of `enable`.
    pub fn disable(&mut self, name: &str) -> (r: Result<(), PluginError>)
        ensures
            match r {
                Ok(()) => has_name(old(self)@, name@) && final(self)@ == old(self)@.update(
                    index_of(old(self)@, name@),
                    with_enabled(entry_of(old(self)@, name@), false),
                ),
                Err(e) => {
                    &&& !has_name(old(self)@, name@)
                    &&& final(self)@ == old(self)@
                    &&& e matches PluginError::NotFound(n) && n@ == name@
                },
            },
    {
        self.set_enabled(name, false)
    }

    /// Whether the entry named `name` exists and is enabled. An unknown name
    /// is reported as not enabled rather than as an error — deliberately
    /// more lenient than `enable` and `disable`.
    pub fn is_enabled(&self, name: &str) -> (r: bool)
        ensures
            r == (has_name(self@, name@) && entry_of(self@, name@).enabled),
    {
        proof {
            use_type_invariant(&*self);
        }
        match self.find_index(name) {
            None => false,
            Some(i) => {
                proof {
                    assert(index_of(self@, name@) == i) by {
                        let j = index_of(self@, name@);
                        assert(0 <= j < self@.len() && self@[j].name == name@);
                    }
                }
                self.entries[i].enabled
            },
        }
    }

    fn set_enabled(&mut self, name: &str, value: bool) -> (r: Result<(), PluginError>)
        ensures
            match r {
                Ok(()) => has_name(old(self)@, name@) && final(self)@ == old(self)@.update(
                    index_of(old(self)@, name@),
                    with_enabled(entry_of(old(self)@, name@), value),
                ),
                Err(e) => {
                    &&& !has_name(old(self)@, name@)
                    &&& final(self)@ == old(self)@
                    &&& e matches PluginError::NotFound(n) && n@ == name@
                },
            },
    {
        proof {
            use_type_invariant(&*self);
        }
        match self.find_index(name) {
            None => Err(PluginError::NotFound(name.to_owned())),
            Some(i) => {
                let ghost prior = self@;
                proof {
                    assert(index_of(prior, name@) == i) by {
                        let j = index_of(prior, name@);
                        assert(0 <= j < prior.len() && prior[j].name == name@);
                    }
                }
                let mut entries: Vec<PluginMetadata> = Vec::new();
                core::mem::swap(&mut entries, &mut self.entries);
                let mut m = entries[i].clone();
                m.enabled = value;
                proof {
                    assert(m@ =~= with_enabled(prior[i as int], value));
                }
                entries.set(i, m);
                proof {
                    assert(entries.deep_view() =~= prior.update(
                        i as int,
                        with_enabled(entry_of(prior, name@), value),
                    ));
                }
                self.entries = entries;
                Ok(())
            },
        }
    }
}

impl Default for PluginRegistry {
    fn default() -> (r: Self)
        ensures
            r@ == Seq::<MetadataView>::empty(),
    {
        PluginRegistry::new()
    }
}

/// The names of all entries, in store order.
pub open spec fn names_of(s: Seq<MetadataView>) -> Seq<Seq<char>> {
    s.map_values(|m: MetadataView| m.name)
}

/// The names a listing reports, in listing order.
pub open spec fn listed_names(infos: Seq<InfoView>) -> Seq<Seq<char>> {
    infos.map_values(|i: InfoView| i.name)
}

/// The store transition `register` performs: a fresh name appends its
/// record, a duplicate leaves the store as it was.
pub open spec fn register_effect(s: Seq<MetadataView>, m: MetadataView) -> Seq<MetadataView> {
    if has_name(s, m.name) {
        s
    } else {
        s.push(m)
    }
}

/// The store transitions of a whole sequence of registrations, in order.
pub open spec fn register_all(s: Seq<MetadataView>, batch: Seq<MetadataView>) -> Seq<MetadataView>
    decreases batch.len(),
{
    if batch.len() == 0 {
        s
    } else {
        register_all(register_effect(s, batch[0]), batch.drop_first())
    }
}

/// Law: a listing reports one projection per entry, carrying its name — so
/// the listed names are exactly the registered names, in order.
pub proof fn lemma_listing_names(s: Seq<MetadataView>)
    ensures
        listed_names(infos_of(s)) == names_of(s),
{
    assert(listed_names(infos_of(s)) =~= names_of(s));
}

/// Law: registering any batch of plugins whose names are pairwise distinct,
/// none of them already present, succeeds for every one of them and leaves
/// the store holding exactly the old entries followed by the batch's
/// records, in registration order — so a listing afterwards reports exactly
/// those plugins by name. The order of the registrations is the only thing
/// an interleaving of callers can pick, since each one is a single atomic
/// check-and-insert.
pub proof fn lemma_distinct_registrations(s: Seq<MetadataView>, batch: Seq<MetadataView>)
    requires
        distinct_names(s + batch),
    ensures
        register_all(s, batch) == s + batch,
        distinct_names(register_all(s, batch)),
        listed_names(infos_of(register_all(s, batch))) == names_of(s) + names_of(batch),
    decreases batch.len(),
{
    lemma_listing_names(s + batch);
    assert(names_of(s + batch) =~= names_of(s) + names_of(batch));
    if batch.len() == 0 {
        assert(s + batch =~= s);
    } else {
        let m = batch[0];
        assert((s + batch)[s.len() as int] == m);
        assert(!has_name(s, m.name)) by {
            if has_name(s, m.name) {
                let i = index_of(s, m.name);
                assert((s + batch)[i] == s[i]);
            }
        }
        assert(register_effect(s, m) == s.push(m));
        assert(s.push(m) + batch.drop_first() =~= s + batch);
        lemma_distinct_registrations(s.push(m), batch.drop_first());
    }
}

/// Law: enabling a plugin that is already enabled leaves every entry exactly
/// as it was; likewise disabling one that is already disabled.
pub proof fn lemma_toggle_idempotent(s: Seq<MetadataView>, name: Seq<char>, value: bool)
    requires
        distinct_names(s),
        has_name(s, name),
        entry_of(s, name).enabled == value,
    ensures
        s.update(index_of(s, name), with_enabled(entry_of(s, name), value)) == s,
{
    let i = index_of(s, name);
    assert(with_enabled(s[i], value) =~= s[i]);
    assert(s.update(i, with_enabled(entry_of(s, name), value)) =~= s);
}

/// Law: after removing the entry for a name, no entry carries that name any
/// longer — a listing no longer reports it — names stay pairwise distinct,
/// and every other name keeps its entry, unchanged.
pub proof fn lemma_unregister_removes(s: Seq<MetadataView>, name: Seq<char>)
    requires
        distinct_names(s),
        has_name(s, name),
    ensures
        !has_name(s.remove(index_of(s, name)), name),
        !listed_names(infos_of(s.remove(index_of(s, name)))).contains(name),
        distinct_names(s.remove(index_of(s, name))),
        forall|other: Seq<char>|
            other != name && has_name(s, other) ==> #[trigger] has_name(
                s.remove(index_of(s, name)),
                other,
            ) && entry_of(s.remove(index_of(s, name)), other) == entry_of(s, other),
{
    let i = index_of(s, name);
    let t = s.remove(i);
    s.remove_ensures(i);
    assert forall|k: int| 0 <= k < t.len() implies t[k].name != name by {
        if k < i {
            assert(t[k] == s[k]);
        } else {
            assert(t[k] == s[k + 1]);
        }
    }
    assert forall|k: int| 0 <= k < listed_names(infos_of(t)).len() implies listed_names(
        infos_of(t),
    )[k] != name by {
        assert(listed_names(infos_of(t))[k] == t[k].name);
    }
    assert forall|a: int, b: int| 0 <= a < b < t.len() implies t[a].name != t[b].name by {
        let oa = if a < i {
            a
        } else {
            a + 1
        };
        let ob = if b < i {
            b
        } else {
            b + 1
        };
        assert(t[a] == s[oa] && t[b] == s[ob]);
    }
    assert forall|other: Seq<char>| other != name && has_name(s, other) implies #[trigger] has_name(
        t,
        other,
    ) && entry_of(t, other) == entry_of(s, other) by {
        let j = index_of(s, other);
        assert(0 <= j < s.len() && s[j].name == other);
        let tj = if j < i {
            j
        } else {
            j - 1
        };
        assert(t[tj] == s[j]);
        assert(has_name(t, other));
        let k = index_of(t, other);
        assert(0 <= k < t.len() && t[k].name == other);
        assert(k == tj);
        assert(entry_of(t, other) == s[j]);
    }
}

/// The projection of one stored record, built without touching the record.
fn project(m: &PluginMetadata) -> (r: PluginInfo)
    ensures
        r@ == info_of(m@),
{
    PluginInfo {
        name: m.name.clone(),
        version: m.version.clone(),
        plugin_type: m.plugin_type.clone(),
        enabled: m.enabled,
    }
}

} // verus!

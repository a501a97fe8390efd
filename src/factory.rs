//! The plugin factory: enumerating plugin kinds and creating instances.
use crate::plugin::PluginPrototype;
use crate::strings::{c_string_outcome, PluginID};
use clap_sys::host::clap_host;
use clap_sys::plugin::clap_plugin_descriptor;
use vstd::prelude::*;

verus! {

/// clap_sys's record of the host, handed through unread.
#[verifier::external_type_specification]
#[verifier::external_body]
pub struct ExHost(clap_host);

/// clap_sys's C record of a plugin descriptor, handed out unread.
#[verifier::external_type_specification]
#[verifier::external_body]
pub struct ExPluginDescriptor(clap_plugin_descriptor);

/// What a plugin library implements to let the host create its plugins.
pub trait PluginFactoryPrototype {
    type Produced: PluginPrototype;

    /// The number of plugin kinds that can be created.
    fn get_plugin_count(&self) -> u32;

    /// The descriptor of the kind at an index; none past the end.
    fn get_plugin_descriptor(&self, plugin_idx: u32) -> Option<&'static clap_plugin_descriptor>;

    /// A new instance of the kind with the given identifier; none for an
    /// unknown identifier or when construction fails.
    fn create_plugin(&self, host: &clap_host, plugin_id: &PluginID) -> Option<Self::Produced>;
}

/// The number of plugin kinds; 0 without a factory.
pub fn get_plugin_count<F: PluginFactoryPrototype>(factory: Option<&F>) -> (r: u32)
    ensures
        factory is None ==> r == 0,
{
    match factory {
        Some(f) => f.get_plugin_count(),
        None => 0,
    }
}

/// The descriptor a factory found for an index, kept only if the index is
/// below the count the factory gave: so no descriptor is handed out past the
/// end, whatever the factory answers.
pub fn bounded_descriptor<D>(count: u32, plugin_idx: u32, found: Option<&D>) -> (r: Option<&D>)
    ensures
        plugin_idx < count ==> r == found,
        plugin_idx >= count ==> r is None,
{
    if plugin_idx < count {
        found
    } else {
        None
    }
}

/// The descriptor at an index; none without a factory, or at an index not
/// below the factory's count.
pub fn get_plugin_descriptor<F: PluginFactoryPrototype>(factory: Option<&F>, plugin_idx: u32) -> (r: Option<&'static clap_plugin_descriptor>)
    ensures
        factory is None ==> r is None,
{
    match factory {
        Some(f) => {
            let count = f.get_plugin_count();
            bounded_descriptor(count, plugin_idx, f.get_plugin_descriptor(plugin_idx))
        },
        None => None,
    }
}

/// Creates an instance; none without a factory or a host, or for an
/// identifier that is not a bounded C string. The instance is handed over
/// only on success, so nothing is allocated for a failed request.
pub fn create_plugin<F: PluginFactoryPrototype>(factory: Option<&F>, host: Option<&clap_host>, plugin_id: &[u8]) -> (r: Option<F::Produced>)
    ensures
        factory is None || host is None || c_string_outcome(plugin_id@, 256) is Err ==> r is None,
{
    match (factory, host) {
        (Some(f), Some(h)) => match PluginID::try_from_bytes(plugin_id) {
            Ok(id) => f.create_plugin(h, &id),
            Err(_) => None,
        },
        _ => None,
    }
}

/// One creatable plugin kind: its identifier and its descriptor.
pub struct CatalogEntry {
    pub id: Vec<u8>,
    pub descriptor: &'static clap_plugin_descriptor,
}

/// A fixed list of plugin kinds, which a factory can enumerate and look up.
pub struct PluginCatalog {
    entries: Vec<CatalogEntry>,
}

impl PluginCatalog {
    #[verifier::type_invariant]
    spec fn inv(&self) -> bool {
        self.entries@.len() <= u32::MAX
    }

    /// The identifiers of the kinds, in order.
    pub closed spec fn spec_ids(&self) -> Seq<Seq<u8>> {
        self.entries@.map_values(|e: CatalogEntry| e.id@)
    }

    pub closed spec fn spec_count(&self) -> nat {
        self.entries@.len()
    }

    /// The descriptor at an index, none past the end.
    pub closed spec fn spec_descriptor(&self, idx: int) -> Option<&'static clap_plugin_descriptor> {
        if 0 <= idx < self.entries@.len() {
            Some(self.entries@[idx].descriptor)
        } else {
            None
        }
    }

    /// A catalog of the given kinds; none if there are more than a `u32` can count.
    pub fn new(entries: Vec<CatalogEntry>) -> (r: Option<PluginCatalog>)
        ensures
            entries@.len() <= u32::MAX <==> r is Some,
            r matches Some(c) ==> c.spec_count() == entries@.len() && c.spec_ids() == entries@.map_values(|e: CatalogEntry| e.id@)
                && forall|i: int| 0 <= i < entries@.len() ==> c.spec_descriptor(i) == Some(entries@[i].descriptor),
    {
        if entries.len() > u32::MAX as usize {
            None
        } else {
            Some(PluginCatalog { entries })
        }
    }

    pub fn count(&self) -> (r: u32)
        ensures
            r == self.spec_count(),
    {
        proof {
            use_type_invariant(self);
        }
        self.entries.len() as u32
    }

    pub fn descriptor(&self, idx: u32) -> (r: Option<&'static clap_plugin_descriptor>)
        ensures
            r == self.spec_descriptor(idx as int),
    {
        if (idx as usize) < self.entries.len() {
            Some(self.entries[idx as usize].descriptor)
        } else {
            None
        }
    }

    /// The index of the first kind with the given identifier; none if no kind has it.
    pub fn index_of(&self, id: &PluginID) -> (r: Option<u32>)
        ensures
            match r {
                Some(i) => i < self.spec_count() && self.spec_ids()[i as int] == id@
                    && forall|j: int| 0 <= j < i ==> self.spec_ids()[j] != id@,
                None => forall|j: int| 0 <= j < self.spec_count() ==> self.spec_ids()[j] != id@,
            },
    {
        proof {
            use_type_invariant(self);
        }
        let mut i: usize = 0;
        while i < self.entries.len()
            invariant
                i <= self.entries@.len(),
                self.entries@.len() <= u32::MAX,
                forall|j: int| 0 <= j < i ==> self.spec_ids()[j] != id@,
            decreases self.entries@.len() - i,
        {
            if id.is(self.entries[i].id.as_slice()) {
                return Some(i as u32);
            }
            i = i + 1;
        }
        None
    }
}

/// A catalog enumerates its kinds exactly: the descriptor at an index is there
/// for every index below the count and for no other.
pub proof fn lemma_catalog_enumeration(catalog: &PluginCatalog, idx: int)
    ensures
        catalog.spec_descriptor(idx) is Some <==> 0 <= idx < catalog.spec_count(),
{
}

} // verus!

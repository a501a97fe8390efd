//! The process-wide entrypoint: its lifecycle and the factory it hands out.
use crate::strings::{c_string_outcome, PluginExtensionID, PluginPath};
use vstd::prelude::*;

verus! {

/// Relies on clap_sys::factory::plugin_factory::CLAP_PLUGIN_FACTORY_ID: the bytes of "clap.plugin-factory".
#[verifier::external_body]
fn plugin_factory_id() -> (r: &'static [u8])
    ensures
        r@ == seq![99u8, 108u8, 97u8, 112u8, 46u8, 112u8, 108u8, 117u8, 103u8, 105u8, 110u8, 45u8, 102u8, 97u8, 99u8, 116u8, 111u8, 114u8, 121u8],  // "clap.plugin-factory"
{
    clap_sys::factory::plugin_factory::CLAP_PLUGIN_FACTORY_ID.to_bytes()
}

/// The functions of the entrypoint table.
#[derive(Debug, Clone, Copy, PartialEq, Eq, Structural)]
pub enum EntryFnIdent {
    Init,
    Deinit,
    GetFactory,
}

impl EntryFnIdent {
    /// The name of each function.
    pub open spec fn spec_name(self) -> Seq<u8> {
        match self {
            EntryFnIdent::Init => seq![105u8, 110u8, 105u8, 116u8],  // "init"
            EntryFnIdent::Deinit => seq![100u8, 101u8, 105u8, 110u8, 105u8, 116u8],  // "deinit"
            EntryFnIdent::GetFactory => seq![103u8, 101u8, 116u8, 95u8, 102u8, 97u8, 99u8, 116u8, 111u8, 114u8, 121u8],  // "get_factory"
        }
    }

    /// The function with the given name; none for any other name.
    pub fn from_name(name: &[u8]) -> (r: Option<EntryFnIdent>)
        ensures
            r matches Some(f) ==> f.spec_name() == name@,
            r is None ==> forall|f: EntryFnIdent| f.spec_name() != name@,
    {
        let init: [u8; 4] = [105, 110, 105, 116];  // "init"
        let deinit: [u8; 6] = [100, 101, 105, 110, 105, 116];  // "deinit"
        let get_factory: [u8; 11] = [103, 101, 116, 95, 102, 97, 99, 116, 111, 114, 121];  // "get_factory"
        if bytes_equal(name, init.as_slice()) {
            assert(init@ =~= EntryFnIdent::Init.spec_name());
            Some(EntryFnIdent::Init)
        } else if bytes_equal(name, deinit.as_slice()) {
            assert(deinit@ =~= EntryFnIdent::Deinit.spec_name());
            Some(EntryFnIdent::Deinit)
        } else if bytes_equal(name, get_factory.as_slice()) {
            assert(get_factory@ =~= EntryFnIdent::GetFactory.spec_name());
            Some(EntryFnIdent::GetFactory)
        } else {
            assert(init@ =~= EntryFnIdent::Init.spec_name());
            assert(deinit@ =~= EntryFnIdent::Deinit.spec_name());
            assert(get_factory@ =~= EntryFnIdent::GetFactory.spec_name());
            assert forall|f: EntryFnIdent| f.spec_name() != name@ by {
                match f {
                    EntryFnIdent::Init => {},
                    EntryFnIdent::Deinit => {},
                    EntryFnIdent::GetFactory => {},
                }
            }
            None
        }
    }
}

/// Whether two runs of bytes are equal.
fn bytes_equal(a: &[u8], b: &[u8]) -> (r: bool)
    ensures
        r == (a@ == b@),
{
    if a.len() != b.len() {
        return false;
    }
    let mut i: usize = 0;
    while i < a.len()
        invariant
            a@.len() == b@.len(),
            i <= a@.len(),
            forall|j: int| 0 <= j < i ==> a@[j] == b@[j],
        decreases a@.len() - i,
    {
        if a[i] != b[i] {
            return false;
        }
        i = i + 1;
    }
    assert(a@ =~= b@);
    true
}

/// Where the entrypoint is in its life: loaded, initialised once, torn down once.
#[derive(Debug, Clone, Copy, PartialEq, Eq, Structural)]
pub enum EntryPhase {
    Loaded,
    Initialized,
    Deinitialized,
}

/// The lifecycle of the entrypoint table.
pub struct Entrypoint {
    phase: EntryPhase,
}

impl Entrypoint {
    pub closed spec fn spec_phase(&self) -> EntryPhase {
        self.phase
    }

    /// An entrypoint just loaded.
    pub fn new() -> (r: Entrypoint)
        ensures
            r.spec_phase() == EntryPhase::Loaded,
    {
        Entrypoint { phase: EntryPhase::Loaded }
    }

    pub fn phase(&self) -> (r: EntryPhase)
        ensures
            r == self.spec_phase(),
    {
        self.phase
    }

    /// The path to hand to the plugin's own initialisation: only while loaded,
    /// and only for a bounded C string; otherwise the load fails.
    pub fn accept_init<'a>(&self, path: &'a [u8]) -> (r: Option<PluginPath<'a>>)
        ensures
            r is Some <==> self.spec_phase() == EntryPhase::Loaded && c_string_outcome(path@, 1024) is Ok,
            r matches Some(p) ==> c_string_outcome(path@, 1024) == Ok::<Seq<u8>, crate::strings::FromPtrError>(p@),
    {
        match self.phase {
            EntryPhase::Loaded => match PluginPath::try_from_bytes(path) {
                Ok(p) => Some(p),
                Err(_) => None,
            },
            _ => None,
        }
    }

    /// Records how the plugin's own initialisation went; a failed one leaves
    /// the entrypoint loaded.
    pub fn finish_init(&mut self, succeeded: bool)
        requires
            old(self).spec_phase() == EntryPhase::Loaded,
        ensures
            final(self).spec_phase() == if succeeded {
                EntryPhase::Initialized
            } else {
                EntryPhase::Loaded
            },
    {
        if succeeded {
            self.phase = EntryPhase::Initialized;
        }
    }

    /// Tears down an initialised entrypoint, once; whether it did.
    pub fn deinit(&mut self) -> (r: bool)
        ensures
            r == (old(self).spec_phase() == EntryPhase::Initialized),
            final(self).spec_phase() == if r {
                EntryPhase::Deinitialized
            } else {
                old(self).spec_phase()
            },
    {
        match self.phase {
            EntryPhase::Initialized => {
                self.phase = EntryPhase::Deinitialized;
                true
            },
            _ => false,
        }
    }

    /// Whether a factory query names the plugin factory of an initialised
    /// entrypoint, the one factory it hands out.
    pub fn serves_factory(&self, factory_id: &[u8]) -> (r: bool)
        ensures
            r == (self.spec_phase() == EntryPhase::Initialized
                && c_string_outcome(factory_id@, 256) == Ok::<Seq<u8>, crate::strings::FromPtrError>(seq![99u8, 108u8, 97u8, 112u8, 46u8, 112u8, 108u8, 117u8, 103u8, 105u8, 110u8, 45u8, 102u8, 97u8, 99u8, 116u8, 111u8, 114u8, 121u8])),
    {
        match self.phase {
            EntryPhase::Initialized => match PluginExtensionID::try_from_bytes(factory_id) {
                Ok(name) => name.is(plugin_factory_id()),
                Err(_) => false,
            },
            _ => false,
        }
    }
}

} // verus!

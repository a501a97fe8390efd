//! Capabilities (extensions) and the recovery steps shared by every dispatched call.
//!
//! A call from the host names the plugin by its record. Dispatch first recovers
//! the plugin instance from the record's data slot, then the plugin's
//! implementation of the capability; an absent one at either step ends the
//! call with the neutral failure value of its shape. The per-capability
//! operations take the recovered capability, so that a capability-absent
//! plugin and a null record are handled alike.
use crate::strings::PluginExtensionID;
use crate::AbstractPrototype;
use vstd::prelude::*;

pub mod audio_ports;
pub mod gui;
pub mod params;
pub mod state;
pub mod state_context;

verus! {

/// A capability's implementation, tied to the plugin type that owns it.
pub trait ExtensionPrototype: AbstractPrototype {
    type Parent;
}

/// The host-visible record of a plugin instance: its opaque data slot, which
/// holds the instance's own address once the factory has made it.
pub struct PluginHandle<'a, P> {
    pub plugin_data: Option<&'a P>,
}

/// A plugin type that may implement the capability `E`.
pub trait HasExtension<E> {
    /// The plugin's implementation of `E`, if it has one.
    fn get_extension(&self) -> Option<&E>;
}

/// The instance that a record leads to: none for a null record or an empty slot.
pub open spec fn recovered<'a, P>(plugin: Option<&PluginHandle<'a, P>>) -> Option<&'a P> {
    match plugin {
        Some(h) => h.plugin_data,
        None => None,
    }
}

/// Step one of every call: the plugin instance behind a record.
pub fn recover_plugin<'a, P>(plugin: Option<&PluginHandle<'a, P>>) -> (r: Option<&'a P>)
    ensures
        r == recovered(plugin),
{
    match plugin {
        Some(h) => h.plugin_data,
        None => None,
    }
}

/// Steps one and two of every call: the capability implementation behind a
/// record; none wherever the plugin cannot be recovered.
pub fn recover_extension<'a, P: HasExtension<E>, E>(plugin: Option<&PluginHandle<'a, P>>) -> (r: Option<&'a E>)
    ensures
        recovered(plugin) is None ==> r is None,
{
    match recover_plugin(plugin) {
        Some(p) => p.get_extension(),
        None => None,
    }
}

/// Step four for an output slot: writes the result into `out` exactly when
/// there is one, and reports whether it did.
pub fn write_result<T: Copy>(result: Option<&T>, out: &mut T) -> (r: bool)
    ensures
        r == result is Some,
        r ==> *final(out) == *result->0,
        !r ==> *final(out) == *old(out),
{
    match result {
        Some(v) => {
            *out = *v;
            true
        },
        None => false,
    }
}

/// Step four for an owned result.
pub fn write_value<T: Copy>(result: Option<T>, out: &mut T) -> (r: bool)
    ensures
        r == result is Some,
        r ==> *final(out) == result->0,
        !r ==> *final(out) == *old(out),
{
    match result {
        Some(v) => {
            *out = v;
            true
        },
        None => false,
    }
}

/// Relies on clap_sys::ext::params::CLAP_EXT_PARAMS: the bytes of "clap.params".
#[verifier::external_body]
fn ext_id_params() -> (r: &'static [u8])
    ensures
        r@ == CapabilityKind::Params.spec_id(),
{
    clap_sys::ext::params::CLAP_EXT_PARAMS.to_bytes()
}

/// Relies on clap_sys::ext::audio_ports::CLAP_EXT_AUDIO_PORTS: the bytes of "clap.audio-ports".
#[verifier::external_body]
fn ext_id_audio_ports() -> (r: &'static [u8])
    ensures
        r@ == CapabilityKind::AudioPorts.spec_id(),
{
    clap_sys::ext::audio_ports::CLAP_EXT_AUDIO_PORTS.to_bytes()
}

/// Relies on clap_sys::ext::state::CLAP_EXT_STATE: the bytes of "clap.state".
#[verifier::external_body]
fn ext_id_state() -> (r: &'static [u8])
    ensures
        r@ == CapabilityKind::State.spec_id(),
{
    clap_sys::ext::state::CLAP_EXT_STATE.to_bytes()
}

/// Relies on clap_sys::ext::state_context::CLAP_EXT_STATE_CONTEXT: the bytes of "clap.state-context/2".
#[verifier::external_body]
fn ext_id_state_context() -> (r: &'static [u8])
    ensures
        r@ == CapabilityKind::StateContext.spec_id(),
{
    clap_sys::ext::state_context::CLAP_EXT_STATE_CONTEXT.to_bytes()
}

/// Relies on clap_sys::ext::gui::CLAP_EXT_GUI: the bytes of "clap.gui".
#[verifier::external_body]
fn ext_id_gui() -> (r: &'static [u8])
    ensures
        r@ == CapabilityKind::Gui.spec_id(),
{
    clap_sys::ext::gui::CLAP_EXT_GUI.to_bytes()
}

/// The capabilities that this layer dispatches.
#[derive(Debug, Clone, Copy, PartialEq, Eq, Structural)]
pub enum CapabilityKind {
    Params,
    AudioPorts,
    State,
    StateContext,
    Gui,
}

impl CapabilityKind {
    /// The identifier the host asks for each capability by.
    pub open spec fn spec_id(self) -> Seq<u8> {
        match self {
            CapabilityKind::Params => seq![99u8, 108u8, 97u8, 112u8, 46u8, 112u8, 97u8, 114u8, 97u8, 109u8, 115u8],  // "clap.params"
            CapabilityKind::AudioPorts => seq![99u8, 108u8, 97u8, 112u8, 46u8, 97u8, 117u8, 100u8, 105u8, 111u8, 45u8, 112u8, 111u8, 114u8, 116u8, 115u8],  // "clap.audio-ports"
            CapabilityKind::State => seq![99u8, 108u8, 97u8, 112u8, 46u8, 115u8, 116u8, 97u8, 116u8, 101u8],  // "clap.state"
            CapabilityKind::StateContext => seq![99u8, 108u8, 97u8, 112u8, 46u8, 115u8, 116u8, 97u8, 116u8, 101u8, 45u8, 99u8, 111u8, 110u8, 116u8, 101u8, 120u8, 116u8, 47u8, 50u8],  // "clap.state-context/2"
            CapabilityKind::Gui => seq![99u8, 108u8, 97u8, 112u8, 46u8, 103u8, 117u8, 105u8],  // "clap.gui"
        }
    }

    pub fn id(&self) -> (r: &'static [u8])
        ensures
            r@ == self.spec_id(),
    {
        match self {
            CapabilityKind::Params => ext_id_params(),
            CapabilityKind::AudioPorts => ext_id_audio_ports(),
            CapabilityKind::State => ext_id_state(),
            CapabilityKind::StateContext => ext_id_state_context(),
            CapabilityKind::Gui => ext_id_gui(),
        }
    }
}

/// The marker of the params capability.
pub struct PluginParams;

impl PluginParams {
    pub fn kind() -> (r: CapabilityKind)
        ensures
            r == CapabilityKind::Params,
    {
        CapabilityKind::Params
    }
}

/// The marker of the audio ports capability.
pub struct PluginAudioPorts;

impl PluginAudioPorts {
    pub fn kind() -> (r: CapabilityKind)
        ensures
            r == CapabilityKind::AudioPorts,
    {
        CapabilityKind::AudioPorts
    }
}

/// The marker of the state capability.
pub struct PluginState;

impl PluginState {
    pub fn kind() -> (r: CapabilityKind)
        ensures
            r == CapabilityKind::State,
    {
        CapabilityKind::State
    }
}

/// The marker of the state context capability.
pub struct PluginStateContext;

impl PluginStateContext {
    pub fn kind() -> (r: CapabilityKind)
        ensures
            r == CapabilityKind::StateContext,
    {
        CapabilityKind::StateContext
    }
}

/// The marker of the gui capability.
pub struct PluginGUI;

impl PluginGUI {
    pub fn kind() -> (r: CapabilityKind)
        ensures
            r == CapabilityKind::Gui,
    {
        CapabilityKind::Gui
    }
}

/// The capabilities a plugin type declares.
#[derive(Debug, Clone, Copy, PartialEq, Eq, Structural)]
pub struct CapabilitySet {
    pub params: bool,
    pub audio_ports: bool,
    pub state: bool,
    pub state_context: bool,
    pub gui: bool,
}

impl CapabilitySet {
    pub open spec fn contains(self, kind: CapabilityKind) -> bool {
        match kind {
            CapabilityKind::Params => self.params,
            CapabilityKind::AudioPorts => self.audio_ports,
            CapabilityKind::State => self.state,
            CapabilityKind::StateContext => self.state_context,
            CapabilityKind::Gui => self.gui,
        }
    }
}

/// The capability an identifier names.
pub open spec fn capability_of_id(id: Seq<u8>) -> Option<CapabilityKind> {
    if id == seq![99u8, 108u8, 97u8, 112u8, 46u8, 112u8, 97u8, 114u8, 97u8, 109u8, 115u8] {
        Some(CapabilityKind::Params)
    } else if id == seq![99u8, 108u8, 97u8, 112u8, 46u8, 97u8, 117u8, 100u8, 105u8, 111u8, 45u8, 112u8, 111u8, 114u8, 116u8, 115u8] {
        Some(CapabilityKind::AudioPorts)
    } else if id == seq![99u8, 108u8, 97u8, 112u8, 46u8, 115u8, 116u8, 97u8, 116u8, 101u8] {
        Some(CapabilityKind::State)
    } else if id == seq![99u8, 108u8, 97u8, 112u8, 46u8, 115u8, 116u8, 97u8, 116u8, 101u8, 45u8, 99u8, 111u8, 110u8, 116u8, 101u8, 120u8, 116u8, 47u8, 50u8] {
        Some(CapabilityKind::StateContext)
    } else if id == seq![99u8, 108u8, 97u8, 112u8, 46u8, 103u8, 117u8, 105u8] {
        Some(CapabilityKind::Gui)
    } else {
        None
    }
}

/// What a capability query answers: the capability that the identifier,
/// read as a bounded C string, names, if the plugin declares it.
pub open spec fn capability_query(id: Seq<u8>, declared: CapabilitySet) -> Option<CapabilityKind> {
    match crate::strings::c_string_outcome(id, 256) {
        Ok(name) => match capability_of_id(name) {
            Some(kind) => if declared.contains(kind) {
                Some(kind)
            } else {
                None
            },
            None => None,
        },
        Err(_) => None,
    }
}

/// Answers a capability query for a plugin that declares `declared`.
pub fn query_capability(id: &[u8], declared: &CapabilitySet) -> (r: Option<CapabilityKind>)
    ensures
        r == capability_query(id@, *declared),
{
    let id = match PluginExtensionID::try_from_bytes(id) {
        Ok(v) => v,
        Err(_) => return None,
    };
    let kind = if id.is(ext_id_params()) {
        Some(CapabilityKind::Params)
    } else if id.is(ext_id_audio_ports()) {
        Some(CapabilityKind::AudioPorts)
    } else if id.is(ext_id_state()) {
        Some(CapabilityKind::State)
    } else if id.is(ext_id_state_context()) {
        Some(CapabilityKind::StateContext)
    } else if id.is(ext_id_gui()) {
        Some(CapabilityKind::Gui)
    } else {
        None
    };
    match kind {
        Some(k) => {
            let present = match k {
                CapabilityKind::Params => declared.params,
                CapabilityKind::AudioPorts => declared.audio_ports,
                CapabilityKind::State => declared.state,
                CapabilityKind::StateContext => declared.state_context,
                CapabilityKind::Gui => declared.gui,
            };
            if present {
                Some(k)
            } else {
                None
            }
        },
        None => None,
    }
}

/// Identifiers map to capabilities exactly: each capability's identifier
/// names that capability and no other.
pub proof fn lemma_capability_ids_exact(kind: CapabilityKind, other: CapabilityKind)
    ensures
        capability_of_id(kind.spec_id()) == Some(kind),
        kind != other ==> kind.spec_id() != other.spec_id(),
{
    assert(capability_of_id(kind.spec_id()) == Some(kind)) by {
        match kind {
            CapabilityKind::Params => { assert(seq![99u8, 108u8, 97u8, 112u8, 46u8, 112u8, 97u8, 114u8, 97u8, 109u8, 115u8].len() == 11); },
            CapabilityKind::AudioPorts => { assert(seq![99u8, 108u8, 97u8, 112u8, 46u8, 97u8, 117u8, 100u8, 105u8, 111u8, 45u8, 112u8, 111u8, 114u8, 116u8, 115u8].len() == 16); },
            CapabilityKind::State => { assert(seq![99u8, 108u8, 97u8, 112u8, 46u8, 115u8, 116u8, 97u8, 116u8, 101u8].len() == 10); },
            CapabilityKind::StateContext => { assert(seq![99u8, 108u8, 97u8, 112u8, 46u8, 115u8, 116u8, 97u8, 116u8, 101u8, 45u8, 99u8, 111u8, 110u8, 116u8, 101u8, 120u8, 116u8, 47u8, 50u8].len() == 20); },
            CapabilityKind::Gui => { assert(seq![99u8, 108u8, 97u8, 112u8, 46u8, 103u8, 117u8, 105u8].len() == 8); },
        }
    }
    assert(capability_of_id(other.spec_id()) == Some(other)) by {
        match other {
            CapabilityKind::Params => { assert(seq![99u8, 108u8, 97u8, 112u8, 46u8, 112u8, 97u8, 114u8, 97u8, 109u8, 115u8].len() == 11); },
            CapabilityKind::AudioPorts => { assert(seq![99u8, 108u8, 97u8, 112u8, 46u8, 97u8, 117u8, 100u8, 105u8, 111u8, 45u8, 112u8, 111u8, 114u8, 116u8, 115u8].len() == 16); },
            CapabilityKind::State => { assert(seq![99u8, 108u8, 97u8, 112u8, 46u8, 115u8, 116u8, 97u8, 116u8, 101u8].len() == 10); },
            CapabilityKind::StateContext => { assert(seq![99u8, 108u8, 97u8, 112u8, 46u8, 115u8, 116u8, 97u8, 116u8, 101u8, 45u8, 99u8, 111u8, 110u8, 116u8, 101u8, 120u8, 116u8, 47u8, 50u8].len() == 20); },
            CapabilityKind::Gui => { assert(seq![99u8, 108u8, 97u8, 112u8, 46u8, 103u8, 117u8, 105u8].len() == 8); },
        }
    }
}

/// Two queries of one plugin for one identifier answer the same capability,
/// and so lead to the same vtable: the answer depends on the identifier and the
/// declared capabilities alone.
pub proof fn lemma_query_stable(id: Seq<u8>, declared: CapabilitySet, first: Option<CapabilityKind>, second: Option<CapabilityKind>)
    requires
        first == capability_query(id, declared),
        second == capability_query(id, declared),
    ensures
        first == second,
        first matches Some(k) ==> declared.contains(k) && crate::strings::c_string_outcome(id, 256) == Ok::<Seq<u8>, crate::strings::FromPtrError>(k.spec_id()),
{
    if let Some(k) = first {
        if let Ok(name) = crate::strings::c_string_outcome(id, 256) {
            lemma_capability_ids_exact(k, k);
            assert(capability_of_id(name) == Some(k));
            assert(name == k.spec_id()) by {
                match k {
                    CapabilityKind::Params => {},
                    CapabilityKind::AudioPorts => {},
                    CapabilityKind::State => {},
                    CapabilityKind::StateContext => {},
                    CapabilityKind::Gui => {},
                }
            }
        }
    }
}

} // verus!

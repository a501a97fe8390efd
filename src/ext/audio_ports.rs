//! The audio-ports capability.
use crate::ext::{write_result, ExtensionPrototype};
use clap_sys::ext::audio_ports::clap_audio_port_info;
use vstd::prelude::*;

verus! {

/// clap_sys's description of an audio port, copied through unread.
#[verifier::external_type_specification]
#[verifier::external_body]
pub struct ExAudioPortInfo(clap_audio_port_info);

/// What a plugin implements to describe its audio ports.
pub trait PluginAudioPortsPrototype: ExtensionPrototype {
    /// The number of input or output ports.
    fn count(&self, is_input: bool) -> u32;

    /// The description of a port; none past the end.
    fn get(&self, index: u32, is_input: bool) -> Option<&clap_audio_port_info>;
}

/// The number of ports, 0 without the capability.
pub fn count<E: PluginAudioPortsPrototype>(ext: Option<&E>, is_input: bool) -> (r: u32)
    ensures
        ext is None ==> r == 0,
{
    match ext {
        Some(e) => e.count(is_input),
        None => 0,
    }
}

/// Copies a port's description into `out`; false, with `out` untouched,
/// without the capability or past the end.
pub fn get<E: PluginAudioPortsPrototype>(ext: Option<&E>, index: u32, is_input: bool, out: &mut clap_audio_port_info) -> (r: bool)
    ensures
        ext is None ==> !r,
        !r ==> *final(out) == *old(out),
{
    match ext {
        Some(e) => write_result(e.get(index, is_input), out),
        None => false,
    }
}

} // verus!

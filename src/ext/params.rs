//! The parameters capability.
use crate::ext::{write_result, write_value, ExtensionPrototype};
use crate::strings::{c_string_outcome, PluginParameterValueText};
use clap_sys::events::{clap_input_events, clap_output_events};
use clap_sys::ext::params::clap_param_info;
use vstd::prelude::*;

verus! {

/// clap_sys's description of a parameter, copied through unread.
#[verifier::external_type_specification]
#[verifier::external_body]
pub struct ExParamInfo(clap_param_info);

/// clap_sys's queue of events from the host, handed through unread.
#[verifier::external_type_specification]
#[verifier::external_body]
pub struct ExInputEvents(clap_input_events);

/// clap_sys's queue of events to the host, handed through unread.
#[verifier::external_type_specification]
#[verifier::external_body]
pub struct ExOutputEvents(clap_output_events);

/// A double-precision value carried through this layer as its IEEE-754 bit
/// pattern; the layer never computes with it.
#[derive(Debug, Clone, Copy, PartialEq, Eq, Structural)]
pub struct FloatBits(pub u64);

/// What a plugin implements to expose its parameters.
pub trait PluginParamsPrototype: ExtensionPrototype {
    /// The number of parameters.
    fn count(&self) -> u32;

    /// The description of the parameter at an index; none past the end.
    fn get_info(&self, param_index: u32) -> Option<&clap_param_info>;

    /// The value of a parameter; none for an unknown id.
    fn get_value(&self, param_id: u32) -> Option<FloatBits>;

    /// Writes the text of a value into `dst`, and reports how many bytes it took;
    /// none for an unknown id.
    fn value_to_text(&self, param_id: u32, value: FloatBits, dst: &mut [u8]) -> Option<usize>;

    /// The value that a text stands for; none for an unknown id or text.
    fn text_to_value(&self, param_id: u32, text: &PluginParameterValueText) -> Option<FloatBits>;

    /// Takes the host's events and hands back its own, outside processing.
    fn flush(&self, plugin: &Self::Parent, in_: &clap_input_events, out: &clap_output_events) -> Option<()>;
}

/// The parameter count, 0 without the capability.
pub fn count<E: PluginParamsPrototype>(ext: Option<&E>) -> (r: u32)
    ensures
        ext is None ==> r == 0,
{
    match ext {
        Some(e) => e.count(),
        None => 0,
    }
}

/// Copies a parameter's description into `out`; false, with `out` untouched,
/// without the capability or past the end.
pub fn get_info<E: PluginParamsPrototype>(ext: Option<&E>, param_index: u32, out: &mut clap_param_info) -> (r: bool)
    ensures
        ext is None ==> !r,
        !r ==> *final(out) == *old(out),
{
    match ext {
        Some(e) => write_result(e.get_info(param_index), out),
        None => false,
    }
}

/// Writes a parameter's value into `out`; false, with `out` untouched, without
/// the capability or for an unknown id.
pub fn get_value<E: PluginParamsPrototype>(ext: Option<&E>, param_id: u32, out: &mut FloatBits) -> (r: bool)
    ensures
        ext is None ==> !r,
        !r ==> *final(out) == *old(out),
{
    match ext {
        Some(e) => write_value(e.get_value(param_id), out),
        None => false,
    }
}

/// Whether a reported text length is a success: there is one, and it fits
/// in the caller's buffer.
pub fn text_fits(reported: Option<usize>, capacity: usize) -> (r: bool)
    ensures
        r == (reported matches Some(n) && n <= capacity),
{
    match reported {
        Some(n) => n <= capacity,
        None => false,
    }
}

/// Formats a value into the caller's buffer `dst`, whose length is the
/// capacity the caller declared. Succeeds, giving the length the capability
/// reported, only if that length fits the capacity; a capability that
/// reports more than fits gets a failure.
pub fn value_to_text<E: PluginParamsPrototype>(ext: Option<&E>, param_id: u32, value: FloatBits, dst: &mut [u8]) -> (r: Option<usize>)
    ensures
        ext is None ==> r is None && final(dst)@ == old(dst)@,
        r matches Some(n) ==> n <= old(dst)@.len(),
{
    match ext {
        Some(e) => {
            let capacity = dst.len();
            let reported = e.value_to_text(param_id, value, dst);
            if text_fits(reported, capacity) {
                reported
            } else {
                None
            }
        },
        None => None,
    }
}

/// Reads a value from its text into `out`, the text given as the bytes that
/// can be read at its pointer; false, with `out` untouched, without the
/// capability, for a text that is not a bounded C string, or for an unknown id
/// or text.
pub fn text_to_value<E: PluginParamsPrototype>(ext: Option<&E>, param_id: u32, text: &[u8], out: &mut FloatBits) -> (r: bool)
    ensures
        ext is None || c_string_outcome(text@, 256) is Err ==> !r,
        !r ==> *final(out) == *old(out),
{
    match ext {
        Some(e) => match PluginParameterValueText::try_from_bytes(text) {
            Ok(t) => write_value(e.text_to_value(param_id, &t), out),
            Err(_) => false,
        },
        None => false,
    }
}

/// Hands the event queues to the capability; nothing without the plugin, the
/// capability, or either queue.
pub fn flush<E: PluginParamsPrototype>(plugin: Option<&E::Parent>, ext: Option<&E>, in_: Option<&clap_input_events>, out: Option<&clap_output_events>) -> (r: bool)
    ensures
        r == (plugin is Some && ext is Some && in_ is Some && out is Some),
{
    match (plugin, ext, in_, out) {
        (Some(p), Some(e), Some(i), Some(o)) => {
            let _ = e.flush(p, i, o);
            true
        },
        _ => false,
    }
}

} // verus!

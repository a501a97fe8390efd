//! The state capability: saving and loading a plugin's state through host streams.
use crate::ext::ExtensionPrototype;
use crate::stream::{InputStream, OutputStream};
use vstd::prelude::*;

verus! {

/// What a plugin implements to persist its state.
pub trait PluginStatePrototype: ExtensionPrototype {
    /// Saves the state into the stream; whether it was saved correctly.
    fn save<W: OutputStream>(&self, output_stream: &mut W) -> bool;

    /// Loads the state from the stream; whether it was restored correctly.
    fn load<R: InputStream>(&self, input_stream: &mut R) -> bool;
}

/// Saves through the capability; false without the capability or the stream.
pub fn save<E: PluginStatePrototype, W: OutputStream>(ext: Option<&E>, output_stream: Option<&mut W>) -> (r: bool)
    ensures
        ext is None || output_stream is None ==> !r,
{
    match (ext, output_stream) {
        (Some(e), Some(s)) => e.save(s),
        _ => false,
    }
}

/// Loads through the capability; false without the capability or the stream.
pub fn load<E: PluginStatePrototype, R: InputStream>(ext: Option<&E>, input_stream: Option<&mut R>) -> (r: bool)
    ensures
        ext is None || input_stream is None ==> !r,
{
    match (ext, input_stream) {
        (Some(e), Some(s)) => e.load(s),
        _ => false,
    }
}

} // verus!

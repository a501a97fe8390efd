//! The state-context capability: saving and loading with the reason for it.
use crate::ext::ExtensionPrototype;
use crate::stream::{InputStream, OutputStream};
use vstd::prelude::*;

verus! {

/// Relies on clap_sys::ext::state_context::CLAP_STATE_CONTEXT_FOR_PRESET: the value 1.
#[verifier::external_body]
fn context_for_preset() -> (r: u32)
    ensures
        r == 1,
{
    clap_sys::ext::state_context::CLAP_STATE_CONTEXT_FOR_PRESET
}

/// Relies on clap_sys::ext::state_context::CLAP_STATE_CONTEXT_FOR_DUPLICATE: the value 2.
#[verifier::external_body]
fn context_for_duplicate() -> (r: u32)
    ensures
        r == 2,
{
    clap_sys::ext::state_context::CLAP_STATE_CONTEXT_FOR_DUPLICATE
}

/// Relies on clap_sys::ext::state_context::CLAP_STATE_CONTEXT_FOR_PROJECT: the value 3.
#[verifier::external_body]
fn context_for_project() -> (r: u32)
    ensures
        r == 3,
{
    clap_sys::ext::state_context::CLAP_STATE_CONTEXT_FOR_PROJECT
}

/// Why the state is saved or loaded.
#[derive(Debug, Clone, Copy, PartialEq, Eq, Structural)]
pub enum PluginStateContextVariant {
    /// Storing and loading a state as a preset.
    Preset,
    /// Duplicating a plugin instance.
    Duplicate,
    /// Storing and loading a state within a project or song.
    Project,
}

impl PluginStateContextVariant {
    /// The raw context type of each variant.
    pub open spec fn spec_raw(self) -> u32 {
        match self {
            PluginStateContextVariant::Preset => 1,
            PluginStateContextVariant::Duplicate => 2,
            PluginStateContextVariant::Project => 3,
        }
    }

    pub fn raw(&self) -> (r: u32)
        ensures
            r == self.spec_raw(),
    {
        match self {
            PluginStateContextVariant::Preset => context_for_preset(),
            PluginStateContextVariant::Duplicate => context_for_duplicate(),
            PluginStateContextVariant::Project => context_for_project(),
        }
    }

    /// The variant with the given raw context type; none for another value.
    pub fn from_raw(raw: u32) -> (r: Option<PluginStateContextVariant>)
        ensures
            r matches Some(v) ==> v.spec_raw() == raw,
            r is None <==> !(1 <= raw <= 3),
    {
        if raw == context_for_preset() {
            Some(PluginStateContextVariant::Preset)
        } else if raw == context_for_duplicate() {
            Some(PluginStateContextVariant::Duplicate)
        } else if raw == context_for_project() {
            Some(PluginStateContextVariant::Project)
        } else {
            None
        }
    }
}

/// What a plugin implements to persist its state with regard to the context.
pub trait PluginStateContextPrototype: ExtensionPrototype {
    /// Saves the state into the stream for the given context; whether it was saved correctly.
    fn save<W: OutputStream>(&self, output_stream: &mut W, variant: PluginStateContextVariant) -> bool;

    /// Loads the state from the stream for the given context; whether it was restored correctly.
    fn load<R: InputStream>(&self, input_stream: &mut R, variant: PluginStateContextVariant) -> bool;
}

/// Saves through the capability; false without the capability or the stream,
/// or for a context type that names no variant.
pub fn save<E: PluginStateContextPrototype, W: OutputStream>(ext: Option<&E>, output_stream: Option<&mut W>, context_type: u32) -> (r: bool)
    ensures
        ext is None || output_stream is None ==> !r,
        !(1 <= context_type <= 3) ==> !r,
{
    match (ext, output_stream) {
        (Some(e), Some(s)) => match PluginStateContextVariant::from_raw(context_type) {
            Some(v) => e.save(s, v),
            None => false,
        },
        _ => false,
    }
}

/// Loads through the capability; false without the capability or the stream,
/// or for a context type that names no variant.
pub fn load<E: PluginStateContextPrototype, R: InputStream>(ext: Option<&E>, input_stream: Option<&mut R>, context_type: u32) -> (r: bool)
    ensures
        ext is None || input_stream is None ==> !r,
        !(1 <= context_type <= 3) ==> !r,
{
    match (ext, input_stream) {
        (Some(e), Some(s)) => match PluginStateContextVariant::from_raw(context_type) {
            Some(v) => e.load(s, v),
            None => false,
        },
        _ => false,
    }
}

} // verus!

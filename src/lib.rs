//! Typed, verified dispatch core for a CLAP-style plugin binding layer.
//!
//! The host talks to a plugin through fixed C vtables; every call goes through
//! the same four steps: recover the plugin, recover the capability, marshal the
//! inputs, invoke and marshal the outputs. The functions here hold the decisions
//! of those steps over safe values; the unsafe pointer glue sits around them.
use vstd::prelude::*;

pub mod entry;
pub mod ext;
pub mod factory;
pub mod plugin;
pub mod status;
pub mod stream;
pub mod strings;

verus! {

/// A value that is backed by a fixed C layout, its base.
pub trait AbstractPrototype {
    type Base;

    /// The base this value is backed by; a verified implementation states it.
    closed spec fn spec_base(&self) -> &Self::Base {
        arbitrary()
    }

    fn as_base(&self) -> (r: &Self::Base)
        ensures
            r == self.spec_base(),
    ;
}

/// A typed handle on the base of a prototype, as published to the host.
pub struct ProtoPtr<'host, E: AbstractPrototype> {
    base: &'host E::Base,
}

impl<'host, E: AbstractPrototype> ProtoPtr<'host, E> {
    pub closed spec fn spec_base(&self) -> &'host E::Base {
        self.base
    }

    /// The handle on a base that lives as long as the host may use it.
    pub fn from_base(base: &'host E::Base) -> (r: Self)
        ensures
            r.spec_base() == base,
    {
        ProtoPtr { base }
    }

    /// The handle on the base of a prototype.
    pub fn from_prototype(value: &'host E) -> (r: Self)
        ensures
            r.spec_base() == value.spec_base(),
    {
        ProtoPtr { base: value.as_base() }
    }

    pub fn base(&self) -> (r: &'host E::Base)
        ensures
            r == self.spec_base(),
    {
        self.base
    }
}

/// A borrowed pointer to a value of any type, known to be valid while the host holds it.
pub struct AbstractPointer<'host, A> {
    target: &'host A,
}

impl<'host, A> AbstractPointer<'host, A> {
    pub closed spec fn spec_target(&self) -> &'host A {
        self.target
    }

    pub fn new(target: &'host A) -> (r: Self)
        ensures
            r.spec_target() == target,
    {
        AbstractPointer { target }
    }

    pub fn target(&self) -> (r: &'host A)
        ensures
            r == self.spec_target(),
    {
        self.target
    }
}

/// Adds two counters; the sum must fit in 64 bits.
pub fn add(left: u64, right: u64) -> (r: u64)
    requires
        left + right <= u64::MAX,
    ensures
        r == left + right,
{
    left + right
}

} // verus!

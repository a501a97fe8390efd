//! Result codes that cross the C boundary.
//!
//! The C ABI gives a processing call one integer to report its outcome. The
//! types here name those outcomes and pack the extra error detail into the
//! small codes the boundary can carry.
use vstd::prelude::*;

verus! {

/// Relies on clap_sys::process::CLAP_PROCESS_ERROR: the value 0.
#[verifier::external_body]
fn process_error_code() -> (r: i32)
    ensures
        r == 0,
{
    clap_sys::process::CLAP_PROCESS_ERROR
}

/// Relies on clap_sys::process::CLAP_PROCESS_CONTINUE: the value 1.
#[verifier::external_body]
fn process_continue_code() -> (r: i32)
    ensures
        r == 1,
{
    clap_sys::process::CLAP_PROCESS_CONTINUE
}

/// Relies on clap_sys::process::CLAP_PROCESS_CONTINUE_IF_NOT_QUIET: the value 2.
#[verifier::external_body]
fn process_continue_if_not_quiet_code() -> (r: i32)
    ensures
        r == 2,
{
    clap_sys::process::CLAP_PROCESS_CONTINUE_IF_NOT_QUIET
}

/// Relies on clap_sys::process::CLAP_PROCESS_TAIL: the value 3.
#[verifier::external_body]
fn process_tail_code() -> (r: i32)
    ensures
        r == 3,
{
    clap_sys::process::CLAP_PROCESS_TAIL
}

/// Relies on clap_sys::process::CLAP_PROCESS_SLEEP: the value 4.
#[verifier::external_body]
fn process_sleep_code() -> (r: i32)
    ensures
        r == 4,
{
    clap_sys::process::CLAP_PROCESS_SLEEP
}

/// The kind of entity an error is about; it takes the low two bits of a code.
#[derive(Debug, Clone, Copy, PartialEq, Eq, Structural, PartialOrd, Ord)]
pub enum EntityKind {
    Plugin,
    Extension,
    Host,
    Factory,
}

impl EntityKind {
    /// The code of each kind.
    pub open spec fn spec_code(self) -> u8 {
        match self {
            EntityKind::Plugin => 0,
            EntityKind::Extension => 1,
            EntityKind::Host => 2,
            EntityKind::Factory => 3,
        }
    }

    pub fn code(&self) -> (r: u8)
        ensures
            r == self.spec_code(),
    {
        match self {
            EntityKind::Plugin => 0,
            EntityKind::Extension => 1,
            EntityKind::Host => 2,
            EntityKind::Factory => 3,
        }
    }

    /// The kind with the given code; codes above 3 name no kind.
    pub fn from_u8(value: u8) -> (r: EntityKind)
        requires
            value <= 3,
        ensures
            r.spec_code() == value,
    {
        if value == 0 {
            EntityKind::Plugin
        } else if value == 1 {
            EntityKind::Extension
        } else if value == 2 {
            EntityKind::Host
        } else {
            EntityKind::Factory
        }
    }

    /// The kind with the given code, given as a signed byte; negative codes name no kind.
    pub fn from_i8(value: i8) -> (r: EntityKind)
        requires
            0 <= value <= 3,
        ensures
            r.spec_code() == value,
    {
        EntityKind::from_u8(value as u8)
    }
}

/// An error code whose error class says which value a call could not reach.
pub const CLAP_ERROR_KIND_NOT_FOUND: i32 = 0;

/// An error code whose error class says that initialisation failed.
pub const CLAP_ERROR_INIT_FAILED: i32 = 1;

/// An error with the kind of entity it concerns.
#[derive(Debug, Clone, Copy, PartialEq, Eq, Structural, PartialOrd, Ord)]
pub enum ClapErrorKind {
    NotFound(EntityKind),
    InitFailed(EntityKind),
    Unknown(EntityKind),
}

impl ClapErrorKind {
    /// The tag byte of each error class.
    pub open spec fn spec_tag(self) -> u8 {
        match self {
            ClapErrorKind::NotFound(_) => 0,
            ClapErrorKind::InitFailed(_) => 1,
            ClapErrorKind::Unknown(_) => 0xff,
        }
    }

    pub open spec fn entity(self) -> EntityKind {
        match self {
            ClapErrorKind::NotFound(e) => e,
            ClapErrorKind::InitFailed(e) => e,
            ClapErrorKind::Unknown(e) => e,
        }
    }

    /// The packed code: the tag in the low byte, the entity's code in the high byte.
    pub open spec fn spec_packed(self) -> u16 {
        (self.spec_tag() as u16 + 256 * (self.entity().spec_code() as u16)) as u16
    }

    pub fn packed(&self) -> (r: u16)
        ensures
            r == self.spec_packed(),
    {
        let (tag, entity): (u16, &EntityKind) = match self {
            ClapErrorKind::NotFound(e) => (0, e),
            ClapErrorKind::InitFailed(e) => (1, e),
            ClapErrorKind::Unknown(e) => (0xff, e),
        };
        tag + 256 * (entity.code() as u16)
    }
}

impl From<ClapErrorKind> for u16 {
    fn from(value: ClapErrorKind) -> (r: u16) {
        value.packed()
    }
}

impl vstd::std_specs::convert::FromSpecImpl<ClapErrorKind> for u16 {
    open spec fn obeys_from_spec() -> bool {
        true
    }

    open spec fn from_spec(v: ClapErrorKind) -> u16 {
        v.spec_packed()
    }
}

/// What a processing call reports.
#[derive(Debug, Clone, Copy, PartialEq, Eq, Structural, PartialOrd, Ord)]
pub enum ProcessResult {
    /// Keep going.
    Continue,
    /// Keep going while there is input or output that is not silent.
    ContinueIfNeeded,
    /// Nothing to do until new input comes.
    Sleep,
    /// Keep going while the tail rings out.
    Tail,
    /// The call failed; the detail, if any, is not carried by the status integer.
    Error(Option<ClapErrorKind>),
}

/// The statuses that the C ABI defines.
pub open spec fn is_process_status(value: i32) -> bool {
    0 <= value <= 4
}

impl ProcessResult {
    /// The status integer of each result.
    pub open spec fn spec_status(self) -> i32 {
        match self {
            ProcessResult::Error(_) => 0,
            ProcessResult::Continue => 1,
            ProcessResult::ContinueIfNeeded => 2,
            ProcessResult::Tail => 3,
            ProcessResult::Sleep => 4,
        }
    }

    pub fn status(&self) -> (r: i32)
        ensures
            r == self.spec_status(),
    {
        match self {
            ProcessResult::Error(_) => process_error_code(),
            ProcessResult::Continue => process_continue_code(),
            ProcessResult::ContinueIfNeeded => process_continue_if_not_quiet_code(),
            ProcessResult::Tail => process_tail_code(),
            ProcessResult::Sleep => process_sleep_code(),
        }
    }

    /// Reads a status integer; an error status carries no detail.
    pub fn from_status(value: i32) -> (r: ProcessResult)
        requires
            is_process_status(value),
        ensures
            r.spec_status() == value,
            value == 0 ==> r == ProcessResult::Error(None),
    {
        if value == process_continue_code() {
            ProcessResult::Continue
        } else if value == process_continue_if_not_quiet_code() {
            ProcessResult::ContinueIfNeeded
        } else if value == process_sleep_code() {
            ProcessResult::Sleep
        } else if value == process_tail_code() {
            ProcessResult::Tail
        } else {
            ProcessResult::Error(None)
        }
    }
}

} // verus!

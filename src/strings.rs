//! Typed views of NUL-terminated C strings.
//!
//! A view borrows the bytes of a string up to, not including, its terminator.
//! Each role (identifier, name, path, ...) is its own type, so that strings
//! that mean different things cannot be mixed at a call site, and each role
//! carries the maximum size that the ABI gives its buffers.
use core::marker::PhantomData;
use vstd::prelude::*;

verus! {

/// Relies on clap_sys::string_sizes::CLAP_NAME_SIZE: the value 256.
#[verifier::external_body]
fn name_size() -> (r: usize)
    ensures
        r == 256,
{
    clap_sys::string_sizes::CLAP_NAME_SIZE
}

/// Relies on clap_sys::string_sizes::CLAP_PATH_SIZE: the value 1024.
#[verifier::external_body]
fn path_size() -> (r: usize)
    ensures
        r == 1024,
{
    clap_sys::string_sizes::CLAP_PATH_SIZE
}

/// Why a C string could not be read.
#[derive(Debug, Clone, Copy, PartialEq, Eq, Structural)]
pub enum FromPtrError {
    /// Reading failed at this offset before a terminator was found.
    Malformed(usize),
    /// No terminator within the role's maximum size.
    MissingNul,
}

/// No byte of `s` is a terminator.
pub open spec fn nul_free(s: Seq<u8>) -> bool {
    forall|i: int| 0 <= i < s.len() ==> s[i] != 0
}

/// The offset of the first terminator in `s`, or its length if it has none.
pub open spec fn nul_position(s: Seq<u8>) -> nat
    decreases s.len(),
{
    if s.len() == 0 || s[0] == 0 {
        0
    } else {
        1 + nul_position(s.drop_first())
    }
}

/// What reading a C string from `readable` gives, where `readable` is the run
/// of bytes that can be read at the pointer and `bound` the role's maximum
/// size: the bytes before the first terminator if it lies within both, else
/// the offset at which reading failed, else a missing terminator.
pub open spec fn c_string_outcome(readable: Seq<u8>, bound: nat) -> Result<Seq<u8>, FromPtrError> {
    let k = nul_position(readable);
    if k < readable.len() && k < bound {
        Ok(readable.take(k as int))
    } else if readable.len() < bound {
        Err(FromPtrError::Malformed(readable.len() as usize))
    } else {
        Err(FromPtrError::MissingNul)
    }
}

/// The fixed-size buffer of `n` bytes that holds `s`: its first `n` bytes,
/// then zeros.
pub open spec fn fixed_buffer(s: Seq<u8>, n: nat) -> Seq<u8> {
    Seq::new(n, |i: int| if i < s.len() { s[i] } else { 0u8 })
}

/// `n` zero bytes.
pub open spec fn zeros(n: nat) -> Seq<u8> {
    Seq::new(n, |i: int| 0u8)
}

/// The first terminator of `s` stands at `k` when none comes before it.
pub proof fn lemma_nul_position(s: Seq<u8>, k: nat)
    requires
        k <= s.len(),
        forall|j: int| 0 <= j < k ==> s[j] != 0,
        k == s.len() || s[k as int] == 0,
    ensures
        nul_position(s) == k,
    decreases k,
{
    if k > 0 {
        lemma_nul_position(s.drop_first(), (k - 1) as nat);
    }
}

/// The first terminator of `s` has no terminator before it.
pub proof fn lemma_nul_position_props(s: Seq<u8>)
    ensures
        nul_position(s) <= s.len(),
        forall|j: int| 0 <= j < nul_position(s) ==> s[j] != 0,
        nul_position(s) < s.len() ==> s[nul_position(s) as int] == 0,
    decreases s.len(),
{
    if s.len() > 0 && s[0] != 0 {
        lemma_nul_position_props(s.drop_first());
        assert forall|j: int| 0 <= j < nul_position(s) implies s[j] != 0 by {
            if j > 0 {
                assert(s[j] == s.drop_first()[j - 1]);
            }
        }
    }
}

/// A role of a C string, with the maximum size of its buffers.
pub trait StringRole {
    spec fn bound() -> nat;

    fn max_len() -> (r: usize)
        ensures
            r == Self::bound(),
            r > 0,
    ;
}

/// The role of a plugin identifier.
pub struct IdRole;

impl StringRole for IdRole {
    open spec fn bound() -> nat {
        256
    }

    fn max_len() -> (r: usize) {
        name_size()
    }
}

/// A view of a plugin identifier.
pub type PluginID<'a> = CStrView<'a, IdRole>;

/// The role of a display name.
pub struct NameRole;

impl StringRole for NameRole {
    open spec fn bound() -> nat {
        256
    }

    fn max_len() -> (r: usize) {
        name_size()
    }
}

/// A view of a display name.
pub type PluginName<'a> = CStrView<'a, NameRole>;

/// The role of a vendor name.
pub struct VendorRole;

impl StringRole for VendorRole {
    open spec fn bound() -> nat {
        256
    }

    fn max_len() -> (r: usize) {
        name_size()
    }
}

/// A view of a vendor name.
pub type PluginVendor<'a> = CStrView<'a, VendorRole>;

/// The role of a URL.
pub struct UrlRole;

impl StringRole for UrlRole {
    open spec fn bound() -> nat {
        1024
    }

    fn max_len() -> (r: usize) {
        path_size()
    }
}

/// A view of a URL.
pub type PluginURL<'a> = CStrView<'a, UrlRole>;

/// The role of a version string.
pub struct VersionRole;

impl StringRole for VersionRole {
    open spec fn bound() -> nat {
        256
    }

    fn max_len() -> (r: usize) {
        name_size()
    }
}

/// A view of a version string.
pub type PluginVersion<'a> = CStrView<'a, VersionRole>;

/// The role of a description.
pub struct DescriptionRole;

impl StringRole for DescriptionRole {
    open spec fn bound() -> nat {
        1024
    }

    fn max_len() -> (r: usize) {
        path_size()
    }
}

/// A view of a description.
pub type PluginDescription<'a> = CStrView<'a, DescriptionRole>;

/// The role of a file path.
pub struct PathRole;

impl StringRole for PathRole {
    open spec fn bound() -> nat {
        1024
    }

    fn max_len() -> (r: usize) {
        path_size()
    }
}

/// A view of a file path.
pub type PluginPath<'a> = CStrView<'a, PathRole>;

/// The role of a capability identifier.
pub struct ExtensionIdRole;

impl StringRole for ExtensionIdRole {
    open spec fn bound() -> nat {
        256
    }

    fn max_len() -> (r: usize) {
        name_size()
    }
}

/// A view of a capability identifier.
pub type PluginExtensionID<'a> = CStrView<'a, ExtensionIdRole>;

/// The role of a feature tag.
pub struct FeatureRole;

impl StringRole for FeatureRole {
    open spec fn bound() -> nat {
        256
    }

    fn max_len() -> (r: usize) {
        name_size()
    }
}

/// A view of a feature tag.
pub type PluginFeature<'a> = CStrView<'a, FeatureRole>;

/// The role of a windowing API name.
pub struct WindowApiNameRole;

impl StringRole for WindowApiNameRole {
    open spec fn bound() -> nat {
        256
    }

    fn max_len() -> (r: usize) {
        name_size()
    }
}

/// A view of a windowing API name.
pub type PluginGUIWindowAPIName<'a> = CStrView<'a, WindowApiNameRole>;

/// The role of a window title.
pub struct WindowTitleRole;

impl StringRole for WindowTitleRole {
    open spec fn bound() -> nat {
        256
    }

    fn max_len() -> (r: usize) {
        name_size()
    }
}

/// A view of a window title.
pub type PluginGUIWindowTitle<'a> = CStrView<'a, WindowTitleRole>;

/// The role of the text of a parameter value.
pub struct ValueTextRole;

impl StringRole for ValueTextRole {
    open spec fn bound() -> nat {
        256
    }

    fn max_len() -> (r: usize) {
        name_size()
    }
}

/// A view of the text of a parameter value.
pub type PluginParameterValueText<'a> = CStrView<'a, ValueTextRole>;

/// A borrowed view of the bytes of a C string before its terminator, typed by role.
pub struct CStrView<'a, R> {
    content: &'a [u8],
    role: PhantomData<R>,
}

impl<'a, R> View for CStrView<'a, R> {
    type V = Seq<u8>;

    closed spec fn view(&self) -> Seq<u8> {
        self.content@
    }
}

impl<'a, R: StringRole> CStrView<'a, R> {
    /// The content holds no terminator and fits, with its terminator, in the role's buffers.
    pub open spec fn wf(&self) -> bool {
        nul_free(self@) && self@.len() < R::bound()
    }

    /// Reads a C string from the bytes that can be read at its pointer.
    pub fn try_from_bytes(readable: &'a [u8]) -> (r: Result<Self, FromPtrError>)
        ensures
            match r {
                Ok(v) => v.wf() && c_string_outcome(readable@, R::bound()) == Ok::<Seq<u8>, FromPtrError>(v@),
                Err(e) => c_string_outcome(readable@, R::bound()) == Err::<Seq<u8>, FromPtrError>(e),
            },
    {
        let max = R::max_len();
        let mut i: usize = 0;
        while i < max
            invariant
                i <= max,
                max == R::bound(),
                i <= readable@.len(),
                forall|j: int| 0 <= j < i ==> readable@[j] != 0,
            decreases max - i,
        {
            if i == readable.len() {
                proof {
                    lemma_nul_position(readable@, i as nat);
                }
                return Err(FromPtrError::Malformed(i));
            }
            if readable[i] == 0 {
                proof {
                    lemma_nul_position(readable@, i as nat);
                }
                let v = CStrView { content: &readable[0..i], role: PhantomData };
                assert(v@ =~= readable@.take(i as int));
                return Ok(v);
            }
            i = i + 1;
        }
        proof {
            lemma_nul_position_props(readable@);
            if nul_position(readable@) < max {
                let k = nul_position(readable@);
                assert(readable@[k as int] != 0);
            }
        }
        Err(FromPtrError::MissingNul)
    }

    /// A view of bytes already known to be a well-formed string of this role.
    pub fn from_content(content: &'a [u8]) -> (r: Self)
        requires
            nul_free(content@),
            content@.len() < R::bound(),
        ensures
            r@ == content@,
            r.wf(),
    {
        CStrView { content, role: PhantomData }
    }

    /// The bytes of the string, without its terminator.
    pub fn as_bytes(&self) -> (r: &'a [u8])
        ensures
            r@ == self@,
    {
        self.content
    }

    /// Whether the string is the given run of bytes.
    pub fn is(&self, other: &[u8]) -> (r: bool)
        ensures
            r == (self@ == other@),
    {
        if self.content.len() != other.len() {
            return false;
        }
        let mut i: usize = 0;
        while i < other.len()
            invariant
                self@.len() == other@.len(),
                i <= other@.len(),
                forall|j: int| 0 <= j < i ==> self@[j] == other@[j],
            decreases other@.len() - i,
        {
            if self.content[i] != other[i] {
                return false;
            }
            i = i + 1;
        }
        assert(self@ =~= other@);
        true
    }

    /// Copies the string into a buffer of the role's maximum size, padded with
    /// zeros; a longer string keeps only its first bytes.
    pub fn to_fixed(&self) -> (r: Vec<u8>)
        ensures
            r@ == fixed_buffer(self@, R::bound()),
    {
        let n = R::max_len();
        let mut buf: Vec<u8> = Vec::new();
        let mut i: usize = 0;
        while i < n
            invariant
                n == R::bound(),
                i <= n,
                buf@.len() == i,
                forall|j: int| 0 <= j < i ==> buf@[j] == fixed_buffer(self@, R::bound())[j],
            decreases n - i,
        {
            if i < self.content.len() {
                buf.push(self.content[i]);
            } else {
                buf.push(0);
            }
            i = i + 1;
        }
        assert(buf@ =~= fixed_buffer(self@, R::bound()));
        buf
    }
}

/// Reading a well-formed C string and copying it into a fixed buffer gives back
/// its bytes followed by zero padding; a string longer than the buffer keeps
/// its first bytes, the same ones on every call.
pub proof fn lemma_string_round_trip(content: Seq<u8>, rest: Seq<u8>, bound: nat)
    requires
        nul_free(content),
    ensures
        content.len() < bound ==> c_string_outcome(content + seq![0u8] + rest, bound)
            == Ok::<Seq<u8>, FromPtrError>(content),
        content.len() <= bound ==> fixed_buffer(content, bound) == content + zeros(
            (bound - content.len()) as nat,
        ),
        content.len() > bound ==> fixed_buffer(content, bound) == content.take(bound as int),
{
    let s = content + seq![0u8] + rest;
    assert(forall|j: int| 0 <= j < content.len() ==> s[j] == content[j]);
    assert(s[content.len() as int] == 0);
    lemma_nul_position(s, content.len());
    assert(s.take(content.len() as int) =~= content);
    if content.len() <= bound {
        assert(fixed_buffer(content, bound) =~= content + zeros((bound - content.len()) as nat));
    } else {
        assert(fixed_buffer(content, bound) =~= content.take(bound as int));
    }
}

/// Uniform access to the C bytes that a string value stands for.
pub trait PluginStringSlice {
    type Pointer;

    fn as_ptr(&self) -> Self::Pointer;
}

impl<'a, R: StringRole> PluginStringSlice for CStrView<'a, R> {
    type Pointer = &'a [u8];

    fn as_ptr(&self) -> &'a [u8] {
        self.content
    }
}

} // verus!

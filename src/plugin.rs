//! Plugin instances and the descriptors that present them to the host.
use crate::ext::params::FloatBits;
use crate::ext::{query_capability, CapabilityKind, CapabilitySet};
use crate::status::ProcessResult;
use crate::strings::{
    c_string_outcome, FromPtrError, PluginDescription, PluginFeature, PluginID, PluginName,
    PluginURL, PluginVendor, PluginVersion, StringRole,
};
use clap_sys::process::clap_process;
use vstd::prelude::*;

verus! {

/// clap_sys's description of one processing block, handed through unread.
#[verifier::external_type_specification]
#[verifier::external_body]
pub struct ExProcess(clap_process);

/// What a plugin implements: its lifecycle, processing, and the capabilities it declares.
pub trait PluginPrototype {
    /// The capabilities this plugin implements.
    fn capabilities(&self) -> CapabilitySet;

    /// Called once after creation, with full access to the host; whether the
    /// plugin is ready. A plugin that fails here is destroyed.
    fn init(&mut self) -> bool;

    /// Prepares processing at the sample rate, for frame counts in the given range.
    fn activate(&self, sample_rate: FloatBits, min_frames_count: u32, max_frames_count: u32) -> bool;

    fn deactivate(&self);

    /// Called before processing starts; whether processing may start.
    fn start_processing(&self) -> bool;

    fn stop_processing(&self);

    /// Clears buffers and processing state; parameter values stay.
    fn reset(&mut self);

    /// Processes one block of audio and events.
    fn process(&self, process_details: &clap_process) -> ProcessResult;
}

/// The feature tags a plugin can present itself with.
#[derive(Debug, Clone, Copy, PartialEq, Eq, Structural)]
pub enum PluginFeatureKind {
    Instrument,
    AudioEffect,
    NoteEffect,
    NoteDetector,
    Analyzer,
    Synthesizer,
    Sampler,
    Drum,
    DrumMachine,
    Filter,
    Phaser,
    Equalizer,
    DeEsser,
    PhaseVocoder,
    Granular,
    FrequencyShifter,
    PitchShifter,
    Distortion,
    TransientShaper,
    Compressor,
    Expander,
    Gate,
    Limiter,
    Flanger,
    Chorus,
    Delay,
    Reverb,
    Tremolo,
    Glitch,
    Utility,
    PitchCorrection,
    Restoration,
    MultiEffects,
    Mixing,
    Mastering,
    Mono,
    Stereo,
    Surround,
    Ambisonic,
}

/// The strings of a descriptor, read and bounded, with its feature tags.
pub struct PluginDescriptor<'d> {
    pub id: PluginID<'d>,
    pub name: PluginName<'d>,
    pub vendor: PluginVendor<'d>,
    pub url: PluginURL<'d>,
    pub manual_url: PluginURL<'d>,
    pub support_url: PluginURL<'d>,
    pub version: PluginVersion<'d>,
    pub description: PluginDescription<'d>,
    pub features: Vec<PluginFeatureKind>,
}

/// The bytes that the fields of a raw descriptor lead to, in field order.
pub struct RawDescriptorFields<'d> {
    pub id: &'d [u8],
    pub name: &'d [u8],
    pub vendor: &'d [u8],
    pub url: &'d [u8],
    pub manual_url: &'d [u8],
    pub support_url: &'d [u8],
    pub version: &'d [u8],
    pub description: &'d [u8],
}

/// The first error in reading the given fields, each with its bound, in order.
pub open spec fn first_error(fields: Seq<(Seq<u8>, nat)>) -> Option<FromPtrError>
    decreases fields.len(),
{
    if fields.len() == 0 {
        None
    } else {
        match c_string_outcome(fields[0].0, fields[0].1) {
            Err(e) => Some(e),
            Ok(_) => first_error(fields.drop_first()),
        }
    }
}

impl<'d> RawDescriptorFields<'d> {
    /// Each field with the bound of its role.
    pub open spec fn bounded(&self) -> Seq<(Seq<u8>, nat)> {
        seq![
            (self.id@, 256nat),
            (self.name@, 256nat),
            (self.vendor@, 256nat),
            (self.url@, 1024nat),
            (self.manual_url@, 1024nat),
            (self.support_url@, 1024nat),
            (self.version@, 256nat),
            (self.description@, 1024nat),
        ]
    }
}

/// Reads one field, or gives its error.
fn read_field<R: StringRole>(bytes: &[u8]) -> (r: Result<crate::strings::CStrView<'_, R>, FromPtrError>)
    ensures
        match r {
            Ok(v) => v.wf() && c_string_outcome(bytes@, R::bound()) == Ok::<Seq<u8>, FromPtrError>(v@),
            Err(e) => c_string_outcome(bytes@, R::bound()) == Err::<Seq<u8>, FromPtrError>(e),
        },
{
    crate::strings::CStrView::<R>::try_from_bytes(bytes)
}

impl<'d> PluginDescriptor<'d> {
    /// Reads every string of a raw descriptor; the first field that is not a
    /// well-bounded C string gives the error.
    pub fn from_raw(raw: &RawDescriptorFields<'d>, features: Vec<PluginFeatureKind>) -> (r: Result<PluginDescriptor<'d>, FromPtrError>)
        ensures
            match r {
                Ok(d) => first_error(raw.bounded()) is None && d.id@ == c_string_outcome(raw.id@, 256)->Ok_0
                    && d.name@ == c_string_outcome(raw.name@, 256)->Ok_0
                    && d.vendor@ == c_string_outcome(raw.vendor@, 256)->Ok_0
                    && d.url@ == c_string_outcome(raw.url@, 1024)->Ok_0
                    && d.manual_url@ == c_string_outcome(raw.manual_url@, 1024)->Ok_0
                    && d.support_url@ == c_string_outcome(raw.support_url@, 1024)->Ok_0
                    && d.version@ == c_string_outcome(raw.version@, 256)->Ok_0
                    && d.description@ == c_string_outcome(raw.description@, 1024)->Ok_0
                    && d.features@ == features@,
                Err(e) => first_error(raw.bounded()) == Some(e),
            },
    {
        proof {
            reveal_with_fuel(first_error, 9);
        }
        let id = read_field(raw.id)?;
        let name = read_field(raw.name)?;
        let vendor = read_field(raw.vendor)?;
        let url = read_field(raw.url)?;
        let manual_url = read_field(raw.manual_url)?;
        let support_url = read_field(raw.support_url)?;
        let version = read_field(raw.version)?;
        let description = read_field(raw.description)?;
        Ok(PluginDescriptor { id, name, vendor, url, manual_url, support_url, version, description, features })
    }
}

/// A row of a raw feature list is a non-empty, bounded C string.
pub open spec fn feature_row_ok(bytes: Seq<u8>) -> bool {
    c_string_outcome(bytes, 256) matches Ok(tag) && tag.len() > 0
}

/// The number of leading rows that are feature tags.
pub open spec fn leading_features(rows: Seq<Seq<u8>>) -> nat
    decreases rows.len(),
{
    if rows.len() == 0 || !feature_row_ok(rows[0]) {
        0
    } else {
        1 + leading_features(rows.drop_first())
    }
}

proof fn lemma_leading_features(rows: Seq<Seq<u8>>, k: nat)
    requires
        k <= rows.len(),
        forall|j: int| 0 <= j < k ==> feature_row_ok(#[trigger] rows[j]),
        k == rows.len() || !feature_row_ok(rows[k as int]),
    ensures
        leading_features(rows) == k,
    decreases k,
{
    if k > 0 {
        assert forall|j: int| 0 <= j < k - 1 implies feature_row_ok(#[trigger] rows.drop_first()[j]) by {
            assert(rows.drop_first()[j] == rows[j + 1]);
        }
        lemma_leading_features(rows.drop_first(), (k - 1) as nat);
    }
}

/// The bytes readable at the pointer of one feature tag.
pub struct RawPluginFeature<'a> {
    bytes: &'a [u8],
}

impl<'a> RawPluginFeature<'a> {
    pub closed spec fn spec_bytes(&self) -> Seq<u8> {
        self.bytes@
    }

    /// The length of the tag with its terminator; none for an empty or malformed tag.
    pub fn calculate_length(&self) -> (r: Option<usize>)
        ensures
            r is Some <==> feature_row_ok(self.spec_bytes()),
            r matches Some(n) ==> n == c_string_outcome(self.spec_bytes(), 256)->Ok_0.len() + 1,
    {
        match PluginFeature::try_from_bytes(self.bytes) {
            Ok(tag) => {
                let n = tag.as_bytes().len();
                if n == 0 {
                    None
                } else {
                    Some(n + 1)
                }
            },
            Err(_) => None,
        }
    }

    /// A feature whose bytes hold a tag; none otherwise.
    pub fn from_ptr(bytes: &'a [u8]) -> (r: Option<RawPluginFeature<'a>>)
        ensures
            r is Some <==> feature_row_ok(bytes@),
            r matches Some(f) ==> f.spec_bytes() == bytes@,
    {
        let this = RawPluginFeature { bytes };
        match this.calculate_length() {
            Some(_) => Some(this),
            None => None,
        }
    }

    /// The tag itself.
    pub fn as_slice(&self) -> (r: PluginFeature<'a>)
        requires
            feature_row_ok(self.spec_bytes()),
        ensures
            Ok::<Seq<u8>, FromPtrError>(r@) == c_string_outcome(self.spec_bytes(), 256),
    {
        match PluginFeature::try_from_bytes(self.bytes) {
            Ok(tag) => tag,
            Err(_) => {
                assert(false);
                PluginFeature::from_content(&self.bytes[0..0])
            },
        }
    }
}

/// The rows of a raw feature list, each the bytes readable at its pointer, up
/// to the row that holds the null pointer.
pub struct RawPluginFeatureSet<'a> {
    rows: &'a [&'a [u8]],
}

impl<'a> RawPluginFeatureSet<'a> {
    pub closed spec fn spec_rows(&self) -> Seq<Seq<u8>> {
        self.rows@.map_values(|row: &[u8]| row@)
    }

    /// The row at an index as a feature; none past the rows or for a row that is no tag.
    pub fn nth(&self, n: usize) -> (r: Option<RawPluginFeature<'a>>)
        ensures
            r is Some <==> n < self.spec_rows().len() && feature_row_ok(self.spec_rows()[n as int]),
            r matches Some(f) ==> f.spec_bytes() == self.spec_rows()[n as int],
    {
        if n < self.rows.len() {
            RawPluginFeature::from_ptr(self.rows[n])
        } else {
            None
        }
    }

    /// The number of leading rows that are tags; none if the first is not.
    pub fn calculate_length(&self) -> (r: Option<usize>)
        ensures
            match r {
                Some(n) => n > 0 && n == leading_features(self.spec_rows()),
                None => leading_features(self.spec_rows()) == 0,
            },
    {
        let mut row: usize = 0;
        while row < self.rows.len()
            invariant
                row <= self.spec_rows().len(),
                self.spec_rows().len() == self.rows@.len(),
                forall|j: int| 0 <= j < row ==> feature_row_ok(#[trigger] self.spec_rows()[j]),
            ensures
                row <= self.spec_rows().len(),
                forall|j: int| 0 <= j < row ==> feature_row_ok(#[trigger] self.spec_rows()[j]),
                row == self.spec_rows().len() || !feature_row_ok(self.spec_rows()[row as int]),
            decreases self.rows@.len() - row,
        {
            if self.nth(row).is_none() {
                break;
            }
            row = row + 1;
        }
        proof {
            lemma_leading_features(self.spec_rows(), row as nat);
        }
        if row == 0 {
            None
        } else {
            Some(row)
        }
    }

    /// A feature list whose first row is a tag; none otherwise.
    pub fn from_ptr(rows: &'a [&'a [u8]]) -> (r: Option<RawPluginFeatureSet<'a>>)
        ensures
            r is Some <==> leading_features(rows@.map_values(|row: &[u8]| row@)) > 0,
            r matches Some(set) ==> set.spec_rows() == rows@.map_values(|row: &[u8]| row@),
    {
        let this = RawPluginFeatureSet { rows };
        match this.calculate_length() {
            Some(_) => Some(this),
            None => None,
        }
    }
}

/// Runs the plugin's initialisation; false without a plugin.
pub fn init<P: PluginPrototype>(plugin: Option<&mut P>) -> (r: bool)
    ensures
        plugin is None ==> !r,
{
    match plugin {
        Some(p) => p.init(),
        None => false,
    }
}

/// Activates the plugin; false without a plugin.
pub fn activate<P: PluginPrototype>(plugin: Option<&P>, sample_rate: FloatBits, min_frames_count: u32, max_frames_count: u32) -> (r: bool)
    ensures
        plugin is None ==> !r,
{
    match plugin {
        Some(p) => p.activate(sample_rate, min_frames_count, max_frames_count),
        None => false,
    }
}

/// Deactivates the plugin; whether the call reached it.
pub fn deactivate<P: PluginPrototype>(plugin: Option<&P>) -> (r: bool)
    ensures
        r == plugin is Some,
{
    match plugin {
        Some(p) => {
            p.deactivate();
            true
        },
        None => false,
    }
}

/// Starts processing; false without a plugin.
pub fn start_processing<P: PluginPrototype>(plugin: Option<&P>) -> (r: bool)
    ensures
        plugin is None ==> !r,
{
    match plugin {
        Some(p) => p.start_processing(),
        None => false,
    }
}

/// Stops processing; whether the call reached the plugin.
pub fn stop_processing<P: PluginPrototype>(plugin: Option<&P>) -> (r: bool)
    ensures
        r == plugin is Some,
{
    match plugin {
        Some(p) => {
            p.stop_processing();
            true
        },
        None => false,
    }
}

/// Resets the plugin; whether the call reached it.
pub fn reset<P: PluginPrototype>(plugin: Option<&mut P>) -> (r: bool)
    ensures
        r == plugin is Some,
{
    match plugin {
        Some(p) => {
            p.reset();
            true
        },
        None => false,
    }
}

/// Processes a block and gives the status integer; the error status without
/// a plugin or a block.
pub fn process<P: PluginPrototype>(plugin: Option<&P>, process_details: Option<&clap_process>) -> (r: i32)
    ensures
        plugin is None || process_details is None ==> r == ProcessResult::Error(None).spec_status(),
        crate::status::is_process_status(r),
{
    match (plugin, process_details) {
        (Some(p), Some(d)) => p.process(d).status(),
        _ => ProcessResult::Error(None).status(),
    }
}

/// Answers the host's capability query for the plugin; none without a plugin.
pub fn get_extension<P: PluginPrototype>(plugin: Option<&P>, id: &[u8]) -> (r: Option<CapabilityKind>)
    ensures
        plugin is None ==> r is None,
{
    match plugin {
        Some(p) => query_capability(id, &p.capabilities()),
        None => None,
    }
}

} // verus!

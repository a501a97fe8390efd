use clap_prototype::entry::{EntryFnIdent, EntryPhase, Entrypoint};
use clap_prototype::ext::audio_ports::{self, PluginAudioPortsPrototype};
use clap_prototype::ext::params::FloatBits;
use clap_prototype::ext::{CapabilitySet, ExtensionPrototype};
use clap_prototype::factory::{self, CatalogEntry, PluginCatalog, PluginFactoryPrototype};
use clap_prototype::plugin::{
    self, PluginDescriptor, PluginFeatureKind, PluginPrototype, RawDescriptorFields,
    RawPluginFeature, RawPluginFeatureSet,
};
use clap_prototype::status::ProcessResult;
use clap_prototype::strings::{FromPtrError, PluginID};
use clap_prototype::AbstractPrototype;
use clap_sys::ext::audio_ports::clap_audio_port_info;
use clap_sys::host::clap_host;
use clap_sys::plugin::clap_plugin_descriptor;
use clap_sys::process::clap_process;
use clap_sys::version::CLAP_VERSION;
use std::ptr::null;

fn descriptor() -> &'static clap_plugin_descriptor {
    Box::leak(Box::new(clap_plugin_descriptor {
        clap_version: CLAP_VERSION,
        id: c"org.example".as_ptr(),
        name: c"Test".as_ptr(),
        vendor: c"Vendor".as_ptr(),
        url: c"".as_ptr(),
        manual_url: c"".as_ptr(),
        support_url: c"".as_ptr(),
        version: c"1.0".as_ptr(),
        description: c"".as_ptr(),
        features: null(),
    }))
}

fn host() -> clap_host {
    clap_host {
        clap_version: CLAP_VERSION,
        host_data: std::ptr::null_mut(),
        name: c"host".as_ptr(),
        vendor: null(),
        url: null(),
        version: null(),
        get_extension: None,
        request_restart: None,
        request_process: None,
        request_callback: None,
    }
}

struct Tone {
    kind: u32,
    active: std::cell::Cell<bool>,
    resets: u32,
}

impl PluginPrototype for Tone {
    fn capabilities(&self) -> CapabilitySet {
        CapabilitySet { params: false, audio_ports: true, state: false, state_context: false, gui: false }
    }
    fn init(&mut self) -> bool {
        true
    }
    fn activate(&self, sample_rate: FloatBits, _min: u32, _max: u32) -> bool {
        let ok = f64::from_bits(sample_rate.0) > 0.0;
        self.active.set(ok);
        ok
    }
    fn deactivate(&self) {
        self.active.set(false);
    }
    fn start_processing(&self) -> bool {
        true
    }
    fn stop_processing(&self) {}
    fn reset(&mut self) {
        self.resets += 1;
    }
    fn process(&self, _process: &clap_process) -> ProcessResult {
        ProcessResult::Continue
    }
}

struct ToneFactory {
    catalog: PluginCatalog,
}

impl PluginFactoryPrototype for ToneFactory {
    type Produced = Tone;
    fn get_plugin_count(&self) -> u32 {
        self.catalog.count()
    }
    fn get_plugin_descriptor(&self, plugin_idx: u32) -> Option<&'static clap_plugin_descriptor> {
        self.catalog.descriptor(plugin_idx)
    }
    fn create_plugin(&self, _host: &clap_host, plugin_id: &PluginID) -> Option<Tone> {
        self.catalog.index_of(plugin_id).map(|kind| Tone { kind, active: std::cell::Cell::new(false), resets: 0 })
    }
}

fn tone_factory() -> ToneFactory {
    let entries = vec![
        CatalogEntry { id: b"org.example.sine".to_vec(), descriptor: descriptor() },
        CatalogEntry { id: b"org.example.saw".to_vec(), descriptor: descriptor() },
    ];
    ToneFactory { catalog: PluginCatalog::new(entries).unwrap() }
}

#[test]
fn unknown_id_creates_nothing() {
    let f = tone_factory();
    let h = host();
    assert!(factory::create_plugin(Some(&f), Some(&h), b"unknown-id\0").is_none());
    assert!(factory::create_plugin(Some(&f), None, b"org.example.saw\0").is_none());
    assert!(factory::create_plugin::<ToneFactory>(None, Some(&h), b"org.example.saw\0").is_none());
    assert!(factory::create_plugin(Some(&f), Some(&h), b"org.example.saw").is_none());
    let made = factory::create_plugin(Some(&f), Some(&h), b"org.example.saw\0").unwrap();
    assert_eq!(made.kind, 1);
    assert!(made.capabilities().audio_ports);
}

#[test]
fn descriptors_enumerate_exactly() {
    let f = tone_factory();
    let count = factory::get_plugin_count(Some(&f));
    assert_eq!(count, 2);
    for i in 0..count + 3 {
        assert_eq!(factory::get_plugin_descriptor(Some(&f), i).is_some(), i < count);
    }
    let d = factory::get_plugin_descriptor(Some(&f), 1).unwrap();
    assert!(std::ptr::eq(d, f.catalog.descriptor(1).unwrap()));
    assert!(!std::ptr::eq(d, f.catalog.descriptor(0).unwrap()));
    assert_eq!(factory::get_plugin_count::<ToneFactory>(None), 0);
    assert!(factory::get_plugin_descriptor::<ToneFactory>(None, 0).is_none());
    let empty = PluginCatalog::new(Vec::new()).unwrap();
    assert_eq!(empty.count(), 0);
    assert!(empty.descriptor(0).is_none());
}

#[test]
fn catalog_lookup_takes_the_first_match() {
    let entries = vec![
        CatalogEntry { id: b"a".to_vec(), descriptor: descriptor() },
        CatalogEntry { id: b"b".to_vec(), descriptor: descriptor() },
        CatalogEntry { id: b"a".to_vec(), descriptor: descriptor() },
    ];
    let catalog = PluginCatalog::new(entries).unwrap();
    assert_eq!(catalog.index_of(&PluginID::try_from_bytes(b"a\0").unwrap()), Some(0));
    assert_eq!(catalog.index_of(&PluginID::try_from_bytes(b"b\0").unwrap()), Some(1));
    assert_eq!(catalog.index_of(&PluginID::try_from_bytes(b"c\0").unwrap()), None);
}

struct Ports {
    info: clap_audio_port_info,
}

impl AbstractPrototype for Ports {
    type Base = ();
    fn as_base(&self) -> &() {
        &()
    }
}

impl ExtensionPrototype for Ports {
    type Parent = Tone;
}

impl PluginAudioPortsPrototype for Ports {
    fn count(&self, is_input: bool) -> u32 {
        if is_input { 0 } else { 1 }
    }
    fn get(&self, index: u32, is_input: bool) -> Option<&clap_audio_port_info> {
        if index == 0 && !is_input { Some(&self.info) } else { None }
    }
}

fn port_info(id: u32) -> clap_audio_port_info {
    clap_audio_port_info { id, name: [0; 256], flags: 0, channel_count: 2, port_type: null(), in_place_pair: 0 }
}

#[test]
fn audio_ports_dispatch() {
    let p = Ports { info: port_info(5) };
    assert_eq!(audio_ports::count(Some(&p), false), 1);
    assert_eq!(audio_ports::count(Some(&p), true), 0);
    assert_eq!(audio_ports::count::<Ports>(None, false), 0);
    let mut out = port_info(99);
    assert!(audio_ports::get(Some(&p), 0, false, &mut out));
    assert_eq!(out.id, 5);
    let mut out = port_info(99);
    assert!(!audio_ports::get(Some(&p), 0, true, &mut out));
    assert!(!audio_ports::get::<Ports>(None, 0, false, &mut out));
    assert_eq!(out.id, 99);
}

#[test]
fn entry_function_names() {
    assert_eq!(EntryFnIdent::from_name(b"init"), Some(EntryFnIdent::Init));
    assert_eq!(EntryFnIdent::from_name(b"deinit"), Some(EntryFnIdent::Deinit));
    assert_eq!(EntryFnIdent::from_name(b"get_factory"), Some(EntryFnIdent::GetFactory));
    assert_eq!(EntryFnIdent::from_name(b"destroy"), None);
    assert_eq!(EntryFnIdent::from_name(b""), None);
}

#[test]
fn entrypoint_lifecycle() {
    let mut e = Entrypoint::new();
    assert_eq!(e.phase(), EntryPhase::Loaded);
    assert!(!e.serves_factory(b"clap.plugin-factory\0"));
    assert!(!e.deinit());
    assert!(e.accept_init(b"/usr/lib/clap/x.clap").is_none());
    let path = e.accept_init(b"/usr/lib/clap/x.clap\0").unwrap();
    assert_eq!(path.as_bytes(), b"/usr/lib/clap/x.clap");
    e.finish_init(false);
    assert_eq!(e.phase(), EntryPhase::Loaded);
    e.finish_init(true);
    assert_eq!(e.phase(), EntryPhase::Initialized);
    assert!(e.accept_init(b"/x\0").is_none());
    assert!(e.serves_factory(b"clap.plugin-factory\0"));
    assert!(!e.serves_factory(b"clap.preset-discovery-factory/2\0"));
    assert!(e.deinit());
    assert_eq!(e.phase(), EntryPhase::Deinitialized);
    assert!(!e.deinit());
    assert!(!e.serves_factory(b"clap.plugin-factory\0"));
}

#[test]
fn descriptor_reads_every_field() {
    let raw = RawDescriptorFields {
        id: b"org.example.sine\0",
        name: b"Sine\0",
        vendor: b"Example\0",
        url: b"https://example.org\0",
        manual_url: b"\0",
        support_url: b"\0",
        version: b"1.2.3\0",
        description: b"A sine tone\0",
    };
    let d = PluginDescriptor::from_raw(&raw, vec![PluginFeatureKind::Instrument, PluginFeatureKind::Stereo]).ok().unwrap();
    assert_eq!(d.id.as_bytes(), b"org.example.sine");
    assert_eq!(d.description.as_bytes(), b"A sine tone");
    assert_eq!(d.version.as_bytes(), b"1.2.3");
    assert_eq!(d.features, vec![PluginFeatureKind::Instrument, PluginFeatureKind::Stereo]);
    let bad = RawDescriptorFields { vendor: b"Example", ..raw };
    assert_eq!(PluginDescriptor::from_raw(&bad, Vec::new()).err(), Some(FromPtrError::Malformed(7)));
}

#[test]
fn raw_feature_rows() {
    let tag = RawPluginFeature::from_ptr(b"instrument\0").unwrap();
    assert_eq!(tag.calculate_length(), Some(11));
    assert_eq!(tag.as_slice().as_bytes(), b"instrument");
    assert!(RawPluginFeature::from_ptr(b"\0").is_none());
    assert!(RawPluginFeature::from_ptr(b"stereo").is_none());
    let rows: [&[u8]; 3] = [b"instrument\0", b"stereo\0", b"\0"];
    let set = RawPluginFeatureSet::from_ptr(&rows).unwrap();
    assert_eq!(set.calculate_length(), Some(2));
    assert_eq!(set.nth(1).unwrap().as_slice().as_bytes(), b"stereo");
    assert!(set.nth(2).is_none());
    assert!(set.nth(3).is_none());
    let none: [&[u8]; 0] = [];
    assert!(RawPluginFeatureSet::from_ptr(&none).is_none());
    let bad_first: [&[u8]; 2] = [b"\0", b"stereo\0"];
    assert!(RawPluginFeatureSet::from_ptr(&bad_first).is_none());
}

#[test]
fn plugin_calls_reach_the_instance() {
    let f = tone_factory();
    let h = host();
    let mut tone = factory::create_plugin(Some(&f), Some(&h), b"org.example.sine\0").unwrap();
    assert_eq!(tone.kind, 0);
    assert!(plugin::init(Some(&mut tone)));
    assert!(!plugin::init::<Tone>(None));
    assert!(plugin::activate(Some(&tone), FloatBits(48000.0f64.to_bits()), 1, 512));
    assert!(tone.active.get());
    assert!(!plugin::activate(Some(&tone), FloatBits(0.0f64.to_bits()), 1, 512));
    assert!(!plugin::activate::<Tone>(None, FloatBits(48000.0f64.to_bits()), 1, 512));
    assert!(plugin::deactivate(Some(&tone)));
    assert!(!tone.active.get());
    assert!(!plugin::deactivate::<Tone>(None));
    assert!(plugin::start_processing(Some(&tone)));
    assert!(!plugin::start_processing::<Tone>(None));
    assert!(plugin::stop_processing(Some(&tone)));
    assert!(!plugin::stop_processing::<Tone>(None));
    assert!(plugin::reset(Some(&mut tone)));
    assert_eq!(tone.resets, 1);
    assert!(!plugin::reset::<Tone>(None));
    assert_eq!(plugin::process::<Tone>(Some(&tone), None), clap_sys::process::CLAP_PROCESS_ERROR);
    assert_eq!(plugin::process::<Tone>(None, None), 0);
    assert_eq!(plugin::get_extension(Some(&tone), b"clap.audio-ports\0"), Some(clap_prototype::ext::CapabilityKind::AudioPorts));
    assert_eq!(plugin::get_extension(Some(&tone), b"clap.params\0"), None);
    assert_eq!(plugin::get_extension::<Tone>(None, b"clap.audio-ports\0"), None);
}

struct Overreaching {
    catalog: PluginCatalog,
}

impl PluginFactoryPrototype for Overreaching {
    type Produced = Tone;
    fn get_plugin_count(&self) -> u32 {
        1
    }
    fn get_plugin_descriptor(&self, plugin_idx: u32) -> Option<&'static clap_plugin_descriptor> {
        self.catalog.descriptor(plugin_idx)
    }
    fn create_plugin(&self, _host: &clap_host, _plugin_id: &PluginID) -> Option<Tone> {
        None
    }
}

#[test]
fn descriptors_past_the_count_are_withheld() {
    let f = Overreaching { catalog: tone_factory().catalog };
    assert!(factory::get_plugin_descriptor(Some(&f), 0).is_some());
    assert!(factory::get_plugin_descriptor(Some(&f), 1).is_none());
    let d = descriptor();
    assert!(factory::bounded_descriptor(2, 1, Some(d)).is_some());
    assert!(factory::bounded_descriptor(1, 1, Some(d)).is_none());
    assert!(factory::bounded_descriptor(2, 0, None::<&clap_plugin_descriptor>).is_none());
}

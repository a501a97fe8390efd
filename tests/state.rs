use clap_prototype::ext::state::{self, PluginStatePrototype};
use clap_prototype::ext::state_context::{self, PluginStateContextPrototype, PluginStateContextVariant};
use clap_prototype::ext::ExtensionPrototype;
use clap_prototype::stream::{InputStream, MemoryStream, OutputStream};
use clap_prototype::AbstractPrototype;
use std::cell::Cell;

struct Counter {
    value: Cell<u64>,
    last_variant: Cell<Option<PluginStateContextVariant>>,
}

impl AbstractPrototype for Counter {
    type Base = ();
    fn as_base(&self) -> &() {
        &()
    }
}

impl ExtensionPrototype for Counter {
    type Parent = ();
}

impl PluginStatePrototype for Counter {
    fn save<W: OutputStream>(&self, output_stream: &mut W) -> bool {
        output_stream.write(&self.value.get().to_le_bytes()) == 8
    }
    fn load<R: InputStream>(&self, input_stream: &mut R) -> bool {
        let mut buf = [0u8; 8];
        if input_stream.read(&mut buf) != 8 {
            return false;
        }
        self.value.set(u64::from_le_bytes(buf));
        true
    }
}

impl PluginStateContextPrototype for Counter {
    fn save<W: OutputStream>(&self, output_stream: &mut W, variant: PluginStateContextVariant) -> bool {
        self.last_variant.set(Some(variant));
        PluginStatePrototype::save(self, output_stream)
    }
    fn load<R: InputStream>(&self, input_stream: &mut R, variant: PluginStateContextVariant) -> bool {
        self.last_variant.set(Some(variant));
        PluginStatePrototype::load(self, input_stream)
    }
}

fn counter(value: u64) -> Counter {
    Counter { value: Cell::new(value), last_variant: Cell::new(None) }
}

#[test]
fn state_round_trips_through_memory() {
    let source = counter(0x0123_4567_89ab_cdef);
    let mut out = MemoryStream::new();
    assert!(state::save(Some(&source), Some(&mut out)));
    assert_eq!(out.contents(), &0x0123_4567_89ab_cdefu64.to_le_bytes());
    let mut input = MemoryStream::from_bytes(out.contents().to_vec());
    let target = counter(0);
    assert!(state::load(Some(&target), Some(&mut input)));
    assert_eq!(target.value.get(), 0x0123_4567_89ab_cdef);
}

#[test]
fn state_without_capability_or_stream_fails() {
    let c = counter(5);
    let mut s = MemoryStream::new();
    assert!(!state::save::<Counter, MemoryStream>(None, Some(&mut s)));
    assert!(!state::save::<Counter, MemoryStream>(Some(&c), None));
    assert!(s.contents().is_empty());
    let mut s = MemoryStream::from_bytes(vec![1, 0, 0, 0, 0, 0, 0, 0]);
    assert!(!state::load::<Counter, MemoryStream>(None, Some(&mut s)));
    assert!(!state::load::<Counter, MemoryStream>(Some(&c), None));
    assert_eq!(c.value.get(), 5);
    // too few bytes to restore from
    let mut short = MemoryStream::from_bytes(vec![1, 2, 3]);
    assert!(!state::load(Some(&c), Some(&mut short)));
    assert_eq!(c.value.get(), 5);
}

#[test]
fn memory_stream_reads_what_was_written() {
    let mut s = MemoryStream::new();
    assert_eq!(s.write(b"abc"), 3);
    assert_eq!(s.write(b"de"), 2);
    assert_eq!(s.contents(), b"abcde");
    let mut r = MemoryStream::from_bytes(b"abcde".to_vec());
    let mut buf = [0u8; 3];
    assert_eq!(r.read(&mut buf), 3);
    assert_eq!(&buf, b"abc");
    let mut buf = [9u8; 4];
    assert_eq!(r.read(&mut buf), 2);
    assert_eq!(buf, [b'd', b'e', 9, 9]);
    assert_eq!(r.read(&mut buf), 0);
}

#[test]
fn context_variants_follow_the_abi() {
    assert_eq!(PluginStateContextVariant::from_raw(1), Some(PluginStateContextVariant::Preset));
    assert_eq!(PluginStateContextVariant::from_raw(2), Some(PluginStateContextVariant::Duplicate));
    assert_eq!(PluginStateContextVariant::from_raw(3), Some(PluginStateContextVariant::Project));
    assert_eq!(PluginStateContextVariant::from_raw(0), None);
    assert_eq!(PluginStateContextVariant::from_raw(4), None);
    assert_eq!(PluginStateContextVariant::Project.raw(), clap_sys::ext::state_context::CLAP_STATE_CONTEXT_FOR_PROJECT);
    assert_eq!(PluginStateContextVariant::Preset.raw(), 1);
    assert_eq!(PluginStateContextVariant::Duplicate.raw(), 2);
}

#[test]
fn context_state_round_trips_with_its_reason() {
    let source = counter(42);
    let mut out = MemoryStream::new();
    assert!(state_context::save(Some(&source), Some(&mut out), 2));
    assert_eq!(source.last_variant.get(), Some(PluginStateContextVariant::Duplicate));
    let target = counter(0);
    let mut input = MemoryStream::from_bytes(out.contents().to_vec());
    assert!(state_context::load(Some(&target), Some(&mut input), 3));
    assert_eq!(target.last_variant.get(), Some(PluginStateContextVariant::Project));
    assert_eq!(target.value.get(), 42);
    // an unknown context type reaches nothing
    let mut out = MemoryStream::new();
    assert!(!state_context::save(Some(&source), Some(&mut out), 7));
    assert!(out.contents().is_empty());
    let mut input = MemoryStream::from_bytes(vec![0; 8]);
    assert!(!state_context::load(Some(&target), Some(&mut input), 0));
    assert!(!state_context::load::<Counter, MemoryStream>(None, Some(&mut input), 1));
    assert_eq!(target.value.get(), 42);
}

use clap_prototype::strings::{FromPtrError, PluginName, PluginPath, PluginStringSlice};

#[test]
fn reads_string_up_to_terminator() {
    let raw = b"gain\0rest";
    let name = PluginName::try_from_bytes(raw).unwrap();
    assert_eq!(name.as_bytes(), b"gain");
    assert_eq!(name.as_ptr(), b"gain");
    assert!(name.is(b"gain"));
    assert!(!name.is(b"gai"));
}

#[test]
fn empty_string_is_valid() {
    let name = PluginName::try_from_bytes(b"\0").unwrap();
    assert_eq!(name.as_bytes(), b"");
}

#[test]
fn unreadable_bytes_are_malformed() {
    assert_eq!(PluginName::try_from_bytes(b"abc").err(), Some(FromPtrError::Malformed(3)));
    assert_eq!(PluginName::try_from_bytes(b"").err(), Some(FromPtrError::Malformed(0)));
}

#[test]
fn terminator_beyond_bound_is_missing() {
    let mut raw = vec![b'a'; 256];
    raw.push(0);
    assert_eq!(PluginName::try_from_bytes(&raw).err(), Some(FromPtrError::MissingNul));
    // the same bytes fit a path
    let path = PluginPath::try_from_bytes(&raw).unwrap();
    assert_eq!(path.as_bytes().len(), 256);
    // the longest name that fits
    let mut fits = vec![b'a'; 255];
    fits.push(0);
    assert_eq!(PluginName::try_from_bytes(&fits).unwrap().as_bytes().len(), 255);
}

#[test]
fn fixed_buffer_round_trip() {
    let raw = b"synth\0junk";
    let name = PluginName::try_from_bytes(raw).unwrap();
    let fixed = name.to_fixed();
    assert_eq!(fixed.len(), 256);
    assert_eq!(&fixed[..5], b"synth");
    assert!(fixed[5..].iter().all(|b| *b == 0));
    let path = PluginPath::try_from_bytes(b"/tmp/x\0").unwrap();
    let fixed = path.to_fixed();
    assert_eq!(fixed.len(), 1024);
    assert_eq!(&fixed[..6], b"/tmp/x");
    assert!(fixed[6..].iter().all(|b| *b == 0));
}

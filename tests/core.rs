use clap_prototype::add;
use clap_prototype::status::{ClapErrorKind, EntityKind, ProcessResult};

#[test]
fn it_works() {
    let result = add(2, 2);
    assert_eq!(result, 4);
}

#[test]
fn entity_kind_codes() {
    assert_eq!(EntityKind::from_u8(0), EntityKind::Plugin);
    assert_eq!(EntityKind::from_u8(1), EntityKind::Extension);
    assert_eq!(EntityKind::from_u8(2), EntityKind::Host);
    assert_eq!(EntityKind::from_u8(3), EntityKind::Factory);
    assert_eq!(EntityKind::from_i8(2), EntityKind::Host);
    assert_eq!(EntityKind::Factory.code(), 3);
}

#[test]
fn error_kind_packing() {
    assert_eq!(ClapErrorKind::NotFound(EntityKind::Plugin).packed(), 0x0000);
    assert_eq!(ClapErrorKind::InitFailed(EntityKind::Extension).packed(), 0x0101);
    assert_eq!(ClapErrorKind::Unknown(EntityKind::Factory).packed(), 0x03ff);
    assert_eq!(u16::from(ClapErrorKind::NotFound(EntityKind::Host)), 0x0200);
}

#[test]
fn process_status_round_trip() {
    assert_eq!(ProcessResult::from_status(0), ProcessResult::Error(None));
    assert_eq!(ProcessResult::from_status(1), ProcessResult::Continue);
    assert_eq!(ProcessResult::from_status(2), ProcessResult::ContinueIfNeeded);
    assert_eq!(ProcessResult::from_status(3), ProcessResult::Tail);
    assert_eq!(ProcessResult::from_status(4), ProcessResult::Sleep);
    for v in 0..5 {
        assert_eq!(ProcessResult::from_status(v).status(), v);
    }
    let failed = ProcessResult::Error(Some(ClapErrorKind::InitFailed(EntityKind::Plugin)));
    assert_eq!(failed.status(), clap_sys::process::CLAP_PROCESS_ERROR);
    assert_eq!(ProcessResult::Sleep.status(), clap_sys::process::CLAP_PROCESS_SLEEP);
}

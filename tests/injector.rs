use console_log_saver::injector::{
    inout_outcome, injection_error, load_image, stage_inout_record, InjectionOutcome, PayloadHandle,
    FREE_SYMBOL, INOUT_SLOTS, LOCATION_SYMBOL, SAVE_SYMBOL,
};
use console_log_saver::process_remote::{base_err, MissingPart, ProcessRemoteError};
use console_log_saver::session::EntryPoints;
use console_log_saver::wire::ByteOrder;

#[test]
fn direct_load_with_all_symbols() {
    let loaded = load_image(7, true, Some(0x10), Some(0x20), Some(0x30)).unwrap();
    assert_eq!(loaded.saver_save(), 0x10);
    assert_eq!(loaded.free_mem(), 0x20);
    assert_eq!(loaded.location(), 0x30);
    assert_eq!(loaded.entry_points(), EntryPoints { save: 0x10, free: 0x20, location: 0x30 });
    assert_eq!(loaded.unload(), PayloadHandle::ImageToken(7));
}

#[test]
fn direct_load_names_what_is_missing() {
    let missing = |r: Result<_, ProcessRemoteError>| match r {
        Err(ProcessRemoteError::InjectionFailed { missing, .. }) => missing,
        _ => panic!("expected an injection error"),
    };
    assert_eq!(missing(load_image(1, false, Some(1), Some(2), Some(3))), MissingPart::Module);
    assert_eq!(missing(load_image(1, true, None, Some(2), Some(3))), MissingPart::SaveSymbol);
    assert_eq!(missing(load_image(1, true, Some(1), None, Some(3))), MissingPart::FreeSymbol);
    assert_eq!(missing(load_image(1, true, Some(1), Some(2), None)), MissingPart::LocationSymbol);
}

#[test]
fn staging_area_layout() {
    let base: u64 = 0x1000;
    let record = stage_inout_record(b"/tmp/p.so", base, ByteOrder::Little).unwrap();
    let header = 8 * INOUT_SLOTS;
    let strings = [
        b"/tmp/p.so".to_vec(),
        SAVE_SYMBOL.as_bytes().to_vec(),
        FREE_SYMBOL.as_bytes().to_vec(),
        LOCATION_SYMBOL.as_bytes().to_vec(),
    ];
    let total: usize = strings.iter().map(|s| s.len() + 1).sum();
    assert_eq!(record.len(), header + total);
    let slot = |k: usize| u64::from_le_bytes(record[8 * k..8 * k + 8].try_into().unwrap());
    let mut offset = header;
    for (k, s) in strings.iter().enumerate() {
        assert_eq!(slot(k), base + offset as u64);
        assert_eq!(&record[offset..offset + s.len()], &s[..]);
        assert_eq!(record[offset + s.len()], 0);
        offset += s.len() + 1;
    }
    for k in 4..INOUT_SLOTS {
        assert_eq!(slot(k), 0);
    }
    assert!(stage_inout_record(b"x", u64::MAX - 10, ByteOrder::Little).is_none());
}

fn record(slots: [u64; 10]) -> Vec<u8> {
    slots.iter().flat_map(|v| v.to_be_bytes()).collect()
}

#[test]
fn loader_outcome() {
    let ok = record([0, 0, 0, 0, 0, 0, 0xAA, 0x10, 0x20, 0x30]);
    match inout_outcome(&ok, ByteOrder::Big) {
        InjectionOutcome::Loaded(l) => {
            assert_eq!(l.entry_points(), EntryPoints { save: 0x10, free: 0x20, location: 0x30 });
            assert_eq!(l.unload(), PayloadHandle::Library(0xAA));
        },
        _ => panic!("expected a loaded payload"),
    }
    let no_symbol = record([0, 0, 0, 0, 0x500, 12, 0xAA, 0x10, 0, 0]);
    match inout_outcome(&no_symbol, ByteOrder::Big) {
        InjectionOutcome::Failed { missing, message_at, message_len } => {
            assert_eq!(missing, MissingPart::FreeSymbol);
            assert_eq!(message_at, 0x500);
            assert_eq!(message_len, 12);
        },
        _ => panic!("expected a failure"),
    }
    let no_library = record([0; 10]);
    assert!(matches!(
        inout_outcome(&no_library, ByteOrder::Big),
        InjectionOutcome::Failed { missing: MissingPart::Module, message_at: 0, .. }
    ));
}

#[test]
fn injection_errors_carry_the_message() {
    match injection_error(MissingPart::Module, Some("cannot open shared object")) {
        ProcessRemoteError::InjectionFailed { missing, diagnostic } => {
            assert_eq!(missing, MissingPart::Module);
            assert_eq!(diagnostic, "cannot open shared object");
        },
        _ => panic!("expected an injection error"),
    }
    match base_err("corrupted data") {
        ProcessRemoteError::FailedToGetFromProcess { reason } => assert_eq!(reason, "corrupted data"),
        _ => panic!("expected a described error"),
    }
}

#[test]
fn errors_describe_themselves() {
    assert_eq!(ProcessRemoteError::ByteOrderMismatch.describe(), "byte order mismatch");
    assert_eq!(ProcessRemoteError::PointerSizeMismatch.describe(), "pointer size mismatch");
    assert_eq!(ProcessRemoteError::NonUtf8LogContents.describe(), "non-utf8 log contents");
    assert_eq!(base_err("x").describe(), "failed to get from process: x");
    assert_eq!(
        injection_error(MissingPart::Module, Some("no such file")).describe(),
        "failed to load the payload: no such file"
    );
}

use console_log_saver::payload::LogCollector;
use console_log_saver::saver::decode_log;
use console_log_saver::session::{Action, EntryPoints, Event, RemoteSession};
use console_log_saver::transfer::{decode_transfer, encode_transfer, LogRecord, TransferData};
use console_log_saver::transfer::current_byte_order;
use console_log_saver::wire::ByteOrder;

fn units(s: &str) -> Vec<u16> {
    s.encode_utf16().collect()
}

#[test]
fn save_read_and_decode_two_records() {
    // what the payload's save() produces inside the target
    let produced = TransferData {
        unity_version: units("2022.3.10f1"),
        os_description: units("Ubuntu 22.04"),
        build_target: units("StandaloneLinux64"),
        current_directory: units("/home/dev/MyProject"),
        entries: vec![
            LogRecord { message: units("Hello"), mode: 0 },
            LogRecord { message: units("World"), mode: 1 },
        ],
    };
    let region = encode_transfer(&produced, ByteOrder::Little);

    let mut session = RemoteSession::new(100, 8, ByteOrder::Little);
    assert_eq!(session.on_event(Event::Attached), Action::RunToSyncPoint);
    assert_eq!(
        session.on_event(Event::SyncPointReached { pointer_size: 8, byte_order: ByteOrder::Little }),
        Action::LoadPayload
    );
    let entry = EntryPoints { save: 0x10, free: 0x20, location: 0x30 };
    assert_eq!(session.on_event(Event::PayloadLoaded { entry }), Action::CallSave { address: 0x10 });
    assert_eq!(session.on_event(Event::CallCompleted), Action::ReadResult { location: 0x30 });

    // the host reads from the byte_length field on
    let read = region[8..].to_vec();
    assert_eq!(u64::from_le_bytes(read[0..8].try_into().unwrap()) as usize, read.len() - 8);
    assert_eq!(i32::from_le_bytes(read[8..12].try_into().unwrap()), 1);
    assert_eq!(session.on_event(Event::ResultRead), Action::CallFree { address: 0x20 });

    let data = decode_transfer(read, ByteOrder::Little).unwrap();
    assert_eq!(data.entries.len(), 2);
    let log = decode_log(&data).unwrap();
    let records: Vec<(String, i32)> =
        log.entries.iter().map(|e| (e.message.clone(), e.mode)).collect();
    assert_eq!(records, vec![("Hello".to_string(), 0), ("World".to_string(), 1)]);
    assert_eq!(log.current_directory, "/home/dev/MyProject");

    assert_eq!(session.on_event(Event::CallCompleted), Action::UnloadPayload);
    assert_eq!(session.on_event(Event::PayloadUnloaded), Action::ResumeAndDetach);
    assert_eq!(session.on_event(Event::Detached), Action::Finish);
}

#[test]
fn payload_save_routine_walks_the_log_store() {
    let store = [("Hello", 0), ("World", 1)];
    let mut collector = LogCollector::begin(
        ByteOrder::Little,
        &units("2022.3.10f1"),
        &units("Ubuntu 22.04"),
        &units("StandaloneLinux64"),
        &units("/home/dev/MyProject"),
        store.len() as i32,
    );
    let mut fetched = Vec::new();
    while let Some(index) = collector.next_index() {
        fetched.push(index);
        let (message, mode) = store[index as usize];
        collector.add_entry(&units(message), mode);
    }
    assert_eq!(fetched, vec![0, 1]);
    let region = collector.finish();
    let data = decode_transfer(region[8..].to_vec(), ByteOrder::Little).unwrap();
    let log = decode_log(&data).unwrap();
    let records: Vec<(String, i32)> =
        log.entries.iter().map(|e| (e.message.clone(), e.mode)).collect();
    assert_eq!(records, vec![("Hello".to_string(), 0), ("World".to_string(), 1)]);
    assert_eq!(log.current_directory, "/home/dev/MyProject");
    assert_eq!(log.unity_version, "2022.3.10f1");
}

#[test]
fn negative_count_reads_as_empty_log() {
    let collector = LogCollector::begin(ByteOrder::Big, &[], &[], &[], &[], -3);
    assert_eq!(collector.next_index(), None);
    let region = collector.finish();
    let data = decode_transfer(region[8..].to_vec(), ByteOrder::Big).unwrap();
    assert_eq!(data.entries.len(), 0);
}

#[test]
fn native_byte_order_matches_the_machine() {
    let little = u16::from_ne_bytes([1, 0]) == 1;
    assert_eq!(current_byte_order() == ByteOrder::Little, little);
}

use console_log_saver::session::{
    check_abi, eval_expr, Action, EntryPoints, Event, Failure, Phase, RemoteSession,
    NO_RESULT_STATUS,
};
use console_log_saver::wire::ByteOrder;

fn entry() -> EntryPoints {
    EntryPoints { save: 0x1000, free: 0x2000, location: 0x3000 }
}

fn attached() -> RemoteSession {
    let mut s = RemoteSession::new(42, 8, ByteOrder::Little);
    assert_eq!(s.next_action(), Action::Attach);
    assert_eq!(s.on_event(Event::Attached), Action::RunToSyncPoint);
    s
}

#[test]
fn byte_order_mismatch_detaches_before_injection() {
    let mut s = attached();
    let a = s.on_event(Event::SyncPointReached { pointer_size: 8, byte_order: ByteOrder::Big });
    assert_eq!(a, Action::ResumeAndDetach);
    assert_eq!(s.failure, Some(Failure::ByteOrderMismatch));
    // a late report of a loaded payload changes nothing
    let a = s.on_event(Event::PayloadLoaded { entry: entry() });
    assert_eq!(a, Action::ResumeAndDetach);
    assert_eq!(s.on_event(Event::Detached), Action::Finish);
    assert_eq!(s.phase, Phase::Detached);
}

#[test]
fn pointer_size_mismatch_detaches_before_injection() {
    let mut s = attached();
    let a = s.on_event(Event::SyncPointReached { pointer_size: 4, byte_order: ByteOrder::Little });
    assert_eq!(a, Action::ResumeAndDetach);
    assert_eq!(s.failure, Some(Failure::PointerSizeMismatch));
    assert_eq!(s.on_event(Event::Detached), Action::Finish);
    assert_eq!(s.phase, Phase::Detached);
}

#[test]
fn abi_check_compares_byte_order_first() {
    assert_eq!(check_abi(4, ByteOrder::Big, 8, ByteOrder::Little), Some(Failure::ByteOrderMismatch));
    assert_eq!(check_abi(4, ByteOrder::Little, 8, ByteOrder::Little), Some(Failure::PointerSizeMismatch));
    assert_eq!(check_abi(8, ByteOrder::Little, 8, ByteOrder::Little), None);
}

#[test]
fn injection_failure_still_detaches() {
    let mut s = attached();
    let a = s.on_event(Event::SyncPointReached { pointer_size: 8, byte_order: ByteOrder::Little });
    assert_eq!(a, Action::LoadPayload);
    assert_eq!(s.on_event(Event::InjectionFailed), Action::ResumeAndDetach);
    assert_eq!(s.failure, Some(Failure::Injection));
    assert_eq!(s.on_event(Event::Detached), Action::Finish);
    assert_eq!(s.phase, Phase::Detached);
}

#[test]
fn failed_call_unloads_then_detaches() {
    let mut s = attached();
    s.on_event(Event::SyncPointReached { pointer_size: 8, byte_order: ByteOrder::Little });
    assert_eq!(s.on_event(Event::PayloadLoaded { entry: entry() }), Action::CallSave { address: 0x1000 });
    assert_eq!(s.on_event(Event::CallFailed), Action::UnloadPayload);
    assert_eq!(s.on_event(Event::PayloadUnloaded), Action::ResumeAndDetach);
    assert_eq!(s.on_event(Event::Detached), Action::Finish);
    assert_eq!(s.phase, Phase::Detached);
    assert_eq!(s.failure, Some(Failure::RemoteCall));
}

#[test]
fn missing_sync_point_detaches() {
    let mut s = attached();
    assert_eq!(s.on_event(Event::SyncPointNotFound), Action::ResumeAndDetach);
    assert_eq!(s.on_event(Event::Detached), Action::Finish);
    assert_eq!(s.failure, Some(Failure::SyncPointNotFound));
}

#[test]
fn failed_attach_needs_no_detach() {
    let mut s = RemoteSession::new(1, 8, ByteOrder::Little);
    assert_eq!(s.on_event(Event::AttachFailed), Action::Finish);
    assert_eq!(s.phase, Phase::Detached);
    assert_eq!(s.failure, Some(Failure::Attach));
}

#[test]
fn successful_round_visits_every_phase() {
    let mut s = attached();
    s.on_event(Event::SyncPointReached { pointer_size: 8, byte_order: ByteOrder::Little });
    assert_eq!(s.on_event(Event::PayloadLoaded { entry: entry() }), Action::CallSave { address: 0x1000 });
    assert_eq!(s.on_event(Event::CallCompleted), Action::ReadResult { location: 0x3000 });
    assert_eq!(s.on_event(Event::ResultRead), Action::CallFree { address: 0x2000 });
    assert_eq!(s.on_event(Event::CallCompleted), Action::UnloadPayload);
    assert_eq!(s.on_event(Event::PayloadUnloaded), Action::ResumeAndDetach);
    assert_eq!(s.on_event(Event::Detached), Action::Finish);
    assert_eq!(s.phase, Phase::Detached);
    assert_eq!(s.failure, None);
}

#[test]
fn no_result_status_is_not_an_error() {
    assert_eq!(eval_expr(true, NO_RESULT_STATUS), Ok(()));
    assert_eq!(eval_expr(true, 7), Err(7));
    assert_eq!(eval_expr(false, 7), Ok(()));
    assert_eq!(NO_RESULT_STATUS, 0x1001);
}

//! One attach-to-detach round against a target process, as a state machine.
//!
//! The driver performs the action that [`RemoteSession::next_action`] names
//! (attach, stop at the sync point, load the payload, call into it, read
//! memory, detach) and reports what happened with
//! [`RemoteSession::on_event`]. Every failure after the attach leads to a
//! detach, with an unload first while the payload is resident.
use crate::wire::ByteOrder;
use vstd::prelude::*;

verus! {

/// Where the round stands.
#[derive(PartialEq, Eq, Structural, Clone, Copy, Debug)]
pub enum Phase {
    Created,
    Attached,
    AtSyncPoint,
    PayloadLoaded,
    InvokedSave,
    DataRead,
    InvokedFree,
    PayloadUnloaded,
    Detached,
}

/// Why the round was abandoned.
#[derive(PartialEq, Eq, Structural, Clone, Copy, Debug)]
pub enum Failure {
    Attach,
    SyncPointNotFound,
    ByteOrderMismatch,
    PointerSizeMismatch,
    Injection,
    RemoteCall,
    MemoryAccess,
}

/// The load addresses of the payload's three exported symbols.
#[derive(PartialEq, Eq, Structural, Clone, Copy, Debug)]
pub struct EntryPoints {
    /// The function that builds the transfer buffer.
    pub save: u64,
    /// The function that releases it.
    pub free: u64,
    /// The data symbol that holds the buffer's address.
    pub location: u64,
}

/// What the driver reports after an action.
#[derive(PartialEq, Eq, Structural, Clone, Copy, Debug)]
pub enum Event {
    Attached,
    /// The process does not exist, or the system refused the attach.
    AttachFailed,
    /// The target stopped at the sync point; its pointer size and byte
    /// order as the debugger reports them.
    SyncPointReached { pointer_size: u64, byte_order: ByteOrder },
    /// The engine function used as the sync point was not found.
    SyncPointNotFound,
    PayloadLoaded { entry: EntryPoints },
    /// The library could not be loaded, or one of its symbols resolved.
    InjectionFailed,
    /// The called function returned (with or without a value).
    CallCompleted,
    /// Evaluating the call failed.
    CallFailed,
    /// The transfer buffer was read out of the target.
    ResultRead,
    MemoryAccessFailed,
    /// The unload was attempted; its failure is not fatal.
    PayloadUnloaded,
    /// The target was resumed and the debugger detached.
    Detached,
}

/// What the driver must do next.
#[derive(PartialEq, Eq, Structural, Clone, Copy, Debug)]
pub enum Action {
    Attach,
    RunToSyncPoint,
    LoadPayload,
    /// Call the function at this address with no arguments.
    CallSave { address: u64 },
    /// Read the buffer whose address the data symbol at `location` holds.
    ReadResult { location: u64 },
    /// Call the function at this address with no arguments.
    CallFree { address: u64 },
    UnloadPayload,
    /// Let the target run again, then detach from it.
    ResumeAndDetach,
    /// Nothing is left to do.
    Finish,
}

/// One round against one target process.
pub struct RemoteSession {
    pub pid: u64,
    pub host_pointer_size: u64,
    pub host_byte_order: ByteOrder,
    pub phase: Phase,
    pub failure: Option<Failure>,
    pub entry: Option<EntryPoints>,
}

/// The payload is resident in the target.
pub open spec fn resident(phase: Phase) -> bool {
    phase == Phase::PayloadLoaded || phase == Phase::InvokedSave || phase == Phase::DataRead
        || phase == Phase::InvokedFree
}

/// The target is attached and may be stopped: a detach is still owed.
pub open spec fn attached(phase: Phase) -> bool {
    phase != Phase::Created && phase != Phase::Detached
}

/// The result of comparing the target's ABI with the host's.
pub open spec fn abi_check(
    pointer_size: u64,
    byte_order: ByteOrder,
    host_pointer_size: u64,
    host_byte_order: ByteOrder,
) -> Option<Failure> {
    if byte_order != host_byte_order {
        Some(Failure::ByteOrderMismatch)
    } else if pointer_size != host_pointer_size {
        Some(Failure::PointerSizeMismatch)
    } else {
        None
    }
}

/// Compares the target's pointer size and byte order with the host's;
/// the byte order is compared first.
pub fn check_abi(
    pointer_size: u64,
    byte_order: ByteOrder,
    host_pointer_size: u64,
    host_byte_order: ByteOrder,
) -> (r: Option<Failure>)
    ensures
        r == abi_check(pointer_size, byte_order, host_pointer_size, host_byte_order),
{
    if byte_order != host_byte_order {
        Some(Failure::ByteOrderMismatch)
    } else if pointer_size != host_pointer_size {
        Some(Failure::PointerSizeMismatch)
    } else {
        None
    }
}

/// The status with which the debugger reports that an evaluated
/// expression computed no value, as a call of a function without one does.
pub const NO_RESULT_STATUS: u32 = 0x1001;

/// Judges the error status of an evaluated expression: a failure is an
/// error, unless its code is [`NO_RESULT_STATUS`].
pub fn eval_expr(is_failure: bool, code: u32) -> (r: Result<(), u32>)
    ensures
        r is Err <==> is_failure && code != NO_RESULT_STATUS,
        r matches Err(c) ==> c == code,
{
    if is_failure && code != NO_RESULT_STATUS {
        Err(code)
    } else {
        Ok(())
    }
}

impl RemoteSession {
    /// The payload's addresses are known while it is resident.
    pub open spec fn well_formed(&self) -> bool {
        resident(self.phase) ==> self.entry.is_some()
    }

    /// The action that the state asks for.
    pub open spec fn action_of(&self) -> Action {
        if self.phase == Phase::Detached {
            Action::Finish
        } else if self.failure.is_some() {
            if resident(self.phase) {
                Action::UnloadPayload
            } else if attached(self.phase) {
                Action::ResumeAndDetach
            } else {
                Action::Finish
            }
        } else {
            match self.phase {
                Phase::Created => Action::Attach,
                Phase::Attached => Action::RunToSyncPoint,
                Phase::AtSyncPoint => Action::LoadPayload,
                Phase::PayloadLoaded => Action::CallSave { address: self.entry->Some_0.save },
                Phase::InvokedSave => Action::ReadResult { location: self.entry->Some_0.location },
                Phase::DataRead => Action::CallFree { address: self.entry->Some_0.free },
                Phase::InvokedFree => Action::UnloadPayload,
                Phase::PayloadUnloaded => Action::ResumeAndDetach,
                Phase::Detached => Action::Finish,
            }
        }
    }

    pub open spec fn with_phase(self, phase: Phase) -> RemoteSession {
        RemoteSession { phase, ..self }
    }

    pub open spec fn failed(self, failure: Failure) -> RemoteSession {
        RemoteSession { failure: Some(failure), ..self }
    }

    /// The state after `event`. An event that the state does not expect
    /// changes nothing.
    pub open spec fn transition(self, event: Event) -> RemoteSession {
        if self.failure.is_some() {
            match event {
                Event::PayloadUnloaded => if resident(self.phase) {
                    self.with_phase(Phase::PayloadUnloaded)
                } else {
                    self
                },
                Event::Detached => if attached(self.phase) && !resident(self.phase) {
                    self.with_phase(Phase::Detached)
                } else {
                    self
                },
                _ => self,
            }
        } else {
            match (self.phase, event) {
                (Phase::Created, Event::Attached) => self.with_phase(Phase::Attached),
                (Phase::Created, Event::AttachFailed) => self.failed(Failure::Attach).with_phase(
                    Phase::Detached,
                ),
                (Phase::Attached, Event::SyncPointReached { pointer_size, byte_order }) => {
                    let stopped = self.with_phase(Phase::AtSyncPoint);
                    match abi_check(
                        pointer_size,
                        byte_order,
                        self.host_pointer_size,
                        self.host_byte_order,
                    ) {
                        Some(f) => stopped.failed(f),
                        None => stopped,
                    }
                },
                (Phase::Attached, Event::SyncPointNotFound) => self.failed(
                    Failure::SyncPointNotFound,
                ),
                (Phase::AtSyncPoint, Event::PayloadLoaded { entry }) => RemoteSession {
                    phase: Phase::PayloadLoaded,
                    entry: Some(entry),
                    ..self
                },
                (Phase::AtSyncPoint, Event::InjectionFailed) => self.failed(Failure::Injection),
                (Phase::PayloadLoaded, Event::CallCompleted) => self.with_phase(Phase::InvokedSave),
                (Phase::PayloadLoaded, Event::CallFailed) => self.failed(Failure::RemoteCall),
                (Phase::InvokedSave, Event::ResultRead) => self.with_phase(Phase::DataRead),
                (Phase::InvokedSave, Event::MemoryAccessFailed) => self.failed(
                    Failure::MemoryAccess,
                ),
                (Phase::DataRead, Event::CallCompleted) => self.with_phase(Phase::InvokedFree),
                (Phase::DataRead, Event::CallFailed) => self.failed(Failure::RemoteCall),
                (Phase::InvokedFree, Event::PayloadUnloaded) => self.with_phase(
                    Phase::PayloadUnloaded,
                ),
                (Phase::PayloadUnloaded, Event::Detached) => self.with_phase(Phase::Detached),
                _ => self,
            }
        }
    }

    /// A round that has not attached yet.
    pub fn new(pid: u64, host_pointer_size: u64, host_byte_order: ByteOrder) -> (r: Self)
        ensures
            r.pid == pid,
            r.host_pointer_size == host_pointer_size,
            r.host_byte_order == host_byte_order,
            r.phase == Phase::Created,
            r.failure.is_none(),
            r.entry.is_none(),
            r.well_formed(),
    {
        RemoteSession {
            pid,
            host_pointer_size,
            host_byte_order,
            phase: Phase::Created,
            failure: None,
            entry: None,
        }
    }

    /// The action that the driver must perform now.
    pub fn next_action(&self) -> (r: Action)
        requires
            self.well_formed(),
        ensures
            r == self.action_of(),
    {
        if self.phase == Phase::Detached {
            return Action::Finish;
        }
        if self.failure.is_some() {
            return match self.phase {
                Phase::PayloadLoaded | Phase::InvokedSave | Phase::DataRead
                | Phase::InvokedFree => Action::UnloadPayload,
                Phase::Created => Action::Finish,
                _ => Action::ResumeAndDetach,
            };
        }
        match self.phase {
            Phase::Created => Action::Attach,
            Phase::Attached => Action::RunToSyncPoint,
            Phase::AtSyncPoint => Action::LoadPayload,
            Phase::PayloadLoaded => Action::CallSave { address: self.entry.unwrap().save },
            Phase::InvokedSave => Action::ReadResult { location: self.entry.unwrap().location },
            Phase::DataRead => Action::CallFree { address: self.entry.unwrap().free },
            Phase::InvokedFree => Action::UnloadPayload,
            Phase::PayloadUnloaded => Action::ResumeAndDetach,
            Phase::Detached => Action::Finish,
        }
    }

    /// Takes in what the last action did, and says what to do next.
    pub fn on_event(&mut self, event: Event) -> (r: Action)
        requires
            old(self).well_formed(),
        ensures
            *final(self) == old(self).transition(event),
            final(self).well_formed(),
            r == final(self).action_of(),
    {
        if self.failure.is_some() {
            match event {
                Event::PayloadUnloaded => {
                    if matches!(
                        self.phase,
                        Phase::PayloadLoaded | Phase::InvokedSave | Phase::DataRead
                            | Phase::InvokedFree
                    ) {
                        self.phase = Phase::PayloadUnloaded;
                    }
                },
                Event::Detached => {
                    if matches!(
                        self.phase,
                        Phase::Attached | Phase::AtSyncPoint | Phase::PayloadUnloaded
                    ) {
                        self.phase = Phase::Detached;
                    }
                },
                _ => {},
            }
        } else {
            match (self.phase, event) {
                (Phase::Created, Event::Attached) => {
                    self.phase = Phase::Attached;
                },
                (Phase::Created, Event::AttachFailed) => {
                    self.failure = Some(Failure::Attach);
                    self.phase = Phase::Detached;
                },
                (Phase::Attached, Event::SyncPointReached { pointer_size, byte_order }) => {
                    self.phase = Phase::AtSyncPoint;
                    let checked = check_abi(
                        pointer_size,
                        byte_order,
                        self.host_pointer_size,
                        self.host_byte_order,
                    );
                    if let Some(f) = checked {
                        self.failure = Some(f);
                    }
                },
                (Phase::Attached, Event::SyncPointNotFound) => {
                    self.failure = Some(Failure::SyncPointNotFound);
                },
                (Phase::AtSyncPoint, Event::PayloadLoaded { entry }) => {
                    self.phase = Phase::PayloadLoaded;
                    self.entry = Some(entry);
                },
                (Phase::AtSyncPoint, Event::InjectionFailed) => {
                    self.failure = Some(Failure::Injection);
                },
                (Phase::PayloadLoaded, Event::CallCompleted) => {
                    self.phase = Phase::InvokedSave;
                },
                (Phase::PayloadLoaded, Event::CallFailed) => {
                    self.failure = Some(Failure::RemoteCall);
                },
                (Phase::InvokedSave, Event::ResultRead) => {
                    self.phase = Phase::DataRead;
                },
                (Phase::InvokedSave, Event::MemoryAccessFailed) => {
                    self.failure = Some(Failure::MemoryAccess);
                },
                (Phase::DataRead, Event::CallCompleted) => {
                    self.phase = Phase::InvokedFree;
                },
                (Phase::DataRead, Event::CallFailed) => {
                    self.failure = Some(Failure::RemoteCall);
                },
                (Phase::InvokedFree, Event::PayloadUnloaded) => {
                    self.phase = Phase::PayloadUnloaded;
                },
                (Phase::PayloadUnloaded, Event::Detached) => {
                    self.phase = Phase::Detached;
                },
                _ => {},
            }
        }
        self.next_action()
    }
}

/// A target whose pointer size or byte order differs from the host's is
/// refused when the sync point is reached: the next action is the detach,
/// the payload is never loaded, and the detach ends the round.
pub proof fn lemma_abi_gate(s: RemoteSession, pointer_size: u64, byte_order: ByteOrder)
    requires
        s.well_formed(),
        s.phase == Phase::Attached,
        s.failure.is_none(),
        pointer_size != s.host_pointer_size || byte_order != s.host_byte_order,
    ensures
        ({
            let t = s.transition(Event::SyncPointReached { pointer_size, byte_order });
            &&& t.failure == Some(
                if byte_order != s.host_byte_order {
                    Failure::ByteOrderMismatch
                } else {
                    Failure::PointerSizeMismatch
                },
            )
            &&& t.action_of() == Action::ResumeAndDetach
            &&& forall|e: Event|
                #![trigger t.transition(e)]
                t.transition(e).action_of() == Action::ResumeAndDetach || t.transition(e).action_of()
                    == Action::Finish
            &&& t.transition(Event::Detached).phase == Phase::Detached
        }),
{
}

/// When loading the payload fails, the round still detaches.
pub proof fn lemma_injection_failure_detaches(s: RemoteSession)
    requires
        s.well_formed(),
        s.phase == Phase::AtSyncPoint,
        s.failure.is_none(),
    ensures
        ({
            let t = s.transition(Event::InjectionFailed);
            &&& t.failure == Some(Failure::Injection)
            &&& t.action_of() == Action::ResumeAndDetach
            &&& t.transition(Event::Detached).phase == Phase::Detached
            &&& t.transition(Event::Detached).action_of() == Action::Finish
        }),
{
}

/// Whatever fails after the attach, the next action is an unload (while
/// the payload is resident) or the detach, and at most two more events
/// bring the round to `Detached`.
pub proof fn lemma_failure_leads_to_detach(s: RemoteSession, event: Event)
    requires
        s.well_formed(),
        attached(s.phase),
        s.failure.is_none(),
        s.transition(event).failure.is_some(),
    ensures
        ({
            let t = s.transition(event);
            let a = t.action_of();
            &&& a == Action::UnloadPayload || a == Action::ResumeAndDetach
            &&& a == Action::UnloadPayload ==> t.transition(Event::PayloadUnloaded).action_of()
                == Action::ResumeAndDetach && t.transition(Event::PayloadUnloaded).transition(
                Event::Detached,
            ).phase == Phase::Detached
            &&& a == Action::ResumeAndDetach ==> t.transition(Event::Detached).phase
                == Phase::Detached
        }),
{
}

/// A round without failures ends detached once the target is resumed.
pub proof fn lemma_success_path(s: RemoteSession, entry: EntryPoints)
    requires
        s.well_formed(),
        s.phase == Phase::Created,
        s.failure.is_none(),
    ensures
        ({
            let t = s.transition(Event::Attached).transition(
                Event::SyncPointReached {
                    pointer_size: s.host_pointer_size,
                    byte_order: s.host_byte_order,
                },
            ).transition(Event::PayloadLoaded { entry });
            &&& t.action_of() == Action::CallSave { address: entry.save }
            &&& t.transition(Event::CallCompleted).action_of() == Action::ReadResult {
                location: entry.location,
            }
            &&& t.transition(Event::CallCompleted).transition(Event::ResultRead).action_of()
                == Action::CallFree { address: entry.free }
            &&& t.transition(Event::CallCompleted).transition(Event::ResultRead).transition(
                Event::CallCompleted,
            ).transition(Event::PayloadUnloaded).transition(Event::Detached).phase
                == Phase::Detached
            &&& t.transition(Event::CallCompleted).transition(Event::ResultRead).transition(
                Event::CallCompleted,
            ).transition(Event::PayloadUnloaded).transition(Event::Detached).failure.is_none()
        }),
{
}

} // verus!

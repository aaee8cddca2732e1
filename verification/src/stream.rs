//! Ownership of microphone capture handles: at most one live handle per
//! stream kind, with start and stop as the only mutators.
//!
//! The surrounding process performs the actual device negotiation and keeps
//! the OS stream objects; this module keeps the authoritative slot and its
//! discipline. A `&mut` borrow of a manager stands for the critical section
//! of the lock that guards its slot.

use vstd::prelude::*;

verus! {

/// The two independent capture paths, each owning its own device binding.
#[derive(Clone, Copy, PartialEq, Eq, Structural, Debug)]
pub enum StreamKind {
    /// The always-on wake-word detection stream.
    WakeWord,
    /// The flag-gated diagnostics stream that forwards raw frames.
    SilentRecording,
}

/// Ownership of one live OS audio input stream. The `device_id` identifies
/// the OS binding held by the surrounding process.
#[derive(Clone, Copy, PartialEq, Eq, Structural, Debug)]
pub struct CaptureHandle {
    pub kind: StreamKind,
    pub device_id: u64,
}

/// A fatal device-acquisition failure: no input device, or the device
/// refused the capture configuration. Not retried automatically.
#[derive(Clone, Copy, PartialEq, Eq, Structural, Debug)]
pub enum SetupError {
    DeviceUnavailable,
}

/// Owns the single capture-handle slot of one stream kind.
pub struct StreamManager {
    pub kind: StreamKind,
    pub slot: Option<CaptureHandle>,
}

impl StreamManager {
    /// Which stream kind this manager owns.
    pub open spec fn kind(&self) -> StreamKind {
        self.kind
    }

    /// The slot's content.
    pub open spec fn handle(&self) -> Option<CaptureHandle> {
        self.slot
    }

    /// Whether a capture handle is live.
    pub open spec fn running(&self) -> bool {
        self.slot is Some
    }

    /// How many handles of this kind are live: the slot holds at most one.
    pub open spec fn live_count(&self) -> int {
        if self.slot is Some {
            1
        } else {
            0
        }
    }

    /// Any handle in the slot is of this manager's own kind.
    pub open spec fn wf(&self) -> bool {
        self.slot matches Some(h) ==> h.kind == self.kind
    }

    /// The manager after a successful start that bound `device_id`.
    pub open spec fn started(self, device_id: u64) -> StreamManager {
        StreamManager { kind: self.kind, slot: Some(CaptureHandle { kind: self.kind, device_id }) }
    }

    /// The manager after a stop: the slot is empty.
    pub open spec fn stopped(self) -> StreamManager {
        StreamManager { kind: self.kind, slot: None }
    }

    /// A fresh manager with an empty slot.
    pub fn new(kind: StreamKind) -> (m: StreamManager)
        ensures
            m.kind() == kind,
            !m.running(),
            m.wf(),
    {
        StreamManager { kind, slot: None }
    }

    pub fn is_running(&self) -> (b: bool)
        ensures
            b == self.running(),
    {
        self.slot.is_some()
    }

    /// Start the stream: store the freshly negotiated device binding, or
    /// surface the setup error with the slot left empty — no partial state.
    /// `acquired` is the outcome of the device negotiation the surrounding
    /// process just performed (`None`: no device was available).
    /// Construction of a new handle must be preceded by teardown of any
    /// prior one, hence the empty-slot precondition.
    pub fn start(&mut self, acquired: Option<u64>) -> (r: Result<(), SetupError>)
        requires
            !old(self).running(),
        ensures
            r is Ok <==> acquired is Some,
            acquired matches Some(id) ==> *final(self) == old(self).started(id),
            acquired is None ==> *final(self) == *old(self) && r == Err::<(), SetupError>(
                SetupError::DeviceUnavailable,
            ),
            old(self).wf() ==> final(self).wf(),
    {
        match acquired {
            Some(id) => {
                self.slot = Some(CaptureHandle { kind: self.kind, device_id: id });
                Ok(())
            },
            None => Err(SetupError::DeviceUnavailable),
        }
    }

    /// Stop the stream: take the current handle out, leaving the slot
    /// empty. The returned handle tells the surrounding process which OS
    /// binding to release.
    pub fn stop(&mut self) -> (released: Option<CaptureHandle>)
        ensures
            released == old(self).handle(),
            *final(self) == old(self).stopped(),
            final(self).wf(),
    {
        self.slot.take()
    }
}

/// At every observation point the slot of a manager holds zero or one
/// handle: repeated start/stop cycles cannot leak a device binding.
pub proof fn lemma_slot_occupancy(m: StreamManager)
    ensures
        0 <= m.live_count() <= 1,
{
}

/// After start, stop, and start again, exactly one capture handle is live —
/// no leak across cycles.
pub proof fn lemma_start_stop_start(m: StreamManager, first: u64, second: u64)
    requires
        !m.running(),
    ensures
        m.started(first).stopped().started(second).live_count() == 1,
        m.started(first).stopped().started(second).handle() == Some(
            CaptureHandle { kind: m.kind(), device_id: second },
        ),
{
}

} // verus!

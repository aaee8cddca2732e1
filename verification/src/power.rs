//! The power lifecycle controller: a two-state machine driven entirely by
//! OS power notifications. On suspend it stops and releases every running
//! stream; on resume it restarts each stream that is configured to run,
//! re-reading the silent-recording flag, and announces the resume.
//!
//! The surrounding process consumes power notifications one at a time on a
//! dedicated listener thread and calls into here synchronously, so no two
//! events are ever handled concurrently; a `&mut` borrow stands for that
//! serialization.

use vstd::prelude::*;

use crate::events::AppEvent;
use crate::stream::CaptureHandle;
use crate::stream::StreamKind;
use crate::stream::StreamManager;

verus! {

/// The two observed power states.
#[derive(Clone, Copy, PartialEq, Eq, Structural, Debug)]
pub enum PowerState {
    Active,
    Suspended,
}

/// An OS power notification. No payload; not persisted.
#[derive(Clone, Copy, PartialEq, Eq, Structural, Debug)]
pub enum PowerEvent {
    Suspend,
    Resume,
}

/// Why pipeline startup failed fatally.
#[derive(Clone, Copy, PartialEq, Eq, Structural, Debug)]
pub enum StartError {
    /// The wake-word stream could not acquire an input device.
    WakeDevice,
    /// The silent-recording stream was configured to run but could not
    /// acquire its own device binding; the wake-word stream is unaffected.
    SilentDevice,
}

/// Owns the power state and both stream managers.
pub struct PowerLifecycle {
    pub power: PowerState,
    pub wake: StreamManager,
    pub silent: StreamManager,
}

impl PowerLifecycle {
    pub open spec fn power(&self) -> PowerState {
        self.power
    }

    pub open spec fn wake_handle(&self) -> Option<CaptureHandle> {
        self.wake.handle()
    }

    pub open spec fn silent_handle(&self) -> Option<CaptureHandle> {
        self.silent.handle()
    }

    pub open spec fn wake_running(&self) -> bool {
        self.wake.running()
    }

    pub open spec fn silent_running(&self) -> bool {
        self.silent.running()
    }

    /// The controller's invariant: each manager owns its own kind, and in
    /// the suspended state no stream is running (suspend released them all).
    pub open spec fn inv(&self) -> bool {
        &&& self.wake.kind() == StreamKind::WakeWord
        &&& self.silent.kind() == StreamKind::SilentRecording
        &&& self.wake.wf()
        &&& self.silent.wf()
        &&& self.power is Suspended ==> !self.wake.running() && !self.silent.running()
    }

    /// The state a suspend notification leads to, from anywhere: suspended,
    /// with every slot emptied.
    pub open spec fn suspended_form(self) -> PowerLifecycle {
        PowerLifecycle {
            power: PowerState::Suspended,
            wake: self.wake.stopped(),
            silent: self.silent.stopped(),
        }
    }

    /// The state a resume notification leads to from the suspended state,
    /// given the flag as re-read at this restart and the outcome of each
    /// device negotiation (`None`: that device could not be acquired, the
    /// stream stays inactive until the next resume retries it).
    pub open spec fn resumed_form(
        self,
        silent_enabled: bool,
        wake_acquired: Option<u64>,
        silent_acquired: Option<u64>,
    ) -> PowerLifecycle {
        PowerLifecycle {
            power: PowerState::Active,
            wake: match wake_acquired {
                Some(id) => self.wake.stopped().started(id),
                None => self.wake.stopped(),
            },
            silent: match silent_acquired {
                Some(id) => if silent_enabled {
                    self.silent.stopped().started(id)
                } else {
                    self.silent.stopped()
                },
                None => self.silent.stopped(),
            },
        }
    }

    /// A fresh controller: the process launches awake, nothing running yet.
    pub fn new() -> (l: PowerLifecycle)
        ensures
            l.inv(),
            l.power() is Active,
            !l.wake_running(),
            !l.silent_running(),
    {
        PowerLifecycle {
            power: PowerState::Active,
            wake: StreamManager::new(StreamKind::WakeWord),
            silent: StreamManager::new(StreamKind::SilentRecording),
        }
    }

    /// First start of the pipeline at process launch. The wake-word stream
    /// is mandatory: without a device the startup is aborted with no
    /// partial state. The silent-recording stream runs only when the flag
    /// is set; its failure is surfaced without affecting the wake stream.
    pub fn start_pipeline(
        &mut self,
        silent_enabled: bool,
        wake_acquired: Option<u64>,
        silent_acquired: Option<u64>,
    ) -> (r: Result<(), StartError>)
        requires
            old(self).inv(),
            old(self).power() is Active,
            !old(self).wake_running(),
            !old(self).silent_running(),
        ensures
            final(self).inv(),
            final(self).power() == old(self).power(),
            wake_acquired is None ==> r == Err::<(), StartError>(StartError::WakeDevice)
                && *final(self) == *old(self),
            wake_acquired matches Some(id) ==> final(self).wake == old(self).wake.started(id),
            wake_acquired is Some && silent_enabled && silent_acquired is Some ==> r is Ok
                && final(self).silent == old(self).silent.started(
                silent_acquired.unwrap(),
            ),
            wake_acquired is Some && silent_enabled && silent_acquired is None ==> r == Err::<
                (),
                StartError,
            >(StartError::SilentDevice) && !final(self).silent_running(),
            wake_acquired is Some && !silent_enabled ==> r is Ok && !final(self).silent_running(),
    {
        match self.wake.start(wake_acquired) {
            Err(_) => Err(StartError::WakeDevice),
            Ok(()) => {
                if silent_enabled {
                    match self.silent.start(silent_acquired) {
                        Err(_) => Err(StartError::SilentDevice),
                        Ok(()) => Ok(()),
                    }
                } else {
                    Ok(())
                }
            },
        }
    }

    /// React to a suspend notification: stop every running stream,
    /// releasing its device handle, and enter the suspended state. A
    /// suspend while already suspended, or with nothing running, is a
    /// no-op on the streams. The returned handles tell the surrounding
    /// process which OS bindings to release.
    pub fn handle_suspend(&mut self) -> (released: (Option<CaptureHandle>, Option<CaptureHandle>))
        requires
            old(self).inv(),
        ensures
            final(self).inv(),
            *final(self) == old(self).suspended_form(),
            released.0 == old(self).wake_handle(),
            released.1 == old(self).silent_handle(),
    {
        self.power = PowerState::Suspended;
        let wake_released = self.wake.stop();
        let silent_released = self.silent.stop();
        (wake_released, silent_released)
    }

    /// React to a resume notification while suspended: restart each stream
    /// configured to run — the wake-word stream always, the
    /// silent-recording stream exactly when the flag, re-read now, is set —
    /// and emit `resume-detected` exactly once. A device that cannot be
    /// reacquired leaves its stream inactive until the next resume. A
    /// resume while already active is a no-op.
    pub fn handle_resume(
        &mut self,
        silent_enabled: bool,
        wake_acquired: Option<u64>,
        silent_acquired: Option<u64>,
    ) -> (events: Vec<AppEvent>)
        requires
            old(self).inv(),
        ensures
            final(self).inv(),
            old(self).power() is Suspended ==> *final(self) == old(self).resumed_form(
                silent_enabled,
                wake_acquired,
                silent_acquired,
            ),
            old(self).power() is Suspended ==> events@ == seq![AppEvent::ResumeDetected],
            old(self).power() is Active ==> *final(self) == *old(self) && events@ == Seq::<
                AppEvent,
            >::empty(),
    {
        let mut events: Vec<AppEvent> = Vec::new();
        match self.power {
            PowerState::Active => {
            },
            PowerState::Suspended => {
                self.power = PowerState::Active;
                let _ = self.wake.start(wake_acquired);
                if silent_enabled {
                    let _ = self.silent.start(silent_acquired);
                }
                events.push(AppEvent::ResumeDetected);
                proof {
                    assert(events@ =~= seq![AppEvent::ResumeDetected]);
                    assert(*self =~= old(self).resumed_form(
                        silent_enabled,
                        wake_acquired,
                        silent_acquired,
                    ));
                }
            },
        }
        events
    }
}

/// Suspend is idempotent: a second suspend notification, from the state the
/// first one produced, changes nothing.
pub proof fn lemma_suspend_idempotent(l: PowerLifecycle)
    ensures
        l.suspended_form().suspended_form() == l.suspended_form(),
{
}

} // verus!

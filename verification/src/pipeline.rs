//! The assembled pipeline: the loaded model, the power lifecycle with its
//! two stream managers, and the window controller.
//!
//! Per-frame work runs on the OS audio callback thread and never blocks:
//! each callback is a pure decision here, and the surrounding process
//! performs the returned emission or network send, fire-and-forget. A bad
//! frame (wrong width) is dropped and never tears the stream down.

use vstd::prelude::*;

use crate::events::AppEvent;
use crate::inference::AudioFrame;
use crate::inference::Model;
use crate::inference::spec_classify;
use crate::inference::WAKE_THRESHOLD;
use crate::power::PowerLifecycle;
use crate::power::PowerState;
use crate::power::StartError;
use crate::power::PowerEvent;
use crate::stream::CaptureHandle;
use crate::tray::UiAction;
use crate::tray::WindowController;

verus! {

/// The 16-bit two's-complement code of one sample.
pub open spec fn sample_code(s: i16) -> int {
    if s >= 0 {
        s as int
    } else {
        s + 65536
    }
}

/// The wire form of a raw frame: each sample as two little-endian bytes.
pub open spec fn frame_bytes(f: Seq<i16>) -> Seq<u8> {
    Seq::new(
        2 * f.len(),
        |i: int|
            if i % 2 == 0 {
                (sample_code(f[i / 2]) % 256) as u8
            } else {
                (sample_code(f[i / 2]) / 256) as u8
            },
    )
}

/// Serialize a raw frame for the best-effort forward to the recording
/// endpoint.
pub fn encode_frame(frame: &AudioFrame) -> (b: Vec<u8>)
    ensures
        b@ == frame_bytes(frame@),
{
    let n = frame.samples.len();
    let mut b: Vec<u8> = Vec::new();
    let mut i: usize = 0;
    while i < n
        invariant
            n == frame@.len(),
            i <= n,
            b@.len() == 2 * i,
            forall|j: int| 0 <= j < 2 * i ==> #[trigger] b@[j] == frame_bytes(frame@)[j],
        decreases n - i,
    {
        let s = frame.samples[i];
        let code: u32 = if s >= 0 {
            s as u32
        } else {
            ((s as i32) + 65536) as u32
        };
        b.push((code % 256) as u8);
        b.push((code / 256) as u8);
        i = i + 1;
    }
    proof {
        assert(b@ =~= frame_bytes(frame@));
    }
    b
}

/// What the silent-recording callback forwards in a given state: the raw
/// frame's wire form exactly when that stream's capture handle is live.
/// The current settings flag is no part of the state here — it is read
/// only when the stream starts.
pub open spec fn spec_silent_payload(p: Pipeline, f: Seq<i16>) -> Option<Seq<u8>> {
    if p.lifecycle.silent_running() {
        Some(frame_bytes(f))
    } else {
        None
    }
}

/// What the wake-word callback emits in a given state: the detection event
/// exactly when the stream is live, the frame has the model's declared
/// width, and the score crosses the threshold.
pub open spec fn spec_wake_event(p: Pipeline, f: Seq<i16>) -> Option<AppEvent> {
    if p.lifecycle.wake_running() && f.len() == p.model.input_len && spec_classify(p.model, f)
        > WAKE_THRESHOLD {
        Some(AppEvent::WakeWordDetected)
    } else {
        None
    }
}

/// What one power notification produced: the capture handles to release
/// (on suspend) and the UI actions to carry out, in order.
pub struct PowerStep {
    pub released_wake: Option<CaptureHandle>,
    pub released_silent: Option<CaptureHandle>,
    pub actions: Vec<UiAction>,
}

/// The assembled core of the companion process.
pub struct Pipeline {
    pub model: Model,
    pub lifecycle: PowerLifecycle,
    pub window: WindowController,
}

impl Pipeline {
    pub open spec fn inv(&self) -> bool {
        &&& self.model.wf()
        &&& self.lifecycle.inv()
    }

    /// Assemble the pipeline around a loaded model. Nothing runs yet.
    pub fn new(model: Model, window_visible: bool) -> (p: Pipeline)
        requires
            model.wf(),
        ensures
            p.inv(),
            p.model == model,
            p.lifecycle.power() is Active,
            !p.lifecycle.wake_running(),
            !p.lifecycle.silent_running(),
            p.window.visible() == window_visible,
    {
        Pipeline {
            model,
            lifecycle: PowerLifecycle::new(),
            window: WindowController::new(window_visible),
        }
    }

    /// Start the capture streams at process launch; see
    /// [`PowerLifecycle::start_pipeline`].
    pub fn start(
        &mut self,
        silent_enabled: bool,
        wake_acquired: Option<u64>,
        silent_acquired: Option<u64>,
    ) -> (r: Result<(), StartError>)
        requires
            old(self).inv(),
            old(self).lifecycle.power() is Active,
            !old(self).lifecycle.wake_running(),
            !old(self).lifecycle.silent_running(),
        ensures
            final(self).inv(),
            final(self).model == old(self).model,
            final(self).window == old(self).window,
            wake_acquired is None ==> r == Err::<(), StartError>(StartError::WakeDevice)
                && *final(self) == *old(self),
            wake_acquired matches Some(id) ==> final(self).lifecycle.wake
                == old(self).lifecycle.wake.started(id),
            wake_acquired is Some && silent_enabled && silent_acquired is Some ==> r is Ok
                && final(self).lifecycle.silent == old(self).lifecycle.silent.started(
                silent_acquired.unwrap(),
            ),
            wake_acquired is Some && silent_enabled && silent_acquired is None ==> r == Err::<
                (),
                StartError,
            >(StartError::SilentDevice) && !final(self).lifecycle.silent_running(),
            wake_acquired is Some && !silent_enabled ==> r is Ok
                && !final(self).lifecycle.silent_running(),
    {
        self.lifecycle.start_pipeline(silent_enabled, wake_acquired, silent_acquired)
    }

    /// Handle one power notification, delivered in order and one at a
    /// time. Suspend stops and releases every running stream. Resume,
    /// while suspended, restarts each stream configured to run (the flag
    /// re-read now), emits `resume-detected` exactly once, and restores
    /// the window's visibility and focus.
    pub fn handle_power_event(
        &mut self,
        event: PowerEvent,
        silent_enabled: bool,
        wake_acquired: Option<u64>,
        silent_acquired: Option<u64>,
    ) -> (step: PowerStep)
        requires
            old(self).inv(),
        ensures
            final(self).inv(),
            final(self).model == old(self).model,
            event is Suspend ==> {
                &&& final(self).lifecycle == old(self).lifecycle.suspended_form()
                &&& final(self).window == old(self).window
                &&& step.released_wake == old(self).lifecycle.wake_handle()
                &&& step.released_silent == old(self).lifecycle.silent_handle()
                &&& step.actions@ == Seq::<UiAction>::empty()
            },
            event is Resume && old(self).lifecycle.power() is Suspended ==> {
                &&& final(self).lifecycle == old(self).lifecycle.resumed_form(
                    silent_enabled,
                    wake_acquired,
                    silent_acquired,
                )
                &&& final(self).window.visible()
                &&& step.released_wake is None && step.released_silent is None
                &&& step.actions@ == seq![
                    UiAction::Emit(AppEvent::ResumeDetected),
                    UiAction::ShowWindow,
                    UiAction::FocusWindow,
                ]
            },
            event is Resume && old(self).lifecycle.power() is Active ==> *final(self) == *old(self)
                && step.released_wake is None && step.released_silent is None && step.actions@
                == Seq::<UiAction>::empty(),
    {
        match event {
            PowerEvent::Suspend => {
                let (released_wake, released_silent) = self.lifecycle.handle_suspend();
                PowerStep { released_wake, released_silent, actions: Vec::new() }
            },
            PowerEvent::Resume => {
                let was_suspended = match self.lifecycle.power {
                    PowerState::Suspended => true,
                    PowerState::Active => false,
                };
                let events = self.lifecycle.handle_resume(
                    silent_enabled,
                    wake_acquired,
                    silent_acquired,
                );
                let mut actions: Vec<UiAction> = Vec::new();
                if was_suspended {
                    let mut i: usize = 0;
                    let n = events.len();
                    while i < n
                        invariant
                            n == events@.len(),
                            i <= n,
                            actions@.len() == i,
                            forall|j: int|
                                0 <= j < i ==> #[trigger] actions@[j] == UiAction::Emit(
                                    events@[j],
                                ),
                        decreases n - i,
                    {
                        actions.push(UiAction::Emit(events[i]));
                        i = i + 1;
                    }
                    let mut window_acts = self.window.show_and_focus();
                    actions.append(&mut window_acts);
                    proof {
                        assert(actions@ =~= seq![
                            UiAction::Emit(AppEvent::ResumeDetected),
                            UiAction::ShowWindow,
                            UiAction::FocusWindow,
                        ]);
                    }
                }
                PowerStep { released_wake: None, released_silent: None, actions }
            },
        }
    }

    /// The wake-word stream's per-frame callback: classify the frame and
    /// decide whether the detection event is raised. A frame of the wrong
    /// width is dropped; a single bad frame never stops future callbacks.
    pub fn on_wake_frame(&self, frame: &AudioFrame) -> (ev: Option<AppEvent>)
        requires
            self.inv(),
        ensures
            ev == spec_wake_event(*self, frame@),
    {
        if !self.lifecycle.wake.is_running() {
            return None;
        }
        if frame.len() != self.model.input_len {
            return None;
        }
        let score = self.model.classify(frame);
        if score > WAKE_THRESHOLD {
            Some(AppEvent::WakeWordDetected)
        } else {
            None
        }
    }

    /// The silent-recording stream's per-frame callback: hand back the
    /// serialized frame for the best-effort network forward, exactly when
    /// that stream is live. Whether it is live was settled when the stream
    /// started; the settings flag is not re-read here.
    pub fn on_silent_frame(&self, frame: &AudioFrame) -> (payload: Option<Vec<u8>>)
        ensures
            payload is Some <==> spec_silent_payload(*self, frame@) is Some,
            payload matches Some(b) ==> spec_silent_payload(*self, frame@) == Some(b@),
    {
        if self.lifecycle.silent.is_running() {
            Some(encode_frame(frame))
        } else {
            None
        }
    }
}

/// The silent-recording path's behavior is a snapshot taken at stream
/// start: two pipeline states with the same silent capture slot forward
/// every frame identically, whatever the settings flag says meanwhile —
/// the flag is read again only at the next restart.
pub proof fn lemma_silent_snapshot(p1: Pipeline, p2: Pipeline, f: Seq<i16>)
    requires
        p1.lifecycle.silent_handle() == p2.lifecycle.silent_handle(),
    ensures
        spec_silent_payload(p1, f) == spec_silent_payload(p2, f),
{
}

} // verus!

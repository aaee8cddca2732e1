use atom_core::events::AppEvent;
use atom_core::inference::{parse_model, AudioFrame};
use atom_core::pipeline::{encode_frame, Pipeline};
use atom_core::power::{PowerEvent, PowerState, StartError};
use atom_core::stream::{SetupError, StreamKind, StreamManager};
use atom_core::tray::{TrayMenuItem, UiAction, WindowController};

/// A model of the given width whose score is the constant `score`.
fn pipeline_with_score(width: u32, score: i32) -> Pipeline {
    let mut bytes = width.to_le_bytes().to_vec();
    bytes.extend(std::iter::repeat(128u8).take(width as usize));
    bytes.extend_from_slice(&((score + 32768) as u16).to_le_bytes());
    Pipeline::new(parse_model(&bytes).unwrap(), true)
}

#[test]
fn event_names_are_the_external_contract() {
    assert_eq!(AppEvent::WakeWordDetected.name(), "wake-word-detected");
    assert_eq!(AppEvent::ResumeDetected.name(), "resume-detected");
    assert_eq!(AppEvent::StartTranscription.name(), "start-transcription");
}

#[test]
fn start_without_device_leaves_slot_empty() {
    let mut m = StreamManager::new(StreamKind::WakeWord);
    assert_eq!(m.start(None), Err(SetupError::DeviceUnavailable));
    assert!(!m.is_running());
    assert_eq!(m.slot, None);
}

#[test]
fn start_stop_start_leaves_exactly_one_handle() {
    let mut m = StreamManager::new(StreamKind::WakeWord);
    assert_eq!(m.start(Some(1)), Ok(()));
    assert!(m.is_running());
    let released = m.stop();
    assert_eq!(released.unwrap().device_id, 1);
    assert!(!m.is_running());
    assert_eq!(m.start(Some(2)), Ok(()));
    assert!(m.is_running());
    assert_eq!(m.slot.unwrap().device_id, 2);
}

#[test]
fn startup_without_wake_device_is_fatal_and_clean() {
    let mut p = pipeline_with_score(2, 730);
    assert_eq!(p.start(true, None, Some(9)), Err(StartError::WakeDevice));
    assert!(p.lifecycle.wake.slot.is_none());
    assert!(p.lifecycle.silent.slot.is_none());
}

#[test]
fn silent_device_failure_leaves_wake_stream_alone() {
    let mut p = pipeline_with_score(2, 730);
    assert_eq!(p.start(true, Some(1), None), Err(StartError::SilentDevice));
    assert!(p.lifecycle.wake.slot.is_some());
    assert!(p.lifecycle.silent.slot.is_none());
}

#[test]
fn suspend_stops_everything_and_is_idempotent() {
    let mut p = pipeline_with_score(2, 730);
    p.start(true, Some(1), Some(2)).unwrap();
    let step = p.handle_power_event(PowerEvent::Suspend, true, None, None);
    assert_eq!(step.released_wake.unwrap().device_id, 1);
    assert_eq!(step.released_silent.unwrap().device_id, 2);
    assert!(step.actions.is_empty());
    assert_eq!(p.lifecycle.power, PowerState::Suspended);
    assert!(p.lifecycle.wake.slot.is_none());
    assert!(p.lifecycle.silent.slot.is_none());
    // a second suspend changes nothing
    let step = p.handle_power_event(PowerEvent::Suspend, true, None, None);
    assert_eq!(step.released_wake, None);
    assert_eq!(step.released_silent, None);
    assert!(step.actions.is_empty());
    assert_eq!(p.lifecycle.power, PowerState::Suspended);
    assert!(p.lifecycle.wake.slot.is_none());
    assert!(p.lifecycle.silent.slot.is_none());
}

#[test]
fn resume_restarts_and_announces_exactly_once() {
    let mut p = pipeline_with_score(2, 730);
    p.start(false, Some(1), None).unwrap();
    p.handle_power_event(PowerEvent::Suspend, false, None, None);
    let step = p.handle_power_event(PowerEvent::Resume, false, Some(3), None);
    assert_eq!(
        step.actions,
        vec![
            UiAction::Emit(AppEvent::ResumeDetected),
            UiAction::ShowWindow,
            UiAction::FocusWindow,
        ]
    );
    let announced = step
        .actions
        .iter()
        .filter(|a| **a == UiAction::Emit(AppEvent::ResumeDetected))
        .count();
    assert_eq!(announced, 1);
    assert_eq!(p.lifecycle.power, PowerState::Active);
    assert_eq!(p.lifecycle.wake.slot.unwrap().device_id, 3);
    assert!(p.window.visible);
}

#[test]
fn resume_rereads_the_silent_flag() {
    // the flag was false at startup, flipped to true while suspended
    let mut p = pipeline_with_score(2, 730);
    p.start(false, Some(1), None).unwrap();
    assert!(p.lifecycle.silent.slot.is_none());
    p.handle_power_event(PowerEvent::Suspend, false, None, None);
    let step = p.handle_power_event(PowerEvent::Resume, true, Some(3), Some(4));
    assert_eq!(step.actions.len(), 3);
    assert_eq!(p.lifecycle.wake.slot.unwrap().device_id, 3);
    assert_eq!(p.lifecycle.silent.slot.unwrap().device_id, 4);
}

#[test]
fn resume_while_active_is_a_no_op() {
    let mut p = pipeline_with_score(2, 730);
    p.start(false, Some(1), None).unwrap();
    let step = p.handle_power_event(PowerEvent::Resume, true, Some(8), Some(9));
    assert!(step.actions.is_empty());
    assert_eq!(p.lifecycle.wake.slot.unwrap().device_id, 1);
    assert!(p.lifecycle.silent.slot.is_none());
}

#[test]
fn score_above_threshold_raises_exactly_one_event() {
    let mut p = pipeline_with_score(2, 730);
    p.start(false, Some(1), None).unwrap();
    let ev = p.on_wake_frame(&AudioFrame::new(vec![0, 0]));
    assert_eq!(ev, Some(AppEvent::WakeWordDetected));
}

#[test]
fn scores_at_or_below_threshold_raise_nothing() {
    for score in [0, 400, 500] {
        let mut p = pipeline_with_score(2, score);
        p.start(false, Some(1), None).unwrap();
        assert_eq!(p.on_wake_frame(&AudioFrame::new(vec![0, 0])), None);
    }
}

#[test]
fn bad_frames_and_stopped_streams_stay_silent() {
    let mut p = pipeline_with_score(2, 730);
    // stream not running: no event
    assert_eq!(p.on_wake_frame(&AudioFrame::new(vec![0, 0])), None);
    p.start(false, Some(1), None).unwrap();
    // wrong width: the frame is dropped
    assert_eq!(p.on_wake_frame(&AudioFrame::new(vec![0, 0, 0])), None);
    // and the stream still works afterwards
    assert_eq!(
        p.on_wake_frame(&AudioFrame::new(vec![0, 0])),
        Some(AppEvent::WakeWordDetected)
    );
}

#[test]
fn silent_forwarding_follows_the_snapshot_not_the_flag() {
    let mut p = pipeline_with_score(2, 730);
    p.start(true, Some(1), Some(2)).unwrap();
    let frame = AudioFrame::new(vec![1, -2]);
    assert_eq!(p.on_silent_frame(&frame), Some(encode_frame(&frame)));
    // the settings flag flips to false while the stream runs: the running
    // instance keeps forwarding until the next restart...
    assert_eq!(p.on_silent_frame(&frame), Some(encode_frame(&frame)));
    // ...and the restart re-reads it
    p.handle_power_event(PowerEvent::Suspend, false, None, None);
    p.handle_power_event(PowerEvent::Resume, false, Some(3), None);
    assert_eq!(p.on_silent_frame(&frame), None);
}

#[test]
fn frames_are_serialized_little_endian() {
    let frame = AudioFrame::new(vec![0x0102, -2]);
    // -2 is 0xFFFE in two's complement
    assert_eq!(encode_frame(&frame), vec![0x02, 0x01, 0xFE, 0xFF]);
}

#[test]
fn close_request_hides_instead_of_quitting() {
    let mut w = WindowController::new(true);
    let acts = w.handle_close_request();
    assert_eq!(acts, vec![UiAction::HideWindow]);
    assert!(!w.visible);
    assert!(!acts.contains(&UiAction::Exit));
}

#[test]
fn tray_left_click_toggles_visibility() {
    let mut w = WindowController::new(false);
    assert_eq!(w.handle_tray_left_click(), vec![UiAction::ShowWindow]);
    assert!(w.visible);
    assert_eq!(w.handle_tray_left_click(), vec![UiAction::HideWindow]);
    assert!(!w.visible);
}

#[test]
fn tray_menu_actions() {
    let mut w = WindowController::new(false);
    assert_eq!(
        w.handle_menu_select(TrayMenuItem::Show),
        vec![UiAction::ShowWindow, UiAction::FocusWindow]
    );
    assert!(w.visible);
    assert_eq!(
        w.handle_menu_select(TrayMenuItem::StartTranscription),
        vec![UiAction::Emit(AppEvent::StartTranscription)]
    );
    // only the quit item ends the process
    assert_eq!(w.handle_menu_select(TrayMenuItem::Quit), vec![UiAction::Exit]);
}

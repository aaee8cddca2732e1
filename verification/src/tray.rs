//! The tray and window controller: owns the main window's visibility and
//! translates tray clicks, menu selections and window close requests into
//! UI actions. A user's close click never ends the process — the window
//! hides to the tray; only the tray quit item exits.
//!
//! All handlers run on the UI event-loop thread and perform no blocking
//! work: each returns the actions for the surrounding process to carry out
//! on its window and event-sink capability objects.

use vstd::prelude::*;

use crate::events::AppEvent;

verus! {

/// The tray menu's three items.
#[derive(Clone, Copy, PartialEq, Eq, Structural, Debug)]
pub enum TrayMenuItem {
    /// Show and focus the main window.
    Show,
    /// Terminate the process immediately.
    Quit,
    /// Ask for a transcription session.
    StartTranscription,
}

/// One action for the surrounding process to perform, in order.
#[derive(Clone, Copy, PartialEq, Eq, Structural, Debug)]
pub enum UiAction {
    ShowWindow,
    HideWindow,
    FocusWindow,
    /// Broadcast the event to the UI layer, fire-and-forget.
    Emit(AppEvent),
    /// End the process.
    Exit,
}

/// Owns the main window's visibility.
pub struct WindowController {
    pub visible: bool,
}

impl WindowController {
    pub open spec fn visible(&self) -> bool {
        self.visible
    }

    pub fn new(initially_visible: bool) -> (w: WindowController)
        ensures
            w.visible() == initially_visible,
    {
        WindowController { visible: initially_visible }
    }

    /// A left click on the tray icon toggles the window's visibility.
    pub fn handle_tray_left_click(&mut self) -> (acts: Vec<UiAction>)
        ensures
            final(self).visible() == !old(self).visible(),
            old(self).visible() ==> acts@ == seq![UiAction::HideWindow],
            !old(self).visible() ==> acts@ == seq![UiAction::ShowWindow],
    {
        let mut acts: Vec<UiAction> = Vec::new();
        if self.visible {
            self.visible = false;
            acts.push(UiAction::HideWindow);
            proof {
                assert(acts@ =~= seq![UiAction::HideWindow]);
            }
        } else {
            self.visible = true;
            acts.push(UiAction::ShowWindow);
            proof {
                assert(acts@ =~= seq![UiAction::ShowWindow]);
            }
        }
        acts
    }

    /// A tray menu selection: show-and-focus, quit, or relay the
    /// transcription request as an application event.
    pub fn handle_menu_select(&mut self, item: TrayMenuItem) -> (acts: Vec<UiAction>)
        ensures
            item is Show ==> final(self).visible() && acts@ == seq![
                UiAction::ShowWindow,
                UiAction::FocusWindow,
            ],
            item is Quit ==> *final(self) == *old(self) && acts@ == seq![UiAction::Exit],
            item is StartTranscription ==> *final(self) == *old(self) && acts@ == seq![
                UiAction::Emit(AppEvent::StartTranscription),
            ],
    {
        let mut acts: Vec<UiAction> = Vec::new();
        match item {
            TrayMenuItem::Show => {
                self.visible = true;
                acts.push(UiAction::ShowWindow);
                acts.push(UiAction::FocusWindow);
                proof {
                    assert(acts@ =~= seq![UiAction::ShowWindow, UiAction::FocusWindow]);
                }
            },
            TrayMenuItem::Quit => {
                acts.push(UiAction::Exit);
                proof {
                    assert(acts@ =~= seq![UiAction::Exit]);
                }
            },
            TrayMenuItem::StartTranscription => {
                acts.push(UiAction::Emit(AppEvent::StartTranscription));
                proof {
                    assert(acts@ =~= seq![UiAction::Emit(AppEvent::StartTranscription)]);
                }
            },
        }
        acts
    }

    /// A window close request is intercepted and converted to hide-to-tray:
    /// the window is never destroyed by a close click and the process keeps
    /// running — the returned actions never contain `Exit`.
    pub fn handle_close_request(&mut self) -> (acts: Vec<UiAction>)
        ensures
            !final(self).visible(),
            acts@ == seq![UiAction::HideWindow],
    {
        self.visible = false;
        let mut acts: Vec<UiAction> = Vec::new();
        acts.push(UiAction::HideWindow);
        proof {
            assert(acts@ =~= seq![UiAction::HideWindow]);
        }
        acts
    }

    /// Restore the window after a resume: make it visible and give it
    /// input focus.
    pub fn show_and_focus(&mut self) -> (acts: Vec<UiAction>)
        ensures
            final(self).visible(),
            acts@ == seq![UiAction::ShowWindow, UiAction::FocusWindow],
    {
        self.visible = true;
        let mut acts: Vec<UiAction> = Vec::new();
        acts.push(UiAction::ShowWindow);
        acts.push(UiAction::FocusWindow);
        proof {
            assert(acts@ =~= seq![UiAction::ShowWindow, UiAction::FocusWindow]);
        }
        acts
    }
}

} // verus!

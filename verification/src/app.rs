//! The application's reaction to events, as a state machine.
//!
//! The caller owns the windows, the tray icon, the shared flags read by the
//! timer thread and the worker threads; it feeds each event to
//! [`AppState::handle_event`] and carries out the action it returns. Showing the
//! overlay is a conversation: the caller asks the system whether media is
//! playing and tells [`AppState::pause_media`], then reports with
//! [`AppState::overlay_opened`] whether the overlay could be created.
use vstd::prelude::*;
use crate::events::AppEvent;
use crate::settings::{Settings, SettingsView};
use crate::updater::UpdateInfo;

verus! {

/// What the caller is to do in answer to an event.
#[derive(Debug)]
pub enum AppAction {
    /// Start a break: ask whether media is playing (see
    /// [`AppState::pause_media`]), then capture and show the overlay and report
    /// with [`AppState::overlay_opened`].
    ShowOverlay,
    /// Close the overlay window, if any; send the media play key first when
    /// `resume_media` is set.
    CloseOverlay { resume_media: bool },
    /// Show the paused (or running) state in the tray icon's tip.
    SetTrayPaused(bool),
    /// Create the settings window with a copy of the settings, and report with
    /// [`AppState::settings_window_opened`].
    OpenSettingsWindow,
    /// Bring the open settings window to the front.
    FocusSettingsWindow,
    /// Close the settings window.
    CloseSettingsWindow,
    /// Persist the settings now held (and update the autostart entry).
    SaveSettings,
    /// Check for updates on a worker thread.
    CheckForUpdates,
    /// Download and install the update on a worker thread.
    StartUpdate,
    /// Pass the update check's outcome to the settings window.
    ForwardUpdateStatus(UpdateInfo),
    /// Pass the download progress to the settings window.
    ForwardUpdateProgress(u32),
    /// Pass an update error to the settings window.
    ForwardUpdateError(String),
    /// Apply the theme (`true` is dark) to the tray menu and the open windows.
    ApplyTheme(bool),
    /// Fetch the bundled animation again on a worker thread.
    SyncAssets,
    /// Leave the message loop.
    Quit,
}

/// What the application knows between events.
#[derive(Debug)]
pub struct AppState {
    /// The settings in force.
    pub settings: Settings,
    /// Whether the user paused the timer.
    pub paused: bool,
    /// Whether the session is locked.
    pub session_paused: bool,
    /// Whether the system uses the dark theme.
    pub is_dark_mode: bool,
    /// Whether the break overlay is up.
    pub overlay_open: bool,
    /// Whether the settings window is up.
    pub settings_window_open: bool,
    /// Whether media was playing when the overlay came up (and was paused).
    pub was_media_playing: bool,
}

/// The mathematical model of [`AppState`].
pub struct AppView {
    pub settings: SettingsView,
    pub paused: bool,
    pub session_paused: bool,
    pub is_dark_mode: bool,
    pub overlay_open: bool,
    pub settings_window_open: bool,
    pub was_media_playing: bool,
}

impl View for AppState {
    type V = AppView;

    open spec fn view(&self) -> AppView {
        AppView {
            settings: self.settings@,
            paused: self.paused,
            session_paused: self.session_paused,
            is_dark_mode: self.is_dark_mode,
            overlay_open: self.overlay_open,
            settings_window_open: self.settings_window_open,
            was_media_playing: self.was_media_playing,
        }
    }
}

/// Whether an overlay may come up in this state: none is up and the session is
/// not locked.
pub open spec fn may_show_overlay(s: AppView) -> bool {
    !s.overlay_open && !s.session_paused
}

/// The state after an event.
pub open spec fn next_state(s: AppView, e: AppEvent) -> AppView {
    match e {
        AppEvent::HideOverlay | AppEvent::UserDismissed => AppView {
            overlay_open: false,
            was_media_playing: if s.overlay_open { false } else { s.was_media_playing },
            ..s
        },
        AppEvent::SettingsClosed => AppView { settings_window_open: false, ..s },
        AppEvent::TogglePause => AppView { paused: !s.paused, ..s },
        AppEvent::ConfigChanged(new_settings) => AppView { settings: new_settings@, ..s },
        AppEvent::ThemeChanged(is_dark) => AppView { is_dark_mode: is_dark, ..s },
        AppEvent::SessionLocked => AppView { session_paused: true, overlay_open: false, ..s },
        AppEvent::SessionUnlocked => AppView { session_paused: false, ..s },
        _ => s,
    }
}

/// Whether `a` is the action that answers event `e` in state `s`.
pub open spec fn action_for(s: AppView, e: AppEvent, a: Option<AppAction>) -> bool {
    match e {
        AppEvent::ShowOverlay => if may_show_overlay(s) {
            a matches Some(AppAction::ShowOverlay)
        } else {
            a is None
        },
        AppEvent::HideOverlay | AppEvent::UserDismissed => a matches Some(
            AppAction::CloseOverlay { resume_media },
        ) && resume_media == (s.overlay_open && s.was_media_playing),
        AppEvent::SettingsClosed => a matches Some(AppAction::CloseSettingsWindow),
        AppEvent::TogglePause => a matches Some(AppAction::SetTrayPaused(p)) && p == !s.paused,
        AppEvent::OpenSettings => if s.settings_window_open {
            a matches Some(AppAction::FocusSettingsWindow)
        } else {
            a matches Some(AppAction::OpenSettingsWindow)
        },
        AppEvent::Quit => a matches Some(AppAction::Quit),
        AppEvent::ConfigChanged(_) => a matches Some(AppAction::SaveSettings),
        AppEvent::ThemeChanged(is_dark) => a matches Some(AppAction::ApplyTheme(d)) && d == is_dark,
        AppEvent::CheckForUpdates => a matches Some(AppAction::CheckForUpdates),
        AppEvent::UpdateStatus(info) => if s.settings_window_open {
            a matches Some(AppAction::ForwardUpdateStatus(i)) && i == info
        } else {
            a is None
        },
        AppEvent::StartUpdate => a matches Some(AppAction::StartUpdate),
        AppEvent::UpdateProgress(p) => if s.settings_window_open {
            a matches Some(AppAction::ForwardUpdateProgress(q)) && q == p
        } else {
            a is None
        },
        AppEvent::UpdateError(msg) => if s.settings_window_open {
            a matches Some(AppAction::ForwardUpdateError(m)) && m == msg
        } else {
            a is None
        },
        AppEvent::SessionLocked => a matches Some(AppAction::CloseOverlay { resume_media }) && !resume_media,
        AppEvent::SessionUnlocked => a is None,
        AppEvent::RetryAssetSync => a matches Some(AppAction::SyncAssets),
        AppEvent::AssetDownloaded(_) | AppEvent::AssetDownloadError(_) => a is None,
    }
}

impl AppState {
    /// The state at start-up: the loaded settings, the system theme, nothing
    /// paused, no window up, no media paused.
    pub fn new(settings: Settings, is_dark_mode: bool) -> (r: AppState)
        ensures
            r@ == (AppView {
                settings: settings@,
                paused: false,
                session_paused: false,
                is_dark_mode,
                overlay_open: false,
                settings_window_open: false,
                was_media_playing: false,
            }),
    {
        AppState {
            settings,
            paused: false,
            session_paused: false,
            is_dark_mode,
            overlay_open: false,
            settings_window_open: false,
            was_media_playing: false,
        }
    }

    /// Reacts to an event: updates the state and returns what the caller is to
    /// do.
    ///
    /// A break overlay comes up only when none is up and the session is not
    /// locked. Hiding or dismissing it closes it and resumes media exactly when
    /// an overlay was up and media had been paused for it. Locking the session
    /// closes the overlay without resuming media. Toggling pause flips the flag
    /// and shows it in the tray. New settings are kept as given and saved.
    /// Update news reach the settings window only while it is open.
    pub fn handle_event(&mut self, event: AppEvent) -> (r: Option<AppAction>)
        ensures
            final(self)@ == next_state(old(self)@, event),
            action_for(old(self)@, event, r),
    {
        match event {
            AppEvent::ShowOverlay => {
                if !self.overlay_open && !self.session_paused {
                    Some(AppAction::ShowOverlay)
                } else {
                    None
                }
            },
            AppEvent::HideOverlay | AppEvent::UserDismissed => {
                let resume_media = if self.overlay_open {
                    self.resume_media()
                } else {
                    false
                };
                self.overlay_open = false;
                Some(AppAction::CloseOverlay { resume_media })
            },
            AppEvent::SettingsClosed => {
                self.settings_window_open = false;
                Some(AppAction::CloseSettingsWindow)
            },
            AppEvent::TogglePause => {
                self.paused = !self.paused;
                Some(AppAction::SetTrayPaused(self.paused))
            },
            AppEvent::OpenSettings => {
                if self.settings_window_open {
                    Some(AppAction::FocusSettingsWindow)
                } else {
                    Some(AppAction::OpenSettingsWindow)
                }
            },
            AppEvent::Quit => Some(AppAction::Quit),
            AppEvent::ConfigChanged(new_settings) => {
                self.settings = new_settings;
                Some(AppAction::SaveSettings)
            },
            AppEvent::ThemeChanged(is_dark) => {
                self.is_dark_mode = is_dark;
                Some(AppAction::ApplyTheme(is_dark))
            },
            AppEvent::CheckForUpdates => Some(AppAction::CheckForUpdates),
            AppEvent::UpdateStatus(info) => {
                if self.settings_window_open {
                    Some(AppAction::ForwardUpdateStatus(info))
                } else {
                    None
                }
            },
            AppEvent::StartUpdate => Some(AppAction::StartUpdate),
            AppEvent::UpdateProgress(p) => {
                if self.settings_window_open {
                    Some(AppAction::ForwardUpdateProgress(p))
                } else {
                    None
                }
            },
            AppEvent::UpdateError(msg) => {
                if self.settings_window_open {
                    Some(AppAction::ForwardUpdateError(msg))
                } else {
                    None
                }
            },
            AppEvent::SessionLocked => {
                self.session_paused = true;
                self.overlay_open = false;
                Some(AppAction::CloseOverlay { resume_media: false })
            },
            AppEvent::SessionUnlocked => {
                self.session_paused = false;
                None
            },
            AppEvent::RetryAssetSync => Some(AppAction::SyncAssets),
            AppEvent::AssetDownloaded(_) | AppEvent::AssetDownloadError(_) => None,
        }
    }

    /// Ends the pause of media: returns whether to send the play key, which is
    /// exactly when media was recorded as playing (and paused), and clears that
    /// record.
    pub fn resume_media(&mut self) -> (r: bool)
        ensures
            r == old(self).was_media_playing,
            final(self)@ == after_resume(old(self)@),
    {
        let r = self.was_media_playing;
        self.was_media_playing = false;
        r
    }

    /// Records, as a break overlay comes up, whether media is playing; returns
    /// whether to send the pause key (exactly when it is playing).
    pub fn pause_media(&mut self, media_playing: bool) -> (r: bool)
        ensures
            r == media_playing,
            final(self)@ == after_pause(old(self)@, media_playing),
    {
        self.was_media_playing = media_playing;
        media_playing
    }

    /// Records whether the break overlay could be created.
    pub fn overlay_opened(&mut self, opened: bool)
        ensures
            final(self)@ == (AppView { overlay_open: opened, ..old(self)@ }),
    {
        self.overlay_open = opened;
    }

    /// Records whether the settings window could be created.
    pub fn settings_window_opened(&mut self, opened: bool)
        ensures
            final(self)@ == (AppView { settings_window_open: opened, ..old(self)@ }),
    {
        self.settings_window_open = opened;
    }
}


/// The state once media was found playing or not as a break began (and paused
/// if it was).
pub open spec fn after_pause(s: AppView, media_playing: bool) -> AppView {
    AppView { was_media_playing: media_playing, ..s }
}

/// The state once paused media was resumed: no record of paused media is left.
pub open spec fn after_resume(s: AppView) -> AppView {
    AppView { was_media_playing: false, ..s }
}

/// Pausing then resuming media resumes it exactly when it was playing as it was
/// paused, and a second resume sends nothing and changes nothing; nothing but
/// the record of paused media changes on the way.
pub proof fn lemma_pause_then_resume(s: AppView, media_playing: bool)
    ensures
        after_pause(s, media_playing).was_media_playing == media_playing,
        after_resume(after_pause(s, media_playing)) == after_resume(s),
        !after_resume(after_pause(s, media_playing)).was_media_playing,
        after_resume(after_resume(after_pause(s, media_playing))) == after_resume(
            after_pause(s, media_playing),
        ),
{
}

/// The state's invariant: no break overlay is up while the session is locked.
pub open spec fn app_wf(s: AppView) -> bool {
    s.overlay_open ==> !s.session_paused
}

/// Every event keeps the invariant (which a start-up state, with no overlay up,
/// has): an overlay is never left up across a lock, and none comes up while
/// locked.
pub proof fn lemma_no_overlay_while_locked(s: AppView, e: AppEvent)
    requires
        app_wf(s),
    ensures
        app_wf(next_state(s, e)),
        e is SessionLocked ==> !next_state(s, e).overlay_open,
{
}

/// The state after a sequence of events, handled in order.
pub open spec fn run_events(s: AppView, es: Seq<AppEvent>) -> AppView
    decreases es.len(),
{
    if es.len() == 0 {
        s
    } else {
        next_state(run_events(s, es.drop_last()), es.last())
    }
}

/// Whether an event leaves an open break overlay up: anything but hiding,
/// dismissing it, or locking the session.
pub open spec fn keeps_overlay(e: AppEvent) -> bool {
    !(e is HideOverlay || e is UserDismissed || e is SessionLocked)
}

/// The state once a break overlay came up with media found playing or not
/// ([`AppState::pause_media`] then [`AppState::overlay_opened`]).
pub open spec fn overlay_up(s: AppView, media_playing: bool) -> AppView {
    AppView { was_media_playing: media_playing, overlay_open: true, ..s }
}

/// Events that leave the overlay up keep the overlay and the record of paused
/// media.
proof fn lemma_run_keeps_overlay(s: AppView, es: Seq<AppEvent>)
    requires
        s.overlay_open,
        forall|i: int| 0 <= i < es.len() ==> keeps_overlay(#[trigger] es[i]),
    ensures
        run_events(s, es).overlay_open,
        run_events(s, es).was_media_playing == s.was_media_playing,
    decreases es.len(),
{
    if es.len() > 0 {
        lemma_run_keeps_overlay(s, es.drop_last());
        assert(keeps_overlay(es[es.len() - 1]));
    }
}

/// Media sync over a whole break: once the overlay is up with media found
/// playing (`media_playing`) and paused, any events that leave the overlay up
/// keep that record; the event that closes the overlay (hiding or dismissing
/// it) resumes media exactly when it was playing; a further close resumes
/// nothing.
pub proof fn lemma_media_sync_over_break(
    s: AppView,
    media_playing: bool,
    es: Seq<AppEvent>,
    dismissed: bool,
    a1: Option<AppAction>,
    a2: Option<AppAction>,
)
    requires
        forall|i: int| 0 <= i < es.len() ==> keeps_overlay(#[trigger] es[i]),
    ensures
        ({
            let m = run_events(overlay_up(s, media_playing), es);
            let close = if dismissed { AppEvent::UserDismissed } else { AppEvent::HideOverlay };
            let after = next_state(m, close);
            &&& action_for(m, close, a1) ==> (a1 matches Some(AppAction::CloseOverlay { resume_media })
                && resume_media == media_playing)
            &&& !after.overlay_open
            &&& !after.was_media_playing
            &&& action_for(after, close, a2) ==> (a2 matches Some(AppAction::CloseOverlay { resume_media })
                && !resume_media)
        }),
{
    lemma_run_keeps_overlay(overlay_up(s, media_playing), es);
}

/// Pausing and resuming from the tray undo each other.
pub proof fn lemma_toggle_pause_twice(s: AppView)
    ensures
        next_state(next_state(s, AppEvent::TogglePause), AppEvent::TogglePause) == s,
{
}

/// No break overlay comes up while the session is locked: the request is
/// ignored and nothing changes; in particular right after the lock.
pub proof fn lemma_locked_session_blocks_overlay(s: AppView, a: Option<AppAction>)
    ensures
        s.session_paused ==> next_state(s, AppEvent::ShowOverlay) == s,
        s.session_paused && action_for(s, AppEvent::ShowOverlay, a) ==> a is None,
        action_for(next_state(s, AppEvent::SessionLocked), AppEvent::ShowOverlay, a) ==> a is None,
{
}

/// A break request is answered by showing the overlay whenever none is up and
/// the session is unlocked, whatever else holds (pause, open settings window,
/// theme, media); and the answer depends on nothing but those two flags.
pub proof fn lemma_overlay_shown_when_free(s: AppView, u: AppView, a: Option<AppAction>)
    ensures
        !s.overlay_open && !s.session_paused && action_for(s, AppEvent::ShowOverlay, a) ==> (a matches Some(
            AppAction::ShowOverlay,
        )),
        s.overlay_open == u.overlay_open && s.session_paused == u.session_paused ==> (action_for(
            s,
            AppEvent::ShowOverlay,
            a,
        ) == action_for(u, AppEvent::ShowOverlay, a)),
        next_state(s, AppEvent::ShowOverlay) == s,
{
}

/// There is never more than one break overlay: while one is up, a request for
/// another is ignored.
pub proof fn lemma_single_overlay(s: AppView, a: Option<AppAction>)
    requires
        s.overlay_open,
        action_for(s, AppEvent::ShowOverlay, a),
    ensures
        a is None,
{
}

/// Media is resumed after a break exactly when it was playing, and paused, as
/// the break began: after the overlay came up with `media_playing` recorded,
/// hiding or dismissing it resumes media exactly when `media_playing`, and
/// leaves no record of paused media.
pub proof fn lemma_media_restored_after_break(
    s: AppView,
    media_playing: bool,
    dismissed: bool,
    a: Option<AppAction>,
)
    ensures
        ({
            let up = AppView { was_media_playing: media_playing, overlay_open: true, ..s };
            let e = if dismissed { AppEvent::UserDismissed } else { AppEvent::HideOverlay };
            &&& action_for(up, e, a) ==> (a matches Some(AppAction::CloseOverlay { resume_media })
                && resume_media == media_playing)
            &&& !next_state(up, e).was_media_playing
            &&& !next_state(up, e).overlay_open
        }),
{
}

/// Locking the session closes the break overlay without resuming media, and
/// unlocking it lets breaks come again.
pub proof fn lemma_lock_and_unlock(s: AppView, a: Option<AppAction>)
    ensures
        next_state(s, AppEvent::SessionLocked).session_paused,
        !next_state(s, AppEvent::SessionLocked).overlay_open,
        action_for(s, AppEvent::SessionLocked, a) ==> (a matches Some(AppAction::CloseOverlay { resume_media })
            && !resume_media),
        !next_state(s, AppEvent::SessionUnlocked).session_paused,
{
}

} // verus!

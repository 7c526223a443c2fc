//! The messages that drive the application: from the timer, the tray menu,
//! the web views, the session watcher and the updater's worker threads.
use vstd::prelude::*;
use crate::settings::Settings;
use crate::updater::UpdateInfo;

verus! {

/// Something that happened, for the application to react to.
#[derive(Clone, Debug)]
pub enum AppEvent {
    /// A break starts: show the overlay.
    ShowOverlay,
    /// A break is over: hide the overlay.
    HideOverlay,
    /// The user dismissed the overlay.
    UserDismissed,
    /// The settings window was closed.
    SettingsClosed,
    /// The user paused or resumed the timer from the tray.
    TogglePause,
    /// The user asked for the settings window.
    OpenSettings,
    /// The user asked to quit.
    Quit,
    /// The settings window saved new settings.
    ConfigChanged(Settings),
    /// The system theme changed; `true` is dark.
    ThemeChanged(bool),
    /// The user asked for an update check.
    CheckForUpdates,
    /// An update check finished.
    UpdateStatus(UpdateInfo),
    /// The user asked to install the update.
    StartUpdate,
    /// Download progress of the update, in percent.
    UpdateProgress(u32),
    /// The update check or install failed.
    UpdateError(String),
    /// The session was locked (or the machine is going to sleep).
    SessionLocked,
    /// The session was unlocked.
    SessionUnlocked,
    /// The user asked to fetch the bundled animation again.
    RetryAssetSync,
    /// The bundled animation was downloaded.
    AssetDownloaded(String),
    /// The bundled animation could not be downloaded.
    AssetDownloadError(String),
}

} // verus!

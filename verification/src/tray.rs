//! The tray integration's data types: the abstract events a tray icon
//! emits, its configuration, and its failure modes. The icon itself lives
//! with the windowing shell.

use vstd::prelude::*;
use vstd::string::StringExecFns;

verus! {

/// An abstract event the tray icon emits toward the application.
#[derive(Debug, Clone)]
pub enum TrayEvent {
    ToggleWindow,
    ShowWindow,
    HideWindow,
    QuitRequested,
}

impl TrayEvent {
    /// The event's name, as logs render it.
    pub fn label(&self) -> (r: String)
        ensures
            *self matches TrayEvent::ToggleWindow ==> r@ == "ToggleWindow"@,
            *self matches TrayEvent::ShowWindow ==> r@ == "ShowWindow"@,
            *self matches TrayEvent::HideWindow ==> r@ == "HideWindow"@,
            *self matches TrayEvent::QuitRequested ==> r@ == "QuitRequested"@,
    {
        match self {
            TrayEvent::ToggleWindow => String::from_str("ToggleWindow"),
            TrayEvent::ShowWindow => String::from_str("ShowWindow"),
            TrayEvent::HideWindow => String::from_str("HideWindow"),
            TrayEvent::QuitRequested => String::from_str("QuitRequested"),
        }
    }
}

/// How the tray icon presents itself.
#[derive(Debug, Clone)]
pub struct TrayConfig {
    pub tooltip: String,
}

impl Default for TrayConfig {
    /// The application's name as the tooltip.
    fn default() -> (d: Self)
        ensures
            d.tooltip@ == "Lumberjack Axe"@,
    {
        TrayConfig { tooltip: String::from_str("Lumberjack Axe") }
    }
}

/// Why a tray icon could not be set up.
#[derive(Debug)]
pub enum TrayError {
    Unsupported,
    InitFailed(String),
}

impl TrayError {
    /// The human-readable description of this failure.
    pub open spec fn spec_message(&self) -> Seq<char> {
        match *self {
            TrayError::Unsupported => "tray not supported on this platform"@,
            TrayError::InitFailed(reason) => "failed to initialize tray: "@ + reason@,
        }
    }

    /// Render the failure for display.
    pub fn message_string(&self) -> (r: String)
        ensures
            r@ == self.spec_message(),
    {
        match self {
            TrayError::Unsupported => String::from_str("tray not supported on this platform"),
            TrayError::InitFailed(reason) => {
                let mut s = String::from_str("failed to initialize tray: ");
                s.append(reason.as_str());
                s
            },
        }
    }
}

} // verus!

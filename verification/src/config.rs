use vstd::prelude::*;
use vstd::string::*;

use crate::timer::TimerMode;

verus! {

/// The bit pattern of the `f32` default window opacity, 0.85.
pub const DEFAULT_OPACITY_BITS: u32 = 0x3F59_999A;

/// The bit pattern of the `f32` default font size, 56.0.
pub const DEFAULT_FONT_SIZE_BITS: u32 = 0x4260_0000;

/// The timing mode as the configuration file names it.
#[derive(Debug, Clone, Copy, PartialEq, Eq, Structural)]
pub enum TimerModeConfig {
    /// Counting up.
    Stopwatch,
    /// Counting down.
    Countdown,
}

impl TimerModeConfig {
    /// The engine's mode that this configuration value names.
    pub open spec fn core_mode(self) -> TimerMode {
        match self {
            TimerModeConfig::Stopwatch => TimerMode::Stopwatch,
            TimerModeConfig::Countdown => TimerMode::Countdown,
        }
    }

    /// The configuration value that names an engine mode.
    pub open spec fn of_core_mode(mode: TimerMode) -> TimerModeConfig {
        match mode {
            TimerMode::Stopwatch => TimerModeConfig::Stopwatch,
            TimerMode::Countdown => TimerModeConfig::Countdown,
        }
    }

    /// Converts to the engine's mode.
    pub fn to_core_mode(&self) -> (m: TimerMode)
        ensures
            m == self.core_mode(),
    {
        match self {
            TimerModeConfig::Stopwatch => TimerMode::Stopwatch,
            TimerModeConfig::Countdown => TimerMode::Countdown,
        }
    }
}

/// Position and size of the main window.
#[derive(Debug, Clone, PartialEq, Eq, Structural)]
pub struct WindowConfig {
    /// Left edge.
    pub x: i32,
    /// Top edge.
    pub y: i32,
    /// Width in pixels.
    pub width: u32,
    /// Height in pixels.
    pub height: u32,
    /// The DPI at which the size was recorded, if known.
    pub dpi: Option<u32>,
    /// Whether the window is locked in place.
    pub locked: bool,
}

impl Default for WindowConfig {
    fn default() -> (w: Self)
        ensures
            w == (WindowConfig { x: 100, y: 100, width: 320, height: 220, dpi: None, locked: false }),
    {
        WindowConfig { x: 100, y: 100, width: 320, height: 220, dpi: None, locked: false }
    }
}

/// Font of the time display. The size is an `f32`, held here by its bit
/// pattern (`f32::to_bits`).
#[derive(Debug, Clone)]
pub struct FontConfig {
    /// Font family name.
    pub family: String,
    /// Bit pattern of the `f32` size in pixels.
    pub size_bits: u32,
    /// Colour as a CSS hex string.
    pub color: String,
}

impl Default for FontConfig {
    fn default() -> (f: Self)
        ensures
            f.family@ == "Segoe UI"@,
            f.size_bits == DEFAULT_FONT_SIZE_BITS,
            f.color@ == "#FFFFFF"@,
    {
        FontConfig {
            family: String::from_str("Segoe UI"),
            size_bits: DEFAULT_FONT_SIZE_BITS,
            color: String::from_str("#FFFFFF"),
        }
    }
}

/// What a left click on the tray icon does.
#[derive(Debug, Clone, Copy, PartialEq, Eq, Structural)]
pub enum TrayLeftClickAction {
    /// Flip the window's visibility.
    ToggleWindow,
    /// Show the window.
    ShowWindow,
    /// Nothing.
    Nothing,
}

/// Tray icon settings.
#[derive(Debug, Clone, Copy, PartialEq, Eq, Structural)]
pub struct TrayConfig {
    /// Action of a left click on the icon.
    pub left_click_action: TrayLeftClickAction,
    /// Whether hovering shows a tooltip.
    pub show_remaining_tooltip: bool,
}

impl Default for TrayConfig {
    fn default() -> (t: Self)
        ensures
            t == (TrayConfig {
                left_click_action: TrayLeftClickAction::ToggleWindow,
                show_remaining_tooltip: true,
            }),
    {
        TrayConfig { left_click_action: TrayLeftClickAction::ToggleWindow, show_remaining_tooltip: true }
    }
}

/// The whole application configuration, one field per entry of the
/// configuration file. The window opacity is an `f32`, held here by its bit
/// pattern.
#[derive(Debug, Clone)]
pub struct AppConfig {
    /// Mode at start.
    pub mode: TimerModeConfig,
    /// Countdown duration in seconds.
    pub duration_secs: u64,
    /// Keep the window above the others.
    pub always_on_top: bool,
    /// Bit pattern of the `f32` window opacity (0.0 to 1.0).
    pub opacity_bits: u32,
    /// Reload the configuration file when it changes.
    pub hot_reload: bool,
    /// Window placement.
    pub window: WindowConfig,
    /// Display font.
    pub font: FontConfig,
    /// Tray settings.
    pub tray: TrayConfig,
}

impl Default for AppConfig {
    /// Countdown of 25 minutes, on top, opacity 0.85, hot reload on, and the
    /// defaults of the window, font and tray sections.
    fn default() -> (c: Self)
        ensures
            c.mode == TimerModeConfig::Countdown,
            c.duration_secs == 1500,
            c.always_on_top,
            c.opacity_bits == DEFAULT_OPACITY_BITS,
            c.hot_reload,
            c.window == (WindowConfig {
                x: 100,
                y: 100,
                width: 320,
                height: 220,
                dpi: None,
                locked: false,
            }),
            c.font.family@ == "Segoe UI"@,
            c.font.size_bits == DEFAULT_FONT_SIZE_BITS,
            c.font.color@ == "#FFFFFF"@,
            c.tray == (TrayConfig {
                left_click_action: TrayLeftClickAction::ToggleWindow,
                show_remaining_tooltip: true,
            }),
    {
        AppConfig {
            mode: TimerModeConfig::Countdown,
            duration_secs: 1500,
            always_on_top: true,
            opacity_bits: DEFAULT_OPACITY_BITS,
            hot_reload: true,
            window: WindowConfig::default(),
            font: FontConfig::default(),
            tray: TrayConfig::default(),
        }
    }
}

} // verus!

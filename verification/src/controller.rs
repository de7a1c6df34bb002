use vstd::prelude::*;

use crate::command::AppCommand;
use crate::config::{AppConfig, TimerModeConfig, TrayLeftClickAction};
use crate::event::AppEvent;
use crate::timer::{updated, TimerEngine, TimerMode, TimerStatus};
use crate::timer_laws::lemma_silent_command_changes_nothing;
use crate::view_state::ViewState;

verus! {

/// A command that the engine handles.
pub open spec fn is_timer_command(cmd: AppCommand) -> bool {
    match cmd {
        AppCommand::Start | AppCommand::Pause | AppCommand::Resume | AppCommand::Reset
        | AppCommand::Tick | AppCommand::SetCountdown(_) | AppCommand::SwitchMode(_) => true,
        _ => false,
    }
}

/// Window visibility after a flip, and the event that reports it.
pub open spec fn toggled(visible: bool) -> (bool, Seq<AppEvent>) {
    if visible {
        (false, seq![AppEvent::WindowShouldHide])
    } else {
        (true, seq![AppEvent::WindowShouldShow])
    }
}

/// Window visibility after a request to show, and what it reports: nothing
/// when the window is already visible.
pub open spec fn shown(visible: bool) -> (bool, Seq<AppEvent>) {
    if visible {
        (true, Seq::empty())
    } else {
        (true, seq![AppEvent::WindowShouldShow])
    }
}

/// Window visibility after a request to hide, and what it reports: nothing
/// when the window is already hidden.
pub open spec fn hidden(visible: bool) -> (bool, Seq<AppEvent>) {
    if visible {
        (false, seq![AppEvent::WindowShouldHide])
    } else {
        (false, Seq::empty())
    }
}

/// Window visibility and events after a window command; a tray left click
/// does what the configured action says. Other commands leave the window.
pub open spec fn window_step(visible: bool, cmd: AppCommand, click: TrayLeftClickAction) -> (
    bool,
    Seq<AppEvent>,
) {
    match cmd {
        AppCommand::ToggleWindow => toggled(visible),
        AppCommand::ShowWindow => shown(visible),
        AppCommand::HideWindow => hidden(visible),
        AppCommand::TrayLeftClick => match click {
            TrayLeftClickAction::ToggleWindow => toggled(visible),
            TrayLeftClickAction::ShowWindow => shown(visible),
            TrayLeftClickAction::Nothing => (visible, Seq::empty()),
        },
        _ => (visible, Seq::empty()),
    }
}

/// `c` with the mode and the countdown duration of the engine `e`.
pub open spec fn config_following(c: AppConfig, e: TimerEngine) -> AppConfig {
    AppConfig {
        mode: TimerModeConfig::of_core_mode(e.mode),
        duration_secs: e.countdown_duration_secs,
        ..c
    }
}

/// The engine after a reloaded configuration `new` replaces `cur`: a changed
/// mode is switched to, then a changed duration is set; the events are those
/// of these two steps, or a single `TimerUpdated` when there is none, so that
/// the display is refreshed in any case.
pub open spec fn reload_step(e: TimerEngine, cur: AppConfig, new: AppConfig) -> (
    TimerEngine,
    Seq<AppEvent>,
) {
    let s1 = if cur.mode != new.mode {
        e.after_switch_mode(new.mode.core_mode())
    } else {
        (e, Seq::empty())
    };
    let s2 = if cur.duration_secs != new.duration_secs {
        s1.0.after_set_countdown(new.duration_secs)
    } else {
        (s1.0, Seq::empty())
    };
    let events = s1.1 + s2.1;
    (s2.0, if events.len() == 0 { seq![AppEvent::TimerUpdated] } else { events })
}

/// The command that a front end issues in answer to an event: a finished
/// countdown brings the window up.
pub open spec fn follow_up(event: AppEvent) -> Option<AppCommand> {
    if event == AppEvent::TimerFinished {
        Some(AppCommand::ShowWindow)
    } else {
        None
    }
}

/// Computes `follow_up`.
pub fn follow_up_command(event: AppEvent) -> (r: Option<AppCommand>)
    ensures
        r == follow_up(event),
{
    match event {
        AppEvent::TimerFinished => Some(AppCommand::ShowWindow),
        _ => None,
    }
}

/// An event that asks for a redraw of the timer display.
pub open spec fn is_timer_event(e: AppEvent) -> bool {
    e == AppEvent::TimerUpdated || e == AppEvent::TimerFinished
}

/// The application's coordinator: receives commands, hands the timing ones to
/// the engine, keeps the configuration and the view snapshot in step with it,
/// and handles the window commands itself.
pub struct AppController {
    engine: TimerEngine,
    config: AppConfig,
    view_state: ViewState,
}

impl AppController {
    /// The timing engine.
    pub closed spec fn engine_model(&self) -> TimerEngine {
        self.engine
    }

    /// The running configuration.
    pub closed spec fn config_model(&self) -> AppConfig {
        self.config
    }

    /// The snapshot that the user interface reads.
    pub closed spec fn view_model(&self) -> ViewState {
        self.view_state
    }

    /// Whether the main window is meant to be visible.
    pub open spec fn window_visible(&self) -> bool {
        self.view_model().window_visible
    }

    /// The snapshot shows the engine, and the configuration holds the engine's
    /// mode and countdown duration.
    pub open spec fn in_sync(&self) -> bool {
        &&& self.view_model().mirrors(self.engine_model())
        &&& self.config_model().mode.core_mode() == self.engine_model().mode
        &&& self.config_model().duration_secs == self.engine_model().countdown_duration_secs
    }

    /// What every operation of the controller keeps.
    pub open spec fn well_formed(&self) -> bool {
        self.engine_model().well_formed() && self.in_sync()
    }

    /// A controller for `config`: a new engine in the configured mode and
    /// duration, the window visible.
    pub fn new(config: AppConfig) -> (c: Self)
        ensures
            c.well_formed(),
            c.engine_model() == TimerEngine::initial(config.mode.core_mode(), config.duration_secs),
            c.config_model() == config,
            c.window_visible(),
    {
        let core_mode = config.mode.to_core_mode();
        let engine = TimerEngine::new(core_mode, config.duration_secs);
        let view_state = ViewState {
            display_time: engine.display_time(),
            mode: core_mode,
            status: engine.status,
            countdown_duration_secs: config.duration_secs,
            window_visible: true,
        };
        AppController { engine, config, view_state }
    }

    /// Handles one command and returns the events for the front ends.
    /// A reload reads a file, so it comes in through `reload_config` instead.
    pub fn handle(&mut self, cmd: AppCommand) -> (events: Vec<AppEvent>)
        requires
            old(self).well_formed(),
            old(self).engine_model().can_handle(cmd),
            cmd != AppCommand::ReloadConfig,
        ensures
            final(self).well_formed(),
            final(self).engine_model() == old(self).engine_model().after(cmd).0,
            final(self).config_model() == (if is_timer_command(cmd) {
                config_following(old(self).config_model(), final(self).engine_model())
            } else {
                old(self).config_model()
            }),
            final(self).window_visible() == window_step(
                old(self).window_visible(),
                cmd,
                old(self).config_model().tray.left_click_action,
            ).0,
            events@ == (if is_timer_command(cmd) {
                old(self).engine_model().after(cmd).1
            } else if cmd == AppCommand::Quit {
                seq![AppEvent::AppShouldQuit]
            } else {
                window_step(
                    old(self).window_visible(),
                    cmd,
                    old(self).config_model().tray.left_click_action,
                ).1
            }),
    {
        match cmd {
            AppCommand::Start
            | AppCommand::Pause
            | AppCommand::Resume
            | AppCommand::Reset
            | AppCommand::Tick
            | AppCommand::SetCountdown(_)
            | AppCommand::SwitchMode(_) => self.handle_timer_command(cmd),
            AppCommand::ToggleWindow => self.handle_toggle_window(),
            AppCommand::ShowWindow => self.handle_show_window(),
            AppCommand::HideWindow => self.handle_hide_window(),
            AppCommand::TrayLeftClick => match self.config.tray.left_click_action {
                TrayLeftClickAction::ToggleWindow => self.handle_toggle_window(),
                TrayLeftClickAction::ShowWindow => self.handle_show_window(),
                TrayLeftClickAction::Nothing => Vec::new(),
            },
            AppCommand::Quit => vec![AppEvent::AppShouldQuit],
            AppCommand::ReloadConfig => Vec::new(),
        }
    }

    fn handle_timer_command(&mut self, cmd: AppCommand) -> (events: Vec<AppEvent>)
        requires
            old(self).well_formed(),
            old(self).engine_model().can_handle(cmd),
            is_timer_command(cmd),
        ensures
            final(self).well_formed(),
            final(self).engine_model() == old(self).engine_model().after(cmd).0,
            final(self).config_model() == config_following(
                old(self).config_model(),
                final(self).engine_model(),
            ),
            final(self).window_visible() == old(self).window_visible(),
            events@ == old(self).engine_model().after(cmd).1,
    {
        proof {
            lemma_silent_command_changes_nothing(self.engine, cmd);
        }
        let events = self.engine.handle(cmd);
        proof {
            if events@.len() > 0 {
                assert(is_timer_event(events@[0]));
            }
        }
        self.sync_view_state(&events);
        self.sync_config_from_engine();
        events
    }

    /// Replaces the configuration by one just read from the configuration
    /// file and applies a changed mode or duration to the engine. `None`
    /// stands for a file that could not be read: nothing changes and nothing
    /// is reported.
    pub fn reload_config(&mut self, loaded: Option<AppConfig>) -> (events: Vec<AppEvent>)
        requires
            old(self).well_formed(),
        ensures
            final(self).well_formed(),
            final(self).window_visible() == old(self).window_visible(),
            loaded is None ==> final(self).engine_model() == old(self).engine_model()
                && final(self).config_model() == old(self).config_model() && events@.len() == 0,
            loaded matches Some(c) ==> final(self).engine_model() == reload_step(
                old(self).engine_model(),
                old(self).config_model(),
                c,
            ).0 && final(self).config_model() == c && events@ == reload_step(
                old(self).engine_model(),
                old(self).config_model(),
                c,
            ).1,
    {
        let new_config = match loaded {
            Some(c) => c,
            None => return Vec::new(),
        };
        let ghost e0 = self.engine;
        let mut events: Vec<AppEvent> = Vec::new();
        if self.config.mode != new_config.mode {
            let core_mode = new_config.mode.to_core_mode();
            let mut more = self.engine.handle(AppCommand::SwitchMode(core_mode));
            events.append(&mut more);
        }
        let ghost e1 = self.engine;
        let ghost ev1 = events@;
        if self.config.duration_secs != new_config.duration_secs {
            let mut more = self.engine.handle(AppCommand::SetCountdown(new_config.duration_secs));
            events.append(&mut more);
        }
        proof {
            lemma_silent_command_changes_nothing(e0, AppCommand::SwitchMode(new_config.mode.core_mode()));
            lemma_silent_command_changes_nothing(e1, AppCommand::SetCountdown(new_config.duration_secs));
            assert(ev1 + (events@.subrange(ev1.len() as int, events@.len() as int)) =~= events@);
            assert forall|i: int| 0 <= i < events@.len() implies is_timer_event(
                #[trigger] events@[i],
            ) by {
                if i >= ev1.len() {
                    assert(events@[i] == e1.after(AppCommand::SetCountdown(new_config.duration_secs)).1[i - ev1.len()]);
                } else {
                    assert(events@[i] == e0.after(AppCommand::SwitchMode(new_config.mode.core_mode())).1[i]);
                }
            }
            if events@.len() == 0 {
                assert(self.engine == e0);
            } else {
                assert(is_timer_event(events@[0]));
            }
        }
        self.config = new_config;
        self.sync_view_state(&events);
        if events.len() == 0 {
            events.push(AppEvent::TimerUpdated);
        }
        events
    }

    /// Applies a countdown length accepted from the countdown dialog: the
    /// timer switches to an idle countdown and takes the new length.
    pub fn apply_countdown_setting(&mut self, secs: u64) -> (events: Vec<AppEvent>)
        requires
            old(self).well_formed(),
        ensures
            final(self).well_formed(),
            final(self).engine_model() == TimerEngine::initial(TimerMode::Countdown, secs),
            final(self).config_model() == config_following(
                old(self).config_model(),
                final(self).engine_model(),
            ),
            final(self).window_visible() == old(self).window_visible(),
            events@ == updated() + updated(),
    {
        let mut events = self.handle(AppCommand::SwitchMode(TimerMode::Countdown));
        let mut more = self.handle(AppCommand::SetCountdown(secs));
        events.append(&mut more);
        events
    }

    /// Whether the clock should tick now: only a running timer is ticked.
    pub fn wants_tick(&self) -> (r: bool)
        ensures
            r == (self.view_model().status == TimerStatus::Running),
    {
        self.view_state.status == TimerStatus::Running
    }

    /// Records the window's position and size in the configuration.
    pub fn update_window_bounds(&mut self, x: i32, y: i32, width: u32, height: u32)
        requires
            old(self).well_formed(),
        ensures
            final(self).well_formed(),
            final(self).engine_model() == old(self).engine_model(),
            final(self).view_model() == old(self).view_model(),
            final(self).config_model() == (AppConfig {
                window: crate::config::WindowConfig {
                    x,
                    y,
                    width,
                    height,
                    ..old(self).config_model().window
                },
                ..old(self).config_model()
            }),
    {
        self.config.window.x = x;
        self.config.window.y = y;
        self.config.window.width = width;
        self.config.window.height = height;
    }

    /// Copies the engine into the snapshot when the events ask for a redraw.
    fn sync_view_state(&mut self, events: &Vec<AppEvent>)
        ensures
            (exists|i: int| 0 <= i < events@.len() && is_timer_event(#[trigger] events@[i]))
                ==> final(self).view_model().mirrors(final(self).engine_model()),
            !(exists|i: int| 0 <= i < events@.len() && is_timer_event(#[trigger] events@[i]))
                ==> final(self).view_model() == old(self).view_model(),
            final(self).window_visible() == old(self).window_visible(),
            final(self).engine_model() == old(self).engine_model(),
            final(self).config_model() == old(self).config_model(),
    {
        let mut needs_sync = false;
        let mut i: usize = 0;
        while i < events.len()
            invariant
                i <= events@.len(),
                needs_sync <==> (exists|j: int| 0 <= j < i && is_timer_event(#[trigger] events@[j])),
            decreases events@.len() - i,
        {
            let e = events[i];
            if e == AppEvent::TimerUpdated || e == AppEvent::TimerFinished {
                needs_sync = true;
            }
            i = i + 1;
        }
        if needs_sync {
            self.view_state.display_time = self.engine.display_time();
            self.view_state.mode = self.engine.mode;
            self.view_state.status = self.engine.status;
            self.view_state.countdown_duration_secs = self.engine.countdown_duration_secs;
        }
    }

    /// Writes the engine's mode and duration back into the configuration.
    fn sync_config_from_engine(&mut self)
        ensures
            final(self).config_model() == config_following(
                old(self).config_model(),
                old(self).engine_model(),
            ),
            final(self).engine_model() == old(self).engine_model(),
            final(self).view_model() == old(self).view_model(),
    {
        self.config.mode = match self.engine.mode {
            TimerMode::Stopwatch => TimerModeConfig::Stopwatch,
            TimerMode::Countdown => TimerModeConfig::Countdown,
        };
        self.config.duration_secs = self.engine.countdown_duration_secs;
    }

    fn handle_toggle_window(&mut self) -> (events: Vec<AppEvent>)
        ensures
            final(self).window_visible() == toggled(old(self).window_visible()).0,
            events@ == toggled(old(self).window_visible()).1,
            final(self).view_model() == (ViewState {
                window_visible: final(self).window_visible(),
                ..old(self).view_model()
            }),
            final(self).engine_model() == old(self).engine_model(),
            final(self).config_model() == old(self).config_model(),
    {
        self.view_state.window_visible = !self.view_state.window_visible;
        if self.view_state.window_visible {
            vec![AppEvent::WindowShouldShow]
        } else {
            vec![AppEvent::WindowShouldHide]
        }
    }

    fn handle_show_window(&mut self) -> (events: Vec<AppEvent>)
        ensures
            final(self).window_visible() == shown(old(self).window_visible()).0,
            events@ == shown(old(self).window_visible()).1,
            final(self).view_model() == (ViewState {
                window_visible: final(self).window_visible(),
                ..old(self).view_model()
            }),
            final(self).engine_model() == old(self).engine_model(),
            final(self).config_model() == old(self).config_model(),
    {
        if !self.view_state.window_visible {
            self.view_state.window_visible = true;
            vec![AppEvent::WindowShouldShow]
        } else {
            Vec::new()
        }
    }

    fn handle_hide_window(&mut self) -> (events: Vec<AppEvent>)
        ensures
            final(self).window_visible() == hidden(old(self).window_visible()).0,
            events@ == hidden(old(self).window_visible()).1,
            final(self).view_model() == (ViewState {
                window_visible: final(self).window_visible(),
                ..old(self).view_model()
            }),
            final(self).engine_model() == old(self).engine_model(),
            final(self).config_model() == old(self).config_model(),
    {
        if self.view_state.window_visible {
            self.view_state.window_visible = false;
            vec![AppEvent::WindowShouldHide]
        } else {
            Vec::new()
        }
    }

    /// The snapshot for the user interface.
    pub fn view_state(&self) -> (v: &ViewState)
        ensures
            *v == self.view_model(),
    {
        &self.view_state
    }

    /// The running configuration.
    pub fn config(&self) -> (c: &AppConfig)
        ensures
            *c == self.config_model(),
    {
        &self.config
    }

    /// The engine, for front ends that read more than the snapshot.
    pub fn engine(&self) -> (e: &TimerEngine)
        ensures
            *e == self.engine_model(),
    {
        &self.engine
    }
}

} // verus!

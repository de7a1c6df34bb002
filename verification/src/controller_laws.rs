use vstd::prelude::*;

use crate::config::AppConfig;
use crate::command::AppCommand;
use crate::config::TrayLeftClickAction;
use crate::controller::{hidden, reload_step, shown, toggled, window_step};
use crate::event::AppEvent;
use crate::timer::{updated, TimerEngine};

verus! {

/// Flipping the window twice gives back its visibility, with one hide and
/// one show reported in some order.
pub proof fn lemma_toggle_twice(visible: bool)
    ensures
        toggled(toggled(visible).0).0 == visible,
        toggled(visible).1 + toggled(toggled(visible).0).1 == (if visible {
            seq![AppEvent::WindowShouldHide, AppEvent::WindowShouldShow]
        } else {
            seq![AppEvent::WindowShouldShow, AppEvent::WindowShouldHide]
        }),
{
    assert(seq![AppEvent::WindowShouldHide] + seq![AppEvent::WindowShouldShow] =~= seq![
        AppEvent::WindowShouldHide,
        AppEvent::WindowShouldShow,
    ]);
    assert(seq![AppEvent::WindowShouldShow] + seq![AppEvent::WindowShouldHide] =~= seq![
        AppEvent::WindowShouldShow,
        AppEvent::WindowShouldHide,
    ]);
}

/// Showing is idempotent: a second request reports nothing; so is hiding.
pub proof fn lemma_show_hide_idempotent(visible: bool)
    ensures
        shown(shown(visible).0) == (true, Seq::<AppEvent>::empty()),
        hidden(hidden(visible).0) == (false, Seq::<AppEvent>::empty()),
{
}

/// A successful reload always reports at least one event, so the display is
/// refreshed; one that changes neither mode nor duration leaves the engine as
/// it is and reports exactly one `TimerUpdated`.
pub proof fn lemma_reload_refreshes(e: TimerEngine, cur: AppConfig, new: AppConfig)
    ensures
        reload_step(e, cur, new).1.len() >= 1,
        (cur.mode == new.mode && cur.duration_secs == new.duration_secs) ==> reload_step(
            e,
            cur,
            new,
        ) == (e, updated()),
{
    if cur.mode == new.mode && cur.duration_secs == new.duration_secs {
        assert(Seq::<AppEvent>::empty() + Seq::<AppEvent>::empty() =~= Seq::<AppEvent>::empty());
    }
}

/// Toggle flips the window; Show leaves it visible and Hide hidden, each
/// reporting only a change.
pub proof fn lemma_window_commands(visible: bool, click: TrayLeftClickAction)
    ensures
        window_step(visible, AppCommand::ToggleWindow, click).0 == !visible,
        window_step(visible, AppCommand::ShowWindow, click).0,
        !window_step(visible, AppCommand::HideWindow, click).0,
        window_step(visible, AppCommand::ShowWindow, click).1.len() == (if visible { 0nat } else { 1nat }),
        window_step(visible, AppCommand::HideWindow, click).1.len() == (if visible { 1nat } else { 0nat }),
{
}

/// A tray left click does what the configured action names: the same as
/// the toggle or the show command, or nothing at all.
pub proof fn lemma_tray_click_follows_action(visible: bool, click: TrayLeftClickAction)
    ensures
        click == TrayLeftClickAction::ToggleWindow ==> window_step(
            visible,
            AppCommand::TrayLeftClick,
            click,
        ) == window_step(visible, AppCommand::ToggleWindow, click),
        click == TrayLeftClickAction::ShowWindow ==> window_step(
            visible,
            AppCommand::TrayLeftClick,
            click,
        ) == window_step(visible, AppCommand::ShowWindow, click),
        click == TrayLeftClickAction::Nothing ==> window_step(
            visible,
            AppCommand::TrayLeftClick,
            click,
        ) == (visible, Seq::<AppEvent>::empty()),
{
}

/// After a reload the engine runs in the new configuration's mode with its
/// countdown length; when the mode changed the timer is idle.
pub proof fn lemma_reload_takes_new_settings(e: TimerEngine, cur: AppConfig, new: AppConfig)
    requires
        cur.mode.core_mode() == e.mode,
        cur.duration_secs == e.countdown_duration_secs,
    ensures
        reload_step(e, cur, new).0.mode == new.mode.core_mode(),
        reload_step(e, cur, new).0.countdown_duration_secs == new.duration_secs,
        cur.mode != new.mode ==> reload_step(e, cur, new).0.status == crate::timer::TimerStatus::Idle,
{
}

} // verus!

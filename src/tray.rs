use vstd::prelude::*;
use crate::window::{plan_of, restore_all, restore_all_windows, RestoreSteps, WindowState};

verus! {

/// A mouse button, as reported for a click on the tray icon.
#[derive(Clone, Copy, Debug, PartialEq, Eq, Structural)]
pub enum MouseButton {
    Left,
    Right,
    Middle,
}

/// Whether a reported mouse button went down or came up.
#[derive(Clone, Copy, Debug, PartialEq, Eq, Structural)]
pub enum MouseButtonState {
    Up,
    Down,
}

/// An event delivered to the tray controller.
#[derive(Clone, Debug, PartialEq, Eq)]
pub enum TrayEvent {
    /// The menu item with this id was chosen.
    MenuItemActivated { id: String },
    /// A mouse button went down or up over the tray icon.
    IconClicked { button: MouseButton, button_state: MouseButtonState },
    /// Any other pointer event on the tray icon (a double click, the pointer
    /// entering, moving over or leaving it).
    OtherIconEvent,
}

/// What an event asks of the controller.
#[derive(Clone, Copy, Debug, PartialEq, Eq, Structural)]
pub enum TrayAction {
    RestoreAllWindows,
    Quit,
    Ignore,
}

/// The life of the tray within the process.
#[derive(Clone, Copy, Debug, PartialEq, Eq, Structural)]
pub enum Phase {
    Uninitialized,
    Initializing,
    Running,
    Terminated,
}

/// Why the tray could not be set up.
#[derive(Clone, Copy, Debug, PartialEq, Eq, Structural)]
pub enum TrayInitError {
    /// The icon image could not be decoded.
    IconDecode,
    /// The menu could not be built.
    MenuBuild,
    /// The host runtime refused to register the tray.
    Registration,
}

/// One entry of the tray menu.
#[derive(Clone, Debug, PartialEq, Eq)]
pub struct MenuItemSpec {
    pub id: String,
    pub label: String,
    pub enabled: bool,
}

/// What the host must do after an event was handled.
#[derive(Clone, Debug, PartialEq, Eq)]
pub enum Effect {
    /// Nothing.
    Nothing,
    /// Make, of the windows in restore order, the requests at the same
    /// position.
    Restore(Vec<Option<RestoreSteps>>),
    /// End the process with this exit status.
    Exit(i32),
}

/// The id of the menu item that restores all windows.
pub open spec fn show_id() -> Seq<char> {
    "show"@
}

/// The id of the menu item that quits.
pub open spec fn quit_id() -> Seq<char> {
    "quit"@
}

/// The action that an event calls for: the `show` item and a left-button
/// release on the icon restore all windows, the `quit` item quits, and
/// anything else is ignored.
pub open spec fn action_of(e: TrayEvent) -> TrayAction {
    match e {
        TrayEvent::MenuItemActivated { id } => {
            if id@ == show_id() {
                TrayAction::RestoreAllWindows
            } else if id@ == quit_id() {
                TrayAction::Quit
            } else {
                TrayAction::Ignore
            }
        },
        TrayEvent::IconClicked { button, button_state } => {
            if button == MouseButton::Left && button_state == MouseButtonState::Up {
                TrayAction::RestoreAllWindows
            } else {
                TrayAction::Ignore
            }
        },
        TrayEvent::OtherIconEvent => TrayAction::Ignore,
    }
}

/// The action taken on an event in the given phase: events are acted on
/// only while the tray is running.
pub open spec fn dispatched(phase: Phase, e: TrayEvent) -> TrayAction {
    if phase == Phase::Running {
        action_of(e)
    } else {
        TrayAction::Ignore
    }
}

/// The phase after an action: quitting terminates, nothing else changes it.
pub open spec fn next_phase(phase: Phase, a: TrayAction) -> Phase {
    if a == TrayAction::Quit {
        Phase::Terminated
    } else {
        phase
    }
}

/// The windows after an action: only restoring changes them.
pub open spec fn next_windows(windows: Seq<Option<WindowState>>, a: TrayAction) -> Seq<
    Option<WindowState>,
> {
    if a == TrayAction::RestoreAllWindows {
        restore_all(windows)
    } else {
        windows
    }
}

/// The effect that the host is handed for an action taken on `windows`.
pub open spec fn effect_of(effect: Effect, a: TrayAction, windows: Seq<Option<WindowState>>) -> bool {
    match effect {
        Effect::Nothing => a == TrayAction::Ignore,
        Effect::Restore(plan) => a == TrayAction::RestoreAllWindows && plan@ == plan_of(windows),
        Effect::Exit(code) => a == TrayAction::Quit && code == 0,
    }
}

/// No two items of the menu share an id.
pub open spec fn ids_unique(items: Seq<MenuItemSpec>) -> bool {
    forall|i: int, j: int| 0 <= i < j < items.len() ==> items[i].id@ != items[j].id@
}

/// Decides the action that an event calls for.
pub fn action_for(event: &TrayEvent) -> (r: TrayAction)
    ensures
        r == action_of(*event),
{
    match event {
        TrayEvent::MenuItemActivated { id } => {
            let show = String::from_str("show");
            let quit = String::from_str("quit");
            if *id == show {
                TrayAction::RestoreAllWindows
            } else if *id == quit {
                TrayAction::Quit
            } else {
                TrayAction::Ignore
            }
        },
        TrayEvent::IconClicked { button, button_state } => {
            match (button, button_state) {
                (MouseButton::Left, MouseButtonState::Up) => TrayAction::RestoreAllWindows,
                _ => TrayAction::Ignore,
            }
        },
        TrayEvent::OtherIconEvent => TrayAction::Ignore,
    }
}

/// The tray menu: `show` then `quit`, both enabled.
pub fn tray_menu_items() -> (r: Vec<MenuItemSpec>)
    ensures
        r@.len() == 2,
        r@[0].id@ == show_id(),
        r@[0].label@ == "\u{663e}\u{793a}"@,
        r@[0].enabled,
        r@[1].id@ == quit_id(),
        r@[1].label@ == "\u{9000}\u{51fa}"@,
        r@[1].enabled,
{
    let mut r: Vec<MenuItemSpec> = Vec::new();
    r.push(
        MenuItemSpec {
            id: String::from_str("show"),
            label: String::from_str("\u{663e}\u{793a}"),
            enabled: true,
        },
    );
    r.push(
        MenuItemSpec {
            id: String::from_str("quit"),
            label: String::from_str("\u{9000}\u{51fa}"),
            enabled: true,
        },
    );
    r
}

/// Whether no two items of `items` share an id.
pub fn menu_ids_unique(items: &Vec<MenuItemSpec>) -> (r: bool)
    ensures
        r == ids_unique(items@),
{
    let mut j: usize = 0;
    while j < items.len()
        invariant
            j <= items@.len(),
            forall|a: int, b: int| 0 <= a < b < j ==> items@[a].id@ != items@[b].id@,
        decreases items@.len() - j,
    {
        let mut i: usize = 0;
        while i < j
            invariant
                i <= j < items@.len(),
                forall|a: int| 0 <= a < i ==> items@[a].id@ != items@[j as int].id@,
            decreases j - i,
        {
            if items[i].id == items[j].id {
                return false;
            }
            i = i + 1;
        }
        j = j + 1;
    }
    true
}

/// The tray controller: the menu it was built with, and the phase it is in.
pub struct TrayController {
    phase: Phase,
    menu: Vec<MenuItemSpec>,
}

impl TrayController {
    /// The phase the tray is in.
    pub closed spec fn phase_spec(&self) -> Phase {
        self.phase
    }

    /// The menu, in display order.
    pub closed spec fn menu_spec(&self) -> Seq<MenuItemSpec> {
        self.menu@
    }

    /// The menu ids are unique.
    pub closed spec fn wf(&self) -> bool {
        ids_unique(self.menu@)
    }

    /// A controller whose tray is not set up yet, with an empty menu.
    pub fn new() -> (r: TrayController)
        ensures
            r.wf(),
            r.phase_spec() == Phase::Uninitialized,
            r.menu_spec().len() == 0,
    {
        TrayController { phase: Phase::Uninitialized, menu: Vec::new() }
    }

    /// The phase the tray is in.
    pub fn phase(&self) -> (r: Phase)
        ensures
            r == self.phase_spec(),
    {
        self.phase
    }

    /// The menu, in display order.
    pub fn menu_items(&self) -> (r: &Vec<MenuItemSpec>)
        ensures
            r@ == self.menu_spec(),
    {
        &self.menu
    }

    /// Starts setting up the tray with the given menu, in display order.
    /// Fails, and changes nothing, when two items share an id.
    pub fn begin_init(&mut self, items: Vec<MenuItemSpec>) -> (r: Result<(), TrayInitError>)
        requires
            old(self).phase_spec() == Phase::Uninitialized,
        ensures
            final(self).wf() == (r is Ok || old(self).wf()),
            r is Ok <==> ids_unique(items@),
            r is Err ==> r == Err::<(), TrayInitError>(TrayInitError::MenuBuild),
            r is Ok ==> final(self).phase_spec() == Phase::Initializing,
            r is Ok ==> final(self).menu_spec() == items@,
            r is Err ==> final(self).phase_spec() == old(self).phase_spec(),
            r is Err ==> final(self).menu_spec() == old(self).menu_spec(),
    {
        if !menu_ids_unique(&items) {
            return Err(TrayInitError::MenuBuild);
        }
        self.menu = items;
        self.phase = Phase::Initializing;
        Ok(())
    }

    /// Completes setting up the tray, given what became of the work that the
    /// host did for it (decoding the icon, building the menu, registering the
    /// tray). The tray runs only if all of it succeeded; a failure is handed
    /// back and the tray never runs.
    pub fn finish_init(&mut self, outcome: Result<(), TrayInitError>) -> (r: Result<
        (),
        TrayInitError,
    >)
        requires
            old(self).phase_spec() == Phase::Initializing,
        ensures
            r == outcome,
            final(self).phase_spec() == (if outcome is Ok {
                Phase::Running
            } else {
                Phase::Initializing
            }),
            final(self).menu_spec() == old(self).menu_spec(),
            final(self).wf() == old(self).wf(),
    {
        if outcome.is_ok() {
            self.phase = Phase::Running;
        }
        outcome
    }

    /// Handles one event, given the windows in restore order (`None` for one
    /// that does not exist). While the tray runs, restoring updates `windows`
    /// and hands back the requests that do so, quitting terminates the tray
    /// and asks for a successful exit, and anything else is ignored. In any
    /// other phase every event is ignored.
    pub fn handle_event(&mut self, windows: &mut Vec<Option<WindowState>>, event: &TrayEvent) -> (r:
        Effect)
        ensures
            final(self).phase_spec() == next_phase(
                old(self).phase_spec(),
                dispatched(old(self).phase_spec(), *event),
            ),
            final(windows)@ == next_windows(
                old(windows)@,
                dispatched(old(self).phase_spec(), *event),
            ),
            effect_of(r, dispatched(old(self).phase_spec(), *event), old(windows)@),
            final(self).menu_spec() == old(self).menu_spec(),
            final(self).wf() == old(self).wf(),
    {
        if self.phase != Phase::Running {
            return Effect::Nothing;
        }
        match action_for(event) {
            TrayAction::RestoreAllWindows => Effect::Restore(restore_all_windows(windows)),
            TrayAction::Quit => {
                self.phase = Phase::Terminated;
                Effect::Exit(0)
            },
            TrayAction::Ignore => Effect::Nothing,
        }
    }
}

/// Quitting from the tray menu while it runs always terminates it and asks
/// for a successful exit, leaving the windows as they were, whatever state
/// they are in.
pub proof fn lemma_quit_exits_successfully(
    windows: Seq<Option<WindowState>>,
    id: String,
    effect: Effect,
)
    requires
        id@ == quit_id(),
        effect_of(
            effect,
            dispatched(Phase::Running, TrayEvent::MenuItemActivated { id }),
            windows,
        ),
    ensures
        dispatched(Phase::Running, TrayEvent::MenuItemActivated { id }) == TrayAction::Quit,
        next_phase(
            Phase::Running,
            dispatched(Phase::Running, TrayEvent::MenuItemActivated { id }),
        ) == Phase::Terminated,
        next_windows(windows, dispatched(Phase::Running, TrayEvent::MenuItemActivated { id }))
            == windows,
        effect == Effect::Exit(0),
{
    reveal_strlit("show");
    reveal_strlit("quit");
    assert(quit_id()[0] != show_id()[0]);
}

/// A menu id other than `show` and `quit`, and any pointer event other than
/// a left-button release, change neither the phase nor the windows, and ask
/// the host for nothing.
pub proof fn lemma_unrecognized_events_ignored(
    phase: Phase,
    windows: Seq<Option<WindowState>>,
    event: TrayEvent,
    effect: Effect,
)
    requires
        match event {
            TrayEvent::MenuItemActivated { id } => id@ != show_id() && id@ != quit_id(),
            TrayEvent::IconClicked { button, button_state } => !(button == MouseButton::Left
                && button_state == MouseButtonState::Up),
            TrayEvent::OtherIconEvent => true,
        },
        effect_of(effect, dispatched(phase, event), windows),
    ensures
        dispatched(phase, event) == TrayAction::Ignore,
        next_phase(phase, dispatched(phase, event)) == phase,
        next_windows(windows, dispatched(phase, event)) == windows,
        effect == Effect::Nothing,
{
}

} // verus!

//! What the tray does: the state of its menu, the notices it gives, and
//! what a click changes.

use crate::app_state::OptimizationMode;
use crate::intelligence::{SystemState, SystemStatus};
use crate::status::{format_menu_item_text, format_tooltip_text, status_line, StatusPlace};
use crate::text::str_eq;
use vstd::prelude::*;
use vstd::string::*;

verus! {

/// What the tray's menu items are called.
#[derive(Debug, Clone, Copy)]
pub struct SystemTrayMenuItems {
    pub status_item: &'static str,
    pub separator1: &'static str,
    pub toggle_optimization: &'static str,
    pub run_speedtest: &'static str,
    pub separator2: &'static str,
    pub quit: &'static str,
}

impl Default for SystemTrayMenuItems {
    fn default() -> (r: Self)
        ensures
            r.status_item@ == "status"@,
            r.separator1@ == "sep1"@,
            r.toggle_optimization@ == "toggle_opt"@,
            r.run_speedtest@ == "run_speedtest"@,
            r.separator2@ == "sep2"@,
            r.quit@ == "quit"@,
    {
        SystemTrayMenuItems {
            status_item: "status",
            separator1: "sep1",
            toggle_optimization: "toggle_opt",
            run_speedtest: "run_speedtest",
            separator2: "sep2",
            quit: "quit",
        }
    }
}

/// What a click on a menu item calls for.
#[derive(Debug, Clone, Copy, PartialEq, Eq, Structural)]
pub enum MenuAction {
    ToggleOptimization,
    RunSpeedtest,
    Quit,
    /// The item is not one of the tray's.
    Ignore,
}

/// How the toggle item of the menu looks.
#[derive(Debug, Clone, Copy)]
pub struct ToggleItem {
    pub title: &'static str,
    pub enabled: bool,
    pub selected: bool,
}

/// What a change of state tells the user.
#[derive(Debug, Clone, Copy, PartialEq, Eq, Structural)]
pub enum TransitionNotice {
    /// Enough samples are collected; optimization has started.
    Started,
    /// Optimization was switched on.
    Enabled,
    /// Optimization was paused.
    Paused,
    /// An error has come up.
    ErrorDetected,
}

/// What a click on the toggle item leads to.
#[derive(Debug, Clone, Copy)]
pub struct ToggleOutcome {
    /// The mode to set; none where the click changes nothing.
    pub mode: Option<OptimizationMode>,
    pub notice: &'static str,
}

impl TransitionNotice {
    /// The notice in words; for an error, what comes before the cause.
    pub fn message(self) -> (r: &'static str)
        ensures
            r@ == (match self {
                TransitionNotice::Started => "Optimization started (enough data collected)"@,
                TransitionNotice::Enabled => "Optimization enabled"@,
                TransitionNotice::Paused => "Optimization paused"@,
                TransitionNotice::ErrorDetected => "Error detected: "@,
            }),
    {
        match self {
            TransitionNotice::Started => "Optimization started (enough data collected)",
            TransitionNotice::Enabled => "Optimization enabled",
            TransitionNotice::Paused => "Optimization paused",
            TransitionNotice::ErrorDetected => "Error detected: ",
        }
    }
}

/// What the change from one state to another tells the user, if anything.
pub open spec fn spec_transition_notice(previous: SystemState, current: SystemState) -> Option<
    TransitionNotice,
> {
    match (previous, current) {
        (SystemState::Learning, SystemState::Optimizing) => Some(TransitionNotice::Started),
        (SystemState::Monitoring, SystemState::Optimizing) => Some(TransitionNotice::Enabled),
        (SystemState::Optimizing, SystemState::Monitoring) => Some(TransitionNotice::Paused),
        (SystemState::Optimizing, SystemState::Inactive) => Some(TransitionNotice::Paused),
        (SystemState::Error(_), SystemState::Error(_)) => None,
        (_, SystemState::Error(_)) => Some(TransitionNotice::ErrorDetected),
        _ => None,
    }
}

/// What a click on the toggle item sets the mode to, if anything.
pub open spec fn spec_toggle_mode(state: SystemState) -> Option<OptimizationMode> {
    match state {
        SystemState::Optimizing => Some(OptimizationMode::Disabled),
        SystemState::Monitoring => Some(OptimizationMode::Enabled),
        SystemState::Inactive => Some(OptimizationMode::Enabled),
        _ => None,
    }
}

/// What the click on the item called `item_id` calls for.
pub open spec fn spec_menu_action(item_id: Seq<char>) -> MenuAction {
    if item_id == "toggle_opt"@ {
        MenuAction::ToggleOptimization
    } else if item_id == "run_speedtest"@ {
        MenuAction::RunSpeedtest
    } else if item_id == "quit"@ {
        MenuAction::Quit
    } else {
        MenuAction::Ignore
    }
}

/// What the change from one state to another tells the user, if anything.
pub fn maybe_notify_transition(previous: &SystemState, current: &SystemState) -> (r: Option<
    TransitionNotice,
>)
    ensures
        r == spec_transition_notice(*previous, *current),
{
    match (previous, current) {
        (SystemState::Learning, SystemState::Optimizing) => Some(TransitionNotice::Started),
        (SystemState::Monitoring, SystemState::Optimizing) => Some(TransitionNotice::Enabled),
        (SystemState::Optimizing, SystemState::Monitoring) => Some(TransitionNotice::Paused),
        (SystemState::Optimizing, SystemState::Inactive) => Some(TransitionNotice::Paused),
        (SystemState::Error(_), SystemState::Error(_)) => None,
        (_, SystemState::Error(_)) => Some(TransitionNotice::ErrorDetected),
        _ => None,
    }
}

/// How the toggle item looks in the given state: it offers to switch
/// optimization off while optimizing, on otherwise, and is dead while the
/// system learns or is broken.
pub fn update_menu_items(state: &SystemState) -> (r: ToggleItem)
    ensures
        r.title@ == (if state is Optimizing {
            "Disable Optimization"@
        } else {
            "Enable Optimization"@
        }),
        r.enabled == (state is Optimizing || state is Monitoring || state is Inactive),
        r.selected == (state is Optimizing),
{
    match state {
        SystemState::Learning => ToggleItem {
            title: "Enable Optimization",
            enabled: false,
            selected: false,
        },
        SystemState::Optimizing => ToggleItem {
            title: "Disable Optimization",
            enabled: true,
            selected: true,
        },
        SystemState::Monitoring => ToggleItem {
            title: "Enable Optimization",
            enabled: true,
            selected: false,
        },
        SystemState::Inactive => ToggleItem {
            title: "Enable Optimization",
            enabled: true,
            selected: false,
        },
        SystemState::Error(_) => ToggleItem {
            title: "Enable Optimization",
            enabled: false,
            selected: false,
        },
    }
}

/// What a click on the toggle item leads to in the given state.
pub fn handle_optimization_toggle(state: &SystemState) -> (r: ToggleOutcome)
    ensures
        r.mode == spec_toggle_mode(*state),
        r.notice@ == (match *state {
            SystemState::Optimizing => "Optimization disabled"@,
            SystemState::Monitoring => "Optimization enabled"@,
            SystemState::Inactive => "Optimization enabled"@,
            SystemState::Learning => "Still learning network patterns"@,
            SystemState::Error(_) => "Cannot enable optimization - check status"@,
        }),
{
    match state {
        SystemState::Optimizing => ToggleOutcome {
            mode: Some(OptimizationMode::Disabled),
            notice: "Optimization disabled",
        },
        SystemState::Monitoring => ToggleOutcome {
            mode: Some(OptimizationMode::Enabled),
            notice: "Optimization enabled",
        },
        SystemState::Inactive => ToggleOutcome {
            mode: Some(OptimizationMode::Enabled),
            notice: "Optimization enabled",
        },
        SystemState::Learning => ToggleOutcome {
            mode: None,
            notice: "Still learning network patterns",
        },
        SystemState::Error(_) => ToggleOutcome {
            mode: None,
            notice: "Cannot enable optimization - check status",
        },
    }
}

/// What the click on the item called `item_id` calls for.
pub fn handle_menu_click(item_id: &str) -> (r: MenuAction)
    ensures
        r == spec_menu_action(item_id@),
{
    if str_eq(item_id, "toggle_opt") {
        MenuAction::ToggleOptimization
    } else if str_eq(item_id, "run_speedtest") {
        MenuAction::RunSpeedtest
    } else if str_eq(item_id, "quit") {
        MenuAction::Quit
    } else {
        MenuAction::Ignore
    }
}

/// The width of the panel, in pixels.
pub const PANEL_WIDTH: i64 = 420;

/// The least distance of the panel from the screen's edge, in pixels.
pub const PANEL_MARGIN: i64 = 8;

/// Where the panel goes for a click on the tray at the given pixel: below
/// the click and to its left, and not beyond the screen's edge.
pub open spec fn spec_panel_position(x: i32, y: i32) -> (int, int) {
    (
        crate::fixed::max_int(x - PANEL_WIDTH + 24, PANEL_MARGIN as int),
        crate::fixed::max_int(y + PANEL_MARGIN, PANEL_MARGIN as int),
    )
}

/// The side of the square panel, in pixels.
pub const PANEL_SIZE: i64 = 420;

/// What is done to the panel.
#[derive(Debug, Clone, Copy, PartialEq, Eq, Structural)]
pub enum PanelAction {
    Hide,
    /// Shows the panel with its corner at the given pixel, and gives it the focus.
    ShowAt { left: i64, top: i64 },
}

/// Shows the panel.
#[derive(Debug, Clone, Copy)]
pub struct PanelInterface {}

impl PanelInterface {
    /// A panel.
    pub fn new() -> (r: Self) {
        PanelInterface {  }
    }

    /// What a click on the tray at the given pixel does to the panel: a
    /// panel that shows is hidden, a hidden one is shown below the click.
    pub fn toggle_at_tray_position(visible: bool, x: i32, y: i32) -> (r: PanelAction)
        ensures
            r == (if visible {
                PanelAction::Hide
            } else {
                PanelAction::ShowAt {
                    left: spec_panel_position(x, y).0 as i64,
                    top: spec_panel_position(x, y).1 as i64,
                }
            }),
    {
        if visible {
            PanelAction::Hide
        } else {
            let place = PanelInterface::position_for(x, y);
            PanelAction::ShowAt { left: place.0, top: place.1 }
        }
    }

    /// Where the panel goes for a click on the tray at the given pixel.
    pub fn position_for(x: i32, y: i32) -> (r: (i64, i64))
        ensures
            (r.0 as int, r.1 as int) == spec_panel_position(x, y),
    {
        let left = x as i64 - PANEL_WIDTH + 24;
        let top = y as i64 + PANEL_MARGIN;
        (
            if left >= PANEL_MARGIN {
                left
            } else {
                PANEL_MARGIN
            },
            if top >= PANEL_MARGIN {
                top
            } else {
                PANEL_MARGIN
            },
        )
    }
}

/// One line of the tray's menu.
#[derive(Debug, Clone, Copy)]
pub enum TrayMenuEntry {
    /// An item with its name, its title and whether it can be clicked.
    Item { id: &'static str, title: &'static str, enabled: bool },
    Separator,
}

/// Whether `entry` is the item of the given name and title.
pub open spec fn is_item(entry: TrayMenuEntry, id: Seq<char>, title: Seq<char>, enabled: bool) -> bool {
    match entry {
        TrayMenuEntry::Item { id: i, title: t, enabled: e } => i@ == id && t@ == title && e
            == enabled,
        TrayMenuEntry::Separator => false,
    }
}

/// `menu` is the tray's menu as it is first shown: the status, which
/// cannot be clicked; the toggle and the speed test; the way out.
pub open spec fn is_first_menu(menu: Seq<TrayMenuEntry>) -> bool {
    &&& menu.len() == 6
    &&& is_item(menu[0], "status"@, "◉ SpeedKarma"@, false)
    &&& menu[1] is Separator
    &&& is_item(menu[2], "toggle_opt"@, "Enable Optimization"@, true)
    &&& is_item(menu[3], "run_speedtest"@, "Run Speedtest Now"@, true)
    &&& menu[4] is Separator
    &&& is_item(menu[5], "quit"@, "Quit SpeedKarma"@, true)
}

/// The tray's menu as it is first shown: the status, which cannot be
/// clicked; the toggle and the speed test; the way out.
pub fn create_tray_menu() -> (r: Vec<TrayMenuEntry>)
    ensures
        is_first_menu(r@),
{
    let mut menu: Vec<TrayMenuEntry> = Vec::new();
    menu.push(TrayMenuEntry::Item { id: "status", title: "◉ SpeedKarma", enabled: false });
    menu.push(TrayMenuEntry::Separator);
    menu.push(
        TrayMenuEntry::Item { id: "toggle_opt", title: "Enable Optimization", enabled: true },
    );
    menu.push(
        TrayMenuEntry::Item { id: "run_speedtest", title: "Run Speedtest Now", enabled: true },
    );
    menu.push(TrayMenuEntry::Separator);
    menu.push(TrayMenuEntry::Item { id: "quit", title: "Quit SpeedKarma", enabled: true });
    menu
}

/// The tooltip of a tray that has shown no status yet.
pub const INITIAL_TOOLTIP: &'static str = "SpeedKarma - Learning network patterns";

/// What happens at the tray's icon.
#[derive(Debug)]
pub enum TrayEvent {
    /// A click with the left button at the given pixel.
    LeftClick { x: i32, y: i32 },
    RightClick,
    DoubleClick,
    /// A click on the menu item of the given name.
    MenuItemClick { id: String },
    /// Anything else.
    Other,
}

/// What the shell does about an event at the tray's icon.
#[derive(Debug, Clone, Copy, PartialEq, Eq, Structural)]
pub enum TrayAction {
    /// Shows the panel at the given pixel, or hides it where it shows.
    TogglePanel { left: i64, top: i64 },
    /// Does what the menu item calls for.
    Menu(MenuAction),
    Nothing,
}

/// What an event at the tray's icon calls for: a left click toggles the
/// panel below the click, a click on a menu item does what the item says,
/// anything else nothing.
pub open spec fn spec_tray_action(event: TrayEvent) -> TrayAction {
    match event {
        TrayEvent::LeftClick { x, y } => TrayAction::TogglePanel {
            left: spec_panel_position(x, y).0 as i64,
            top: spec_panel_position(x, y).1 as i64,
        },
        TrayEvent::MenuItemClick { id } => TrayAction::Menu(spec_menu_action(id@)),
        _ => TrayAction::Nothing,
    }
}

/// What an event at the tray's icon calls for.
pub fn handle_tray_event(event: &TrayEvent) -> (r: TrayAction)
    ensures
        r == spec_tray_action(*event),
{
    match event {
        TrayEvent::LeftClick { x, y } => {
            let place = PanelInterface::position_for(*x, *y);
            TrayAction::TogglePanel { left: place.0, top: place.1 }
        },
        TrayEvent::MenuItemClick { id } => TrayAction::Menu(handle_menu_click(id.as_str())),
        _ => TrayAction::Nothing,
    }
}

/// Shows the advanced settings.
#[derive(Debug, Clone, Copy)]
pub struct AdvancedInterface {}

impl AdvancedInterface {
    /// An interface to the advanced settings.
    pub fn new() -> (r: Self) {
        AdvancedInterface {  }
    }
}

/// What the shell shows after a change of status.
#[derive(Debug, Clone)]
pub struct TrayUpdate {
    pub tooltip: String,
    pub menu_text: String,
    pub toggle: ToggleItem,
    pub notice: Option<TransitionNotice>,
}

/// The tray's state.
#[derive(Debug, Clone)]
pub struct SystemTray {
    pub current_status: SystemStatus,
    pub menu_items: SystemTrayMenuItems,
}

impl SystemTray {
    /// A tray that shows a system which starts to learn.
    pub fn new() -> (r: Self)
        ensures
            r.current_status.state is Learning,
            r.current_status.message@ == "Initializing..."@,
            r.current_status.data_collection_progress is None,
            r.current_status.effectiveness is None,
            r.menu_items.toggle_optimization@ == "toggle_opt"@,
    {
        SystemTray {
            current_status: SystemStatus {
                state: SystemState::Learning,
                message: String::from_str("Initializing..."),
                data_collection_progress: None,
                effectiveness: None,
            },
            menu_items: SystemTrayMenuItems::default(),
        }
    }

    /// The tray's menu as it is first shown.
    pub fn create_tray_menu() -> (r: Vec<TrayMenuEntry>)
        ensures
            is_first_menu(r@),
    {
        create_tray_menu()
    }

    /// What an event at the tray's icon calls for.
    pub fn handle_tray_event(&self, event: &TrayEvent) -> (r: TrayAction)
        ensures
            r == spec_tray_action(*event),
    {
        handle_tray_event(event)
    }

    /// Takes the new status and says what the shell shows for it.
    pub fn update_status(&mut self, status: SystemStatus) -> (r: TrayUpdate)
        ensures
            final(self).current_status == status,
            r.tooltip@ == status_line(StatusPlace::Tooltip, status),
            r.menu_text@ == status_line(StatusPlace::MenuItem, status),
            r.toggle.enabled == (status.state is Optimizing || status.state is Monitoring
                || status.state is Inactive),
            r.toggle.selected == (status.state is Optimizing),
            r.notice == spec_transition_notice(old(self).current_status.state, status.state),
    {
        let update = TrayUpdate {
            tooltip: format_tooltip_text(&status),
            menu_text: format_menu_item_text(&status),
            toggle: update_menu_items(&status.state),
            notice: maybe_notify_transition(&self.current_status.state, &status.state),
        };
        self.current_status = status;
        update
    }

    /// The status that the tray shows.
    pub fn get_current_status(&self) -> (r: &SystemStatus)
        ensures
            *r == self.current_status,
    {
        &self.current_status
    }
}

} // verus!

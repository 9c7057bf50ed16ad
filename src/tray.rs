//! Decisions behind the tray icon and its menu: which icon assets to show,
//! when the working animation starts, and what the menu items mean.

use vstd::prelude::*;
use vstd::string::StringExecFns;

use crate::text::{decimal, decimal_digits, same_text, string_from_chars};
use crate::types::{MenubarDisplayMode, MenubarIconTheme, UserSettings};

verus! {

/// Number of frames of the working animation.
pub const FRAME_COUNT: usize = 14;

/// Tray state shared by the ticker, the menu handlers and the animation loop.
pub struct TrayState {
    /// Light (white) icons for a dark menubar, else dark ones.
    pub is_light_icon: bool,
    /// The working animation runs.
    pub animating: bool,
}

impl TrayState {
    /// The state for a theme, with no animation running.
    pub fn new(theme: MenubarIconTheme) -> (r: TrayState)
        ensures
            r.is_light_icon == (theme == MenubarIconTheme::Light),
            !r.animating,
    {
        TrayState { is_light_icon: theme == MenubarIconTheme::Light, animating: false }
    }

    /// Switches the icon theme. Returns whether the idle icon must be redrawn
    /// now: only when no animation runs, since a running one redraws itself.
    pub fn set_icon_theme(&mut self, theme: MenubarIconTheme) -> (r: bool)
        ensures
            final(self).is_light_icon == (theme == MenubarIconTheme::Light),
            final(self).animating == old(self).animating,
            r == !old(self).animating,
    {
        self.is_light_icon = theme == MenubarIconTheme::Light;
        !self.animating
    }
}

/// Takes the icon theme of `settings`.
pub fn refresh_icon_theme(state: &mut TrayState, settings: &UserSettings)
    ensures
        final(state).is_light_icon == (settings.menubar_icon_theme == MenubarIconTheme::Light),
        final(state).animating == old(state).animating,
{
    state.is_light_icon = settings.menubar_icon_theme == MenubarIconTheme::Light;
}

/// Sets whether the working animation runs. Returns whether a new animation
/// loop must start: only when work begins while none runs. When work stops
/// the flag is cleared and the running loop ends by itself.
pub fn update_icon_state(state: &mut TrayState, is_working: bool) -> (r: bool)
    ensures
        final(state).animating == is_working,
        final(state).is_light_icon == old(state).is_light_icon,
        r == (is_working && !old(state).animating),
{
    let start = is_working && !state.animating;
    state.animating = is_working;
    start
}

/// File name of the idle icon of a theme.
pub open spec fn idle_icon_name(light: bool) -> Seq<char> {
    if light {
        "tray-idle.png"@
    } else {
        "tray-idle-light.png"@
    }
}

/// File name of frame `i` of the working animation of a theme.
pub open spec fn frame_name(light: bool, i: nat) -> Seq<char> {
    (if light {
        "tray-frame-"@
    } else {
        "tray-frame-light-"@
    }) + decimal(i) + ".png"@
}

/// File name of the idle icon of the current theme.
pub fn idle_icon(state: &TrayState) -> (r: String)
    ensures
        r@ == idle_icon_name(state.is_light_icon),
{
    if state.is_light_icon {
        String::from_str("tray-idle.png")
    } else {
        String::from_str("tray-idle-light.png")
    }
}

fn frame_file(light: bool, i: usize) -> (r: String)
    ensures
        r@ == frame_name(light, i as nat),
{
    let mut r = if light {
        String::from_str("tray-frame-")
    } else {
        String::from_str("tray-frame-light-")
    };
    let n = string_from_chars(&decimal_digits(i as u128));
    r.append(n.as_str());
    r.append(".png");
    r
}

/// File names of the animation frames of the current theme, in order.
pub fn frames(state: &TrayState) -> (r: Vec<String>)
    ensures
        r@.len() == FRAME_COUNT,
        forall|i: int| 0 <= i < FRAME_COUNT ==> #[trigger] r@[i]@ == frame_name(
            state.is_light_icon,
            i as nat,
        ),
{
    let mut r: Vec<String> = Vec::new();
    let mut i: usize = 0;
    while i < FRAME_COUNT
        invariant
            i <= FRAME_COUNT,
            r@.len() == i,
            forall|j: int| 0 <= j < i ==> #[trigger] r@[j]@ == frame_name(
                state.is_light_icon,
                j as nat,
            ),
        decreases FRAME_COUNT - i,
    {
        r.push(frame_file(state.is_light_icon, i));
        i += 1;
    }
    r
}

/// The frame shown after frame `i`; the animation wraps around.
pub fn next_frame(i: usize) -> (r: usize)
    requires
        i < FRAME_COUNT,
    ensures
        r == (i + 1) % (FRAME_COUNT as int),
{
    (i + 1) % FRAME_COUNT
}

/// Which tray menu items carry a check mark.
pub struct MenuCheckStates {
    pub display_none: bool,
    pub display_daily: bool,
    pub display_accumulated: bool,
    pub icon_light: bool,
    pub icon_dark: bool,
}

/// The check marks that reflect `settings`: one display mode and one icon theme.
pub fn update_menu_check_states(settings: &UserSettings) -> (r: MenuCheckStates)
    ensures
        r.display_none == (settings.menubar_display_mode == MenubarDisplayMode::Hidden),
        r.display_daily == (settings.menubar_display_mode == MenubarDisplayMode::Daily),
        r.display_accumulated == (settings.menubar_display_mode
            == MenubarDisplayMode::Accumulated),
        r.icon_light == (settings.menubar_icon_theme == MenubarIconTheme::Light),
        r.icon_dark == (settings.menubar_icon_theme == MenubarIconTheme::Dark),
{
    MenuCheckStates {
        display_none: settings.menubar_display_mode == MenubarDisplayMode::Hidden,
        display_daily: settings.menubar_display_mode == MenubarDisplayMode::Daily,
        display_accumulated: settings.menubar_display_mode == MenubarDisplayMode::Accumulated,
        icon_light: settings.menubar_icon_theme == MenubarIconTheme::Light,
        icon_dark: settings.menubar_icon_theme == MenubarIconTheme::Dark,
    }
}

/// What a tray menu item asks for.
#[derive(Clone, Copy, Debug, PartialEq, Eq, Structural)]
pub enum MenuCommand {
    Quit,
    OpenSalarySettings,
    SetDisplayMode(MenubarDisplayMode),
    SetIconTheme(MenubarIconTheme),
    Ignore,
}

/// The command of a menu item id.
pub open spec fn menu_command_of(id: Seq<char>) -> MenuCommand {
    if id == "quit"@ {
        MenuCommand::Quit
    } else if id == "salary_work_settings"@ {
        MenuCommand::OpenSalarySettings
    } else if id == "display_none"@ {
        MenuCommand::SetDisplayMode(MenubarDisplayMode::Hidden)
    } else if id == "display_daily"@ {
        MenuCommand::SetDisplayMode(MenubarDisplayMode::Daily)
    } else if id == "display_accumulated"@ {
        MenuCommand::SetDisplayMode(MenubarDisplayMode::Accumulated)
    } else if id == "icon_light"@ {
        MenuCommand::SetIconTheme(MenubarIconTheme::Light)
    } else if id == "icon_dark"@ {
        MenuCommand::SetIconTheme(MenubarIconTheme::Dark)
    } else {
        MenuCommand::Ignore
    }
}

impl MenuCommand {
    /// The command of the tray menu item with id `id` (see [`menu_command_of`]).
    pub fn from_id(id: &str) -> (r: MenuCommand)
        ensures
            r == menu_command_of(id@),
    {
        if same_text(id, "quit") {
            MenuCommand::Quit
        } else if same_text(id, "salary_work_settings") {
            MenuCommand::OpenSalarySettings
        } else if same_text(id, "display_none") {
            MenuCommand::SetDisplayMode(MenubarDisplayMode::Hidden)
        } else if same_text(id, "display_daily") {
            MenuCommand::SetDisplayMode(MenubarDisplayMode::Daily)
        } else if same_text(id, "display_accumulated") {
            MenuCommand::SetDisplayMode(MenubarDisplayMode::Accumulated)
        } else if same_text(id, "icon_light") {
            MenuCommand::SetIconTheme(MenubarIconTheme::Light)
        } else if same_text(id, "icon_dark") {
            MenuCommand::SetIconTheme(MenubarIconTheme::Dark)
        } else {
            MenuCommand::Ignore
        }
    }
}

/// Whether this application is the frontmost one, from the two process ids.
pub fn check_menubar_frontmost(frontmost_pid: i32, app_pid: i32) -> (r: bool)
    ensures
        r == (frontmost_pid == app_pid),
{
    frontmost_pid == app_pid
}

} // verus!

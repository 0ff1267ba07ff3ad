//! The tray menu: what it shows for a mode, and what a click on it asks for.

use vstd::prelude::*;
use crate::mode::RefreshMode;

verus! {

/// The entry that toggles region A.
pub const DAILY_CHINA: &'static str = "daily_china";

/// The entry that toggles region B.
pub const DAILY_GLOBAL: &'static str = "daily_global";

/// The line between the modes and the rest.
pub const SEPARATOR: &'static str = "separator1";

/// The entry that opens the wallpaper site.
pub const OPEN_WEBSITE: &'static str = "open_website";

/// The entry that ends the program.
pub const QUIT: &'static str = "quit";

/// The site that `open_website` opens.
pub const WEBSITE_URL: &'static str = "https://bing.wdbyte.com";

/// What a click asks for.
#[derive(Clone, Copy, Debug, PartialEq, Eq, Structural)]
pub enum MenuAction {
    Toggle(RefreshMode),
    OpenWebsite,
    Quit,
    /// The entry is none of the menu's.
    Unhandled,
}

/// The action behind the entry `id`.
pub open spec fn action_of(id: Seq<char>) -> MenuAction {
    if id == DAILY_CHINA@ {
        MenuAction::Toggle(RefreshMode::RegionA)
    } else if id == DAILY_GLOBAL@ {
        MenuAction::Toggle(RefreshMode::RegionB)
    } else if id == OPEN_WEBSITE@ {
        MenuAction::OpenWebsite
    } else if id == QUIT@ {
        MenuAction::Quit
    } else {
        MenuAction::Unhandled
    }
}

fn same_text(a: &str, b: &str) -> (same: bool)
    ensures
        same == (a@ == b@),
{
    String::from_str(a) == String::from_str(b)
}

/// The action behind the entry `id`.
pub fn menu_action(id: &str) -> (action: MenuAction)
    ensures
        action == action_of(id@),
{
    if same_text(id, DAILY_CHINA) {
        MenuAction::Toggle(RefreshMode::RegionA)
    } else if same_text(id, DAILY_GLOBAL) {
        MenuAction::Toggle(RefreshMode::RegionB)
    } else if same_text(id, OPEN_WEBSITE) {
        MenuAction::OpenWebsite
    } else if same_text(id, QUIT) {
        MenuAction::Quit
    } else {
        MenuAction::Unhandled
    }
}

/// One line of the menu.
#[derive(Clone, Copy, Debug, PartialEq, Eq)]
pub struct MenuEntry {
    pub id: &'static str,
    pub label: &'static str,
    pub enabled: bool,
}

pub ghost struct MenuEntryView {
    pub id: Seq<char>,
    pub label: Seq<char>,
    pub enabled: bool,
}

impl View for MenuEntry {
    type V = MenuEntryView;

    open spec fn view(&self) -> MenuEntryView {
        MenuEntryView { id: self.id@, label: self.label@, enabled: self.enabled }
    }
}

/// The label of a mode's entry: with a check mark when the mode is active.
pub open spec fn china_label(mode: RefreshMode) -> Seq<char> {
    if mode == RefreshMode::RegionA {
        "每日壁纸刷新(中国) ✓"@
    } else {
        "每日壁纸刷新(中国)"@
    }
}

/// The label of a mode's entry: with a check mark when the mode is active.
pub open spec fn global_label(mode: RefreshMode) -> Seq<char> {
    if mode == RefreshMode::RegionB {
        "每日壁纸刷新(国际) ✓"@
    } else {
        "每日壁纸刷新(国际)"@
    }
}

/// The menu for `mode`, from top to bottom.
pub open spec fn menu_of(mode: RefreshMode) -> Seq<MenuEntryView> {
    seq![
        MenuEntryView { id: DAILY_CHINA@, label: china_label(mode), enabled: true },
        MenuEntryView { id: DAILY_GLOBAL@, label: global_label(mode), enabled: true },
        MenuEntryView { id: SEPARATOR@, label: "--------------"@, enabled: false },
        MenuEntryView { id: OPEN_WEBSITE@, label: "打开必应壁纸网站"@, enabled: true },
        MenuEntryView { id: QUIT@, label: "退出"@, enabled: true },
    ]
}

/// The entries of `entries`, each as plain values.
pub open spec fn entry_views(entries: Seq<MenuEntry>) -> Seq<MenuEntryView> {
    Seq::new(entries.len(), |i: int| entries[i]@)
}

/// The menu to show while `mode` is active: the active mode's entry carries
/// the check mark, no other does.
pub fn menu_entries(mode: RefreshMode) -> (entries: Vec<MenuEntry>)
    ensures
        entries@.len() == 5,
        entry_views(entries@) == menu_of(mode),
{
    let china = match mode {
        RefreshMode::RegionA => "每日壁纸刷新(中国) ✓",
        _ => "每日壁纸刷新(中国)",
    };
    let global = match mode {
        RefreshMode::RegionB => "每日壁纸刷新(国际) ✓",
        _ => "每日壁纸刷新(国际)",
    };
    let mut entries: Vec<MenuEntry> = Vec::new();
    entries.push(MenuEntry { id: DAILY_CHINA, label: china, enabled: true });
    entries.push(MenuEntry { id: DAILY_GLOBAL, label: global, enabled: true });
    entries.push(MenuEntry { id: SEPARATOR, label: "--------------", enabled: false });
    entries.push(MenuEntry { id: OPEN_WEBSITE, label: "打开必应壁纸网站", enabled: true });
    entries.push(MenuEntry { id: QUIT, label: "退出", enabled: true });
    assert(entry_views(entries@) =~= menu_of(mode));
    entries
}

} // verus!

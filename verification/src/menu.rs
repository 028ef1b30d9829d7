//! The tray menu: the actions its entries stand for, the decoding of an
//! entry id to an action, and the declarative menu built from the cursor
//! state. The tray widget itself lives outside and is handed the entries.

use vstd::prelude::*;
use vstd::string::*;

verus! {

use crate::state::DownloadInfo;
use crate::text::str_eq;

/// What a menu click asks for.
#[derive(Debug, PartialEq, Eq, Structural)]
pub enum MenuAction {
    /// Step one day back.
    Previous,
    /// Step one day forward, never past today.
    Next,
    /// Jump to today.
    Today,
    /// Jump to a random recent day.
    Random,
    /// Flip the high-definition flag.
    ToggleHd,
    /// Copy the shown title to the clipboard.
    CopyTitle,
    /// Stop the event loop.
    Exit,
}

/// The action behind an entry id, if the id is known.
pub open spec fn spec_action_of_id(id: Seq<char>) -> Option<MenuAction> {
    if id == "1001"@ {
        Some(MenuAction::Previous)
    } else if id == "1002"@ {
        Some(MenuAction::Next)
    } else if id == "1004"@ {
        Some(MenuAction::Today)
    } else if id == "1003"@ {
        Some(MenuAction::Random)
    } else if id == "1006"@ {
        Some(MenuAction::ToggleHd)
    } else if id == "1005"@ {
        Some(MenuAction::CopyTitle)
    } else if id == "2005"@ {
        Some(MenuAction::Exit)
    } else {
        None
    }
}

/// Decodes an entry id to its action.
pub fn action_of_id(id: &str) -> (r: Option<MenuAction>)
    ensures
        r == spec_action_of_id(id@),
{
    if str_eq(id, "1001") {
        Some(MenuAction::Previous)
    } else if str_eq(id, "1002") {
        Some(MenuAction::Next)
    } else if str_eq(id, "1004") {
        Some(MenuAction::Today)
    } else if str_eq(id, "1003") {
        Some(MenuAction::Random)
    } else if str_eq(id, "1006") {
        Some(MenuAction::ToggleHd)
    } else if str_eq(id, "1005") {
        Some(MenuAction::CopyTitle)
    } else if str_eq(id, "2005") {
        Some(MenuAction::Exit)
    } else {
        None
    }
}

/// One entry of the declarative menu.
pub struct MenuEntry {
    /// The entry id a click reports.
    pub id: String,
    /// The label shown to the user.
    pub label: String,
    /// Whether the entry can be clicked.
    pub enabled: bool,
}

/// Label of the high-definition toggle for a flag value: the checked-state
/// marker stands on it exactly when the flag is set.
pub open spec fn spec_hd_label(hd: bool) -> Seq<char> {
    if hd {
        "下载高清图☑"@
    } else {
        "下载高清图"@
    }
}

/// Builds the menu for a cursor state: the title entry, the four day moves,
/// the high-definition toggle and the exit entry, in that fixed order, all
/// enabled.
pub fn build_menu(info: &DownloadInfo) -> (r: Vec<MenuEntry>)
    ensures
        r@.len() == 7,
        r@[0].id@ == "1005"@ && r@[0].label@ == info.title@,
        r@[1].id@ == "1001"@ && r@[1].label@ == "上一张"@,
        r@[2].id@ == "1002"@ && r@[2].label@ == "下一张"@,
        r@[3].id@ == "1004"@ && r@[3].label@ == "今日"@,
        r@[4].id@ == "1003"@ && r@[4].label@ == "随机"@,
        r@[5].id@ == "1006"@ && r@[5].label@ == spec_hd_label(info.hd),
        r@[6].id@ == "2005"@ && r@[6].label@ == "退出"@,
        forall|i: int| 0 <= i < 7 ==> r@[i].enabled,
{
    let mut r: Vec<MenuEntry> = Vec::new();
    r.push(
        MenuEntry { id: String::from_str("1005"), label: info.title.clone(), enabled: true },
    );
    r.push(
        MenuEntry {
            id: String::from_str("1001"),
            label: String::from_str("上一张"),
            enabled: true,
        },
    );
    r.push(
        MenuEntry {
            id: String::from_str("1002"),
            label: String::from_str("下一张"),
            enabled: true,
        },
    );
    r.push(
        MenuEntry {
            id: String::from_str("1004"),
            label: String::from_str("今日"),
            enabled: true,
        },
    );
    r.push(
        MenuEntry {
            id: String::from_str("1003"),
            label: String::from_str("随机"),
            enabled: true,
        },
    );
    let hd_label = if info.hd {
        String::from_str("下载高清图☑")
    } else {
        String::from_str("下载高清图")
    };
    r.push(MenuEntry { id: String::from_str("1006"), label: hd_label, enabled: true });
    r.push(
        MenuEntry {
            id: String::from_str("2005"),
            label: String::from_str("退出"),
            enabled: true,
        },
    );
    r
}

} // verus!

//! The tray icon (a StatusNotifierItem): its identity, its menu, and what its
//! messages ask of the main loop.
//!
//! The tray's callbacks run on their own D-Bus thread, so they only forward a
//! message; all window work happens on the main loop.
use vstd::prelude::*;
use vstd::string::*;
use crate::commands::{action_for_args, AppAction, APP_ID};

verus! {

/// What a tray interaction asks the main loop to do.
#[derive(Debug, Clone, Copy, PartialEq, Eq, Structural)]
pub enum TrayMsg {
    Capture,
    Show,
    Quit,
}

/// The tray item's title.
pub const TRAY_TITLE: &'static str = "doo";

/// The tray item's icon.
pub const TRAY_ICON_NAME: &'static str = "checkbox-checked-symbolic";

/// The tray item's id: the application id.
pub fn tray_id() -> (id: &'static str)
    ensures
        id@ == APP_ID@,
{
    APP_ID
}

/// One entry of the tray's right-click menu.
pub enum MenuEntry {
    /// A clickable item; an empty icon name means no icon.
    Item { label: String, icon_name: String, msg: TrayMsg },
    Separator,
}

/// A menu entry as a mathematical value.
pub enum MenuEntryView {
    Item { label: Seq<char>, icon_name: Seq<char>, msg: TrayMsg },
    Separator,
}

impl View for MenuEntry {
    type V = MenuEntryView;

    open spec fn view(&self) -> MenuEntryView {
        match self {
            MenuEntry::Item { label, icon_name, msg } => MenuEntryView::Item {
                label: label@,
                icon_name: icon_name@,
                msg: *msg,
            },
            MenuEntry::Separator => MenuEntryView::Separator,
        }
    }
}

/// The right-click menu: Capture task, Show tasks, a separator, Quit.
pub open spec fn tray_menu_spec() -> Seq<MenuEntryView> {
    seq![
        MenuEntryView::Item {
            label: "Capture task"@,
            icon_name: "list-add-symbolic"@,
            msg: TrayMsg::Capture,
        },
        MenuEntryView::Item {
            label: "Show tasks"@,
            icon_name: "view-list-symbolic"@,
            msg: TrayMsg::Show,
        },
        MenuEntryView::Separator,
        MenuEntryView::Item { label: "Quit"@, icon_name: ""@, msg: TrayMsg::Quit },
    ]
}

/// The tray's right-click menu, in order.
pub fn tray_menu() -> (menu: Vec<MenuEntry>)
    ensures
        menu@.map_values(|e: MenuEntry| e@) == tray_menu_spec(),
{
    let mut menu: Vec<MenuEntry> = Vec::new();
    menu.push(
        MenuEntry::Item {
            label: String::from_str("Capture task"),
            icon_name: String::from_str("list-add-symbolic"),
            msg: TrayMsg::Capture,
        },
    );
    menu.push(
        MenuEntry::Item {
            label: String::from_str("Show tasks"),
            icon_name: String::from_str("view-list-symbolic"),
            msg: TrayMsg::Show,
        },
    );
    menu.push(MenuEntry::Separator);
    menu.push(
        MenuEntry::Item {
            label: String::from_str("Quit"),
            icon_name: String::from_str(""),
            msg: TrayMsg::Quit,
        },
    );
    assert(menu@.map_values(|e: MenuEntry| e@) =~= tray_menu_spec());
    menu
}

/// The message a left click on the tray icon sends: jump straight to
/// capture.
pub fn activate_msg() -> (msg: TrayMsg)
    ensures
        msg == TrayMsg::Capture,
{
    TrayMsg::Capture
}

/// What the main loop does for a tray message.
pub open spec fn tray_action(msg: TrayMsg) -> AppAction {
    match msg {
        TrayMsg::Capture => AppAction::ShowCapture,
        TrayMsg::Show => AppAction::ShowTasks,
        TrayMsg::Quit => AppAction::Quit,
    }
}

/// The message a menu entry sends, if it is an item.
pub open spec fn item_msg(entry: MenuEntryView) -> Option<TrayMsg> {
    match entry {
        MenuEntryView::Item { msg, .. } => Some(msg),
        MenuEntryView::Separator => None,
    }
}

/// The tray does what the command line does: its capture message does what
/// `doo capture` does, its show message what a plain `doo` does; and the
/// menu offers each message through exactly one item, with one separator
/// between showing the list and quitting.
pub proof fn tray_agrees_with_command_line(program: Seq<char>)
    ensures
        tray_action(TrayMsg::Capture) == action_for_args(seq![program, "capture"@]),
        tray_action(TrayMsg::Show) == action_for_args(seq![program]),
        tray_action(TrayMsg::Quit) == AppAction::Quit,
        forall|m: TrayMsg|
            #![trigger tray_action(m)]
            exists|i: int| 0 <= i < tray_menu_spec().len() && #[trigger] item_msg(tray_menu_spec()[i]) == Some(m),
        forall|i: int, j: int|
            0 <= i < j < tray_menu_spec().len() && (#[trigger] item_msg(tray_menu_spec()[i])) is Some
                ==> item_msg(tray_menu_spec()[i]) != #[trigger] item_msg(tray_menu_spec()[j]),
        tray_menu_spec().len() == 4,
        item_msg(tray_menu_spec()[1]) == Some(TrayMsg::Show),
        item_msg(tray_menu_spec()[2]) is None,
        item_msg(tray_menu_spec()[3]) == Some(TrayMsg::Quit),
{
    let menu = tray_menu_spec();
    assert(item_msg(menu[0]) == Some(TrayMsg::Capture));
    assert(item_msg(menu[1]) == Some(TrayMsg::Show));
    assert(item_msg(menu[2]) is None);
    assert(item_msg(menu[3]) == Some(TrayMsg::Quit));
    assert forall|m: TrayMsg| #![trigger tray_action(m)] exists|i: int|
        0 <= i < menu.len() && #[trigger] item_msg(menu[i]) == Some(m) by {
        match m {
            TrayMsg::Capture => assert(item_msg(menu[0]) == Some(m)),
            TrayMsg::Show => assert(item_msg(menu[1]) == Some(m)),
            TrayMsg::Quit => assert(item_msg(menu[3]) == Some(m)),
        }
    }
    crate::commands::routing_by_first_argument(seq![program, "capture"@]);
    crate::commands::routing_by_first_argument(seq![program]);
}

/// What the main loop does for a tray message.
pub fn action_for_msg(msg: TrayMsg) -> (action: AppAction)
    ensures
        action == tray_action(msg),
{
    match msg {
        TrayMsg::Capture => AppAction::ShowCapture,
        TrayMsg::Show => AppAction::ShowTasks,
        TrayMsg::Quit => AppAction::Quit,
    }
}

} // verus!

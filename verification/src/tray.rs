//! System tray menu: its items, which of them ask for confirmation, and what
//! each menu choice or click asks the dashboard to do. The tray icon and the
//! message boxes themselves are the caller's.

use vstd::prelude::*;

use crate::identity::PRODUCT_NAME_SHORT;
use crate::text::{push_str, string_of};

verus! {

/// What the tray asks the dashboard to do.
#[derive(Debug, Clone, Copy, PartialEq, Eq, Structural)]
pub enum TrayCommand {
    Show,
    DisableTelemetry,
    ClearSafeLogs,
    Quit,
}

/// The entries of the tray menu, in order.
#[derive(Debug, Clone, Copy, PartialEq, Eq, Structural)]
pub enum TrayMenuItem {
    OpenDashboard,
    DisableTelemetry,
    ClearSafeLogs,
    Quit,
}

/// What a menu choice leads to.
#[derive(Debug, Clone, Copy, PartialEq, Eq, Structural)]
pub enum TrayAction {
    /// Hand a command to the dashboard (bringing its window up first, except
    /// for `Show`, which does that itself).
    Command(TrayCommand),
    /// Leave the application.
    Exit,
    /// Nothing (a confirmation was declined).
    Nothing,
}

pub open spec fn menu_label_view(item: TrayMenuItem) -> Seq<char> {
    match item {
        TrayMenuItem::OpenDashboard => "Open dashboard"@,
        TrayMenuItem::DisableTelemetry => "Disable telemetry…"@,
        TrayMenuItem::ClearSafeLogs => "Clear safe logs…"@,
        TrayMenuItem::Quit => "Quit…"@,
    }
}

/// The menu text of an item.
pub fn menu_label(item: TrayMenuItem) -> (r: &'static str)
    ensures
        r@ == menu_label_view(item),
{
    match item {
        TrayMenuItem::OpenDashboard => "Open dashboard",
        TrayMenuItem::DisableTelemetry => "Disable telemetry…",
        TrayMenuItem::ClearSafeLogs => "Clear safe logs…",
        TrayMenuItem::Quit => "Quit…",
    }
}

/// The confirmation an item asks for (title and question), if any.
pub open spec fn confirmation_view(item: TrayMenuItem) -> Option<(Seq<char>, Seq<char>)> {
    match item {
        TrayMenuItem::OpenDashboard => None,
        TrayMenuItem::DisableTelemetry => Some(
            (
                "Disable telemetry?"@,
                "Turn OFF all telemetry / diagnostic collection settings controlled by this app?\n\nThis changes registry, services, and scheduled tasks. Continue?"@,
            ),
        ),
        TrayMenuItem::ClearSafeLogs => Some(
            (
                "Clear safe logs?"@,
                "Clear all safe log targets now?\n\nThis permanently deletes log data (Diagnosis ETL / dangerous targets are NOT included).\nContinue?"@,
            ),
        ),
        TrayMenuItem::Quit => Some(
            (
                "Quit "@ + PRODUCT_NAME_SHORT@ + "?"@,
                "Exit the application completely?\n\nThe system tray icon will be removed."@,
            ),
        ),
    }
}

/// The confirmation an item asks for (see [`confirmation_view`]).
pub fn confirmation(item: TrayMenuItem) -> (r: Option<(String, String)>)
    ensures
        match confirmation_view(item) {
            None => r is None,
            Some((t, b)) => r matches Some(p) && p.0@ == t && p.1@ == b,
        },
{
    match item {
        TrayMenuItem::OpenDashboard => None,
        TrayMenuItem::DisableTelemetry => Some(
            (
                string_of("Disable telemetry?"),
                string_of(
                    "Turn OFF all telemetry / diagnostic collection settings controlled by this app?\n\nThis changes registry, services, and scheduled tasks. Continue?",
                ),
            ),
        ),
        TrayMenuItem::ClearSafeLogs => Some(
            (
                string_of("Clear safe logs?"),
                string_of(
                    "Clear all safe log targets now?\n\nThis permanently deletes log data (Diagnosis ETL / dangerous targets are NOT included).\nContinue?",
                ),
            ),
        ),
        TrayMenuItem::Quit => {
            let mut title = string_of("Quit ");
            push_str(&mut title, PRODUCT_NAME_SHORT);
            push_str(&mut title, "?");
            Some(
                (
                    title,
                    string_of("Exit the application completely?\n\nThe system tray icon will be removed."),
                ),
            )
        },
    }
}

/// What choosing a menu item does; `confirmed` is the answer to its
/// confirmation (not read for an item that asks none).
pub open spec fn menu_action_view(item: TrayMenuItem, confirmed: bool) -> TrayAction {
    match item {
        TrayMenuItem::OpenDashboard => TrayAction::Command(TrayCommand::Show),
        TrayMenuItem::DisableTelemetry => if confirmed {
            TrayAction::Command(TrayCommand::DisableTelemetry)
        } else {
            TrayAction::Nothing
        },
        TrayMenuItem::ClearSafeLogs => if confirmed {
            TrayAction::Command(TrayCommand::ClearSafeLogs)
        } else {
            TrayAction::Nothing
        },
        TrayMenuItem::Quit => if confirmed {
            TrayAction::Exit
        } else {
            TrayAction::Nothing
        },
    }
}

pub fn menu_action(item: TrayMenuItem, confirmed: bool) -> (r: TrayAction)
    ensures
        r == menu_action_view(item, confirmed),
{
    match item {
        TrayMenuItem::OpenDashboard => TrayAction::Command(TrayCommand::Show),
        TrayMenuItem::DisableTelemetry => if confirmed {
            TrayAction::Command(TrayCommand::DisableTelemetry)
        } else {
            TrayAction::Nothing
        },
        TrayMenuItem::ClearSafeLogs => if confirmed {
            TrayAction::Command(TrayCommand::ClearSafeLogs)
        } else {
            TrayAction::Nothing
        },
        TrayMenuItem::Quit => if confirmed {
            TrayAction::Exit
        } else {
            TrayAction::Nothing
        },
    }
}

/// A click or double click on the icon shows the dashboard when it is with
/// the left button.
pub fn click_command(left_button: bool) -> (r: Option<TrayCommand>)
    ensures
        r == (if left_button {
            Some(TrayCommand::Show)
        } else {
            None::<TrayCommand>
        }),
{
    if left_button {
        Some(TrayCommand::Show)
    } else {
        None
    }
}

/// Nothing that changes the system happens from the tray without a yes.
pub proof fn lemma_changes_need_confirmation(item: TrayMenuItem)
    ensures
        menu_action_view(item, false) == TrayAction::Nothing || menu_action_view(item, false)
            == TrayAction::Command(TrayCommand::Show),
{
}

} // verus!

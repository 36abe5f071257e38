//! The tray icon: its menu and what its clicks do.

use vstd::prelude::*;
use vstd::string::*;
use crate::json::JsonTree;
use crate::pulse::{tick_summary, PulseSummary};
use crate::text::{concat2, decimal, decimal_string};

verus! {

/// Identity of the tray icon.
pub const TRAY_ID: &'static str = "velmora-tray";

/// Identity of the entry that opens the game or the launcher.
pub const OPEN_ID: &'static str = "tray-open";

/// Identity of the entry that ends the launcher.
pub const QUIT_ID: &'static str = "tray-quit";

/// An entry of the tray menu.
#[derive(Debug, PartialEq, Eq)]
pub enum MenuEntry {
    Item { id: String, label: String, enabled: bool },
    Separator,
}

/// Mathematical model of [`MenuEntry`].
pub enum EntryView {
    Item { id: Seq<char>, label: Seq<char>, enabled: bool },
    Separator,
}

impl View for MenuEntry {
    type V = EntryView;

    open spec fn view(&self) -> EntryView {
        match self {
            MenuEntry::Item { id, label, enabled } => EntryView::Item {
                id: id@,
                label: label@,
                enabled: *enabled,
            },
            MenuEntry::Separator => EntryView::Separator,
        }
    }
}

/// The models of the entries of a menu.
pub open spec fn entries(menu: Seq<MenuEntry>) -> Seq<EntryView> {
    menu.map_values(|e: MenuEntry| e@)
}

/// An entry that can be clicked.
pub open spec fn action(id: Seq<char>, label: Seq<char>) -> EntryView {
    EntryView::Item { id, label, enabled: true }
}

/// An entry that only informs.
pub open spec fn line(id: Seq<char>, label: Seq<char>) -> EntryView {
    EntryView::Item { id, label, enabled: false }
}

/// The menu of a summary. The line of the day's quests is there only if there are any.
pub open spec fn tray_menu(summary: PulseSummary) -> Seq<EntryView> {
    seq![
        action(OPEN_ID@, "Ouvrir Velmora"@),
        line(
            "tray-status"@,
            if summary.server_ok {
                "Statut serveur · en ligne"@
            } else {
                "Statut serveur · indisponible"@
            },
        ),
        line(
            "tray-missives"@,
            "Missives non lues · "@ + decimal(summary.missives_unread as nat),
        ),
        line(
            "tray-constructions"@,
            "Chantiers en cours · "@ + decimal(summary.pending_constructions as nat)
                + " (file +"@ + decimal(summary.queued_construction_jobs as nat) + ")"@,
        ),
    ] + (if summary.quests_pending > 0 {
        seq![
            line(
                "tray-quests"@,
                "Quêtes du jour · "@ + decimal(summary.quests_pending as nat),
            ),
        ]
    } else {
        Seq::empty()
    }) + seq![EntryView::Separator, action(QUIT_ID@, "Quitter Velmora"@)]
}

fn item(id: &str, label: String, enabled: bool) -> (entry: MenuEntry)
    ensures
        entry@ == (EntryView::Item { id: id@, label: label@, enabled }),
{
    MenuEntry::Item { id: id.to_owned(), label, enabled }
}

/// The tray menu.
pub fn build_tray_menu(summary: &PulseSummary) -> (menu: Vec<MenuEntry>)
    ensures
        entries(menu@) == tray_menu(*summary),
{
    let status = if summary.server_ok {
        "Statut serveur · en ligne".to_owned()
    } else {
        "Statut serveur · indisponible".to_owned()
    };
    let mut constructions = concat2(
        "Chantiers en cours · ",
        decimal_string(summary.pending_constructions as u64).as_str(),
    );
    constructions.append(" (file +");
    constructions.append(decimal_string(summary.queued_construction_jobs as u64).as_str());
    constructions.append(")");
    let mut menu: Vec<MenuEntry> = Vec::new();
    menu.push(item(OPEN_ID, "Ouvrir Velmora".to_owned(), true));
    menu.push(item("tray-status", status, false));
    menu.push(
        item(
            "tray-missives",
            concat2(
                "Missives non lues · ",
                decimal_string(summary.missives_unread as u64).as_str(),
            ),
            false,
        ),
    );
    menu.push(item("tray-constructions", constructions, false));
    if summary.quests_pending > 0 {
        menu.push(
            item(
                "tray-quests",
                concat2(
                    "Quêtes du jour · ",
                    decimal_string(summary.quests_pending as u64).as_str(),
                ),
                false,
            ),
        );
    }
    menu.push(MenuEntry::Separator);
    menu.push(item(QUIT_ID, "Quitter Velmora".to_owned(), true));
    assert(entries(menu@) =~= tray_menu(*summary));
    menu
}

/// What a click in the tray menu does.
#[derive(Debug, PartialEq, Eq, Clone, Copy, Structural)]
pub enum TrayAction {
    FocusBest,
    Quit,
    Nothing,
}

/// What a click on an entry does.
pub open spec fn tray_action(id: Seq<char>) -> TrayAction {
    if id == OPEN_ID@ {
        TrayAction::FocusBest
    } else if id == QUIT_ID@ {
        TrayAction::Quit
    } else {
        TrayAction::Nothing
    }
}

/// What a click on an entry of the tray menu does.
pub fn handle_tray_menu_event(id: &str) -> (action: TrayAction)
    ensures
        action == tray_action(id@),
{
    let clicked: String = id.to_owned();
    if clicked == OPEN_ID.to_owned() {
        TrayAction::FocusBest
    } else if clicked == QUIT_ID.to_owned() {
        TrayAction::Quit
    } else {
        TrayAction::Nothing
    }
}

/// What a click on the tray icon itself does: the left button counts, when it is released.
pub fn on_tray_click(left_button: bool, released: bool) -> (action: TrayAction)
    ensures
        action == if left_button && released {
            TrayAction::FocusBest
        } else {
            TrayAction::Nothing
        },
{
    if left_button && released {
        TrayAction::FocusBest
    } else {
        TrayAction::Nothing
    }
}

/// The entries of the menu that can be clicked are exactly those whose click does something:
/// one that opens and one that quits.
pub proof fn enabled_entries_act(summary: PulseSummary, i: int)
    requires
        0 <= i < tray_menu(summary).len(),
    ensures
        tray_menu(summary)[i] matches EntryView::Item { id, label, enabled } ==> (enabled
            <==> tray_action(id) != TrayAction::Nothing),
{
    reveal_strlit("tray-open");
    reveal_strlit("tray-quit");
    reveal_strlit("tray-status");
    reveal_strlit("tray-missives");
    reveal_strlit("tray-constructions");
    reveal_strlit("tray-quests");
    assert(OPEN_ID@.len() == 9);
    assert(QUIT_ID@.len() == 9);
    assert(OPEN_ID@[5] == 'o');
    assert(QUIT_ID@[5] == 'q');
    assert("tray-status"@.len() == 11);
    assert("tray-missives"@.len() == 13);
    assert("tray-constructions"@.len() == 18);
    assert("tray-quests"@.len() == 11);
}

/// Whatever the summary, the menu starts with the entry that opens and ends with the one
/// that quits.
pub proof fn menu_opens_and_quits(summary: PulseSummary)
    ensures
        tray_menu(summary).first() == action(OPEN_ID@, "Ouvrir Velmora"@),
        tray_menu(summary).last() == action(QUIT_ID@, "Quitter Velmora"@),
{
}

/// The menu tells whether the server is up, how many missives are unread, how many
/// constructions are under way and queued, and how many quests the day has, if it has any. Its
/// entries come in this order.
pub proof fn menu_shows_the_summary(summary: PulseSummary)
    ensures
        tray_menu(summary).len() == if summary.quests_pending > 0 {
            7nat
        } else {
            6nat
        },
        tray_menu(summary)[0] == (EntryView::Item {
            id: "tray-open"@,
            label: "Ouvrir Velmora"@,
            enabled: true,
        }),
        summary.server_ok ==> tray_menu(summary)[1] == (EntryView::Item {
            id: "tray-status"@,
            label: "Statut serveur · en ligne"@,
            enabled: false,
        }),
        !summary.server_ok ==> tray_menu(summary)[1] == (EntryView::Item {
            id: "tray-status"@,
            label: "Statut serveur · indisponible"@,
            enabled: false,
        }),
        tray_menu(summary)[2] == (EntryView::Item {
            id: "tray-missives"@,
            label: "Missives non lues · "@ + decimal(summary.missives_unread as nat),
            enabled: false,
        }),
        tray_menu(summary)[3] == (EntryView::Item {
            id: "tray-constructions"@,
            label: "Chantiers en cours · "@ + decimal(summary.pending_constructions as nat)
                + " (file +"@ + decimal(summary.queued_construction_jobs as nat) + ")"@,
            enabled: false,
        }),
        summary.quests_pending > 0 ==> tray_menu(summary)[4] == (EntryView::Item {
            id: "tray-quests"@,
            label: "Quêtes du jour · "@ + decimal(summary.quests_pending as nat),
            enabled: false,
        }),
        tray_menu(summary)[tray_menu(summary).len() - 2] is Separator,
        tray_menu(summary)[tray_menu(summary).len() - 1] == (EntryView::Item {
            id: "tray-quit"@,
            label: "Quitter Velmora"@,
            enabled: true,
        }),
{
}

/// A click opens, quits, or does nothing, by the identity of the entry alone.
pub proof fn clicks_act_by_identity(id: Seq<char>)
    ensures
        tray_action(id) == TrayAction::FocusBest <==> id == "tray-open"@,
        tray_action(id) == TrayAction::Quit <==> id == "tray-quit"@,
{
    reveal_strlit("tray-open");
    reveal_strlit("tray-quit");
    assert("tray-open"@[5] == 'o');
    assert("tray-quit"@[5] == 'q');
}

/// The model of a menu holds every entry in its place, with all it shows.
pub proof fn models_hold_the_whole_menu(menu: Seq<MenuEntry>, i: int)
    requires
        0 <= i < menu.len(),
    ensures
        entries(menu).len() == menu.len(),
        match menu[i] {
            MenuEntry::Item { id, label, enabled } => entries(menu)[i] == (EntryView::Item {
                id: id@,
                label: label@,
                enabled,
            }),
            MenuEntry::Separator => entries(menu)[i] is Separator,
        },
{
}

/// The tray shows the server as a snapshot reports it: up or down as the snapshot says, and up
/// where it does not say.
pub proof fn tray_shows_the_server_as_reported(payload: JsonTree)
    ensures
        tray_menu(tick_summary(payload))[1] == (EntryView::Item {
            id: "tray-status"@,
            label: if payload.field("server_ok"@) == Some(JsonTree::Bool(false)) {
                "Statut serveur · indisponible"@
            } else {
                "Statut serveur · en ligne"@
            },
            enabled: false,
        }),
{
}

/// Of the clicks on the icon, only a release of the left button brings a window forward, and
/// none quits.
pub proof fn only_a_left_release_counts(left_button: bool, released: bool, action: TrayAction)
    requires
        call_ensures(on_tray_click, (left_button, released), action),
    ensures
        action == TrayAction::FocusBest <==> left_button && released,
        action != TrayAction::Quit,
{
}

} // verus!

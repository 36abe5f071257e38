use velmora_desktop::error::AppError;
use velmora_desktop::pulse::PulseSummary;
use velmora_desktop::tray::{
    build_tray_menu, handle_tray_menu_event, on_tray_click, MenuEntry, TrayAction,
};
use velmora_desktop::update::{
    check_for_updates, or_internal, set_autostart, update_to_install, AutostartChange, Offer,
    UpdateInfo,
};
use velmora_desktop::window::{
    focus_best_window, on_game_window_event, second_start, show_launcher, ForegroundStep,
    GameWindowEvent, GameWindowReaction, Window, WindowOp,
};

fn item(id: &str, label: &str, enabled: bool) -> MenuEntry {
    MenuEntry::Item { id: id.to_string(), label: label.to_string(), enabled }
}

#[test]
fn the_menu_of_a_busy_realm() {
    let summary = PulseSummary {
        missives_unread: 12,
        pending_constructions: 3,
        queued_construction_jobs: 4,
        incoming_battles: 1,
        quests_pending: 2,
        server_ok: true,
    };
    assert_eq!(
        build_tray_menu(&summary),
        vec![
            item("tray-open", "Ouvrir Velmora", true),
            item("tray-status", "Statut serveur · en ligne", false),
            item("tray-missives", "Missives non lues · 12", false),
            item("tray-constructions", "Chantiers en cours · 3 (file +4)", false),
            item("tray-quests", "Quêtes du jour · 2", false),
            MenuEntry::Separator,
            item("tray-quit", "Quitter Velmora", true),
        ]
    );
}

#[test]
fn the_menu_without_quests_or_server() {
    let menu = build_tray_menu(&PulseSummary::default());
    assert_eq!(menu.len(), 6);
    assert_eq!(menu[1], item("tray-status", "Statut serveur · indisponible", false));
    assert_eq!(menu[4], MenuEntry::Separator);
    assert_eq!(menu[5], item("tray-quit", "Quitter Velmora", true));
}

#[test]
fn clicks_in_the_tray() {
    assert_eq!(handle_tray_menu_event("tray-open"), TrayAction::FocusBest);
    assert_eq!(handle_tray_menu_event("tray-quit"), TrayAction::Quit);
    assert_eq!(handle_tray_menu_event("tray-status"), TrayAction::Nothing);
    assert_eq!(handle_tray_menu_event(""), TrayAction::Nothing);
    assert_eq!(on_tray_click(true, true), TrayAction::FocusBest);
    assert_eq!(on_tray_click(true, false), TrayAction::Nothing);
    assert_eq!(on_tray_click(false, true), TrayAction::Nothing);
}

#[test]
fn every_entry_that_can_be_clicked_acts() {
    for entry in build_tray_menu(&PulseSummary::initial()) {
        if let MenuEntry::Item { id, enabled, .. } = entry {
            assert_eq!(enabled, handle_tray_menu_event(&id) != TrayAction::Nothing);
        }
    }
}

#[test]
fn the_best_window_is_the_game_if_it_is_visible() {
    let game = focus_best_window(Some(true), true).unwrap();
    assert_eq!(game.window, Window::Game);
    assert_eq!(game.ops, vec![WindowOp::Unminimize, WindowOp::Show, WindowOp::Focus]);
    assert!(!game.strict);
    assert_eq!(focus_best_window(Some(false), true).unwrap().window, Window::Launcher);
    assert_eq!(focus_best_window(None, true).unwrap().window, Window::Launcher);
    assert_eq!(focus_best_window(Some(false), false), None);
    assert_eq!(focus_best_window(Some(true), false).unwrap().window.label(), "game");
}

#[test]
fn the_launcher_comes_forward() {
    let shown = show_launcher(true);
    assert_eq!(shown.window.label(), "launcher");
    assert_eq!(shown.ops, vec![WindowOp::Show, WindowOp::Focus]);
    assert!(shown.strict);
    assert!(show_launcher(false).ops.is_empty());
    let again = second_start(true).unwrap();
    assert_eq!(again.ops, vec![WindowOp::Unminimize, WindowOp::Show, WindowOp::Focus]);
    assert_eq!(second_start(false), None);
}

#[test]
fn the_first_failure_to_show_the_launcher_is_reported() {
    let shown = show_launcher(true);
    assert_eq!(shown.advance(0, Ok(())), ForegroundStep::Do(WindowOp::Show));
    assert_eq!(
        shown.advance(1, Err("fenêtre perdue".to_string())),
        ForegroundStep::Finish(Err(AppError::Internal("fenêtre perdue".to_string())))
    );
    assert_eq!(shown.advance(1, Ok(())), ForegroundStep::Do(WindowOp::Focus));
    assert_eq!(
        shown.advance(2, Err("refus".to_string())),
        ForegroundStep::Finish(Err(AppError::Internal("refus".to_string())))
    );
    assert_eq!(shown.advance(2, Ok(())), ForegroundStep::Finish(Ok(())));
    assert_eq!(show_launcher(false).advance(0, Ok(())), ForegroundStep::Finish(Ok(())));
}

#[test]
fn other_failures_to_bring_a_window_forward_are_passed_over() {
    let raised = second_start(true).unwrap();
    let lost = || Err("fenêtre perdue".to_string());
    assert_eq!(raised.advance(1, lost()), ForegroundStep::Do(WindowOp::Show));
    assert_eq!(raised.advance(2, lost()), ForegroundStep::Do(WindowOp::Focus));
    assert_eq!(raised.advance(3, lost()), ForegroundStep::Finish(Ok(())));
}

#[test]
fn closing_the_game_brings_the_launcher_back() {
    match on_game_window_event(GameWindowEvent::CloseRequested, true) {
        GameWindowReaction::Return(foreground) => {
            assert_eq!(foreground.window, Window::Launcher);
            assert_eq!(foreground.ops, vec![WindowOp::Show, WindowOp::Focus]);
            assert!(!foreground.strict);
        }
        other => panic!("{:?}", other),
    }
    let react = on_game_window_event;
    assert_eq!(react(GameWindowEvent::CloseRequested, false), GameWindowReaction::Nothing);
    assert_eq!(react(GameWindowEvent::Resized, true), GameWindowReaction::Reposition);
    assert_eq!(react(GameWindowEvent::ScaleFactorChanged, true), GameWindowReaction::Reposition);
    assert_eq!(react(GameWindowEvent::Other, true), GameWindowReaction::Nothing);
}

#[test]
fn updates_are_reported() {
    let offer = Offer { version: "0.2.0".to_string(), notes: Some("Notes".to_string()) };
    assert_eq!(
        check_for_updates(Ok(Some(offer))),
        Ok(UpdateInfo {
            available: true,
            version: Some("0.2.0".to_string()),
            notes: Some("Notes".to_string()),
        })
    );
    assert_eq!(
        check_for_updates(Ok(None)),
        Ok(UpdateInfo { available: false, version: None, notes: None })
    );
    assert_eq!(
        check_for_updates(Err("signature".to_string())),
        Err(AppError::Internal("signature".to_string()))
    );
}

#[test]
fn only_an_update_that_is_there_is_installed() {
    assert_eq!(update_to_install(Ok(Some(7))), Ok(7));
    assert_eq!(
        update_to_install::<u32>(Ok(None)),
        Err(AppError::Internal("aucune mise à jour disponible".to_string()))
    );
    assert_eq!(
        update_to_install::<u32>(Err("coupure".to_string())),
        Err(AppError::Internal("coupure".to_string()))
    );
}

#[test]
fn autostart_follows_the_choice() {
    assert_eq!(set_autostart(true), AutostartChange::Enable);
    assert_eq!(set_autostart(false), AutostartChange::Disable);
    assert_eq!(or_internal(Ok(true)), Ok(true));
    assert_eq!(
        or_internal::<bool>(Err("refus".to_string())),
        Err(AppError::Internal("refus".to_string()))
    );
}

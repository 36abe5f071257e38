use velmora_desktop::api::Method;
use velmora_desktop::error::AppError;
use velmora_desktop::launch::{
    address_step, ensure_game_content, launch_game, sso_target, ticket_step, ContentAction,
    LaunchAction, LaunchEvent, LaunchState, Scene,
};

fn internal(detail: &str) -> LaunchAction {
    LaunchAction::Fail { error: AppError::Internal(detail.to_string()), clear_token: false }
}

#[test]
fn a_launch_shows_focuses_mounts_and_hides() {
    let (state, action) =
        launch_game(LaunchState::Token, LaunchEvent::Token(Some("jeton".to_string())));
    match action {
        LaunchAction::RequestTicket(request) => {
            assert_eq!(request.method, Method::Post);
            assert_eq!(request.url, "https://velmora.cc/api/mobile/sso/launcher-ticket");
            assert_eq!(request.bearer, Some("jeton".to_string()));
        }
        other => panic!("{:?}", other),
    }
    let ticket = "https://velmora.cc/launcher-sso/abc?signature=x".to_string();
    let (state, action) = launch_game(state, LaunchEvent::Ticket(Ok(ticket.clone())));
    assert_eq!(action, LaunchAction::FindGame);
    let (state, action) = launch_game(state, LaunchEvent::Game(true));
    assert_eq!(action, LaunchAction::ShowGame);
    let (state, action) = launch_game(state, LaunchEvent::Done(Ok(())));
    assert_eq!(action, LaunchAction::FocusGame);
    let (state, action) = launch_game(state, LaunchEvent::Done(Ok(())));
    assert_eq!(action, LaunchAction::InspectScene);
    let scene = Scene { game: true, content: false, measurable: true };
    let (state, action) = launch_game(state, LaunchEvent::Scene(scene));
    assert_eq!(action, LaunchAction::Mount(ContentAction::Add(ticket)));
    let (state, action) = launch_game(state, LaunchEvent::Done(Ok(())));
    assert_eq!(action, LaunchAction::HideLauncher);
    assert_eq!(state, LaunchState::Over);
    let (state, action) = launch_game(state, LaunchEvent::Done(Ok(())));
    assert_eq!(state, LaunchState::Over);
    assert_eq!(action, LaunchAction::Nothing);
}

#[test]
fn a_launch_needs_a_token() {
    let (state, action) = launch_game(LaunchState::Token, LaunchEvent::Token(None));
    assert_eq!(state, LaunchState::Over);
    assert_eq!(
        action,
        LaunchAction::Fail { error: AppError::Unauthenticated, clear_token: false }
    );
}

#[test]
fn a_refused_token_ends_the_launch_and_is_cleared() {
    let (state, action) = ticket_step(Err(AppError::Unauthenticated));
    assert_eq!(state, LaunchState::Over);
    assert_eq!(
        action,
        LaunchAction::Fail { error: AppError::Unauthenticated, clear_token: true }
    );
}

#[test]
fn other_ticket_failures_fall_back_to_the_game_itself() {
    let (state, action) = ticket_step(Err(AppError::Network("coupure".to_string())));
    assert_eq!(state, LaunchState::Game { url: "https://velmora.cc/".to_string() });
    assert_eq!(action, LaunchAction::FindGame);
    assert_eq!(
        sso_target(Err(AppError::Unexpected("SSO ticket HTTP 404".to_string()))),
        Some("https://velmora.cc".to_string())
    );
    assert_eq!(sso_target(Err(AppError::Unauthenticated)), None);
    assert_eq!(sso_target(Ok("u".to_string())), Some("u".to_string()));
}

#[test]
fn addresses_are_parsed() {
    let (_, action) = ticket_step(Ok("pas une adresse".to_string()));
    assert_eq!(action, internal("URL SSO invalide : relative URL without a base"));
    let (state, _) = ticket_step(Ok("HTTPS://Velmora.CC/a b".to_string()));
    assert_eq!(state, LaunchState::Game { url: "https://velmora.cc/a%20b".to_string() });
    let (_, action) = address_step(Err("empty host".to_string()));
    assert_eq!(action, internal("URL SSO invalide : empty host"));
}

#[test]
fn window_failures_end_the_launch() {
    let url = "https://velmora.cc/".to_string();
    let (state, action) =
        launch_game(LaunchState::Game { url: url.clone() }, LaunchEvent::Game(false));
    assert_eq!(state, LaunchState::Over);
    assert_eq!(action, internal("fenêtre 'game' absente"));
    let broken = || LaunchEvent::Done(Err("fenêtre perdue".to_string()));
    let (_, action) = launch_game(LaunchState::Shown { url: url.clone() }, broken());
    assert_eq!(action, internal("fenêtre perdue"));
    let (_, action) = launch_game(LaunchState::Focused { url: url.clone() }, broken());
    assert_eq!(action, internal("fenêtre perdue"));
    let (_, action) = launch_game(LaunchState::Mounted, broken());
    assert_eq!(action, internal("fenêtre perdue"));
}

#[test]
fn events_out_of_turn_change_nothing() {
    let (state, action) = launch_game(LaunchState::Ticket, LaunchEvent::Game(true));
    assert_eq!(state, LaunchState::Ticket);
    assert_eq!(action, LaunchAction::Nothing);
}

#[test]
fn the_view_of_the_game_is_used_again() {
    let url = || "https://velmora.cc/".to_string();
    let scene = |game, content, measurable| Scene { game, content, measurable };
    assert_eq!(
        ensure_game_content(scene(true, true, false), url()),
        Ok(ContentAction::Navigate(url()))
    );
    assert_eq!(
        ensure_game_content(scene(true, false, true), url()),
        Ok(ContentAction::Add(url()))
    );
    assert_eq!(
        ensure_game_content(scene(true, false, false), url()),
        Err(AppError::Internal("taille fenêtre game indisponible".to_string()))
    );
    assert_eq!(
        ensure_game_content(scene(false, true, true), url()),
        Err(AppError::Internal("fenêtre 'game' absente".to_string()))
    );
}

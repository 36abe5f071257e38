//! Launching the game: single sign-on, the game window, and the view inside it.

use vstd::prelude::*;
use crate::api::{authorized, sso_request, ApiRequest, Method, RequestView, GAME_URL};
use crate::error::{AppError, ErrorView};
use crate::text::concat2;

verus! {

// ---- The address to open ----

/// What `url` makes of a text: the normal form of the address, or why it is none.
pub uninterp spec fn parsed_url(text: Seq<char>) -> Result<Seq<char>, Seq<char>>;

/// Calls `url::Url::parse`. The address is handed out as its serialization, and the error
/// as its message; both depend on the text alone.
#[verifier::external_body]
fn parse_url(text: &str) -> (parsed: Result<String, String>)
    ensures
        text_result(parsed) == parsed_url(text@),
{
    match url::Url::parse(text) {
        Ok(address) => Ok(String::from(address)),
        Err(e) => Err(e.to_string()),
    }
}

/// The characters of a text that may be an error message instead.
pub open spec fn text_result(result: Result<String, String>) -> Result<Seq<char>, Seq<char>> {
    match result {
        Ok(text) => Ok(text@),
        Err(e) => Err(e@),
    }
}

/// The outcome of the request of a sign-on ticket, in terms of models.
pub open spec fn ticket_view(ticket: Result<String, AppError>) -> Result<Seq<char>, ErrorView> {
    match ticket {
        Ok(url) => Ok(url@),
        Err(e) => Err(e@),
    }
}

/// The text of the address to open: the ticket's, or that of the game itself where the
/// ticket could not be had. A token that the server refuses opens nothing.
pub open spec fn target(ticket: Result<Seq<char>, ErrorView>) -> Option<Seq<char>> {
    match ticket {
        Ok(url) => Some(url),
        Err(ErrorView::Unauthenticated) => None,
        Err(_) => Some(GAME_URL@),
    }
}

/// The text of the address to open (see [`target`]).
pub fn sso_target(ticket: Result<String, AppError>) -> (url: Option<String>)
    ensures
        match url {
            Some(u) => target(ticket_view(ticket)) == Some(u@),
            None => target(ticket_view(ticket)) is None,
        },
{
    match ticket {
        Ok(url) => Some(url),
        Err(AppError::Unauthenticated) => None,
        Err(_) => Some(GAME_URL.to_owned()),
    }
}

// ---- The view inside the game window ----

/// What is done to have the game shown.
#[derive(Debug, PartialEq, Eq)]
pub enum ContentAction {
    /// Send the view that is there to the address.
    Navigate(String),
    /// Add a view of the address to the game window.
    Add(String),
}

/// Mathematical model of [`ContentAction`].
pub enum ContentView {
    Navigate(Seq<char>),
    Add(Seq<char>),
}

impl View for ContentAction {
    type V = ContentView;

    open spec fn view(&self) -> ContentView {
        match self {
            ContentAction::Navigate(url) => ContentView::Navigate(url@),
            ContentAction::Add(url) => ContentView::Add(url@),
        }
    }
}

/// What there is of the game when its view is to be shown.
#[derive(Debug, PartialEq, Eq, Clone, Copy, Structural)]
pub struct Scene {
    /// Whether the game window is there.
    pub game: bool,
    /// Whether its view is there.
    pub content: bool,
    /// Whether the window tells its size.
    pub measurable: bool,
}

/// The error of a game window that is not there.
pub open spec fn game_missing() -> ErrorView {
    ErrorView::Internal("fenêtre 'game' absente"@)
}

/// The error of a game window that does not tell its size.
pub open spec fn size_missing() -> ErrorView {
    ErrorView::Internal("taille fenêtre game indisponible"@)
}

/// How the game comes to be shown: a view that is there is used again.
pub open spec fn mounting(scene: Scene, url: Seq<char>) -> Result<ContentView, ErrorView> {
    if !scene.game {
        Err(game_missing())
    } else if scene.content {
        Ok(ContentView::Navigate(url))
    } else if !scene.measurable {
        Err(size_missing())
    } else {
        Ok(ContentView::Add(url))
    }
}

/// How the game comes to be shown (see [`mounting`]).
pub fn ensure_game_content(scene: Scene, url: String) -> (action: Result<ContentAction, AppError>)
    ensures
        match action {
            Ok(a) => mounting(scene, url@) == Ok::<ContentView, ErrorView>(a@),
            Err(e) => mounting(scene, url@) == Err::<ContentView, ErrorView>(e@),
        },
{
    if !scene.game {
        Err(AppError::Internal("fenêtre 'game' absente".to_owned()))
    } else if scene.content {
        Ok(ContentAction::Navigate(url))
    } else if !scene.measurable {
        Err(AppError::Internal("taille fenêtre game indisponible".to_owned()))
    } else {
        Ok(ContentAction::Add(url))
    }
}

// ---- The launch, step by step ----

/// Where a launch stands: what it waits for.
#[derive(Debug, PartialEq, Eq)]
pub enum LaunchState {
    Token,
    Ticket,
    /// The game window is looked for; `url` is the address to open.
    Game { url: String },
    Shown { url: String },
    Focused { url: String },
    Scene { url: String },
    Mounted,
    Over,
}

/// Mathematical model of [`LaunchState`].
pub enum LaunchView {
    Token,
    Ticket,
    Game { url: Seq<char> },
    Shown { url: Seq<char> },
    Focused { url: Seq<char> },
    Scene { url: Seq<char> },
    Mounted,
    Over,
}

impl View for LaunchState {
    type V = LaunchView;

    open spec fn view(&self) -> LaunchView {
        match self {
            LaunchState::Token => LaunchView::Token,
            LaunchState::Ticket => LaunchView::Ticket,
            LaunchState::Game { url } => LaunchView::Game { url: url@ },
            LaunchState::Shown { url } => LaunchView::Shown { url: url@ },
            LaunchState::Focused { url } => LaunchView::Focused { url: url@ },
            LaunchState::Scene { url } => LaunchView::Scene { url: url@ },
            LaunchState::Mounted => LaunchView::Mounted,
            LaunchState::Over => LaunchView::Over,
        }
    }
}

/// What a launch learns.
#[derive(Debug)]
pub enum LaunchEvent {
    /// The token in force.
    Token(Option<String>),
    /// The sign-on ticket: the address it opens.
    Ticket(Result<String, AppError>),
    /// Whether the game window is there.
    Game(bool),
    /// How the last thing done to a window went.
    Done(Result<(), String>),
    /// What there is of the game.
    Scene(Scene),
}

/// Mathematical model of [`LaunchEvent`].
pub enum LaunchEventView {
    Token(Option<Seq<char>>),
    Ticket(Result<Seq<char>, ErrorView>),
    Game(bool),
    /// `None` where it went well.
    Done(Option<Seq<char>>),
    Scene(Scene),
}

impl View for LaunchEvent {
    type V = LaunchEventView;

    open spec fn view(&self) -> LaunchEventView {
        match self {
            LaunchEvent::Token(token) => LaunchEventView::Token(
                match token {
                    Some(t) => Some(t@),
                    None => None,
                },
            ),
            LaunchEvent::Ticket(ticket) => LaunchEventView::Ticket(ticket_view(*ticket)),
            LaunchEvent::Game(present) => LaunchEventView::Game(*present),
            LaunchEvent::Done(outcome) => LaunchEventView::Done(
                match outcome {
                    Ok(_) => None,
                    Err(e) => Some(e@),
                },
            ),
            LaunchEvent::Scene(scene) => LaunchEventView::Scene(*scene),
        }
    }
}

/// What a launch asks for next.
#[derive(Debug, PartialEq, Eq)]
pub enum LaunchAction {
    RequestTicket(ApiRequest),
    FindGame,
    ShowGame,
    FocusGame,
    InspectScene,
    Mount(ContentAction),
    /// The launch succeeded: hide the launcher, if it is there.
    HideLauncher,
    /// The launch failed; clear the token where `clear_token` says so.
    Fail { error: AppError, clear_token: bool },
    /// The event is none that the launch waits for.
    Nothing,
}

/// Mathematical model of [`LaunchAction`].
pub enum LaunchActionView {
    RequestTicket(RequestView),
    FindGame,
    ShowGame,
    FocusGame,
    InspectScene,
    Mount(ContentView),
    HideLauncher,
    Fail { error: ErrorView, clear_token: bool },
    Nothing,
}

impl View for LaunchAction {
    type V = LaunchActionView;

    open spec fn view(&self) -> LaunchActionView {
        match self {
            LaunchAction::RequestTicket(request) => LaunchActionView::RequestTicket(request@),
            LaunchAction::FindGame => LaunchActionView::FindGame,
            LaunchAction::ShowGame => LaunchActionView::ShowGame,
            LaunchAction::FocusGame => LaunchActionView::FocusGame,
            LaunchAction::InspectScene => LaunchActionView::InspectScene,
            LaunchAction::Mount(content) => LaunchActionView::Mount(content@),
            LaunchAction::HideLauncher => LaunchActionView::HideLauncher,
            LaunchAction::Fail { error, clear_token } => LaunchActionView::Fail {
                error: error@,
                clear_token: *clear_token,
            },
            LaunchAction::Nothing => LaunchActionView::Nothing,
        }
    }
}

/// A failure that leaves the token alone.
pub open spec fn failed(error: ErrorView) -> (LaunchView, LaunchActionView) {
    (LaunchView::Over, LaunchActionView::Fail { error, clear_token: false })
}

/// The step from a parsed address: the game window is looked for next.
pub open spec fn with_address(parsed: Result<Seq<char>, Seq<char>>) -> (
    LaunchView,
    LaunchActionView,
) {
    match parsed {
        Ok(url) => (LaunchView::Game { url }, LaunchActionView::FindGame),
        Err(e) => failed(ErrorView::Internal("URL SSO invalide : "@ + e)),
    }
}

/// The step from a sign-on ticket.
pub open spec fn with_ticket(ticket: Result<Seq<char>, ErrorView>) -> (
    LaunchView,
    LaunchActionView,
) {
    match target(ticket) {
        Some(text) => with_address(parsed_url(text)),
        None => (
            LaunchView::Over,
            LaunchActionView::Fail { error: ErrorView::Unauthenticated, clear_token: true },
        ),
    }
}

/// The steps of a launch.
pub open spec fn launch_next(state: LaunchView, event: LaunchEventView) -> (
    LaunchView,
    LaunchActionView,
) {
    match (state, event) {
        (LaunchView::Token, LaunchEventView::Token(Some(token))) => (
            LaunchView::Ticket,
            LaunchActionView::RequestTicket(
                authorized(Method::Post, "/sso/launcher-ticket"@, token),
            ),
        ),
        (LaunchView::Token, LaunchEventView::Token(None)) => failed(ErrorView::Unauthenticated),
        (LaunchView::Ticket, LaunchEventView::Ticket(ticket)) => with_ticket(ticket),
        (LaunchView::Game { url }, LaunchEventView::Game(true)) => (
            LaunchView::Shown { url },
            LaunchActionView::ShowGame,
        ),
        (LaunchView::Game { url }, LaunchEventView::Game(false)) => failed(game_missing()),
        (LaunchView::Shown { url }, LaunchEventView::Done(None)) => (
            LaunchView::Focused { url },
            LaunchActionView::FocusGame,
        ),
        (LaunchView::Focused { url }, LaunchEventView::Done(None)) => (
            LaunchView::Scene { url },
            LaunchActionView::InspectScene,
        ),
        (LaunchView::Scene { url }, LaunchEventView::Scene(scene)) => match mounting(scene, url) {
            Ok(content) => (LaunchView::Mounted, LaunchActionView::Mount(content)),
            Err(error) => failed(error),
        },
        (LaunchView::Mounted, LaunchEventView::Done(None)) => (
            LaunchView::Over,
            LaunchActionView::HideLauncher,
        ),
        (LaunchView::Shown { .. }, LaunchEventView::Done(Some(e))) => failed(
            ErrorView::Internal(e),
        ),
        (LaunchView::Focused { .. }, LaunchEventView::Done(Some(e))) => failed(
            ErrorView::Internal(e),
        ),
        (LaunchView::Mounted, LaunchEventView::Done(Some(e))) => failed(ErrorView::Internal(e)),
        _ => (state, LaunchActionView::Nothing),
    }
}

fn fail(error: AppError) -> (step: (LaunchState, LaunchAction))
    ensures
        (step.0@, step.1@) == failed(error@),
{
    (LaunchState::Over, LaunchAction::Fail { error, clear_token: false })
}

/// The step from what `url` made of the address (see [`with_address`]).
pub fn address_step(parsed: Result<String, String>) -> (step: (LaunchState, LaunchAction))
    ensures
        (step.0@, step.1@) == with_address(text_result(parsed)),
{
    match parsed {
        Ok(url) => (LaunchState::Game { url }, LaunchAction::FindGame),
        Err(e) => fail(AppError::Internal(concat2("URL SSO invalide : ", e.as_str()))),
    }
}

/// The step from a sign-on ticket: its address is parsed.
pub fn ticket_step(ticket: Result<String, AppError>) -> (step: (LaunchState, LaunchAction))
    ensures
        (step.0@, step.1@) == with_ticket(ticket_view(ticket)),
{
    match sso_target(ticket) {
        Some(text) => address_step(parse_url(text.as_str())),
        None => (
            LaunchState::Over,
            LaunchAction::Fail { error: AppError::Unauthenticated, clear_token: true },
        ),
    }
}

/// One step of a launch: from where it stands and what it learns to where it stands next
/// and what it asks for.
pub fn launch_game(state: LaunchState, event: LaunchEvent) -> (step: (LaunchState, LaunchAction))
    ensures
        (step.0@, step.1@) == launch_next(state@, event@),
{
    match (state, event) {
        (LaunchState::Token, LaunchEvent::Token(Some(token))) => (
            LaunchState::Ticket,
            LaunchAction::RequestTicket(sso_request(token)),
        ),
        (LaunchState::Token, LaunchEvent::Token(None)) => fail(AppError::Unauthenticated),
        (LaunchState::Ticket, LaunchEvent::Ticket(ticket)) => ticket_step(ticket),
        (LaunchState::Game { url }, LaunchEvent::Game(present)) => if present {
            (LaunchState::Shown { url }, LaunchAction::ShowGame)
        } else {
            fail(AppError::Internal("fenêtre 'game' absente".to_owned()))
        },
        (LaunchState::Shown { url }, LaunchEvent::Done(outcome)) => match outcome {
            Ok(_) => (LaunchState::Focused { url }, LaunchAction::FocusGame),
            Err(e) => fail(AppError::Internal(e)),
        },
        (LaunchState::Focused { url }, LaunchEvent::Done(outcome)) => match outcome {
            Ok(_) => (LaunchState::Scene { url }, LaunchAction::InspectScene),
            Err(e) => fail(AppError::Internal(e)),
        },
        (LaunchState::Scene { url }, LaunchEvent::Scene(scene)) => match ensure_game_content(
            scene,
            url,
        ) {
            Ok(content) => (LaunchState::Mounted, LaunchAction::Mount(content)),
            Err(error) => fail(error),
        },
        (LaunchState::Mounted, LaunchEvent::Done(outcome)) => match outcome {
            Ok(_) => (LaunchState::Over, LaunchAction::HideLauncher),
            Err(e) => fail(AppError::Internal(e)),
        },
        (state, _) => (state, LaunchAction::Nothing),
    }
}

// ---- Laws ----

/// Where a launch stands after a series of events, and what it asked for on the way.
pub open spec fn launch_run(events: Seq<LaunchEventView>) -> (LaunchView, Seq<LaunchActionView>)
    decreases events.len(),
{
    if events.len() == 0 {
        (LaunchView::Token, Seq::empty())
    } else {
        let (state, actions) = launch_run(events.drop_last());
        let (next, action) = launch_next(state, events.last());
        (next, actions.push(action))
    }
}

/// Whether the actions hold a `ShowGame`, a later `FocusGame`, and a later `Mount`.
pub open spec fn shown_focused_mounted(actions: Seq<LaunchActionView>) -> bool {
    exists|a: int, b: int, c: int|
        0 <= a < b < c < actions.len() && (#[trigger] actions[a]) is ShowGame
            && (#[trigger] actions[b]) is FocusGame && (#[trigger] actions[c]) is Mount
}

/// A launch keeps a record of what it went through.
spec fn on_record(state: LaunchView, actions: Seq<LaunchActionView>) -> bool {
    match state {
        LaunchView::Shown { .. } => exists|a: int|
            0 <= a < actions.len() && (#[trigger] actions[a]) is ShowGame,
        LaunchView::Focused { .. } => exists|a: int, b: int|
            0 <= a < b < actions.len() && (#[trigger] actions[a]) is ShowGame
                && (#[trigger] actions[b]) is FocusGame,
        LaunchView::Scene { .. } => exists|a: int, b: int|
            0 <= a < b < actions.len() && (#[trigger] actions[a]) is ShowGame
                && (#[trigger] actions[b]) is FocusGame,
        LaunchView::Mounted => shown_focused_mounted(actions),
        _ => true,
    }
}

proof fn run_is_on_record(events: Seq<LaunchEventView>)
    ensures
        on_record(launch_run(events).0, launch_run(events).1),
    decreases events.len(),
{
    if events.len() > 0 {
        run_is_on_record(events.drop_last());
        let (state, actions) = launch_run(events.drop_last());
        let (next, action) = launch_next(state, events.last());
        let longer = actions.push(action);
        assert(forall|i: int| 0 <= i < actions.len() ==> longer[i] == #[trigger] actions[i]);
        assert(longer[actions.len() as int] == action);
        match next {
            LaunchView::Shown { .. } => {
                if state is Shown {
                    let a = choose|a: int|
                        0 <= a < actions.len() && (#[trigger] actions[a]) is ShowGame;
                    assert(longer[a] is ShowGame);
                }
            },
            LaunchView::Focused { .. } => {
                if state is Focused {
                    let (a, b) = choose|a: int, b: int|
                        0 <= a < b < actions.len() && (#[trigger] actions[a]) is ShowGame
                            && (#[trigger] actions[b]) is FocusGame;
                    assert(longer[a] is ShowGame && longer[b] is FocusGame);
                } else {
                    let a = choose|a: int|
                        0 <= a < actions.len() && (#[trigger] actions[a]) is ShowGame;
                    assert(longer[a] is ShowGame && longer[actions.len() as int] is FocusGame);
                }
            },
            LaunchView::Scene { .. } => {
                let (a, b) = choose|a: int, b: int|
                    0 <= a < b < actions.len() && (#[trigger] actions[a]) is ShowGame
                        && (#[trigger] actions[b]) is FocusGame;
                assert(longer[a] is ShowGame && longer[b] is FocusGame);
            },
            LaunchView::Mounted => {
                if state is Mounted {
                    let (a, b, c) = choose|a: int, b: int, c: int|
                        0 <= a < b < c < actions.len() && (#[trigger] actions[a]) is ShowGame
                            && (#[trigger] actions[b]) is FocusGame && (#[trigger] actions[c])
                            is Mount;
                    assert(longer[a] is ShowGame && longer[b] is FocusGame && longer[c]
                        is Mount);
                } else {
                    let (a, b) = choose|a: int, b: int|
                        0 <= a < b < actions.len() && (#[trigger] actions[a]) is ShowGame
                            && (#[trigger] actions[b]) is FocusGame;
                    assert(longer[a] is ShowGame && longer[b] is FocusGame && longer[
                        actions.len() as int
                    ] is Mount);
                }
            },
            _ => {},
        }
    }
}

/// The launcher is hidden only once the game was shown, brought forward and given its view,
/// in this order: the player is never left without a window.
pub proof fn launcher_is_hidden_last(events: Seq<LaunchEventView>)
    ensures
        events.len() > 0 && launch_run(events).1.last() is HideLauncher ==> shown_focused_mounted(
            launch_run(events.drop_last()).1,
        ) && launch_run(events).0 is Over,
{
    if events.len() > 0 {
        run_is_on_record(events.drop_last());
    }
}

/// A launch that is over stays over, and asks for nothing more.
pub proof fn launch_ends_once(event: LaunchEventView)
    ensures
        launch_next(LaunchView::Over, event) == (LaunchView::Over, LaunchActionView::Nothing),
{
}

/// Where the sign-on ticket cannot be had for another reason than a refused token, the
/// launch goes on as if the ticket opened the game's own address.
pub proof fn sso_failure_falls_back(error: ErrorView)
    requires
        !(error is Unauthenticated),
    ensures
        with_ticket(Err(error)) == with_ticket(Ok(GAME_URL@)),
{
}

/// A launch clears the token exactly when the server refused it.
pub proof fn token_is_cleared_only_if_refused(state: LaunchView, event: LaunchEventView)
    ensures
        (launch_next(state, event).1 matches LaunchActionView::Fail { error, clear_token }
            && clear_token) <==> (state is Ticket && event == LaunchEventView::Ticket(
            Err(ErrorView::Unauthenticated),
        )),
{
}

/// The view of the game is sent to exactly the address it is mounted with, whether a view is
/// used again or a new one is added. A view that is there is always used again; a new one needs
/// a window that tells its size, and both need the window.
pub proof fn mounting_carries_the_address(scene: Scene, url: Seq<char>)
    ensures
        mounting(scene, url) matches Ok(content) ==> content == ContentView::Navigate(url)
            || content == ContentView::Add(url),
        mounting(scene, url) is Ok <==> scene.game && (scene.content || scene.measurable),
        mounting(scene, url) == Ok::<ContentView, ErrorView>(ContentView::Navigate(url))
            <==> scene.game && scene.content,
        !scene.game ==> mounting(scene, url) == Err::<ContentView, ErrorView>(
            ErrorView::Internal("fenêtre 'game' absente"@),
        ),
        scene.game && !scene.content && !scene.measurable ==> mounting(scene, url) == Err::<
            ContentView,
            ErrorView,
        >(ErrorView::Internal("taille fenêtre game indisponible"@)),
{
}

/// The address that a view of the game is sent to.
pub open spec fn content_address(content: ContentView) -> Seq<char> {
    match content {
        ContentView::Navigate(url) => url,
        ContentView::Add(url) => url,
    }
}

/// The outcome of the sign-on request that a launch took, once it has one.
pub open spec fn launch_ticket(events: Seq<LaunchEventView>) -> Option<
    Result<Seq<char>, ErrorView>,
>
    decreases events.len(),
{
    if events.len() == 0 {
        None
    } else {
        match (launch_run(events.drop_last()).0, events.last()) {
            (LaunchView::Ticket, LaunchEventView::Ticket(ticket)) => Some(ticket),
            _ => launch_ticket(events.drop_last()),
        }
    }
}

/// Whether an address is the one that the outcome of a sign-on request opens: the ticket's own,
/// or the game's where the ticket could not be had; none, where the token was refused.
pub open spec fn opened_by(ticket: Result<Seq<char>, ErrorView>, url: Seq<char>) -> bool {
    match ticket {
        Ok(text) => parsed_url(text) == Ok::<Seq<char>, Seq<char>>(url),
        Err(error) => !(error is Unauthenticated) && parsed_url("https://velmora.cc"@) == Ok::<
            Seq<char>,
            Seq<char>,
        >(url),
    }
}

/// The address that a launch holds is that of its ticket.
spec fn holds_its_address(events: Seq<LaunchEventView>) -> bool {
    match launch_run(events).0 {
        LaunchView::Game { url } => launch_ticket(events) matches Some(t) && opened_by(t, url),
        LaunchView::Shown { url } => launch_ticket(events) matches Some(t) && opened_by(t, url),
        LaunchView::Focused { url } => launch_ticket(events) matches Some(t) && opened_by(t, url),
        LaunchView::Scene { url } => launch_ticket(events) matches Some(t) && opened_by(t, url),
        _ => true,
    }
}

proof fn run_holds_its_address(events: Seq<LaunchEventView>)
    ensures
        holds_its_address(events),
    decreases events.len(),
{
    if events.len() > 0 {
        run_holds_its_address(events.drop_last());
    }
}

/// Over a whole launch, the address that is mounted is the one that the ticket opens: its own
/// address as parsed, or the game's own where no ticket could be had.
pub proof fn mounted_address_is_the_tickets(events: Seq<LaunchEventView>, content: ContentView)
    requires
        events.len() > 0,
        launch_run(events).1.last() == LaunchActionView::Mount(content),
    ensures
        launch_ticket(events) matches Some(ticket) && opened_by(ticket, content_address(content)),
{
    run_holds_its_address(events.drop_last());
}

/// A launch starts with the token: with one, it asks for a sign-on ticket in the player's name;
/// without one, it ends.
pub proof fn launch_starts_with_the_token(token: Seq<char>)
    ensures
        launch_next(LaunchView::Token, LaunchEventView::Token(Some(token))) == (
            LaunchView::Ticket,
            LaunchActionView::RequestTicket(
                RequestView {
                    method: Method::Post,
                    url: "https://velmora.cc/api/mobile"@ + "/sso/launcher-ticket"@,
                    bearer: Some(token),
                    accept_json: true,
                    since: None,
                    body: None,
                },
            ),
        ),
        launch_next(LaunchView::Token, LaunchEventView::Token(None)) == (
            LaunchView::Over,
            LaunchActionView::Fail { error: ErrorView::Unauthenticated, clear_token: false },
        ),
{
}

/// A ticket whose address parses leads on to the game window, with that address; one whose
/// address does not is an error that says why. A refused token ends the launch and is cleared.
/// Any other failure leads on with the game's own address.
pub proof fn tickets_lead_to_their_address(text: Seq<char>, url: Seq<char>, error: ErrorView)
    ensures
        parsed_url(text) == Ok::<Seq<char>, Seq<char>>(url) ==> launch_next(
            LaunchView::Ticket,
            LaunchEventView::Ticket(Ok(text)),
        ) == (LaunchView::Game { url }, LaunchActionView::FindGame),
        parsed_url(text) matches Err(reason) ==> launch_next(
            LaunchView::Ticket,
            LaunchEventView::Ticket(Ok(text)),
        ) == (
            LaunchView::Over,
            LaunchActionView::Fail {
                error: ErrorView::Internal("URL SSO invalide : "@ + reason),
                clear_token: false,
            },
        ),
        launch_next(LaunchView::Ticket, LaunchEventView::Ticket(Err(ErrorView::Unauthenticated)))
            == (
            LaunchView::Over,
            LaunchActionView::Fail { error: ErrorView::Unauthenticated, clear_token: true },
        ),
        !(error is Unauthenticated) ==> launch_next(
            LaunchView::Ticket,
            LaunchEventView::Ticket(Err(error)),
        ) == launch_next(
            LaunchView::Ticket,
            LaunchEventView::Ticket(Ok("https://velmora.cc"@)),
        ),
        target(Ok(text)) == Some(text),
        target(Err(error)) == if error is Unauthenticated {
            None
        } else {
            Some("https://velmora.cc"@)
        },
{
}

/// A window that is there is shown, then brought forward, then its scene is inspected, and the
/// address stays the same on the way; the launcher is hidden once the view is mounted.
pub proof fn launch_goes_on_while_all_goes_well(url: Seq<char>)
    ensures
        launch_next(LaunchView::Game { url }, LaunchEventView::Game(true)) == (
            LaunchView::Shown { url },
            LaunchActionView::ShowGame,
        ),
        launch_next(LaunchView::Shown { url }, LaunchEventView::Done(None)) == (
            LaunchView::Focused { url },
            LaunchActionView::FocusGame,
        ),
        launch_next(LaunchView::Focused { url }, LaunchEventView::Done(None)) == (
            LaunchView::Scene { url },
            LaunchActionView::InspectScene,
        ),
        launch_next(LaunchView::Mounted, LaunchEventView::Done(None)) == (
            LaunchView::Over,
            LaunchActionView::HideLauncher,
        ),
{
}

/// Where the scene allows it, the view is mounted with the address that the launch holds;
/// where it does not, the launch ends with the reason.
pub proof fn scenes_are_mounted_or_refused(scene: Scene, url: Seq<char>)
    ensures
        launch_next(LaunchView::Scene { url }, LaunchEventView::Scene(scene)) == if !scene.game {
            (
                LaunchView::Over,
                LaunchActionView::Fail {
                    error: ErrorView::Internal("fenêtre 'game' absente"@),
                    clear_token: false,
                },
            )
        } else if scene.content {
            (LaunchView::Mounted, LaunchActionView::Mount(ContentView::Navigate(url)))
        } else if scene.measurable {
            (LaunchView::Mounted, LaunchActionView::Mount(ContentView::Add(url)))
        } else {
            (
                LaunchView::Over,
                LaunchActionView::Fail {
                    error: ErrorView::Internal("taille fenêtre game indisponible"@),
                    clear_token: false,
                },
            )
        },
{
}

/// Whatever is done to a window and fails ends the launch with its own message, and so does a
/// window that is not there; the token stays.
pub proof fn window_failures_end_the_launch(state: LaunchView, message: Seq<char>)
    ensures
        state is Shown || state is Focused || state is Mounted ==> launch_next(
            state,
            LaunchEventView::Done(Some(message)),
        ) == (
            LaunchView::Over,
            LaunchActionView::Fail { error: ErrorView::Internal(message), clear_token: false },
        ),
        state is Game ==> launch_next(state, LaunchEventView::Game(false)) == (
            LaunchView::Over,
            LaunchActionView::Fail {
                error: ErrorView::Internal("fenêtre 'game' absente"@),
                clear_token: false,
            },
        ),
{
}

/// A launch moves only on the event that it waits for; any other leaves it where it stands.
pub proof fn launch_waits_its_turn(state: LaunchView, event: LaunchEventView)
    ensures
        launch_next(state, event).1 is Nothing <==> !{
            ||| state is Token && event is Token
            ||| state is Ticket && event is Ticket
            ||| state is Game && event is Game
            ||| (state is Shown || state is Focused || state is Mounted) && event is Done
            ||| state is Scene && event is Scene
        },
        launch_next(state, event).1 is Nothing ==> launch_next(state, event).0 == state,
{
}

/// The models of what a launch learns and asks for hold the texts themselves.
pub proof fn models_hold_what_is_exchanged(
    text: String,
    error: AppError,
    outcome: Result<(), String>,
)
    ensures
        ContentAction::Navigate(text)@ == ContentView::Navigate(text@),
        ContentAction::Add(text)@ == ContentView::Add(text@),
        ticket_view(Ok(text)) == Ok::<Seq<char>, ErrorView>(text@),
        ticket_view(Err(error)) == Err::<Seq<char>, ErrorView>(error@),
        text_result(Ok(text)) == Ok::<Seq<char>, Seq<char>>(text@),
        text_result(Err(text)) == Err::<Seq<char>, Seq<char>>(text@),
        LaunchEvent::Token(Some(text))@ == LaunchEventView::Token(Some(text@)),
        LaunchEvent::Token(None)@ == LaunchEventView::Token(None),
        LaunchEvent::Ticket(Ok(text))@ == LaunchEventView::Ticket(Ok(text@)),
        LaunchEvent::Done(outcome)@ == LaunchEventView::Done(
            match outcome {
                Ok(_) => None,
                Err(e) => Some(e@),
            },
        ),
{
}

/// However the game comes to be shown, it is at the very address that was asked for.
pub proof fn content_is_sent_to_the_address(
    scene: Scene,
    url: String,
    outcome: Result<ContentAction, AppError>,
)
    requires
        call_ensures(ensure_game_content, (scene, url), outcome),
    ensures
        outcome is Ok <==> scene.game && (scene.content || scene.measurable),
        outcome matches Ok(action) ==> content_address(action@) == url@ && (action is Navigate
            <==> scene.content),
        outcome matches Err(error) ==> error@ == if scene.game {
            ErrorView::Internal("taille fenêtre game indisponible"@)
        } else {
            ErrorView::Internal("fenêtre 'game' absente"@)
        },
{
}

/// The address to open is the ticket's own; without a ticket it is the game's, unless the token
/// was refused.
pub proof fn tickets_open_their_own_address(ticket: Result<String, AppError>, url: Option<String>)
    requires
        call_ensures(sso_target, (ticket,), url),
    ensures
        ticket matches Ok(text) ==> (url matches Some(u) && u@ == text@),
        ticket matches Err(error) ==> match url {
            Some(u) => !(error is Unauthenticated) && u@ == "https://velmora.cc"@,
            None => error is Unauthenticated,
        },
{
}

/// One step of a launch that mounts a view sends it to the address that the launch holds.
pub proof fn launches_mount_the_address_they_hold(
    url: String,
    scene: Scene,
    step: (LaunchState, LaunchAction),
)
    requires
        call_ensures(launch_game, (LaunchState::Scene { url }, LaunchEvent::Scene(scene)), step),
    ensures
        step.1 is Mount <==> scene.game && (scene.content || scene.measurable),
        step.1 matches LaunchAction::Mount(content) ==> content_address(content@) == url@ && step.0
            is Mounted,
{
}

} // verus!

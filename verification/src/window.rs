//! The launcher's two windows: which one comes forward, and when.

use vstd::prelude::*;
use crate::error::{failure, AppError, ErrorView};

verus! {

/// Label of the launcher window.
pub const LAUNCHER_LABEL: &'static str = "launcher";

/// Label of the game window.
pub const GAME_LABEL: &'static str = "game";

/// Label of the view that shows the game inside the game window.
pub const GAME_CONTENT_LABEL: &'static str = "game-content";

/// The two windows.
#[derive(Debug, PartialEq, Eq, Clone, Copy, Structural)]
pub enum Window {
    Launcher,
    Game,
}

impl Window {
    /// The label of the window.
    pub fn label(self) -> (label: &'static str)
        ensures
            label@ == match self {
                Window::Launcher => LAUNCHER_LABEL@,
                Window::Game => GAME_LABEL@,
            },
    {
        match self {
            Window::Launcher => LAUNCHER_LABEL,
            Window::Game => GAME_LABEL,
        }
    }
}

/// What is done to a window.
#[derive(Debug, PartialEq, Eq, Clone, Copy, Structural)]
pub enum WindowOp {
    Unminimize,
    Show,
    Focus,
}

/// What is done to one window, in order.
#[derive(Debug, PartialEq, Eq)]
pub struct Foreground {
    pub window: Window,
    pub ops: Vec<WindowOp>,
    /// Whether a failure ends the series and is an error of the command; else it is passed
    /// over (see [`Foreground::advance`]).
    pub strict: bool,
}

/// What comes next in bringing a window forward.
#[derive(Debug, PartialEq, Eq)]
pub enum ForegroundStep {
    Do(WindowOp),
    Finish(Result<(), AppError>),
}

/// Mathematical model of [`ForegroundStep`].
pub enum ForegroundStepView {
    Do(WindowOp),
    /// `None` where it went well.
    Finish(Option<ErrorView>),
}

impl View for ForegroundStep {
    type V = ForegroundStepView;

    open spec fn view(&self) -> ForegroundStepView {
        match self {
            ForegroundStep::Do(op) => ForegroundStepView::Do(*op),
            ForegroundStep::Finish(result) => ForegroundStepView::Finish(failure(*result)),
        }
    }
}

/// What comes next, once `tried` operations were tried and the last of them failed with
/// `fault`, if it did.
pub open spec fn foreground_next(
    ops: Seq<WindowOp>,
    strict: bool,
    tried: nat,
    fault: Option<Seq<char>>,
) -> ForegroundStepView {
    if strict && fault is Some {
        ForegroundStepView::Finish(Some(ErrorView::Internal(fault->0)))
    } else if tried < ops.len() {
        ForegroundStepView::Do(ops[tried as int])
    } else {
        ForegroundStepView::Finish(None)
    }
}

impl Foreground {
    /// What comes next, once `tried` operations were tried; `last` is how the last of them
    /// went, and `Ok` before the first.
    pub fn advance(&self, tried: usize, last: Result<(), String>) -> (step: ForegroundStep)
        ensures
            step@ == foreground_next(
                self.ops@,
                self.strict,
                tried as nat,
                match last {
                    Ok(_) => None,
                    Err(e) => Some(e@),
                },
            ),
    {
        match last {
            Err(e) => {
                if self.strict {
                    return ForegroundStep::Finish(Err(AppError::Internal(e)));
                }
            },
            Ok(_) => {},
        }
        if tried < self.ops.len() {
            ForegroundStep::Do(self.ops[tried])
        } else {
            ForegroundStep::Finish(Ok(()))
        }
    }
}

/// Bringing a window forward from wherever it is.
pub open spec fn raise_ops() -> Seq<WindowOp> {
    seq![WindowOp::Unminimize, WindowOp::Show, WindowOp::Focus]
}

/// Bringing a hidden window forward.
pub open spec fn reveal_ops() -> Seq<WindowOp> {
    seq![WindowOp::Show, WindowOp::Focus]
}

fn raise(window: Window) -> (foreground: Foreground)
    ensures
        foreground.window == window,
        foreground.ops@ == raise_ops(),
        !foreground.strict,
{
    let ops: Vec<WindowOp> = vec![WindowOp::Unminimize, WindowOp::Show, WindowOp::Focus];
    assert(ops@ =~= raise_ops());
    Foreground { window, ops, strict: false }
}

fn reveal_launcher(strict: bool) -> (foreground: Foreground)
    ensures
        foreground.window == Window::Launcher,
        foreground.ops@ == reveal_ops(),
        foreground.strict == strict,
{
    let ops: Vec<WindowOp> = vec![WindowOp::Show, WindowOp::Focus];
    assert(ops@ =~= reveal_ops());
    Foreground { window: Window::Launcher, ops, strict }
}

/// What the interface's request to show the launcher does to it: nothing, where it is not
/// there.
pub open spec fn show_ops(launcher_present: bool) -> Seq<WindowOp> {
    if launcher_present {
        reveal_ops()
    } else {
        Seq::empty()
    }
}

/// Brings the launcher forward on request of the interface. The first failure ends it and is
/// reported; where the launcher is not there, nothing is done and nothing fails.
pub fn show_launcher(launcher_present: bool) -> (foreground: Foreground)
    ensures
        foreground.window == Window::Launcher,
        foreground.ops@ == show_ops(launcher_present),
        foreground.strict,
{
    if launcher_present {
        reveal_launcher(true)
    } else {
        Foreground { window: Window::Launcher, ops: Vec::new(), strict: true }
    }
}

/// The window that a player who calls for the launcher wants: the game if it is visible,
/// else the launcher. `game_visible` is absent where there is no game window, or where it
/// cannot tell.
pub open spec fn best_window(game_visible: Option<bool>, launcher_present: bool) -> Option<
    Window,
> {
    if game_visible == Some(true) {
        Some(Window::Game)
    } else if launcher_present {
        Some(Window::Launcher)
    } else {
        None
    }
}

/// Brings the best window forward.
pub fn focus_best_window(game_visible: Option<bool>, launcher_present: bool) -> (foreground: Option<
    Foreground,
>)
    ensures
        match best_window(game_visible, launcher_present) {
            Some(window) => foreground matches Some(f) && f.window == window && f.ops@
                == raise_ops() && !f.strict,
            None => foreground is None,
        },
{
    match game_visible {
        Some(true) => Some(raise(Window::Game)),
        _ => if launcher_present {
            Some(raise(Window::Launcher))
        } else {
            None
        },
    }
}

/// Brings the launcher forward when it is started a second time, if it is there.
pub fn second_start(launcher_present: bool) -> (foreground: Option<Foreground>)
    ensures
        foreground is Some == launcher_present,
        foreground matches Some(f) ==> f.window == Window::Launcher && f.ops@ == raise_ops()
            && !f.strict,
{
    if launcher_present {
        Some(raise(Window::Launcher))
    } else {
        None
    }
}

/// What happens to the game window.
#[derive(Debug, PartialEq, Eq, Clone, Copy, Structural)]
pub enum GameWindowEvent {
    CloseRequested,
    Resized,
    ScaleFactorChanged,
    Other,
}

/// How the launcher reacts to it.
#[derive(Debug, PartialEq, Eq)]
pub enum GameWindowReaction {
    /// Bring the launcher forward.
    Return(Foreground),
    /// Fit the game's view to the window again.
    Reposition,
    Nothing,
}

/// The launcher comes back when the game window is closed, and the game's view follows the
/// size of its window.
pub fn on_game_window_event(event: GameWindowEvent, launcher_present: bool) -> (reaction:
    GameWindowReaction)
    ensures
        match event {
            GameWindowEvent::CloseRequested => if launcher_present {
                reaction matches GameWindowReaction::Return(f) && f.window == Window::Launcher
                    && f.ops@ == reveal_ops() && !f.strict
            } else {
                reaction == GameWindowReaction::Nothing
            },
            GameWindowEvent::Resized => reaction == GameWindowReaction::Reposition,
            GameWindowEvent::ScaleFactorChanged => reaction == GameWindowReaction::Reposition,
            GameWindowEvent::Other => reaction == GameWindowReaction::Nothing,
        },
{
    match event {
        GameWindowEvent::CloseRequested => if launcher_present {
            GameWindowReaction::Return(reveal_launcher(false))
        } else {
            GameWindowReaction::Nothing
        },
        GameWindowEvent::Resized => GameWindowReaction::Reposition,
        GameWindowEvent::ScaleFactorChanged => GameWindowReaction::Reposition,
        GameWindowEvent::Other => GameWindowReaction::Nothing,
    }
}

// ---- Laws ----

/// How bringing a window forward goes on after `tried` operations, `faults` being how each of
/// them goes: how many are tried in all, and the error that is reported, if one is.
pub open spec fn foreground_run(
    ops: Seq<WindowOp>,
    strict: bool,
    faults: Seq<Option<Seq<char>>>,
    tried: nat,
    fault: Option<Seq<char>>,
) -> (nat, Option<ErrorView>)
    decreases ops.len() - tried,
{
    match foreground_next(ops, strict, tried, fault) {
        ForegroundStepView::Do(_) => if tried < ops.len() {
            foreground_run(ops, strict, faults, tried + 1, faults[tried as int])
        } else {
            (tried, None)
        },
        ForegroundStepView::Finish(error) => (tried, error),
    }
}

proof fn run_up_to_fault(
    ops: Seq<WindowOp>,
    faults: Seq<Option<Seq<char>>>,
    tried: nat,
    stop: nat,
)
    requires
        tried <= stop <= ops.len(),
        forall|i: int| tried <= i < stop ==> (#[trigger] faults[i]) is None,
    ensures
        foreground_run(ops, true, faults, tried, None) == if stop < ops.len() {
            foreground_run(ops, true, faults, stop + 1, faults[stop as int])
        } else {
            (ops.len(), None)
        },
    decreases stop - tried,
{
    if tried < stop {
        assert(faults[tried as int] is None);
        run_up_to_fault(ops, faults, tried + 1, stop);
    }
}

/// Where failures count, the first one is the last operation tried, and it is what is
/// reported; where none fails, all are tried and nothing is reported.
pub proof fn first_failure_ends_it(
    ops: Seq<WindowOp>,
    faults: Seq<Option<Seq<char>>>,
    stop: nat,
)
    requires
        stop <= ops.len(),
        forall|i: int| 0 <= i < stop ==> (#[trigger] faults[i]) is None,
        stop < ops.len() ==> faults[stop as int] is Some,
    ensures
        foreground_run(ops, true, faults, 0, None) == if stop < ops.len() {
            (stop + 1, Some(ErrorView::Internal(faults[stop as int]->0)))
        } else {
            (ops.len(), None)
        },
{
    run_up_to_fault(ops, faults, 0, stop);
}

/// Where failures do not count, all operations are tried and nothing is reported.
pub proof fn lenient_failures_are_passed_over(
    ops: Seq<WindowOp>,
    faults: Seq<Option<Seq<char>>>,
    tried: nat,
    fault: Option<Seq<char>>,
)
    requires
        tried <= ops.len(),
    ensures
        foreground_run(ops, false, faults, tried, fault) == (ops.len(), None::<ErrorView>),
    decreases ops.len() - tried,
{
    if tried < ops.len() {
        lenient_failures_are_passed_over(ops, faults, tried + 1, faults[tried as int]);
    }
}

/// The launcher is shown, then brought to the front. If showing it fails, it is not brought
/// to the front; whichever fails is reported as an internal error with its message. Where the
/// launcher is not there, nothing is done and the request succeeds.
pub proof fn showing_the_launcher_fails_once(faults: Seq<Option<Seq<char>>>)
    ensures
        foreground_run(show_ops(true), true, faults, 0, None) == match faults[0] {
            Some(e) => (1nat, Some(ErrorView::Internal(e))),
            None => match faults[1] {
                Some(e) => (2nat, Some(ErrorView::Internal(e))),
                None => (2nat, None),
            },
        },
        foreground_run(show_ops(false), true, faults, 0, None) == (0nat, None::<ErrorView>),
{
    reveal_with_fuel(foreground_run, 4);
}

/// The operations are done one after the other, each in its turn; where failures count, one
/// ends the series at once, with its own message.
pub proof fn operations_are_done_in_turn(
    ops: Seq<WindowOp>,
    strict: bool,
    tried: nat,
    fault: Option<Seq<char>>,
)
    ensures
        strict ==> (fault matches Some(e) ==> foreground_next(ops, strict, tried, fault)
            == ForegroundStepView::Finish(Some(ErrorView::Internal(e)))),
        !strict || fault is None ==> foreground_next(ops, strict, tried, fault) == if tried
            < ops.len() {
            ForegroundStepView::Do(ops[tried as int])
        } else {
            ForegroundStepView::Finish(None)
        },
{
}

/// A window that comes forward is shown before it is given the focus, which comes last; one
/// that may be minimized is restored first. A launcher that is not there is left alone.
pub proof fn windows_are_shown_before_they_are_focused()
    ensures
        raise_ops() == seq![WindowOp::Unminimize, WindowOp::Show, WindowOp::Focus],
        reveal_ops() == seq![WindowOp::Show, WindowOp::Focus],
        show_ops(true) == seq![WindowOp::Show, WindowOp::Focus],
        show_ops(false).len() == 0,
{
}

/// The game comes forward exactly when it is known to be visible; else the launcher does,
/// where it is there.
pub proof fn visible_game_comes_first(game_visible: Option<bool>, launcher_present: bool)
    ensures
        best_window(game_visible, launcher_present) == Some(Window::Game) <==> game_visible == Some(
            true,
        ),
        best_window(game_visible, launcher_present) == Some(Window::Launcher) <==> game_visible
            != Some(true) && launcher_present,
        best_window(game_visible, launcher_present) is None <==> game_visible != Some(true)
            && !launcher_present,
{
}

/// What the interface's request, a second start, a click in the tray and the end of the game
/// bring forward, and how: the interface alone learns of a failure.
pub proof fn windows_come_forward_as_called_for(
    launcher_present: bool,
    game_visible: Option<bool>,
    asked: Foreground,
    again: Option<Foreground>,
    best: Option<Foreground>,
    closed: GameWindowReaction,
)
    requires
        call_ensures(show_launcher, (launcher_present,), asked),
        call_ensures(second_start, (launcher_present,), again),
        call_ensures(focus_best_window, (game_visible, launcher_present), best),
        call_ensures(
            on_game_window_event,
            (GameWindowEvent::CloseRequested, launcher_present),
            closed,
        ),
    ensures
        asked.window == Window::Launcher && asked.strict,
        launcher_present ==> asked.ops@ == seq![WindowOp::Show, WindowOp::Focus],
        !launcher_present ==> asked.ops@.len() == 0,
        again is Some <==> launcher_present,
        again matches Some(f) ==> f.window == Window::Launcher && !f.strict && f.ops@ == seq![
            WindowOp::Unminimize,
            WindowOp::Show,
            WindowOp::Focus,
        ],
        best is Some <==> game_visible == Some(true) || launcher_present,
        best matches Some(f) ==> (f.window == Window::Game <==> game_visible == Some(true))
            && !f.strict && f.ops@ == seq![WindowOp::Unminimize, WindowOp::Show, WindowOp::Focus],
        closed is Return <==> launcher_present,
        closed is Return || closed is Nothing,
        closed matches GameWindowReaction::Return(f) ==> f.window == Window::Launcher && !f.strict
            && f.ops@ == seq![WindowOp::Show, WindowOp::Focus],
{
}

/// The game's view follows its window exactly when the window's size or scale changes.
pub proof fn views_follow_the_size_of_their_window(
    event: GameWindowEvent,
    launcher_present: bool,
    reaction: GameWindowReaction,
)
    requires
        call_ensures(on_game_window_event, (event, launcher_present), reaction),
    ensures
        reaction is Reposition <==> event == GameWindowEvent::Resized || event
            == GameWindowEvent::ScaleFactorChanged,
        reaction is Return ==> event == GameWindowEvent::CloseRequested,
{
}

/// Each window goes by its own label.
pub proof fn windows_have_their_labels(launcher: &'static str, game: &'static str)
    requires
        call_ensures(Window::label, (Window::Launcher,), launcher),
        call_ensures(Window::label, (Window::Game,), game),
    ensures
        launcher@ == "launcher"@,
        game@ == "game"@,
{
}

} // verus!

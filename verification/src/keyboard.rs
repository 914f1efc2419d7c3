//! Page-advance input: which event to inject, and how.

use vstd::prelude::*;
use crate::driver::{Action, Event, Key};
use crate::error::{EbCaptureError, ErrorModel};
use crate::focus::{FocusGuard, FocusMode, FocusProgress, FocusStage, first_stage, next_stage};
use crate::text::{contains, lowercased, occurs_in, to_lowercase};

verus! {

/// One input event that is believed to turn the page of a reader.
#[derive(Debug, Clone, Copy, PartialEq, Eq, Structural)]
pub enum NavigationMethod {
    /// The right arrow key.
    RightArrow,
    /// The page-down key.
    PageDown,
    /// The space bar.
    Space,
    /// A click with the left mouse button at the given screen position.
    Click(i32, i32),
}

/// Whether a lower-case title names the given reader, in Latin or Korean
/// script.
pub open spec fn names(title: Seq<char>, latin: Seq<char>, korean: Seq<char>) -> bool {
    occurs_in(latin, title) || occurs_in(korean, title)
}

/// The strategy for a lower-case window title. The first keyword found
/// decides, in this order: Ridi and Aladin readers take the right arrow,
/// Yes24 the space bar, Kindle the right arrow, Calibre page-down. A title
/// with none of the keywords takes the right arrow.
pub open spec fn method_for_title(title: Seq<char>) -> NavigationMethod {
    if names(title, "ridi"@, "리디"@) {
        NavigationMethod::RightArrow
    } else if names(title, "aladin"@, "알라딘"@) {
        NavigationMethod::RightArrow
    } else if names(title, "yes24"@, "예스24"@) {
        NavigationMethod::Space
    } else if occurs_in("kindle"@, title) {
        NavigationMethod::RightArrow
    } else if occurs_in("calibre"@, title) {
        NavigationMethod::PageDown
    } else {
        NavigationMethod::RightArrow
    }
}

impl NavigationMethod {
    /// The default strategy for a program, found by keywords in its window
    /// title without regard to case.
    pub fn for_program(program_name: &str) -> (method: NavigationMethod)
        ensures
            method == method_for_title(lowercased(program_name@)),
    {
        let name_lower: String = to_lowercase(program_name);
        NavigationMethod::for_lowercase_title(name_lower.as_str())
    }

    /// The default strategy for a window title that is already in lower
    /// case.
    pub fn for_lowercase_title(title: &str) -> (method: NavigationMethod)
        ensures
            method == method_for_title(title@),
    {
        if contains(title, "ridi") || contains(title, "리디") {
            NavigationMethod::RightArrow
        } else if contains(title, "aladin") || contains(title, "알라딘") {
            NavigationMethod::RightArrow
        } else if contains(title, "yes24") || contains(title, "예스24") {
            NavigationMethod::Space
        } else if contains(title, "kindle") {
            NavigationMethod::RightArrow
        } else if contains(title, "calibre") {
            NavigationMethod::PageDown
        } else {
            NavigationMethod::RightArrow
        }
    }
}

/// Milliseconds to wait before the right arrow key is clicked.
pub const KEY_LEAD_MS: u64 = 100;

/// Milliseconds to wait after the right arrow key was clicked.
pub const KEY_TRAIL_MS: u64 = 200;

/// Milliseconds between moving the pointer and clicking.
pub const POINTER_REST_MS: u64 = 100;

/// Milliseconds to wait after focus was taken again, before input is sent.
pub const FOCUS_WAIT_MS: u64 = 500;

/// Milliseconds to wait after an injected event for the page to turn.
pub const INPUT_SETTLE_MS: u64 = 300;

/// Milliseconds to wait between a failed alternative and the next.
pub const RETRY_PAUSE_MS: u64 = 500;

/// Number of alternative strategies.
pub const ALTERNATIVES: u8 = 3;

/// The steps of clicking the right arrow key: a short wait, the click, and
/// a wait for the reader to take it.
pub open spec fn right_arrow_plan() -> Seq<Action> {
    seq![
        Action::Sleep { millis: KEY_LEAD_MS },
        Action::KeyClick { key: Key::RightArrow },
        Action::Sleep { millis: KEY_TRAIL_MS },
    ]
}

/// The single step of clicking a key.
pub open spec fn key_plan(key: Key) -> Seq<Action> {
    seq![Action::KeyClick { key }]
}

/// The steps of clicking at a screen position: move there, rest, click.
pub open spec fn click_plan(x: i32, y: i32) -> Seq<Action> {
    seq![
        Action::MoveMouseTo { x, y },
        Action::Sleep { millis: POINTER_REST_MS },
        Action::LeftClick,
    ]
}

/// The steps that carry out a strategy once.
pub open spec fn plan(method: NavigationMethod) -> Seq<Action> {
    match method {
        NavigationMethod::RightArrow => right_arrow_plan(),
        NavigationMethod::PageDown => key_plan(Key::PageDown),
        NavigationMethod::Space => key_plan(Key::Space),
        NavigationMethod::Click(x, y) => click_plan(x, y),
    }
}

/// The steps that send the right arrow key, for the next page.
pub fn send_right_arrow() -> (steps: Vec<Action>)
    ensures
        steps@ == right_arrow_plan(),
{
    let mut steps: Vec<Action> = Vec::new();
    steps.push(Action::Sleep { millis: KEY_LEAD_MS });
    steps.push(Action::KeyClick { key: Key::RightArrow });
    steps.push(Action::Sleep { millis: KEY_TRAIL_MS });
    assert(steps@ =~= right_arrow_plan());
    steps
}

fn single_key(key: Key) -> (steps: Vec<Action>)
    ensures
        steps@ == key_plan(key),
{
    let mut steps: Vec<Action> = Vec::new();
    steps.push(Action::KeyClick { key });
    assert(steps@ =~= key_plan(key));
    steps
}

/// The step that sends the left arrow key, for the previous page.
pub fn send_left_arrow() -> (steps: Vec<Action>)
    ensures
        steps@ == key_plan(Key::LeftArrow),
{
    single_key(Key::LeftArrow)
}

/// The step that sends the page-down key.
pub fn send_page_down() -> (steps: Vec<Action>)
    ensures
        steps@ == key_plan(Key::PageDown),
{
    single_key(Key::PageDown)
}

/// The step that sends the page-up key.
pub fn send_page_up() -> (steps: Vec<Action>)
    ensures
        steps@ == key_plan(Key::PageUp),
{
    single_key(Key::PageUp)
}

/// The step that sends the space bar.
pub fn send_space() -> (steps: Vec<Action>)
    ensures
        steps@ == key_plan(Key::Space),
{
    single_key(Key::Space)
}

/// The step that sends the return key.
pub fn send_enter() -> (steps: Vec<Action>)
    ensures
        steps@ == key_plan(Key::Return),
{
    single_key(Key::Return)
}

/// The steps that click at a screen position.
pub fn click_at_position(x: i32, y: i32) -> (steps: Vec<Action>)
    ensures
        steps@ == click_plan(x, y),
{
    let mut steps: Vec<Action> = Vec::new();
    steps.push(Action::MoveMouseTo { x, y });
    steps.push(Action::Sleep { millis: POINTER_REST_MS });
    steps.push(Action::LeftClick);
    assert(steps@ =~= click_plan(x, y));
    steps
}

/// The steps that carry out a strategy once.
pub fn navigate_next_page(method: NavigationMethod) -> (steps: Vec<Action>)
    ensures
        steps@ == plan(method),
{
    match method {
        NavigationMethod::RightArrow => send_right_arrow(),
        NavigationMethod::PageDown => send_page_down(),
        NavigationMethod::Space => send_space(),
        NavigationMethod::Click(x, y) => click_at_position(x, y),
    }
}

/// The strategy of an attempt: the target's default first, then the
/// alternatives in their fixed order: right arrow, page-down, space bar.
pub open spec fn strategy(method: NavigationMethod, attempt: u8) -> NavigationMethod {
    if attempt == 0 {
        method
    } else if attempt == 1 {
        NavigationMethod::RightArrow
    } else if attempt == 2 {
        NavigationMethod::PageDown
    } else {
        NavigationMethod::Space
    }
}

/// Whether an action injects input, and so can fail.
pub open spec fn injects(action: Action) -> bool {
    action is KeyClick || action is MoveMouseTo || action is LeftClick
}

/// The action that a navigation waits on.
#[derive(Debug, Clone, Copy, PartialEq, Eq, Structural)]
pub enum NavStage {
    /// Focus is being taken again.
    Focusing(FocusStage),
    /// The wait after taking focus is running.
    FocusSettle,
    /// Step `position` of the plan of attempt `attempt` was asked for.
    Injecting { attempt: u8, position: u8 },
    /// The wait after a successful attempt is running.
    Settling,
    /// The pause after the failed alternative `attempt` is running.
    Pausing { attempt: u8 },
}

/// One page advance under way.
#[derive(Debug, Clone, Copy, PartialEq, Eq, Structural)]
pub struct Navigator {
    pub method: NavigationMethod,
    pub stage: NavStage,
}

/// What a page advance asks for next, or how it ended.
#[derive(Debug, PartialEq)]
pub enum NavProgress {
    /// Carry out the action, then report to the advance in this state.
    Perform(Navigator, Action),
    /// An injected event went through, or every strategy failed.
    Finished(Result<(), EbCaptureError>),
}

/// A step of a page advance without its texts.
pub ghost enum NavOutcome {
    Perform(Navigator, Action),
    Succeeded,
    Exhausted,
}

/// Reason given when every strategy failed.
pub open spec fn all_strategies_failed() -> Seq<char> {
    "every navigation strategy failed"@
}

impl NavProgress {
    /// The step without its texts; a failure counts as exhaustion only with
    /// the reason that goes with it.
    pub open spec fn outcome(self) -> NavOutcome {
        match self {
            NavProgress::Perform(navigator, action) => NavOutcome::Perform(navigator, action),
            NavProgress::Finished(Ok(_)) => NavOutcome::Succeeded,
            NavProgress::Finished(Err(_)) => NavOutcome::Exhausted,
        }
    }

    /// A failure carries the reason that every strategy failed.
    pub open spec fn well_formed(self) -> bool {
        self matches NavProgress::Finished(Err(e)) ==> e@ == (ErrorModel::NavigationFailure {
            reason: all_strategies_failed(),
        })
    }
}

/// The beginning of attempt `attempt`: the first step of its plan.
pub open spec fn begin_attempt(method: NavigationMethod, attempt: u8) -> NavOutcome {
    NavOutcome::Perform(
        Navigator { method, stage: NavStage::Injecting { attempt, position: 0 } },
        plan(strategy(method, attempt))[0],
    )
}

/// The first step of a page advance: focus is taken again.
pub open spec fn nav_first(method: NavigationMethod) -> (Navigator, Action) {
    (
        Navigator { method, stage: NavStage::Focusing(first_stage(FocusMode::Guard).0) },
        first_stage(FocusMode::Guard).1,
    )
}

/// The step that follows on `event`.
///
/// After focus and a wait, the default strategy is carried out once. If one
/// of its injecting steps fails, the alternatives are tried in order, each
/// once, with a pause between one that fails and the next; the first that
/// goes through ends the advance after the settle interval, and the failure
/// of the last ends it at once. An injecting step has gone through only if
/// the driver reports it done.
pub open spec fn nav_next(nav: Navigator, event: Event) -> NavOutcome {
    let method = nav.method;
    match nav.stage {
        NavStage::Focusing(stage) => match next_stage(FocusMode::Guard, stage, event) {
            Some((next, action)) => NavOutcome::Perform(
                Navigator { method, stage: NavStage::Focusing(next) },
                action,
            ),
            None => NavOutcome::Perform(
                Navigator { method, stage: NavStage::FocusSettle },
                Action::Sleep { millis: FOCUS_WAIT_MS },
            ),
        },
        NavStage::FocusSettle => begin_attempt(method, 0),
        NavStage::Injecting { attempt, position } => {
            let steps = plan(strategy(method, attempt));
            if position < steps.len() && injects(steps[position as int]) && !(event is Done) {
                if attempt == 0 {
                    begin_attempt(method, 1)
                } else if attempt < ALTERNATIVES {
                    NavOutcome::Perform(
                        Navigator { method, stage: NavStage::Pausing { attempt } },
                        Action::Sleep { millis: RETRY_PAUSE_MS },
                    )
                } else {
                    NavOutcome::Exhausted
                }
            } else if position + 1 < steps.len() {
                NavOutcome::Perform(
                    Navigator {
                        method,
                        stage: NavStage::Injecting { attempt, position: (position + 1) as u8 },
                    },
                    steps[position + 1],
                )
            } else {
                NavOutcome::Perform(
                    Navigator { method, stage: NavStage::Settling },
                    Action::Sleep { millis: INPUT_SETTLE_MS },
                )
            }
        },
        NavStage::Settling => NavOutcome::Succeeded,
        NavStage::Pausing { attempt } => if attempt < ALTERNATIVES {
            begin_attempt(method, (attempt + 1) as u8)
        } else {
            NavOutcome::Exhausted
        },
    }
}

/// Whether the driver reports that an injecting step of the plan in hand
/// has failed.
pub open spec fn step_failed(nav: Navigator, event: Event) -> bool {
    match nav.stage {
        NavStage::Injecting { attempt, position } => {
            let steps = plan(strategy(nav.method, attempt));
            position < steps.len() && injects(steps[position as int]) && !(event is Done)
        },
        _ => false,
    }
}

/// Whatever the driver reports, strategies are tried in their fixed order,
/// each at most once: an attempt is begun only after focus was taken (the
/// default), after a step of the default failed (the first alternative), or
/// after the pause that follows a failed alternative (the next one). Within
/// an attempt the steps of its plan follow one another. A pause follows
/// only a failed step of an alternative that is not the last, and the
/// advance is given up only when a step of the last alternative fails.
pub proof fn lemma_strategies_in_order(nav: Navigator, event: Event)
    ensures
        nav_next(nav, event) matches NavOutcome::Perform(next, action) ==> {
            &&& next.method == nav.method
            &&& next.stage matches NavStage::Injecting { attempt, position } ==> {
                &&& action == plan(strategy(nav.method, attempt))[position as int]
                &&& {
                    ||| nav.stage is FocusSettle && attempt == 0 && position == 0
                    ||| nav.stage matches NavStage::Injecting { attempt: a, position: p } && attempt
                        == a && position == p + 1 && position < plan(
                        strategy(nav.method, attempt),
                    ).len() && !step_failed(nav, event)
                    ||| nav.stage matches NavStage::Injecting { attempt: a, position: p } && a == 0
                        && attempt == 1 && position == 0 && step_failed(nav, event)
                    ||| nav.stage matches NavStage::Pausing { attempt: a } && a < ALTERNATIVES
                        && attempt == a + 1 && position == 0
                }
            }
            &&& next.stage matches NavStage::Pausing { attempt } ==> {
                &&& nav.stage matches NavStage::Injecting { attempt: a, position: p }
                &&& a == attempt
                &&& 0 < attempt < ALTERNATIVES
                &&& step_failed(nav, event)
                &&& action == Action::Sleep { millis: RETRY_PAUSE_MS }
            }
            &&& next.stage is Settling ==> action == Action::Sleep { millis: INPUT_SETTLE_MS }
                && !step_failed(nav, event)
        },
        nav_next(nav, event) is Exhausted <==> (nav.stage matches NavStage::Injecting {
            attempt,
            position,
        } && attempt >= ALTERNATIVES && step_failed(nav, event)) || (
        nav.stage matches NavStage::Pausing { attempt } && attempt >= ALTERNATIVES),
        nav_next(nav, event) is Succeeded <==> nav.stage is Settling,
{
}

/// Most steps that an advance can still take once attempt `attempt` is
/// over.
pub open spec fn steps_after_attempt(attempt: u8) -> nat {
    if attempt == 0 {
        30
    } else if attempt == 1 {
        20
    } else if attempt == 2 {
        10
    } else {
        0
    }
}

/// Most steps that an advance can still take from a stage.
pub open spec fn nav_steps_left(stage: NavStage) -> nat {
    match stage {
        NavStage::Focusing(focus) => 50 + crate::focus::steps_left(FocusMode::Guard, focus),
        NavStage::FocusSettle => 50,
        NavStage::Injecting { attempt, position } => steps_after_attempt(attempt) + (if position
            == 0 {
            8nat
        } else if position == 1 {
            7nat
        } else {
            6nat
        }),
        NavStage::Pausing { attempt } => steps_after_attempt(attempt) + 1,
        NavStage::Settling => 1,
    }
}

/// Whatever the driver reports, a page advance comes to an end: each step
/// leaves fewer steps to take.
pub proof fn lemma_advance_ends(nav: Navigator, event: Event)
    ensures
        nav_next(nav, event) matches NavOutcome::Perform(next, _) ==> nav_steps_left(next.stage)
            < nav_steps_left(nav.stage),
{
    match nav.stage {
        NavStage::Focusing(focus) => {
            crate::focus::lemma_focus_always_settles(FocusMode::Guard, focus, event);
        },
        _ => {},
    }
}

/// Step `position` of the plan of a strategy, if the plan is that long.
fn plan_step(method: NavigationMethod, position: u8) -> (r: Option<Action>)
    ensures
        position < plan(method).len() ==> r == Some(plan(method)[position as int]),
        position >= plan(method).len() ==> r is None,
{
    match method {
        NavigationMethod::RightArrow => {
            if position == 0 {
                Some(Action::Sleep { millis: KEY_LEAD_MS })
            } else if position == 1 {
                Some(Action::KeyClick { key: Key::RightArrow })
            } else if position == 2 {
                Some(Action::Sleep { millis: KEY_TRAIL_MS })
            } else {
                None
            }
        },
        NavigationMethod::PageDown => {
            if position == 0 {
                Some(Action::KeyClick { key: Key::PageDown })
            } else {
                None
            }
        },
        NavigationMethod::Space => {
            if position == 0 {
                Some(Action::KeyClick { key: Key::Space })
            } else {
                None
            }
        },
        NavigationMethod::Click(x, y) => {
            if position == 0 {
                Some(Action::MoveMouseTo { x, y })
            } else if position == 1 {
                Some(Action::Sleep { millis: POINTER_REST_MS })
            } else if position == 2 {
                Some(Action::LeftClick)
            } else {
                None
            }
        },
    }
}

/// The step that the plan of a strategy begins with.
fn first_step(method: NavigationMethod) -> (action: Action)
    ensures
        action == plan(method)[0],
{
    match method {
        NavigationMethod::RightArrow => Action::Sleep { millis: KEY_LEAD_MS },
        NavigationMethod::PageDown => Action::KeyClick { key: Key::PageDown },
        NavigationMethod::Space => Action::KeyClick { key: Key::Space },
        NavigationMethod::Click(x, y) => Action::MoveMouseTo { x, y },
    }
}

fn strategy_of(method: NavigationMethod, attempt: u8) -> (r: NavigationMethod)
    ensures
        r == strategy(method, attempt),
{
    if attempt == 0 {
        method
    } else if attempt == 1 {
        NavigationMethod::RightArrow
    } else if attempt == 2 {
        NavigationMethod::PageDown
    } else {
        NavigationMethod::Space
    }
}

fn begin(method: NavigationMethod, attempt: u8) -> (r: NavProgress)
    ensures
        r.outcome() == begin_attempt(method, attempt),
        r.well_formed(),
{
    let first: Action = first_step(strategy_of(method, attempt));
    NavProgress::Perform(
        Navigator { method, stage: NavStage::Injecting { attempt, position: 0 } },
        first,
    )
}

fn is_injection(action: &Action) -> (b: bool)
    ensures
        b == injects(*action),
{
    match action {
        Action::KeyClick { .. } => true,
        Action::MoveMouseTo { .. } => true,
        Action::LeftClick => true,
        _ => false,
    }
}

fn is_done(event: &Event) -> (b: bool)
    ensures
        b == (*event is Done),
{
    match event {
        Event::Done => true,
        _ => false,
    }
}

/// Begins the advance to the next page of the window with the given title:
/// the strategy is chosen by the title, and focus is taken first.
pub fn navigate_to_next_page(title: &str) -> (r: (Navigator, Action))
    ensures
        r == nav_first(method_for_title(lowercased(title@))),
{
    Navigator::start(NavigationMethod::for_program(title))
}

impl Navigator {
    /// Begins a page advance with a known default strategy.
    pub fn start(method: NavigationMethod) -> (r: (Navigator, Action))
        ensures
            r == nav_first(method),
    {
        let (guard, action) = FocusGuard::start(FocusMode::Guard);
        (Navigator { method, stage: NavStage::Focusing(guard.stage) }, action)
    }

    /// Takes the driver's report on the last action and says what comes
    /// next: another action, success, or `NavigationFailure` once every
    /// strategy has failed.
    pub fn step(self, event: &Event) -> (r: NavProgress)
        ensures
            r.outcome() == nav_next(self, *event),
            r.well_formed(),
    {
        let method: NavigationMethod = self.method;
        match self.stage {
            NavStage::Focusing(stage) => {
                let guard = FocusGuard { mode: FocusMode::Guard, stage };
                match guard.step(event) {
                    FocusProgress::Perform(next, action) => NavProgress::Perform(
                        Navigator { method, stage: NavStage::Focusing(next.stage) },
                        action,
                    ),
                    FocusProgress::Complete => NavProgress::Perform(
                        Navigator { method, stage: NavStage::FocusSettle },
                        Action::Sleep { millis: FOCUS_WAIT_MS },
                    ),
                }
            },
            NavStage::FocusSettle => begin(method, 0),
            NavStage::Injecting { attempt, position } => {
                let current: NavigationMethod = strategy_of(method, attempt);
                let failed: bool = match plan_step(current, position) {
                    Some(action) => is_injection(&action) && !is_done(event),
                    None => false,
                };
                if failed {
                    if attempt == 0 {
                        begin(method, 1)
                    } else if attempt < ALTERNATIVES {
                        NavProgress::Perform(
                            Navigator { method, stage: NavStage::Pausing { attempt } },
                            Action::Sleep { millis: RETRY_PAUSE_MS },
                        )
                    } else {
                        NavProgress::Finished(
                            Err(
                                EbCaptureError::navigation_failure(
                                    "every navigation strategy failed",
                                ),
                            ),
                        )
                    }
                } else {
                    let following: Option<Action> = if position < 3 {
                        plan_step(current, position + 1)
                    } else {
                        None
                    };
                    match following {
                        Some(action) => NavProgress::Perform(
                            Navigator {
                                method,
                                stage: NavStage::Injecting { attempt, position: position + 1 },
                            },
                            action,
                        ),
                        None => NavProgress::Perform(
                            Navigator { method, stage: NavStage::Settling },
                            Action::Sleep { millis: INPUT_SETTLE_MS },
                        ),
                    }
                }
            },
            NavStage::Settling => NavProgress::Finished(Ok(())),
            NavStage::Pausing { attempt } => {
                if attempt < ALTERNATIVES {
                    begin(method, attempt + 1)
                } else {
                    NavProgress::Finished(
                        Err(EbCaptureError::navigation_failure("every navigation strategy failed")),
                    )
                }
            },
        }
    }
}

} // verus!

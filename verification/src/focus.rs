//! The search for the focused window through the accessibility tree, as a
//! state machine. The caller performs each request, feeds the reply back in,
//! and carries out the effects that come with the next state.
//!
//! Elements are opaque non-null handles (the addresses of accessibility
//! objects); a failed or null answer is reported as `None`.

use vstd::prelude::*;

verus! {

/// Accessibility attributes that the search reads or sets.
#[derive(Clone, Copy, Debug, PartialEq, Eq, Structural)]
pub enum AxAttribute {
    FocusedUIElement,
    Role,
    Parent,
    FocusedWindow,
    Window,
    TopLevelElement,
    EnhancedUserInterface,
}

impl AxAttribute {
    /// The attribute's name in the accessibility API.
    pub fn name(self) -> (r: &'static str)
        ensures
            r@ == match self {
                AxAttribute::FocusedUIElement => "AXFocusedUIElement"@,
                AxAttribute::Role => "AXRole"@,
                AxAttribute::Parent => "AXParent"@,
                AxAttribute::FocusedWindow => "AXFocusedWindow"@,
                AxAttribute::Window => "AXWindow"@,
                AxAttribute::TopLevelElement => "AXTopLevelElement"@,
                AxAttribute::EnhancedUserInterface => "AXEnhancedUserInterface"@,
            },
    {
        match self {
            AxAttribute::FocusedUIElement => "AXFocusedUIElement",
            AxAttribute::Role => "AXRole",
            AxAttribute::Parent => "AXParent",
            AxAttribute::FocusedWindow => "AXFocusedWindow",
            AxAttribute::Window => "AXWindow",
            AxAttribute::TopLevelElement => "AXTopLevelElement",
            AxAttribute::EnhancedUserInterface => "AXEnhancedUserInterface",
        }
    }
}

/// The role of an application element.
pub const APPLICATION_ROLE: &'static str = "AXApplication";

/// How many ancestors of the focused element are examined, at most, in the
/// search for its application.
pub const MAX_ANCESTOR_STEPS: u32 = 10;

/// Why the search found no window.
#[derive(Clone, Copy, Debug, PartialEq, Eq, Structural)]
pub enum LookupError {
    SystemWideUnavailable,
    NoFrontmostApplication,
    NoApplicationElement,
    NoFocusedWindow,
}

impl LookupError {
    /// The message that reports the error.
    pub fn message(self) -> (r: &'static str)
        ensures
            r@ == match self {
                LookupError::SystemWideUnavailable => "Failed to create system wide element"@,
                LookupError::NoFrontmostApplication => "Failed to get frontmost application"@,
                LookupError::NoApplicationElement =>
                    "Failed to create application element from PID"@,
                LookupError::NoFocusedWindow =>
                    "Failed to find focused window even via NSWorkspace fallback"@,
            },
    {
        match self {
            LookupError::SystemWideUnavailable => "Failed to create system wide element",
            LookupError::NoFrontmostApplication => "Failed to get frontmost application",
            LookupError::NoApplicationElement => "Failed to create application element from PID",
            LookupError::NoFocusedWindow =>
                "Failed to find focused window even via NSWorkspace fallback",
        }
    }
}

/// Where the search stands, and what it waits for.
#[derive(Clone, Copy, Debug, PartialEq, Eq, Structural)]
pub enum LookupState {
    /// Waits for the system-wide element.
    Begin,
    /// Waits for the focused element of `system_wide`.
    AwaitFocusedElement { system_wide: usize },
    /// Waits for the role of `current`, the `depth`-th ancestor of `focused`.
    AwaitRole { system_wide: usize, focused: usize, current: usize, depth: u32 },
    /// Waits for the parent of `current`, the `depth`-th ancestor of `focused`.
    AwaitParent { system_wide: usize, focused: usize, current: usize, depth: u32 },
    /// Waits for the focused window of the application element `app`.
    AwaitAppWindow { system_wide: usize, focused: usize, app: usize },
    /// Waits for the window attribute of `focused`.
    AwaitWindowAttribute { system_wide: usize, focused: usize },
    /// Waits for the top-level element of `focused`.
    AwaitTopLevel { system_wide: usize, focused: usize },
    /// Waits for the process id of the frontmost application.
    AwaitFrontmostPid { system_wide: usize },
    /// Waits for the application element of process `pid`.
    AwaitAppElement { system_wide: usize, pid: i32 },
    /// Waits for the focused window of the application element `app`.
    AwaitWorkspaceWindow { system_wide: usize, app: usize },
    /// The search found `window`; the caller owns it and `system_wide`.
    Found { window: usize, system_wide: usize },
    /// The search failed.
    Failed(LookupError),
}

/// What the caller is to ask the system for next.
#[derive(Clone, Copy, Debug, PartialEq, Eq, Structural)]
pub enum LookupRequest {
    /// Reply `Element`: the system-wide element.
    CreateSystemWide,
    /// Reply `Element`: the attribute's value, `None` unless the call
    /// succeeded with a non-null value.
    CopyAttribute { element: usize, attribute: AxAttribute },
    /// Reply `Role`: the element's role, `None` unless the call succeeded.
    CopyRole { element: usize },
    /// Reply `Pid`: the frontmost application's process id, if any.
    FrontmostApplicationPid,
    /// Reply `Element`: the application element of process `pid`.
    CreateApplicationElement { pid: i32 },
}

/// What the caller is to do, in order, on entering a new state.
#[derive(Clone, Copy, Debug, PartialEq, Eq, Structural)]
pub enum LookupEffect {
    /// Release the caller's hold on the element.
    Release { element: usize },
    /// Set the element's enhanced-user-interface attribute to true.
    EnableEnhancedUserInterface { element: usize },
}

/// The answer to a request. A reply of another kind than the request asked
/// for counts as a failed call.
#[derive(Debug, PartialEq, Eq)]
pub enum LookupReply {
    Element(Option<usize>),
    Role(Option<String>),
    Pid(Option<i32>),
}

pub open spec fn reply_element(reply: LookupReply) -> Option<usize> {
    match reply {
        LookupReply::Element(e) => e,
        _ => None,
    }
}

pub open spec fn reply_is_application(reply: LookupReply) -> bool {
    match reply {
        LookupReply::Role(Some(role)) => role@ == APPLICATION_ROLE@,
        _ => false,
    }
}

pub open spec fn reply_pid(reply: LookupReply) -> Option<i32> {
    match reply {
        LookupReply::Pid(p) => p,
        _ => None,
    }
}

/// The search is over.
pub open spec fn is_finished(state: LookupState) -> bool {
    state is Found || state is Failed
}

/// The request a state waits on; none once the search is over.
pub open spec fn request_of(state: LookupState) -> Option<LookupRequest> {
    match state {
        LookupState::Begin => Some(LookupRequest::CreateSystemWide),
        LookupState::AwaitFocusedElement { system_wide } => Some(
            LookupRequest::CopyAttribute {
                element: system_wide,
                attribute: AxAttribute::FocusedUIElement,
            },
        ),
        LookupState::AwaitRole { current, .. } => Some(
            LookupRequest::CopyRole { element: current },
        ),
        LookupState::AwaitParent { current, .. } => Some(
            LookupRequest::CopyAttribute { element: current, attribute: AxAttribute::Parent },
        ),
        LookupState::AwaitAppWindow { app, .. } => Some(
            LookupRequest::CopyAttribute { element: app, attribute: AxAttribute::FocusedWindow },
        ),
        LookupState::AwaitWindowAttribute { focused, .. } => Some(
            LookupRequest::CopyAttribute { element: focused, attribute: AxAttribute::Window },
        ),
        LookupState::AwaitTopLevel { focused, .. } => Some(
            LookupRequest::CopyAttribute {
                element: focused,
                attribute: AxAttribute::TopLevelElement,
            },
        ),
        LookupState::AwaitFrontmostPid { .. } => Some(LookupRequest::FrontmostApplicationPid),
        LookupState::AwaitAppElement { pid, .. } => Some(
            LookupRequest::CreateApplicationElement { pid },
        ),
        LookupState::AwaitWorkspaceWindow { app, .. } => Some(
            LookupRequest::CopyAttribute { element: app, attribute: AxAttribute::FocusedWindow },
        ),
        LookupState::Found { .. } => None,
        LookupState::Failed(_) => None,
    }
}

/// `Release` of `e` when `cond` holds, nothing otherwise.
pub open spec fn release_if(cond: bool, e: usize) -> Seq<LookupEffect> {
    if cond {
        seq![LookupEffect::Release { element: e }]
    } else {
        seq![]
    }
}

/// The next state, and the effects that come with it, when `state` receives
/// `reply`.
///
/// The focused element's ancestors are searched, at most
/// `MAX_ANCESTOR_STEPS` of them, for the application; its focused window is
/// taken if there is one. Otherwise the focused element's window, then its
/// top-level element, then the focused element itself. Without a focused
/// element, the frontmost application's focused window. An ancestor other
/// than the focused element is released when the walk moves on to its
/// parent; the element at which the walk stops without finding the
/// application (its parent unreadable, or the limit reached) is not released.
pub open spec fn lookup_next(state: LookupState, reply: LookupReply) -> (
    LookupState,
    Seq<LookupEffect>,
) {
    let el = reply_element(reply);
    match state {
        LookupState::Begin => match el {
            Some(sw) => (LookupState::AwaitFocusedElement { system_wide: sw }, seq![]),
            None => (LookupState::Failed(LookupError::SystemWideUnavailable), seq![]),
        },
        LookupState::AwaitFocusedElement { system_wide } => match el {
            Some(f) => (
                LookupState::AwaitRole { system_wide, focused: f, current: f, depth: 0 },
                seq![],
            ),
            None => (LookupState::AwaitFrontmostPid { system_wide }, seq![]),
        },
        LookupState::AwaitRole { system_wide, focused, current, depth } => {
            if reply_is_application(reply) {
                (
                    LookupState::AwaitAppWindow { system_wide, focused, app: current },
                    seq![LookupEffect::EnableEnhancedUserInterface { element: current }],
                )
            } else {
                (LookupState::AwaitParent { system_wide, focused, current, depth }, seq![])
            }
        },
        LookupState::AwaitParent { system_wide, focused, current, depth } => match el {
            Some(parent) => {
                let effects = release_if(current != focused, current);
                if depth + 1 < MAX_ANCESTOR_STEPS {
                    (
                        LookupState::AwaitRole {
                            system_wide,
                            focused,
                            current: parent,
                            depth: (depth + 1) as u32,
                        },
                        effects,
                    )
                } else {
                    (LookupState::AwaitWindowAttribute { system_wide, focused }, effects)
                }
            },
            None => (LookupState::AwaitWindowAttribute { system_wide, focused }, seq![]),
        },
        LookupState::AwaitAppWindow { system_wide, focused, app } => {
            let release_app = release_if(app != focused, app);
            match el {
                Some(w) => (
                    LookupState::Found { window: w, system_wide },
                    release_app + release_if(focused != w, focused),
                ),
                None => (LookupState::AwaitWindowAttribute { system_wide, focused }, release_app),
            }
        },
        LookupState::AwaitWindowAttribute { system_wide, focused } => match el {
            Some(w) => (
                LookupState::Found { window: w, system_wide },
                seq![LookupEffect::Release { element: focused }],
            ),
            None => (LookupState::AwaitTopLevel { system_wide, focused }, seq![]),
        },
        LookupState::AwaitTopLevel { system_wide, focused } => match el {
            Some(w) => (
                LookupState::Found { window: w, system_wide },
                seq![LookupEffect::Release { element: focused }],
            ),
            None => (LookupState::Found { window: focused, system_wide }, seq![]),
        },
        LookupState::AwaitFrontmostPid { system_wide } => match reply_pid(reply) {
            Some(pid) => (LookupState::AwaitAppElement { system_wide, pid }, seq![]),
            None => (
                LookupState::Failed(LookupError::NoFrontmostApplication),
                seq![LookupEffect::Release { element: system_wide }],
            ),
        },
        LookupState::AwaitAppElement { system_wide, pid } => match el {
            Some(app) => (
                LookupState::AwaitWorkspaceWindow { system_wide, app },
                seq![LookupEffect::EnableEnhancedUserInterface { element: app }],
            ),
            None => (
                LookupState::Failed(LookupError::NoApplicationElement),
                seq![LookupEffect::Release { element: system_wide }],
            ),
        },
        LookupState::AwaitWorkspaceWindow { system_wide, app } => match el {
            Some(w) => (
                LookupState::Found { window: w, system_wide },
                seq![LookupEffect::Release { element: app }],
            ),
            None => (
                LookupState::Failed(LookupError::NoFocusedWindow),
                seq![
                    LookupEffect::Release { element: app },
                    LookupEffect::Release { element: system_wide },
                ],
            ),
        },
        LookupState::Found { .. } => (state, seq![]),
        LookupState::Failed(_) => (state, seq![]),
    }
}

/// The request the caller is to perform for `state`, or `None` once the
/// search is over.
pub fn pending_request(state: &LookupState) -> (r: Option<LookupRequest>)
    ensures
        r == request_of(*state),
{
    match *state {
        LookupState::Begin => Some(LookupRequest::CreateSystemWide),
        LookupState::AwaitFocusedElement { system_wide } => Some(
            LookupRequest::CopyAttribute {
                element: system_wide,
                attribute: AxAttribute::FocusedUIElement,
            },
        ),
        LookupState::AwaitRole { current, .. } => Some(
            LookupRequest::CopyRole { element: current },
        ),
        LookupState::AwaitParent { current, .. } => Some(
            LookupRequest::CopyAttribute { element: current, attribute: AxAttribute::Parent },
        ),
        LookupState::AwaitAppWindow { app, .. } => Some(
            LookupRequest::CopyAttribute { element: app, attribute: AxAttribute::FocusedWindow },
        ),
        LookupState::AwaitWindowAttribute { focused, .. } => Some(
            LookupRequest::CopyAttribute { element: focused, attribute: AxAttribute::Window },
        ),
        LookupState::AwaitTopLevel { focused, .. } => Some(
            LookupRequest::CopyAttribute {
                element: focused,
                attribute: AxAttribute::TopLevelElement,
            },
        ),
        LookupState::AwaitFrontmostPid { .. } => Some(LookupRequest::FrontmostApplicationPid),
        LookupState::AwaitAppElement { pid, .. } => Some(
            LookupRequest::CreateApplicationElement { pid },
        ),
        LookupState::AwaitWorkspaceWindow { app, .. } => Some(
            LookupRequest::CopyAttribute { element: app, attribute: AxAttribute::FocusedWindow },
        ),
        LookupState::Found { .. } => None,
        LookupState::Failed(_) => None,
    }
}

/// The role in the reply is the application role.
fn is_application_role(reply: &LookupReply) -> (b: bool)
    ensures
        b == reply_is_application(*reply),
{
    match reply {
        LookupReply::Role(Some(role)) => {
            let expected = String::from_str(APPLICATION_ROLE);
            *role == expected
        },
        _ => false,
    }
}

fn element_of(reply: &LookupReply) -> (e: Option<usize>)
    ensures
        e == reply_element(*reply),
{
    match reply {
        LookupReply::Element(e) => *e,
        _ => None,
    }
}

fn pid_of(reply: &LookupReply) -> (p: Option<i32>)
    ensures
        p == reply_pid(*reply),
{
    match reply {
        LookupReply::Pid(p) => *p,
        _ => None,
    }
}

/// The well-formed states: ancestor depths stay below the limit.
pub open spec fn lookup_wf(state: LookupState) -> bool {
    match state {
        LookupState::AwaitRole { depth, .. } => depth < MAX_ANCESTOR_STEPS,
        LookupState::AwaitParent { depth, .. } => depth < MAX_ANCESTOR_STEPS,
        _ => true,
    }
}

/// Moves the search on by one reply: the next state and the effects the
/// caller is to carry out before it performs the next request.
pub fn advance(state: LookupState, reply: &LookupReply) -> (r: (LookupState, Vec<LookupEffect>))
    ensures
        r.0 == lookup_next(state, *reply).0,
        r.1@ == lookup_next(state, *reply).1,
{
    let el = element_of(reply);
    let ghost expected = lookup_next(state, *reply);
    let r: (LookupState, Vec<LookupEffect>) = match state {
        LookupState::Begin => match el {
            Some(sw) => (LookupState::AwaitFocusedElement { system_wide: sw }, Vec::new()),
            None => (LookupState::Failed(LookupError::SystemWideUnavailable), Vec::new()),
        },
        LookupState::AwaitFocusedElement { system_wide } => match el {
            Some(f) => (
                LookupState::AwaitRole { system_wide, focused: f, current: f, depth: 0 },
                Vec::new(),
            ),
            None => (LookupState::AwaitFrontmostPid { system_wide }, Vec::new()),
        },
        LookupState::AwaitRole { system_wide, focused, current, depth } => {
            if is_application_role(reply) {
                (
                    LookupState::AwaitAppWindow { system_wide, focused, app: current },
                    vec![LookupEffect::EnableEnhancedUserInterface { element: current }],
                )
            } else {
                (LookupState::AwaitParent { system_wide, focused, current, depth }, Vec::new())
            }
        },
        LookupState::AwaitParent { system_wide, focused, current, depth } => match el {
            Some(parent) => {
                let mut effects: Vec<LookupEffect> = Vec::new();
                if current != focused {
                    effects.push(LookupEffect::Release { element: current });
                }
                if depth < MAX_ANCESTOR_STEPS - 1 {
                    (
                        LookupState::AwaitRole {
                            system_wide,
                            focused,
                            current: parent,
                            depth: depth + 1,
                        },
                        effects,
                    )
                } else {
                    (LookupState::AwaitWindowAttribute { system_wide, focused }, effects)
                }
            },
            None => (LookupState::AwaitWindowAttribute { system_wide, focused }, Vec::new()),
        },
        LookupState::AwaitAppWindow { system_wide, focused, app } => {
            let mut effects: Vec<LookupEffect> = Vec::new();
            if app != focused {
                effects.push(LookupEffect::Release { element: app });
            }
            match el {
                Some(w) => {
                    if focused != w {
                        effects.push(LookupEffect::Release { element: focused });
                    }
                    (LookupState::Found { window: w, system_wide }, effects)
                },
                None => (LookupState::AwaitWindowAttribute { system_wide, focused }, effects),
            }
        },
        LookupState::AwaitWindowAttribute { system_wide, focused } => match el {
            Some(w) => (
                LookupState::Found { window: w, system_wide },
                vec![LookupEffect::Release { element: focused }],
            ),
            None => (LookupState::AwaitTopLevel { system_wide, focused }, Vec::new()),
        },
        LookupState::AwaitTopLevel { system_wide, focused } => match el {
            Some(w) => (
                LookupState::Found { window: w, system_wide },
                vec![LookupEffect::Release { element: focused }],
            ),
            None => (LookupState::Found { window: focused, system_wide }, Vec::new()),
        },
        LookupState::AwaitFrontmostPid { system_wide } => match pid_of(reply) {
            Some(pid) => (LookupState::AwaitAppElement { system_wide, pid }, Vec::new()),
            None => (
                LookupState::Failed(LookupError::NoFrontmostApplication),
                vec![LookupEffect::Release { element: system_wide }],
            ),
        },
        LookupState::AwaitAppElement { system_wide, pid } => match el {
            Some(app) => (
                LookupState::AwaitWorkspaceWindow { system_wide, app },
                vec![LookupEffect::EnableEnhancedUserInterface { element: app }],
            ),
            None => (
                LookupState::Failed(LookupError::NoApplicationElement),
                vec![LookupEffect::Release { element: system_wide }],
            ),
        },
        LookupState::AwaitWorkspaceWindow { system_wide, app } => match el {
            Some(w) => (
                LookupState::Found { window: w, system_wide },
                vec![LookupEffect::Release { element: app }],
            ),
            None => (
                LookupState::Failed(LookupError::NoFocusedWindow),
                vec![
                    LookupEffect::Release { element: app },
                    LookupEffect::Release { element: system_wide },
                ],
            ),
        },
        LookupState::Found { window, system_wide } => (
            LookupState::Found { window, system_wide },
            Vec::new(),
        ),
        LookupState::Failed(e) => (LookupState::Failed(e), Vec::new()),
    };
    assert(r.1@ =~= expected.1);
    r
}

/// How many replies, at most, a search in `state` still waits for.
pub open spec fn lookup_rank(state: LookupState) -> nat {
    match state {
        LookupState::Begin => 25,
        LookupState::AwaitFocusedElement { .. } => 24,
        LookupState::AwaitRole { depth, .. } => (23 - 2 * depth) as nat,
        LookupState::AwaitParent { depth, .. } => (22 - 2 * depth) as nat,
        LookupState::AwaitAppWindow { .. } => 3,
        LookupState::AwaitWindowAttribute { .. } => 2,
        LookupState::AwaitTopLevel { .. } => 1,
        LookupState::AwaitFrontmostPid { .. } => 3,
        LookupState::AwaitAppElement { .. } => 2,
        LookupState::AwaitWorkspaceWindow { .. } => 1,
        LookupState::Found { .. } => 0,
        LookupState::Failed(_) => 0,
    }
}

/// The state reached from `state` after the replies, in order.
pub open spec fn run_lookup(state: LookupState, replies: Seq<LookupReply>) -> LookupState
    decreases replies.len(),
{
    if replies.len() == 0 {
        state
    } else {
        run_lookup(lookup_next(state, replies[0]).0, replies.drop_first())
    }
}

/// Each reply moves an unfinished, well-formed search to a well-formed state
/// that waits for fewer replies; a finished search stays as it is.
pub proof fn lemma_lookup_step(state: LookupState, reply: LookupReply)
    requires
        lookup_wf(state),
    ensures
        lookup_wf(lookup_next(state, reply).0),
        !is_finished(state) ==> lookup_rank(lookup_next(state, reply).0) < lookup_rank(state),
        !is_finished(state) <==> request_of(state) is Some,
        is_finished(state) ==> lookup_next(state, reply) == (state, Seq::<LookupEffect>::empty()),
{
}

/// A well-formed search ends once it has had as many replies as its rank.
pub proof fn lemma_lookup_run_ends(state: LookupState, replies: Seq<LookupReply>)
    requires
        lookup_wf(state),
        replies.len() >= lookup_rank(state),
    ensures
        is_finished(run_lookup(state, replies)),
    decreases replies.len(),
{
    if replies.len() == 0 {
        assert(lookup_rank(state) == 0);
    } else {
        lemma_lookup_step(state, replies[0]);
        let next = lookup_next(state, replies[0]).0;
        if is_finished(state) {
            assert(next == state);
        }
        lemma_lookup_run_ends(next, replies.drop_first());
    }
}

/// Law: the search for the focused window always ends, after at most 25
/// replies, whatever the system answers.
pub proof fn lemma_lookup_terminates(replies: Seq<LookupReply>)
    requires
        replies.len() >= 25,
    ensures
        is_finished(run_lookup(LookupState::Begin, replies)),
{
    lemma_lookup_run_ends(LookupState::Begin, replies);
}

/// The system-wide element the state holds, if any.
pub open spec fn system_wide_of(state: LookupState) -> Option<usize> {
    match state {
        LookupState::AwaitFocusedElement { system_wide } => Some(system_wide),
        LookupState::AwaitRole { system_wide, .. } => Some(system_wide),
        LookupState::AwaitParent { system_wide, .. } => Some(system_wide),
        LookupState::AwaitAppWindow { system_wide, .. } => Some(system_wide),
        LookupState::AwaitWindowAttribute { system_wide, .. } => Some(system_wide),
        LookupState::AwaitTopLevel { system_wide, .. } => Some(system_wide),
        LookupState::AwaitFrontmostPid { system_wide } => Some(system_wide),
        LookupState::AwaitAppElement { system_wide, .. } => Some(system_wide),
        LookupState::AwaitWorkspaceWindow { system_wide, .. } => Some(system_wide),
        LookupState::Found { system_wide, .. } => Some(system_wide),
        _ => None,
    }
}

/// `e` is one of the elements the state holds.
pub open spec fn holds_element(state: LookupState, e: usize) -> bool {
    match state {
        LookupState::AwaitFocusedElement { system_wide } => e == system_wide,
        LookupState::AwaitRole { system_wide, focused, current, .. } => e == system_wide || e
            == focused || e == current,
        LookupState::AwaitParent { system_wide, focused, current, .. } => e == system_wide || e
            == focused || e == current,
        LookupState::AwaitAppWindow { system_wide, focused, app } => e == system_wide || e
            == focused || e == app,
        LookupState::AwaitWindowAttribute { system_wide, focused } => e == system_wide || e
            == focused,
        LookupState::AwaitTopLevel { system_wide, focused } => e == system_wide || e == focused,
        LookupState::AwaitFrontmostPid { system_wide } => e == system_wide,
        LookupState::AwaitAppElement { system_wide, .. } => e == system_wide,
        LookupState::AwaitWorkspaceWindow { system_wide, app } => e == system_wide || e == app,
        LookupState::Found { window, system_wide } => e == system_wide || e == window,
        _ => false,
    }
}

/// The system-wide element differs from every other element the state holds.
pub open spec fn system_wide_apart(state: LookupState) -> bool {
    match state {
        LookupState::AwaitRole { system_wide, focused, current, .. } => system_wide != focused
            && system_wide != current,
        LookupState::AwaitParent { system_wide, focused, current, .. } => system_wide != focused
            && system_wide != current,
        LookupState::AwaitAppWindow { system_wide, focused, app } => system_wide != focused
            && system_wide != app,
        LookupState::AwaitWindowAttribute { system_wide, focused } => system_wide != focused,
        LookupState::AwaitTopLevel { system_wide, focused } => system_wide != focused,
        LookupState::AwaitWorkspaceWindow { system_wide, app } => system_wide != app,
        LookupState::Found { window, system_wide } => system_wide != window,
        _ => true,
    }
}

/// The element in the reply, if any, is none that the state already holds.
pub open spec fn reply_is_fresh(state: LookupState, reply: LookupReply) -> bool {
    match reply_element(reply) {
        Some(e) => !holds_element(state, e),
        None => true,
    }
}

/// Law: a search that fails after the system-wide element was created
/// releases that element in its last step.
pub proof fn lemma_failure_releases_system_wide(state: LookupState, reply: LookupReply)
    requires
        system_wide_of(state) is Some,
        lookup_next(state, reply).0 is Failed,
    ensures
        lookup_next(state, reply).1.contains(
            LookupEffect::Release { element: system_wide_of(state)->0 },
        ),
{
    let effects = lookup_next(state, reply).1;
    let sw = system_wide_of(state)->0;
    match state {
        LookupState::AwaitWorkspaceWindow { .. } => {
            assert(effects[1] == LookupEffect::Release { element: sw });
        },
        _ => {
            assert(effects[0] == LookupEffect::Release { element: sw });
        },
    }
}

/// Law: when the system hands out distinct elements, the step that finds the
/// window releases neither the window nor the system-wide element, which go
/// to the caller; and the system-wide element stays apart from the others.
pub proof fn lemma_found_keeps_its_elements(state: LookupState, reply: LookupReply)
    requires
        system_wide_apart(state),
        reply_is_fresh(state, reply),
    ensures
        system_wide_apart(lookup_next(state, reply).0),
        !(state is Found) && lookup_next(state, reply).0 is Found ==> {
            let next = lookup_next(state, reply).0;
            let effects = lookup_next(state, reply).1;
            forall|k: int|
                0 <= k < effects.len() ==> #[trigger] effects[k] != (LookupEffect::Release {
                    element: next->Found_window,
                }) && effects[k] != (LookupEffect::Release { element: next->Found_system_wide })
        },
{
    let (next, effects) = lookup_next(state, reply);
    if !(state is Found) && next is Found {
        assert forall|k: int| 0 <= k < effects.len() implies #[trigger] effects[k] != (
        LookupEffect::Release { element: next->Found_window }) && effects[k] != (LookupEffect::Release {
            element: next->Found_system_wide,
        }) by {
            match state {
                LookupState::AwaitAppWindow { system_wide, focused, app } => {
                    let w = next->Found_window;
                    let ra = release_if(app != focused, app);
                    let rf = release_if(focused != w, focused);
                    assert(effects == ra + rf);
                    if k < ra.len() {
                        assert(effects[k] == ra[k]);
                    } else {
                        assert(effects[k] == rf[k - ra.len()]);
                    }
                },
                _ => {},
            }
        }
    }
}

/// The search has found a focused element (or is already over with a window).
pub open spec fn has_focused_element(state: LookupState) -> bool {
    ||| state is AwaitRole
    ||| state is AwaitParent
    ||| state is AwaitAppWindow
    ||| state is AwaitWindowAttribute
    ||| state is AwaitTopLevel
    ||| state is Found
}

/// Law: once a focused element is found, the search never fails, whatever
/// the system answers: at worst it ends with the focused element itself.
pub proof fn lemma_focused_search_never_fails(state: LookupState, replies: Seq<LookupReply>)
    requires
        has_focused_element(state),
    ensures
        has_focused_element(run_lookup(state, replies)),
        !(run_lookup(state, replies) is Failed),
    decreases replies.len(),
{
    if replies.len() > 0 {
        let next = lookup_next(state, replies[0]).0;
        assert(has_focused_element(next));
        lemma_focused_search_never_fails(next, replies.drop_first());
    }
}

/// The effects of the whole run from `state` with the replies, in order.
pub open spec fn run_effects(state: LookupState, replies: Seq<LookupReply>) -> Seq<LookupEffect>
    decreases replies.len(),
{
    if replies.len() == 0 {
        seq![]
    } else {
        let (next, effects) = lookup_next(state, replies[0]);
        effects + run_effects(next, replies.drop_first())
    }
}

/// How many of the effects enable the enhanced user interface.
pub open spec fn enable_count(effects: Seq<LookupEffect>) -> nat
    decreases effects.len(),
{
    if effects.len() == 0 {
        0
    } else {
        (if effects[0] is EnableEnhancedUserInterface {
            1nat
        } else {
            0nat
        }) + enable_count(effects.drop_first())
    }
}

proof fn lemma_enable_count_concat(a: Seq<LookupEffect>, b: Seq<LookupEffect>)
    ensures
        enable_count(a + b) == enable_count(a) + enable_count(b),
    decreases a.len(),
{
    if a.len() == 0 {
        assert(a + b =~= b);
    } else {
        assert((a + b).drop_first() =~= a.drop_first() + b);
        lemma_enable_count_concat(a.drop_first(), b);
    }
}

proof fn lemma_enable_count_none(effects: Seq<LookupEffect>)
    requires
        forall|k: int| 0 <= k < effects.len() ==> !(#[trigger] effects[k] is EnableEnhancedUserInterface),
    ensures
        enable_count(effects) == 0,
    decreases effects.len(),
{
    if effects.len() > 0 {
        assert forall|k: int| 0 <= k < effects.drop_first().len() implies !(
        #[trigger] effects.drop_first()[k] is EnableEnhancedUserInterface) by {
            assert(effects.drop_first()[k] == effects[k + 1]);
        }
        lemma_enable_count_none(effects.drop_first());
    }
}

/// The search has not yet enabled the enhanced user interface, and may still.
pub open spec fn may_enable(state: LookupState) -> bool {
    ||| state is Begin
    ||| state is AwaitFocusedElement
    ||| state is AwaitRole
    ||| state is AwaitParent
    ||| state is AwaitFrontmostPid
    ||| state is AwaitAppElement
}

/// Law: a step enables the enhanced user interface only on an application
/// element: the current element once its role is the application role, or
/// the element created for the frontmost application; and it enables it at
/// most once, after which no later step does.
pub proof fn lemma_enable_only_on_application(state: LookupState, reply: LookupReply)
    ensures
        ({
            let (next, effects) = lookup_next(state, reply);
            &&& forall|k: int|
                0 <= k < effects.len() && #[trigger] effects[k] is EnableEnhancedUserInterface
                    ==> {
                    ||| (state is AwaitRole && reply_is_application(reply) && effects[k]
                        == LookupEffect::EnableEnhancedUserInterface {
                        element: state->AwaitRole_current,
                    })
                    ||| (state is AwaitAppElement && reply_element(reply) == Some(
                        effects[k]->EnableEnhancedUserInterface_element,
                    ))
                }
            &&& enable_count(effects) <= (if may_enable(state) {
                1nat
            } else {
                0nat
            })
            &&& enable_count(effects) > 0 ==> !may_enable(next)
            &&& !may_enable(state) ==> !may_enable(next)
        }),
{
    let (next, effects) = lookup_next(state, reply);
    reveal_with_fuel(enable_count, 2);
    match state {
        LookupState::AwaitAppWindow { system_wide, focused, app } => {
            assert forall|k: int| 0 <= k < effects.len() implies !(
            #[trigger] effects[k] is EnableEnhancedUserInterface) by {
                let ra = release_if(app != focused, app);
                let el = reply_element(reply);
                let rest = match el {
                    Some(w) => release_if(focused != w, focused),
                    None => seq![],
                };
                assert(effects == ra + rest);
                if k < ra.len() {
                    assert(effects[k] == ra[k]);
                } else {
                    assert(effects[k] == rest[k - ra.len()]);
                }
            }
            lemma_enable_count_none(effects);
        },
        LookupState::AwaitRole { .. } => {
            if !reply_is_application(reply) {
                assert(effects.len() == 0);
            }
        },
        LookupState::AwaitAppElement { .. } => {},
        _ => {
            assert forall|k: int| 0 <= k < effects.len() implies !(
            #[trigger] effects[k] is EnableEnhancedUserInterface) by {}
            lemma_enable_count_none(effects);
        },
    }
}

/// The effects of a run from `state` enable the enhanced user interface at
/// most once, and not at all once the state may no longer enable it.
proof fn lemma_run_enables_at_most_once(state: LookupState, replies: Seq<LookupReply>)
    ensures
        enable_count(run_effects(state, replies)) <= (if may_enable(state) {
            1nat
        } else {
            0nat
        }),
    decreases replies.len(),
{
    if replies.len() > 0 {
        let (next, effects) = lookup_next(state, replies[0]);
        lemma_enable_only_on_application(state, replies[0]);
        lemma_run_enables_at_most_once(next, replies.drop_first());
        lemma_enable_count_concat(effects, run_effects(next, replies.drop_first()));
    }
}

/// Law: a whole search enables the enhanced user interface at most once,
/// whatever the system answers.
pub proof fn lemma_search_enables_at_most_once(replies: Seq<LookupReply>)
    ensures
        enable_count(run_effects(LookupState::Begin, replies)) <= 1,
{
    lemma_run_enables_at_most_once(LookupState::Begin, replies);
}

/// Law: the focused window is asked only of an application element, and of
/// the very element that the step into that state recognised as one: the
/// element whose role came back as the application role, or the element
/// just created for the frontmost application. It is the element whose
/// enhanced user interface that step enabled.
pub proof fn lemma_window_asked_of_application(state: LookupState, reply: LookupReply, e: usize)
    requires
        request_of(lookup_next(state, reply).0) == Some(
            LookupRequest::CopyAttribute { element: e, attribute: AxAttribute::FocusedWindow },
        ),
    ensures
        (state is AwaitRole && reply_is_application(reply) && e == state->AwaitRole_current) || (
        state is AwaitAppElement && reply_element(reply) == Some(e)),
        lookup_next(state, reply).1 == seq![LookupEffect::EnableEnhancedUserInterface { element: e }],
{
}

} // verus!

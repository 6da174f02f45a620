use window_tuner::focus::{
    advance, pending_request, AxAttribute, LookupEffect, LookupError, LookupReply, LookupRequest,
    LookupState, APPLICATION_ROLE, MAX_ANCESTOR_STEPS,
};

fn element(e: usize) -> LookupReply {
    LookupReply::Element(Some(e))
}

fn role(r: &str) -> LookupReply {
    LookupReply::Role(Some(r.to_string()))
}

/// Feeds the replies in turn; returns the final state and all effects.
fn run(replies: Vec<LookupReply>) -> (LookupState, Vec<LookupEffect>) {
    let mut state = LookupState::Begin;
    let mut all = Vec::new();
    for reply in replies {
        let (next, effects) = advance(state, &reply);
        state = next;
        all.extend(effects);
    }
    (state, all)
}

#[test]
fn requests_follow_the_state() {
    assert_eq!(pending_request(&LookupState::Begin), Some(LookupRequest::CreateSystemWide));
    assert_eq!(
        pending_request(&LookupState::AwaitFocusedElement { system_wide: 1 }),
        Some(LookupRequest::CopyAttribute { element: 1, attribute: AxAttribute::FocusedUIElement })
    );
    assert_eq!(
        pending_request(&LookupState::AwaitRole { system_wide: 1, focused: 2, current: 3, depth: 1 }),
        Some(LookupRequest::CopyRole { element: 3 })
    );
    assert_eq!(
        pending_request(&LookupState::AwaitParent { system_wide: 1, focused: 2, current: 3, depth: 1 }),
        Some(LookupRequest::CopyAttribute { element: 3, attribute: AxAttribute::Parent })
    );
    assert_eq!(
        pending_request(&LookupState::AwaitAppElement { system_wide: 1, pid: 42 }),
        Some(LookupRequest::CreateApplicationElement { pid: 42 })
    );
    assert_eq!(pending_request(&LookupState::Found { window: 4, system_wide: 1 }), None);
    assert_eq!(pending_request(&LookupState::Failed(LookupError::NoFocusedWindow)), None);
}

#[test]
fn window_found_through_the_application() {
    let (state, effects) = run(vec![
        element(1),
        element(2),
        role("AXTextField"),
        element(3),
        role("AXWindow"),
        element(5),
        role(APPLICATION_ROLE),
        element(9),
    ]);
    assert_eq!(state, LookupState::Found { window: 9, system_wide: 1 });
    assert_eq!(
        effects,
        vec![
            LookupEffect::Release { element: 3 },
            LookupEffect::EnableEnhancedUserInterface { element: 5 },
            LookupEffect::Release { element: 5 },
            LookupEffect::Release { element: 2 },
        ]
    );
}

#[test]
fn focused_element_that_is_the_application() {
    let (state, effects) = run(vec![element(1), element(2), role("AXApplication"), element(2)]);
    assert_eq!(state, LookupState::Found { window: 2, system_wide: 1 });
    assert_eq!(effects, vec![LookupEffect::EnableEnhancedUserInterface { element: 2 }]);
}

#[test]
fn application_without_focused_window_falls_back_to_the_window_attribute() {
    let (state, effects) = run(vec![
        element(1),
        element(2),
        role("AXButton"),
        element(3),
        role("AXApplication"),
        LookupReply::Element(None),
        element(7),
    ]);
    assert_eq!(state, LookupState::Found { window: 7, system_wide: 1 });
    assert_eq!(
        effects,
        vec![
            LookupEffect::EnableEnhancedUserInterface { element: 3 },
            LookupEffect::Release { element: 3 },
            LookupEffect::Release { element: 2 },
        ]
    );
}

#[test]
fn fallbacks_top_level_element_then_focused_element() {
    let (state, effects) = run(vec![
        element(1),
        element(2),
        LookupReply::Role(None),
        LookupReply::Element(None),
        LookupReply::Element(None),
        element(8),
    ]);
    assert_eq!(state, LookupState::Found { window: 8, system_wide: 1 });
    assert_eq!(effects, vec![LookupEffect::Release { element: 2 }]);

    let (state, effects) = run(vec![
        element(1),
        element(2),
        LookupReply::Role(None),
        LookupReply::Element(None),
        LookupReply::Element(None),
        LookupReply::Element(None),
    ]);
    assert_eq!(state, LookupState::Found { window: 2, system_wide: 1 });
    assert_eq!(effects, vec![]);
}

#[test]
fn ancestor_search_stops_after_the_limit() {
    let mut replies = vec![element(1), element(100)];
    for k in 0..MAX_ANCESTOR_STEPS as usize {
        replies.push(role("AXGroup"));
        replies.push(element(101 + k));
    }
    let mut state = LookupState::Begin;
    for reply in &replies {
        state = advance(state, reply).0;
    }
    assert_eq!(state, LookupState::AwaitWindowAttribute { system_wide: 1, focused: 100 });
}

#[test]
fn workspace_fallback() {
    let (state, effects) = run(vec![
        element(1),
        LookupReply::Element(None),
        LookupReply::Pid(Some(42)),
        element(6),
        element(7),
    ]);
    assert_eq!(state, LookupState::Found { window: 7, system_wide: 1 });
    assert_eq!(
        effects,
        vec![
            LookupEffect::EnableEnhancedUserInterface { element: 6 },
            LookupEffect::Release { element: 6 },
        ]
    );
}

#[test]
fn each_failure() {
    let (state, effects) = run(vec![LookupReply::Element(None)]);
    assert_eq!(state, LookupState::Failed(LookupError::SystemWideUnavailable));
    assert_eq!(effects, vec![]);

    let (state, effects) =
        run(vec![element(1), LookupReply::Element(None), LookupReply::Pid(None)]);
    assert_eq!(state, LookupState::Failed(LookupError::NoFrontmostApplication));
    assert_eq!(effects, vec![LookupEffect::Release { element: 1 }]);

    let (state, effects) = run(vec![
        element(1),
        LookupReply::Element(None),
        LookupReply::Pid(Some(42)),
        LookupReply::Element(None),
    ]);
    assert_eq!(state, LookupState::Failed(LookupError::NoApplicationElement));
    assert_eq!(effects, vec![LookupEffect::Release { element: 1 }]);

    let (state, effects) = run(vec![
        element(1),
        LookupReply::Element(None),
        LookupReply::Pid(Some(42)),
        element(6),
        LookupReply::Element(None),
    ]);
    assert_eq!(state, LookupState::Failed(LookupError::NoFocusedWindow));
    assert_eq!(
        effects,
        vec![
            LookupEffect::EnableEnhancedUserInterface { element: 6 },
            LookupEffect::Release { element: 6 },
            LookupEffect::Release { element: 1 },
        ]
    );
}

#[test]
fn a_reply_of_the_wrong_kind_counts_as_a_failure() {
    let (state, _) = run(vec![LookupReply::Pid(Some(3))]);
    assert_eq!(state, LookupState::Failed(LookupError::SystemWideUnavailable));
}

#[test]
fn finished_states_stay() {
    let done = LookupState::Found { window: 4, system_wide: 1 };
    assert_eq!(advance(done, &element(9)), (done, vec![]));
    let failed = LookupState::Failed(LookupError::NoFrontmostApplication);
    assert_eq!(advance(failed, &element(9)), (failed, vec![]));
}

#[test]
fn the_search_always_ends_within_25_replies() {
    // Every reply fails or names a new element and a non-application role.
    let mut state = LookupState::Begin;
    let mut replies = 0;
    let mut next_element = 10;
    while pending_request(&state).is_some() {
        let reply = match pending_request(&state).unwrap() {
            LookupRequest::CopyRole { .. } => role("AXGroup"),
            LookupRequest::FrontmostApplicationPid => LookupReply::Pid(Some(1)),
            LookupRequest::CopyAttribute { attribute: AxAttribute::Parent, .. } => {
                next_element += 1;
                element(next_element)
            }
            LookupRequest::CreateSystemWide => element(1),
            _ => LookupReply::Element(None),
        };
        state = advance(state, &reply).0;
        replies += 1;
    }
    assert!(replies <= 25);
}

#[test]
fn attribute_names_and_messages() {
    assert_eq!(AxAttribute::FocusedUIElement.name(), "AXFocusedUIElement");
    assert_eq!(AxAttribute::Role.name(), "AXRole");
    assert_eq!(AxAttribute::Parent.name(), "AXParent");
    assert_eq!(AxAttribute::FocusedWindow.name(), "AXFocusedWindow");
    assert_eq!(AxAttribute::Window.name(), "AXWindow");
    assert_eq!(AxAttribute::TopLevelElement.name(), "AXTopLevelElement");
    assert_eq!(AxAttribute::EnhancedUserInterface.name(), "AXEnhancedUserInterface");
    assert_eq!(LookupError::SystemWideUnavailable.message(), "Failed to create system wide element");
    assert_eq!(LookupError::NoFrontmostApplication.message(), "Failed to get frontmost application");
    assert_eq!(
        LookupError::NoApplicationElement.message(),
        "Failed to create application element from PID"
    );
    assert_eq!(
        LookupError::NoFocusedWindow.message(),
        "Failed to find focused window even via NSWorkspace fallback"
    );
}

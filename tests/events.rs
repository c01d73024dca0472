use rs_d3d::events::{dispatch, dispatch_all, LoopAction, LoopEvent, LoopPolicy, WindowInput};

fn ours(input: WindowInput) -> LoopEvent {
    LoopEvent::Window { input, ours: true }
}

#[test]
fn idle_notifications_each_request_one_redraw() {
    let policy = LoopPolicy::rendering();
    let events = vec![LoopEvent::AboutToWait; 4];
    let actions = dispatch_all(policy, &events);
    assert_eq!(actions, vec![LoopAction::RequestRedraw; 4]);
    assert!(dispatch_all(policy, &Vec::new()).is_empty());
}

#[test]
fn rendering_loop_answers() {
    let policy = LoopPolicy::rendering();
    assert_eq!(dispatch(policy, ours(WindowInput::CloseRequested)), LoopAction::Exit);
    assert_eq!(dispatch(policy, ours(WindowInput::RedrawRequested)), LoopAction::Render);
    assert_eq!(dispatch(policy, ours(WindowInput::EscapePressed)), LoopAction::Nothing);
    assert_eq!(dispatch(policy, ours(WindowInput::Other)), LoopAction::Nothing);
    assert_eq!(dispatch(policy, LoopEvent::Other), LoopAction::Nothing);
    let foreign = LoopEvent::Window { input: WindowInput::CloseRequested, ours: false };
    assert_eq!(dispatch(policy, foreign), LoopAction::Nothing);
}

#[test]
fn window_loop_answers() {
    let policy = LoopPolicy::window_only();
    assert_eq!(dispatch(policy, ours(WindowInput::CloseRequested)), LoopAction::Exit);
    assert_eq!(dispatch(policy, ours(WindowInput::EscapePressed)), LoopAction::Exit);
    assert_eq!(dispatch(policy, ours(WindowInput::RedrawRequested)), LoopAction::Nothing);
    assert_eq!(dispatch(policy, LoopEvent::AboutToWait), LoopAction::Nothing);
}

#[test]
fn mixed_run_keeps_order() {
    let policy = LoopPolicy::rendering();
    let events = vec![
        LoopEvent::AboutToWait,
        ours(WindowInput::RedrawRequested),
        LoopEvent::AboutToWait,
        ours(WindowInput::CloseRequested),
    ];
    assert_eq!(
        dispatch_all(policy, &events),
        vec![
            LoopAction::RequestRedraw,
            LoopAction::Render,
            LoopAction::RequestRedraw,
            LoopAction::Exit
        ]
    );
}

use vstd::prelude::*;

verus! {

/// A window event, as far as the event loops look at it.
#[derive(Clone, Copy, Debug, PartialEq, Eq, Structural)]
pub enum WindowInput {
    CloseRequested,
    /// The Escape key went down.
    EscapePressed,
    RedrawRequested,
    Other,
}

/// An event of the platform event loop.
#[derive(Clone, Copy, Debug, PartialEq, Eq, Structural)]
pub enum LoopEvent {
    /// An event of a window; `ours` tells whether it is the loop's own window.
    Window { input: WindowInput, ours: bool },
    /// The loop is about to wait for new events.
    AboutToWait,
    Other,
}

#[derive(Clone, Copy, Debug, PartialEq, Eq, Structural)]
pub enum LoopAction {
    Exit,
    /// Tell the windowing system a present is coming, then render a frame.
    Render,
    RequestRedraw,
    Nothing,
}

/// How an event loop answers events.
#[derive(Clone, Copy, Debug, PartialEq, Eq, Structural)]
pub struct LoopPolicy {
    /// Render on redraw requests and ask for a redraw whenever idle.
    pub continuous_redraw: bool,
    /// Leave the loop when Escape is pressed as well as on close.
    pub exit_on_escape: bool,
}

impl LoopPolicy {
    /// The rendering loop: renders continuously, leaves on close.
    pub fn rendering() -> (r: Self)
        ensures
            r.continuous_redraw && !r.exit_on_escape,
    {
        LoopPolicy { continuous_redraw: true, exit_on_escape: false }
    }

    /// The plain window loop: draws nothing, leaves on close or Escape.
    pub fn window_only() -> (r: Self)
        ensures
            !r.continuous_redraw && r.exit_on_escape,
    {
        LoopPolicy { continuous_redraw: false, exit_on_escape: true }
    }
}

pub open spec fn action_spec(policy: LoopPolicy, event: LoopEvent) -> LoopAction {
    match event {
        LoopEvent::Window { input, ours } => if !ours {
            LoopAction::Nothing
        } else {
            match input {
                WindowInput::CloseRequested => LoopAction::Exit,
                WindowInput::EscapePressed => if policy.exit_on_escape {
                    LoopAction::Exit
                } else {
                    LoopAction::Nothing
                },
                WindowInput::RedrawRequested => if policy.continuous_redraw {
                    LoopAction::Render
                } else {
                    LoopAction::Nothing
                },
                WindowInput::Other => LoopAction::Nothing,
            }
        },
        LoopEvent::AboutToWait => if policy.continuous_redraw {
            LoopAction::RequestRedraw
        } else {
            LoopAction::Nothing
        },
        LoopEvent::Other => LoopAction::Nothing,
    }
}

/// The answers of the loop to `events`, one for each, in order.
pub open spec fn actions_spec(policy: LoopPolicy, events: Seq<LoopEvent>) -> Seq<LoopAction> {
    events.map_values(|e: LoopEvent| action_spec(policy, e))
}

/// The answer of the loop to one event.
pub fn dispatch(policy: LoopPolicy, event: LoopEvent) -> (r: LoopAction)
    ensures
        r == action_spec(policy, event),
{
    match event {
        LoopEvent::Window { input, ours } => {
            if !ours {
                return LoopAction::Nothing;
            }
            match input {
                WindowInput::CloseRequested => LoopAction::Exit,
                WindowInput::EscapePressed => if policy.exit_on_escape {
                    LoopAction::Exit
                } else {
                    LoopAction::Nothing
                },
                WindowInput::RedrawRequested => if policy.continuous_redraw {
                    LoopAction::Render
                } else {
                    LoopAction::Nothing
                },
                WindowInput::Other => LoopAction::Nothing,
            }
        },
        LoopEvent::AboutToWait => if policy.continuous_redraw {
            LoopAction::RequestRedraw
        } else {
            LoopAction::Nothing
        },
        LoopEvent::Other => LoopAction::Nothing,
    }
}

/// The answers of the loop to a run of events, one for each, in order.
pub fn dispatch_all(policy: LoopPolicy, events: &Vec<LoopEvent>) -> (r: Vec<LoopAction>)
    ensures
        r@ == actions_spec(policy, events@),
{
    let mut r: Vec<LoopAction> = Vec::new();
    let mut i: usize = 0;
    while i < events.len()
        invariant
            i <= events@.len(),
            r@ == actions_spec(policy, events@.take(i as int)),
        decreases events.len() - i,
    {
        r.push(dispatch(policy, events[i]));
        assert(events@.take(i as int + 1) =~= events@.take(i as int).push(events@[i as int]));
        i = i + 1;
        assert(r@ =~= actions_spec(policy, events@.take(i as int)));
    }
    assert(events@.take(i as int) =~= events@);
    r
}

/// Number of redraw requests among `actions`.
pub open spec fn redraw_requests(actions: Seq<LoopAction>) -> nat
    decreases actions.len(),
{
    if actions.len() == 0 {
        0
    } else {
        redraw_requests(actions.drop_last()) + if actions.last() == LoopAction::RequestRedraw {
            1nat
        } else {
            0nat
        }
    }
}

/// Under the rendering policy, a run of idle notifications with no window
/// event in between gets exactly one redraw request per notification.
pub proof fn lemma_idle_redraws(policy: LoopPolicy, events: Seq<LoopEvent>)
    requires
        policy.continuous_redraw,
        forall|i: int| 0 <= i < events.len() ==> events[i] == LoopEvent::AboutToWait,
    ensures
        forall|i: int| 0 <= i < events.len()
            ==> #[trigger] actions_spec(policy, events)[i]
            == LoopAction::RequestRedraw,
        redraw_requests(actions_spec(policy, events)) == events.len(),
    decreases events.len(),
{
    let actions = actions_spec(policy, events);
    if events.len() > 0 {
        let prefix = events.drop_last();
        lemma_idle_redraws(policy, prefix);
        assert(actions.drop_last() =~= actions_spec(policy, prefix));
    }
}

} // verus!

use vstd::prelude::*;

verus! {

/// Number of back buffers in the swap chain.
pub const FRAME_COUNT: u32 = 2;

/// Vertical-sync interval used for every present.
pub const PRESENT_SYNC_INTERVAL: u32 = 1;

/// Vertices drawn per frame: one triangle.
pub const TRIANGLE_VERTICES: u32 = 3;

#[derive(Clone, Copy, Debug, PartialEq, Eq, Structural)]
pub enum ResourceState {
    Present,
    RenderTarget,
}

/// One command of a frame's command list. The viewport, scissor rectangle and
/// clear color are those bound with the surface.
#[derive(Clone, Copy, Debug, PartialEq, Eq, Structural)]
pub enum Command {
    ResetAllocator,
    ResetList,
    SetViewport,
    SetScissorRect,
    Transition { buffer: u32, before: ResourceState, after: ResourceState },
    SetRenderTarget { buffer: u32 },
    ClearRenderTarget { buffer: u32 },
    SetTriangleList,
    Draw { vertex_count: u32, instance_count: u32 },
    Close,
}

/// The command sequence recorded for a frame drawn into back buffer `buffer`.
pub open spec fn frame_commands(buffer: u32) -> Seq<Command> {
    seq![
        Command::ResetAllocator,
        Command::ResetList,
        Command::SetViewport,
        Command::SetScissorRect,
        Command::Transition {
            buffer,
            before: ResourceState::Present,
            after: ResourceState::RenderTarget,
        },
        Command::SetRenderTarget { buffer },
        Command::ClearRenderTarget { buffer },
        Command::SetTriangleList,
        Command::Draw { vertex_count: TRIANGLE_VERTICES, instance_count: 1 },
        Command::Transition {
            buffer,
            before: ResourceState::RenderTarget,
            after: ResourceState::Present,
        },
        Command::Close,
    ]
}

/// Records the commands of one frame into back buffer `buffer`.
pub fn record_frame(buffer: u32) -> (r: Vec<Command>)
    ensures
        r@ == frame_commands(buffer),
{
    let r = vec![
        Command::ResetAllocator,
        Command::ResetList,
        Command::SetViewport,
        Command::SetScissorRect,
        Command::Transition {
            buffer,
            before: ResourceState::Present,
            after: ResourceState::RenderTarget,
        },
        Command::SetRenderTarget { buffer },
        Command::ClearRenderTarget { buffer },
        Command::SetTriangleList,
        Command::Draw { vertex_count: TRIANGLE_VERTICES, instance_count: 1 },
        Command::Transition {
            buffer,
            before: ResourceState::RenderTarget,
            after: ResourceState::Present,
        },
        Command::Close,
    ];
    assert(r@ =~= frame_commands(buffer));
    r
}

/// Number of transitions of `buffer` into state `to` in `cmds`.
pub open spec fn transitions_to(cmds: Seq<Command>, buffer: u32, to: ResourceState) -> nat
    decreases cmds.len(),
{
    if cmds.len() == 0 {
        0
    } else {
        let rest = transitions_to(cmds.drop_last(), buffer, to);
        match cmds.last() {
            Command::Transition { buffer: b, after, .. } => if b == buffer && after == to {
                rest + 1
            } else {
                rest
            },
            _ => rest,
        }
    }
}

/// Counts the transitions of `buffer` into state `to` in `cmds`.
pub fn count_transitions(cmds: &Vec<Command>, buffer: u32, to: ResourceState) -> (r: usize)
    ensures
        r == transitions_to(cmds@, buffer, to),
{
    let mut n: usize = 0;
    let mut i: usize = 0;
    while i < cmds.len()
        invariant
            i <= cmds@.len(),
            n == transitions_to(cmds@.take(i as int), buffer, to),
            n <= i,
        decreases cmds.len() - i,
    {
        assert(cmds@.take(i as int + 1).drop_last() =~= cmds@.take(i as int));
        match cmds[i] {
            Command::Transition { buffer: b, after, .. } => {
                if b == buffer && after == to {
                    n = n + 1;
                }
            },
            _ => {},
        }
        i = i + 1;
    }
    assert(cmds@.take(cmds@.len() as int) =~= cmds@);
    n
}

/// Every recorded frame moves its back buffer into the render-target state
/// exactly once and back to the presentable state exactly once, and touches no
/// other buffer.
pub proof fn lemma_barrier_symmetry(buffer: u32, other: u32)
    requires
        other != buffer,
    ensures
        transitions_to(frame_commands(buffer), buffer, ResourceState::RenderTarget) == 1,
        transitions_to(frame_commands(buffer), buffer, ResourceState::Present) == 1,
        transitions_to(frame_commands(buffer), other, ResourceState::RenderTarget) == 0,
        transitions_to(frame_commands(buffer), other, ResourceState::Present) == 0,
{
    let c = frame_commands(buffer);
    reveal_with_fuel(transitions_to, 12);
    assert(c.drop_last() =~= c.take(10));
    assert(c.take(10).drop_last() =~= c.take(9));
    assert(c.take(9).drop_last() =~= c.take(8));
    assert(c.take(8).drop_last() =~= c.take(7));
    assert(c.take(7).drop_last() =~= c.take(6));
    assert(c.take(6).drop_last() =~= c.take(5));
    assert(c.take(5).drop_last() =~= c.take(4));
    assert(c.take(4).drop_last() =~= c.take(3));
    assert(c.take(3).drop_last() =~= c.take(2));
    assert(c.take(2).drop_last() =~= c.take(1));
    assert(c.take(1).drop_last() =~= c.take(0));
}

/// Where a frame stands between two render calls. A render call takes the
/// synchronizer from `Ready` through `Submitted` (and `Waiting`, while the GPU
/// is behind) to `Presented`, and back to `Ready` once the presentation layer
/// has reported the new back buffer.
#[derive(Clone, Copy, Debug, PartialEq, Eq, Structural)]
pub enum FramePhase {
    Ready,
    Submitted,
    Waiting,
    Presented,
}

#[derive(Clone, Copy, Debug, PartialEq, Eq, Structural)]
pub enum FrameError {
    /// The call does not fit the phase the frame is in.
    OutOfOrder,
    /// The fence counter cannot be advanced any further.
    FenceExhausted,
    /// The presentation layer reported a back buffer that does not exist.
    BackBufferOutOfRange(u32),
}

#[derive(Clone, Copy, Debug, PartialEq, Eq, Structural)]
pub enum BindError {
    /// A swap chain needs at least one back buffer.
    NoBackBuffers,
    /// The presentation layer reported a back buffer that does not exist.
    BackBufferOutOfRange(u32),
}

/// What to submit for one frame: execute `commands`, present with
/// `sync_interval`, then have the queue signal the fence to `fence_value`.
pub struct Submission {
    pub commands: Vec<Command>,
    pub sync_interval: u32,
    pub fence_value: u64,
}

/// What the fence's completed value means for the frame in flight.
#[derive(Clone, Copy, Debug, PartialEq, Eq, Structural)]
pub enum FenceStep {
    /// The GPU is behind: block until the fence reaches this value, then
    /// report the completed value again.
    Wait(u64),
    /// The frame's work is complete.
    Reached,
}

/// The frame renderer's state and its fence synchronizer: one frame in flight
/// at most, and the command allocator is reset only once the GPU has finished
/// the previous frame.
pub struct FrameSync {
    buffer_count: u32,
    frame_index: u32,
    fence_value: u64,
    completed: u64,
    phase: FramePhase,
    signaled: Ghost<Seq<u64>>,
}

impl FrameSync {
    pub closed spec fn buffer_count_spec(&self) -> u32 {
        self.buffer_count
    }

    /// The back buffer that the next frame draws into.
    pub closed spec fn frame_index_spec(&self) -> u32 {
        self.frame_index
    }

    /// The fence value the next frame will signal.
    pub closed spec fn fence_value_spec(&self) -> u64 {
        self.fence_value
    }

    /// The fence's completed value as last reported.
    pub closed spec fn completed_spec(&self) -> u64 {
        self.completed
    }

    pub closed spec fn phase_spec(&self) -> FramePhase {
        self.phase
    }

    /// The fence values signaled so far, one per submitted frame, in order.
    pub closed spec fn signaled_spec(&self) -> Seq<u64> {
        self.signaled@
    }

    pub closed spec fn wf(&self) -> bool {
        &&& self.buffer_count >= 1
        &&& self.frame_index < self.buffer_count
        &&& self.fence_value == self.signaled@.len() + 1
        &&& forall|k: int| 0 <= k < self.signaled@.len() ==> self.signaled@[k] == k + 1
        &&& self.phase != FramePhase::Ready ==> self.signaled@.len() > 0
        &&& (self.phase == FramePhase::Ready || self.phase == FramePhase::Presented)
            && self.signaled@.len() > 0 ==> self.completed >= self.signaled@.last()
    }

    /// The state right after binding to a swap chain of `buffer_count` back
    /// buffers whose current one is `initial_index`: nothing signaled yet, the
    /// first frame signals 1.
    pub fn bind(buffer_count: u32, initial_index: u32) -> (r: Result<FrameSync, BindError>)
        ensures
            buffer_count == 0 ==> r == Err::<FrameSync, BindError>(BindError::NoBackBuffers),
            buffer_count > 0 && initial_index >= buffer_count
                ==> r == Err::<FrameSync, BindError>(BindError::BackBufferOutOfRange(initial_index)),
            buffer_count > 0 && initial_index < buffer_count ==> (r matches Ok(s) && {
                &&& s.wf()
                &&& s.buffer_count_spec() == buffer_count
                &&& s.frame_index_spec() == initial_index
                &&& s.fence_value_spec() == 1
                &&& s.completed_spec() == 0
                &&& s.phase_spec() == FramePhase::Ready
                &&& s.signaled_spec() == Seq::<u64>::empty()
            }),
    {
        if buffer_count == 0 {
            return Err(BindError::NoBackBuffers);
        }
        if initial_index >= buffer_count {
            return Err(BindError::BackBufferOutOfRange(initial_index));
        }
        Ok(FrameSync {
            buffer_count,
            frame_index: initial_index,
            fence_value: 1,
            completed: 0,
            phase: FramePhase::Ready,
            signaled: Ghost(Seq::empty()),
        })
    }

    pub fn buffer_count(&self) -> (r: u32)
        ensures
            r == self.buffer_count_spec(),
    {
        self.buffer_count
    }

    pub fn frame_index(&self) -> (r: u32)
        ensures
            r == self.frame_index_spec(),
    {
        self.frame_index
    }

    pub fn fence_value(&self) -> (r: u64)
        ensures
            r == self.fence_value_spec(),
    {
        self.fence_value
    }

    pub fn completed_value(&self) -> (r: u64)
        ensures
            r == self.completed_spec(),
    {
        self.completed
    }

    pub fn phase(&self) -> (r: FramePhase)
        ensures
            r == self.phase_spec(),
    {
        self.phase
    }

    /// Starts a frame: resets the allocator and records the frame's commands
    /// into the current back buffer, and takes the next fence value for it.
    /// Only a `Ready` frame starts, so the allocator is never reset while the
    /// previous frame's commands may still run.
    pub fn begin_frame(&mut self) -> (r: Result<Submission, FrameError>)
        requires
            old(self).wf(),
        ensures
            final(self).wf(),
            old(self).phase_spec() != FramePhase::Ready ==> (r matches Err(e)
                && e == FrameError::OutOfOrder && *final(self) == *old(self)),
            old(self).phase_spec() == FramePhase::Ready && old(self).fence_value_spec() == u64::MAX
                ==> (r matches Err(e) && e == FrameError::FenceExhausted && *final(self) == *old(self)),
            old(self).phase_spec() == FramePhase::Ready && old(self).fence_value_spec() < u64::MAX
                ==> (r matches Ok(sub) && {
                &&& sub.commands@ == frame_commands(old(self).frame_index_spec())
                &&& sub.sync_interval == PRESENT_SYNC_INTERVAL
                &&& sub.fence_value == old(self).fence_value_spec()
                &&& final(self).fence_value_spec() == old(self).fence_value_spec() + 1
                &&& final(self).signaled_spec() == old(self).signaled_spec().push(sub.fence_value)
                &&& final(self).phase_spec() == FramePhase::Submitted
                &&& final(self).frame_index_spec() == old(self).frame_index_spec()
                &&& final(self).buffer_count_spec() == old(self).buffer_count_spec()
                &&& final(self).completed_spec() == old(self).completed_spec()
            }),
            r is Ok ==> old(self).signaled_spec().len() > 0
                ==> old(self).completed_spec() >= old(self).signaled_spec().last(),
    {
        if self.phase != FramePhase::Ready {
            return Err(FrameError::OutOfOrder);
        }
        if self.fence_value == u64::MAX {
            return Err(FrameError::FenceExhausted);
        }
        let commands = record_frame(self.frame_index);
        let fence_value = self.fence_value;
        self.fence_value = fence_value + 1;
        self.signaled = Ghost(self.signaled@.push(fence_value));
        self.phase = FramePhase::Submitted;
        Ok(Submission { commands, sync_interval: PRESENT_SYNC_INTERVAL, fence_value })
    }

    /// Takes the fence's completed value, read after the submission or after
    /// a wait, and says whether the frame's work is done.
    pub fn fence_progress(&mut self, completed: u64) -> (r: Result<FenceStep, FrameError>)
        requires
            old(self).wf(),
        ensures
            final(self).wf(),
            old(self).phase_spec() != FramePhase::Submitted && old(self).phase_spec()
                != FramePhase::Waiting ==> (r matches Err(e) && e == FrameError::OutOfOrder
                && *final(self) == *old(self)),
            old(self).phase_spec() == FramePhase::Submitted || old(self).phase_spec()
                == FramePhase::Waiting ==> {
                let pending = old(self).signaled_spec().last();
                &&& final(self).completed_spec() == completed
                &&& final(self).signaled_spec() == old(self).signaled_spec()
                &&& final(self).fence_value_spec() == old(self).fence_value_spec()
                &&& final(self).frame_index_spec() == old(self).frame_index_spec()
                &&& final(self).buffer_count_spec() == old(self).buffer_count_spec()
                &&& pending == old(self).fence_value_spec() - 1
                &&& completed >= pending ==> r == Ok::<FenceStep, FrameError>(FenceStep::Reached)
                    && final(self).phase_spec() == FramePhase::Presented
                &&& completed < pending ==> r == Ok::<FenceStep, FrameError>(FenceStep::Wait(pending))
                    && final(self).phase_spec() == FramePhase::Waiting
            },
    {
        if self.phase != FramePhase::Submitted && self.phase != FramePhase::Waiting {
            return Err(FrameError::OutOfOrder);
        }
        let pending = self.fence_value - 1;
        self.completed = completed;
        if completed >= pending {
            self.phase = FramePhase::Presented;
            Ok(FenceStep::Reached)
        } else {
            self.phase = FramePhase::Waiting;
            Ok(FenceStep::Wait(pending))
        }
    }

    /// Takes the back buffer index that the presentation layer reports after
    /// the present, and makes the frame ready for the next render call.
    pub fn present_completed(&mut self, index: u32) -> (r: Result<(), FrameError>)
        requires
            old(self).wf(),
        ensures
            final(self).wf(),
            old(self).phase_spec() != FramePhase::Presented ==> r == Err::<(), FrameError>(
                FrameError::OutOfOrder,
            ) && *final(self) == *old(self),
            old(self).phase_spec() == FramePhase::Presented && index >= old(self).buffer_count_spec()
                ==> r == Err::<(), FrameError>(FrameError::BackBufferOutOfRange(index))
                && *final(self) == *old(self),
            old(self).phase_spec() == FramePhase::Presented && index < old(self).buffer_count_spec()
                ==> r == Ok::<(), FrameError>(()) && {
                &&& final(self).frame_index_spec() == index
                &&& final(self).phase_spec() == FramePhase::Ready
                &&& final(self).completed_spec() == old(self).completed_spec()
                &&& final(self).signaled_spec() == old(self).signaled_spec()
                &&& final(self).fence_value_spec() == old(self).fence_value_spec()
                &&& final(self).buffer_count_spec() == old(self).buffer_count_spec()
            },
    {
        if self.phase != FramePhase::Presented {
            return Err(FrameError::OutOfOrder);
        }
        if index >= self.buffer_count {
            return Err(FrameError::BackBufferOutOfRange(index));
        }
        self.frame_index = index;
        self.phase = FramePhase::Ready;
        Ok(())
    }
}

/// The fence values of successive frames strictly increase: frame `i` (from
/// zero) signals `i + 1`.
pub proof fn lemma_fence_values_increase(s: FrameSync, i: int, j: int)
    requires
        s.wf(),
        0 <= i < j < s.signaled_spec().len(),
    ensures
        s.signaled_spec()[i] < s.signaled_spec()[j],
        s.signaled_spec()[i] == i + 1,
{
}

/// A frame starts (and its allocator is reset) only when the GPU has been
/// seen to complete the fence value of the previous frame.
pub proof fn lemma_no_premature_reuse(s: FrameSync)
    requires
        s.wf(),
        s.phase_spec() == FramePhase::Ready,
        s.signaled_spec().len() > 0,
    ensures
        s.completed_spec() >= s.signaled_spec().last(),
{
}

/// The current back buffer index is always one of the swap chain's buffers.
pub proof fn lemma_back_buffer_index_valid(s: FrameSync)
    requires
        s.wf(),
    ensures
        s.frame_index_spec() < s.buffer_count_spec(),
{
}

} // verus!

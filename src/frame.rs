use vstd::prelude::*;

verus! {

/// Where one redraw stands.
#[derive(Clone, Copy, Debug, PartialEq, Eq, Structural)]
pub enum FramePhase {
    Idle,
    AcquireFailed,
    Recording,
    Submitted,
    Presented,
}

/// The outside work that the phase asks for next.
#[derive(Clone, Copy, Debug, PartialEq, Eq, Structural)]
pub enum FrameAction {
    /// Acquire the next presentable image.
    AcquireImage,
    /// Record the pass of `pass_commands` into a fresh encoder, finish it and
    /// submit it to the queue.
    RecordAndSubmit,
    /// Present the acquired image.
    Present,
    /// The frame is on screen.
    Finished,
    /// No image could be acquired: the frame is lost.
    Abort,
}

impl FramePhase {
    pub open spec fn spec_action(self) -> FrameAction {
        match self {
            FramePhase::Idle => FrameAction::AcquireImage,
            FramePhase::Recording => FrameAction::RecordAndSubmit,
            FramePhase::Submitted => FrameAction::Present,
            FramePhase::Presented => FrameAction::Finished,
            FramePhase::AcquireFailed => FrameAction::Abort,
        }
    }

    /// The phase after its action was carried out; `ok` says whether it
    /// succeeded. Only acquiring can fail; the two end phases stay.
    pub open spec fn spec_next(self, ok: bool) -> FramePhase {
        match self {
            FramePhase::Idle => if ok {
                FramePhase::Recording
            } else {
                FramePhase::AcquireFailed
            },
            FramePhase::Recording => FramePhase::Submitted,
            FramePhase::Submitted => FramePhase::Presented,
            FramePhase::Presented => FramePhase::Presented,
            FramePhase::AcquireFailed => FramePhase::AcquireFailed,
        }
    }

    pub open spec fn is_terminal(self) -> bool {
        self == FramePhase::Presented || self == FramePhase::AcquireFailed
    }

    /// The outside work this phase asks for.
    pub fn action(&self) -> (a: FrameAction)
        ensures
            a == self.spec_action(),
    {
        match self {
            FramePhase::Idle => FrameAction::AcquireImage,
            FramePhase::Recording => FrameAction::RecordAndSubmit,
            FramePhase::Submitted => FrameAction::Present,
            FramePhase::Presented => FrameAction::Finished,
            FramePhase::AcquireFailed => FrameAction::Abort,
        }
    }

    /// Moves on once the action of this phase was carried out.
    pub fn next(self, ok: bool) -> (p: FramePhase)
        ensures
            p == self.spec_next(ok),
    {
        match self {
            FramePhase::Idle => if ok {
                FramePhase::Recording
            } else {
                FramePhase::AcquireFailed
            },
            FramePhase::Recording => FramePhase::Submitted,
            FramePhase::Submitted => FramePhase::Presented,
            FramePhase::Presented => FramePhase::Presented,
            FramePhase::AcquireFailed => FramePhase::AcquireFailed,
        }
    }

    /// The phase reached after carrying out the actions with the given
    /// outcomes, one after another.
    pub open spec fn run(self, outcomes: Seq<bool>) -> FramePhase
        decreases outcomes.len(),
    {
        if outcomes.len() == 0 {
            self
        } else {
            self.spec_next(outcomes[0]).run(outcomes.drop_first())
        }
    }

    /// How many times the image is presented along that run.
    pub open spec fn presents(self, outcomes: Seq<bool>) -> nat
        decreases outcomes.len(),
    {
        if outcomes.len() == 0 {
            0
        } else {
            (if self.spec_action() == FrameAction::Present {
                1nat
            } else {
                0nat
            }) + self.spec_next(outcomes[0]).presents(outcomes.drop_first())
        }
    }
}

proof fn lemma_presents_bound(p: FramePhase, outcomes: Seq<bool>)
    ensures
        p.presents(outcomes) <= (if p == FramePhase::Idle || p == FramePhase::Recording
            || p == FramePhase::Submitted {
            1nat
        } else {
            0nat
        }),
        p.run(outcomes) == FramePhase::Presented && p != FramePhase::Presented ==> p.presents(
            outcomes,
        ) == 1,
        p.run(outcomes) != FramePhase::Presented ==> p.presents(outcomes) == 0,
    decreases outcomes.len(),
{
    if outcomes.len() > 0 {
        let q = p.spec_next(outcomes[0]);
        lemma_presents_bound(q, outcomes.drop_first());
        if q.is_terminal() {
            lemma_terminal_stays(q, outcomes.drop_first());
        }
    }
}

/// A redraw presents its image at most once, whatever the outcomes, and
/// exactly once when it ends in `Presented`.
pub proof fn lemma_at_most_one_present(outcomes: Seq<bool>)
    ensures
        FramePhase::Idle.presents(outcomes) <= 1,
        FramePhase::Idle.presents(outcomes) == 1 <==> FramePhase::Idle.run(outcomes)
            == FramePhase::Presented,
{
    lemma_presents_bound(FramePhase::Idle, outcomes);
}

/// A redraw whose acquire succeeds is presented after three steps and then
/// stays presented; one whose acquire fails never leaves `AcquireFailed`.
pub proof fn lemma_frame_ends(outcomes: Seq<bool>)
    requires
        outcomes.len() >= 3,
    ensures
        outcomes[0] ==> FramePhase::Idle.run(outcomes) == FramePhase::Presented,
        !outcomes[0] ==> FramePhase::Idle.run(outcomes) == FramePhase::AcquireFailed,
        FramePhase::Idle.run(outcomes).is_terminal(),
{
    let o1 = outcomes.drop_first();
    let o2 = o1.drop_first();
    let o3 = o2.drop_first();
    if outcomes[0] {
        assert(FramePhase::Idle.run(outcomes) == FramePhase::Recording.run(o1));
        assert(FramePhase::Recording.run(o1) == FramePhase::Submitted.run(o2));
        assert(FramePhase::Submitted.run(o2) == FramePhase::Presented.run(o3));
        lemma_terminal_stays(FramePhase::Presented, o3);
    } else {
        assert(FramePhase::Idle.run(outcomes) == FramePhase::AcquireFailed.run(o1));
        lemma_terminal_stays(FramePhase::AcquireFailed, o1);
    }
}

proof fn lemma_terminal_stays(p: FramePhase, outcomes: Seq<bool>)
    requires
        p.is_terminal(),
    ensures
        p.run(outcomes) == p,
    decreases outcomes.len(),
{
    if outcomes.len() > 0 {
        lemma_terminal_stays(p, outcomes.drop_first());
    }
}

/// One command of the frame's render pass.
#[derive(Clone, Copy, Debug, PartialEq, Eq, Structural)]
pub enum PassCommand {
    /// Open the pass, clearing the target.
    BeginPass,
    SetPipeline,
    SetBindGroup { slot: u32 },
    SetVertexBuffer { slot: u32 },
    /// Bind the index buffer, read as 16-bit indices.
    SetIndexBuffer16,
    DrawIndexed { first_index: u32, index_count: u32, base_vertex: i32, instance_count: u32 },
    /// Close the pass, before the encoder is finished.
    EndPass,
}

/// The pass of one frame: open it, bind the pipeline, the bind groups in
/// slot order, the vertex and the index buffer, draw the whole index range
/// once, close it.
pub open spec fn spec_pass_commands(index_count: u32, bind_groups: u32) -> Seq<PassCommand> {
    seq![PassCommand::BeginPass, PassCommand::SetPipeline] + Seq::new(
        bind_groups as nat,
        |i: int| PassCommand::SetBindGroup { slot: i as u32 },
    ) + seq![
        PassCommand::SetVertexBuffer { slot: 0 },
        PassCommand::SetIndexBuffer16,
        PassCommand::DrawIndexed {
            first_index: 0,
            index_count,
            base_vertex: 0,
            instance_count: 1,
        },
        PassCommand::EndPass,
    ]
}

/// Commands of the frame's single render pass.
pub fn pass_commands(index_count: u32, bind_groups: u32) -> (r: Vec<PassCommand>)
    ensures
        r@ == spec_pass_commands(index_count, bind_groups),
        r@.len() == bind_groups + 6,
{
    let mut r: Vec<PassCommand> = vec![PassCommand::BeginPass, PassCommand::SetPipeline];
    let mut slot: u32 = 0;
    while slot < bind_groups
        invariant
            slot <= bind_groups,
            r@ == seq![PassCommand::BeginPass, PassCommand::SetPipeline] + Seq::new(
                slot as nat,
                |i: int| PassCommand::SetBindGroup { slot: i as u32 },
            ),
        decreases bind_groups - slot,
    {
        r.push(PassCommand::SetBindGroup { slot });
        slot = slot + 1;
        assert(r@ =~= seq![PassCommand::BeginPass, PassCommand::SetPipeline] + Seq::new(
            slot as nat,
            |i: int| PassCommand::SetBindGroup { slot: i as u32 },
        ));
    }
    r.push(PassCommand::SetVertexBuffer { slot: 0 });
    r.push(PassCommand::SetIndexBuffer16);
    r.push(
        PassCommand::DrawIndexed { first_index: 0, index_count, base_vertex: 0, instance_count: 1 },
    );
    r.push(PassCommand::EndPass);
    assert(r@ =~= spec_pass_commands(index_count, bind_groups));
    r
}

/// The frame's commands open exactly one pass, first, and close it last, so
/// the pass is closed before the encoder is finished; they draw exactly once.
pub proof fn lemma_single_pass(index_count: u32, bind_groups: u32)
    ensures
        ({
            let c = spec_pass_commands(index_count, bind_groups);
            &&& c[0] == PassCommand::BeginPass
            &&& c[c.len() - 1] == PassCommand::EndPass
            &&& forall|i: int|
                0 < i < c.len() - 1 ==> #[trigger] c[i] != PassCommand::BeginPass && c[i]
                    != PassCommand::EndPass
            &&& forall|i: int|
                0 <= i < c.len() && (#[trigger] c[i]) is DrawIndexed ==> i == c.len() - 2
        }),
{
    let c = spec_pass_commands(index_count, bind_groups);
    let n = bind_groups as int;
    assert(c.len() == n + 6);
    assert forall|i: int| 0 <= i < c.len() implies {
        &&& (0 < i < c.len() - 1 ==> c[i] != PassCommand::BeginPass && c[i] != PassCommand::EndPass)
        &&& (c[i] is DrawIndexed ==> i == c.len() - 2)
    } by {
        if 2 <= i < n + 2 {
            assert(c[i] == PassCommand::SetBindGroup { slot: (i - 2) as u32 });
        }
    }
}

} // verus!

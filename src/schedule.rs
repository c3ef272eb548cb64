//! The order in which frames are rendered. Sequentially, every frame index is
//! rendered for red, then green, then blue before the next index; concurrently,
//! each channel's worker renders its own frames in index order. A worker's
//! progress is a small state machine.

use vstd::prelude::*;
use crate::channel::Channel;

verus! {

/// Rendering frame `frame` of the animation of `channel`.
#[derive(Clone, Copy, Debug, PartialEq, Eq, Structural)]
pub struct FrameJob {
    pub channel: Channel,
    pub frame: u32,
}

/// The three jobs of one frame index, red first.
pub open spec fn frame_round(i: u32) -> Seq<FrameJob> {
    seq![
        FrameJob { channel: Channel::Red, frame: i },
        FrameJob { channel: Channel::Green, frame: i },
        FrameJob { channel: Channel::Blue, frame: i },
    ]
}

/// All jobs of `n` frames, one frame index after another.
pub open spec fn sequential_plan(n: nat) -> Seq<FrameJob>
    decreases n,
{
    if n == 0 {
        Seq::empty()
    } else {
        sequential_plan((n - 1) as nat) + frame_round((n - 1) as u32)
    }
}

/// The jobs of one channel's worker: frames `0..n` in order.
pub open spec fn channel_plan(c: Channel, n: nat) -> Seq<FrameJob> {
    Seq::new(n, |i: int| FrameJob { channel: c, frame: i as u32 })
}

/// The jobs for rendering `frame_count` frames of all three channels on one
/// thread.
pub fn sequential_schedule(frame_count: u32) -> (jobs: Vec<FrameJob>)
    requires
        3 * frame_count <= usize::MAX,
    ensures
        jobs@ == sequential_plan(frame_count as nat),
{
    let mut jobs: Vec<FrameJob> = Vec::new();
    let mut i: u32 = 0;
    while i < frame_count
        invariant
            3 * frame_count <= usize::MAX,
            i <= frame_count,
            jobs@ == sequential_plan(i as nat),
        decreases frame_count - i,
    {
        jobs.push(FrameJob { channel: Channel::Red, frame: i });
        jobs.push(FrameJob { channel: Channel::Green, frame: i });
        jobs.push(FrameJob { channel: Channel::Blue, frame: i });
        assert(jobs@ =~= sequential_plan(i as nat) + frame_round(i));
        i = i + 1;
    }
    jobs
}

/// The jobs of one channel's worker for `frame_count` frames.
pub fn channel_schedule(channel: Channel, frame_count: u32) -> (jobs: Vec<FrameJob>)
    ensures
        jobs@ == channel_plan(channel, frame_count as nat),
{
    let mut jobs: Vec<FrameJob> = Vec::new();
    let mut i: u32 = 0;
    while i < frame_count
        invariant
            i <= frame_count,
            jobs@ =~= channel_plan(channel, i as nat),
        decreases frame_count - i,
    {
        jobs.push(FrameJob { channel, frame: i });
        i = i + 1;
    }
    jobs
}

pub open spec fn is_channel(c: Channel) -> spec_fn(FrameJob) -> bool {
    |j: FrameJob| j.channel == c
}

/// The two strategies do the same work for each channel: the jobs of one
/// channel in the sequential schedule are exactly that channel's worker
/// schedule, in the same order.
pub proof fn lemma_strategies_agree(n: nat)
    requires
        n <= u32::MAX,
    ensures
        forall|c: Channel| #[trigger] sequential_plan(n).filter(is_channel(c)) == channel_plan(c, n),
    decreases n,
{
    assert forall|c: Channel| #[trigger] sequential_plan(n).filter(is_channel(c)) == channel_plan(c, n) by {
        if n > 0 {
            let m = (n - 1) as nat;
            lemma_strategies_agree(m);
            let round = frame_round(m as u32);
            Seq::filter_distributes_over_add(sequential_plan(m), round, is_channel(c));
            reveal_with_fuel(Seq::filter, 4);
            assert(round.drop_last().drop_last().drop_last() =~= Seq::<FrameJob>::empty());
            assert(round.drop_last().drop_last() =~= seq![round[0]]);
            assert(round.drop_last() =~= seq![round[0], round[1]]);
            assert(round.filter(is_channel(c)) =~= seq![FrameJob { channel: c, frame: m as u32 }]);
            assert(sequential_plan(n).filter(is_channel(c)) =~= channel_plan(c, n));
        } else {
            reveal(Seq::filter);
            assert(sequential_plan(n).filter(is_channel(c)) =~= channel_plan(c, n));
        }
    }
}

/// Where one channel's pipeline stands.
#[derive(Clone, Copy, Debug, PartialEq, Eq, Structural)]
pub enum Stage {
    Idle,
    Loading,
    CloudBuilt,
    /// Rendering the frame of this index.
    Rendering(u32),
    Finalized,
}

/// The stage after the current one has succeeded, for an animation of `n`
/// frames. Finalized is final; nothing goes back.
pub open spec fn next_stage(s: Stage, n: nat) -> Stage {
    match s {
        Stage::Idle => Stage::Loading,
        Stage::Loading => Stage::CloudBuilt,
        Stage::CloudBuilt => if n == 0 {
            Stage::Finalized
        } else {
            Stage::Rendering(0)
        },
        Stage::Rendering(i) => if i + 1 < n {
            Stage::Rendering((i + 1) as u32)
        } else {
            Stage::Finalized
        },
        Stage::Finalized => Stage::Finalized,
    }
}

/// The stage reached from `s` after `k` successful steps.
pub open spec fn stage_after(s: Stage, n: nat, k: nat) -> Stage
    decreases k,
{
    if k == 0 {
        s
    } else {
        next_stage(stage_after(s, n, (k - 1) as nat), n)
    }
}

/// Moves a pipeline on once its current stage has succeeded.
pub fn advance(stage: Stage, frame_count: u32) -> (next: Stage)
    ensures
        next == next_stage(stage, frame_count as nat),
{
    match stage {
        Stage::Idle => Stage::Loading,
        Stage::Loading => Stage::CloudBuilt,
        Stage::CloudBuilt => if frame_count == 0 {
            Stage::Finalized
        } else {
            Stage::Rendering(0)
        },
        Stage::Rendering(i) => if i < frame_count && i + 1 < frame_count {
            Stage::Rendering(i + 1)
        } else {
            Stage::Finalized
        },
        Stage::Finalized => Stage::Finalized,
    }
}

/// A pipeline whose cloud is built renders frames `0, 1, ..., n - 1`, each
/// once and in that order, and is finalized right after the last one; the
/// frames it renders are its channel's worker schedule.
pub proof fn lemma_frames_in_order(c: Channel, n: nat)
    requires
        n <= u32::MAX,
    ensures
        forall|k: nat|
            1 <= k <= n ==> #[trigger] stage_after(Stage::CloudBuilt, n, k) == Stage::Rendering(
                channel_plan(c, n)[k - 1].frame,
            ),
        stage_after(Stage::CloudBuilt, n, n + 1) == Stage::Finalized,
{
    assert forall|k: nat| 1 <= k <= n implies #[trigger] stage_after(Stage::CloudBuilt, n, k)
        == Stage::Rendering((k - 1) as u32) by {
        lemma_rendering_step(n, k);
    }
    if n > 0 {
        lemma_rendering_step(n, n);
    } else {
        assert(stage_after(Stage::CloudBuilt, n, 0) == Stage::CloudBuilt);
    }
}

proof fn lemma_rendering_step(n: nat, k: nat)
    requires
        n <= u32::MAX,
        1 <= k <= n,
    ensures
        stage_after(Stage::CloudBuilt, n, k) == Stage::Rendering((k - 1) as u32),
    decreases k,
{
    if k > 1 {
        lemma_rendering_step(n, (k - 1) as nat);
    } else {
        assert(stage_after(Stage::CloudBuilt, n, 0) == Stage::CloudBuilt);
    }
}

} // verus!

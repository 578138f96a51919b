//! The control schedule: a plan of 40 values is read as 20 checkpoints of two
//! channels each, and every checkpoint is realised over 10 substeps that blend
//! from the previous checkpoint's value toward the current one.
use vstd::prelude::*;

verus! {

/// Number of values in a plan.
pub const PLAN_LEN: usize = 40;

/// Number of control channels per checkpoint.
pub const CHANNELS: usize = 2;

/// Number of checkpoints in a plan.
pub const CHECKPOINTS: usize = 20;

/// Number of substeps over which one checkpoint is realised.
pub const SUBSTEPS_PER_CHECKPOINT: usize = 10;

/// Number of substeps in a whole evaluation.
pub const TOTAL_SUBSTEPS: usize = 200;

/// Why a plan was refused.
#[derive(Clone, Copy, Debug, PartialEq, Eq, Structural)]
pub enum PlanError {
    /// The plan does not hold exactly `PLAN_LEN` values; `len` is what it held.
    InvalidInput { len: usize },
}

/// Where one substep sits in the schedule.
#[derive(Clone, Copy, Debug, PartialEq, Eq, Structural)]
pub struct ControlPoint {
    /// The checkpoint, below `CHECKPOINTS`.
    pub checkpoint: usize,
    /// The substep within the checkpoint, below `SUBSTEPS_PER_CHECKPOINT`.
    pub substep: usize,
}

/// What one channel blends between during a checkpoint: the plan index of the
/// value it starts from (none before the first checkpoint, where the channel's
/// resting value is used) and the plan index of the value it moves toward.
#[derive(Clone, Copy, Debug, PartialEq, Eq, Structural)]
pub struct ChannelBlend {
    pub from: Option<usize>,
    pub to: usize,
}

/// The plan index of `channel` at `checkpoint`.
pub open spec fn plan_index(checkpoint: int, channel: int) -> int {
    CHANNELS * checkpoint + channel
}

/// The blend of `channel` during `checkpoint`.
pub open spec fn blend_spec(checkpoint: int, channel: int) -> (Option<int>, int) {
    (
        if checkpoint == 0 {
            None
        } else {
            Some(plan_index(checkpoint - 1, channel))
        },
        plan_index(checkpoint, channel),
    )
}

/// Resting value of `channel` before the first checkpoint, in halves.
pub open spec fn resting_halves_spec(channel: int) -> int {
    if channel == 0 {
        1
    } else {
        0
    }
}

/// Accepts a plan exactly when it holds `PLAN_LEN` values.
pub fn validate_plan_len<T>(plan: &[T]) -> (r: Result<(), PlanError>)
    ensures
        r is Ok <==> plan@.len() == PLAN_LEN,
        r is Err ==> r == Err::<(), PlanError>(PlanError::InvalidInput { len: plan@.len() as usize }),
{
    let len = plan.len();
    if len == PLAN_LEN {
        Ok(())
    } else {
        Err(PlanError::InvalidInput { len })
    }
}

/// The checkpoint and in-checkpoint substep of overall substep `step`.
pub fn control_point(step: usize) -> (r: ControlPoint)
    requires
        step < TOTAL_SUBSTEPS,
    ensures
        r.checkpoint == step / SUBSTEPS_PER_CHECKPOINT,
        r.substep == step % SUBSTEPS_PER_CHECKPOINT,
        r.checkpoint < CHECKPOINTS,
        r.substep < SUBSTEPS_PER_CHECKPOINT,
{
    ControlPoint { checkpoint: step / SUBSTEPS_PER_CHECKPOINT, substep: step % SUBSTEPS_PER_CHECKPOINT }
}

/// The plan indices that `channel` blends between during `checkpoint`.
pub fn channel_blend(checkpoint: usize, channel: usize) -> (r: ChannelBlend)
    requires
        checkpoint < CHECKPOINTS,
        channel < CHANNELS,
    ensures
        r.to as int == blend_spec(checkpoint as int, channel as int).1,
        r.from is None <==> blend_spec(checkpoint as int, channel as int).0 is None,
        r.from is Some ==> r.from->0 as int == blend_spec(checkpoint as int, channel as int).0->0,
        r.to < PLAN_LEN,
        r.from is Some ==> r.from->0 < PLAN_LEN,
{
    let to = CHANNELS * checkpoint + channel;
    let from = if checkpoint == 0 {
        None
    } else {
        Some(CHANNELS * (checkpoint - 1) + channel)
    };
    ChannelBlend { from, to }
}

/// Resting value of `channel` before the first checkpoint, in halves.
pub fn resting_halves(channel: usize) -> (r: u32)
    requires
        channel < CHANNELS,
    ensures
        r as int == resting_halves_spec(channel as int),
{
    if channel == 0 {
        1
    } else {
        0
    }
}

/// Every substep of the evaluation reads only plan indices below `PLAN_LEN`,
/// and each checkpoint starts from the values its predecessor moved toward.
pub proof fn lemma_schedule_in_range(step: int, channel: int)
    requires
        0 <= step < TOTAL_SUBSTEPS,
        0 <= channel < CHANNELS,
    ensures
        0 <= blend_spec(step / SUBSTEPS_PER_CHECKPOINT as int, channel).1 < PLAN_LEN,
        step / SUBSTEPS_PER_CHECKPOINT as int > 0 ==> blend_spec(step / SUBSTEPS_PER_CHECKPOINT as int, channel).0
            == Some(blend_spec(step / SUBSTEPS_PER_CHECKPOINT as int - 1, channel).1),
{
}

} // verus!

use qwop_fast::schedule::{
    channel_blend, control_point, resting_halves, validate_plan_len, ChannelBlend, PlanError,
    PLAN_LEN, TOTAL_SUBSTEPS,
};

#[test]
fn plan_of_forty_values_is_accepted() {
    let plan = vec![0.0f64; 40];
    assert_eq!(validate_plan_len(&plan), Ok(()));
    assert_eq!(PLAN_LEN, 40);
}

#[test]
fn short_plan_is_refused() {
    let plan = vec![0.0f64; 39];
    assert_eq!(validate_plan_len(&plan), Err(PlanError::InvalidInput { len: 39 }));
}

#[test]
fn long_and_empty_plans_are_refused() {
    let plan = vec![1.0f64; 41];
    assert_eq!(validate_plan_len(&plan), Err(PlanError::InvalidInput { len: 41 }));
    let empty: Vec<f64> = Vec::new();
    assert_eq!(validate_plan_len(&empty), Err(PlanError::InvalidInput { len: 0 }));
}

#[test]
fn substeps_map_to_checkpoints() {
    let first = control_point(0);
    assert_eq!((first.checkpoint, first.substep), (0, 0));
    let mid = control_point(57);
    assert_eq!((mid.checkpoint, mid.substep), (5, 7));
    let last = control_point(TOTAL_SUBSTEPS - 1);
    assert_eq!((last.checkpoint, last.substep), (19, 9));
}

#[test]
fn first_checkpoint_blends_from_rest() {
    assert_eq!(channel_blend(0, 0), ChannelBlend { from: None, to: 0 });
    assert_eq!(channel_blend(0, 1), ChannelBlend { from: None, to: 1 });
    assert_eq!(resting_halves(0), 1);
    assert_eq!(resting_halves(1), 0);
}

#[test]
fn later_checkpoints_blend_from_the_previous_values() {
    assert_eq!(channel_blend(1, 0), ChannelBlend { from: Some(0), to: 2 });
    assert_eq!(channel_blend(7, 1), ChannelBlend { from: Some(13), to: 15 });
    assert_eq!(channel_blend(19, 1), ChannelBlend { from: Some(37), to: 39 });
}

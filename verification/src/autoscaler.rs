//! Scaling actions and the instance counts they aim at.
use vstd::prelude::*;

verus! {

/// What to do about the size of the cluster.
#[derive(Debug)]
pub enum ScalingAction {
    /// Add instances.
    ScaleUp {
        /// Instances wanted.
        target_instances: u32,
        /// Why.
        reason: String,
    },
    /// Remove instances.
    ScaleDown {
        /// Instances wanted.
        target_instances: u32,
        /// Why.
        reason: String,
    },
    /// Leave the cluster as it is.
    NoAction,
}

impl Clone for ScalingAction {
    fn clone(&self) -> (r: Self)
        ensures
            r == *self,
    {
        match self {
            ScalingAction::ScaleUp { target_instances, reason } =>
                ScalingAction::ScaleUp { target_instances: *target_instances, reason: reason.clone() },
            ScalingAction::ScaleDown { target_instances, reason } =>
                ScalingAction::ScaleDown { target_instances: *target_instances, reason: reason.clone() },
            ScalingAction::NoAction => ScalingAction::NoAction,
        }
    }
}

/// The instances after scaling up from `current` by `step`: at most `max`.
pub open spec fn up_target(current: u32, step: u32, max: u32) -> u32 {
    if current + step < max { (current + step) as u32 } else { max }
}

/// The instances after scaling down from `current` by `step`: at least
/// `min`, and never below zero.
pub open spec fn down_target(current: u32, step: u32, min: u32) -> u32 {
    let lowered: u32 = if step <= current { (current - step) as u32 } else { 0 };
    if lowered < min { min } else { lowered }
}

/// The instances that scaling up from `current` by `step` aims at, at most `max`.
pub fn scale_up_target(current: u32, step: u32, max: u32) -> (r: u32)
    requires
        current + step <= u32::MAX,
    ensures
        r == up_target(current, step, max),
{
    let raised = current + step;
    if raised < max { raised } else { max }
}

/// The instances that scaling down from `current` by `step` aims at, at least `min`.
pub fn scale_down_target(current: u32, step: u32, min: u32) -> (r: u32)
    ensures
        r == down_target(current, step, min),
{
    let lowered = current.saturating_sub(step);
    if lowered < min { min } else { lowered }
}

/// The instances an action leaves the cluster with, starting from `current`.
pub open spec fn instances_after(action: ScalingAction, current: u32) -> u32 {
    match action {
        ScalingAction::ScaleUp { target_instances, .. } => target_instances,
        ScalingAction::ScaleDown { target_instances, .. } => target_instances,
        ScalingAction::NoAction => current,
    }
}

/// The instances an action leaves the cluster with, starting from `current`.
pub fn after_instances(action: &ScalingAction, current: u32) -> (r: u32)
    ensures
        r == instances_after(*action, current),
{
    match action {
        ScalingAction::ScaleUp { target_instances, .. } => *target_instances,
        ScalingAction::ScaleDown { target_instances, .. } => *target_instances,
        ScalingAction::NoAction => current,
    }
}

/// Scaling stays within bounds: up never goes past the maximum (when it
/// starts at or below it) nor below where it started, and down never goes
/// below the minimum nor above where it started (when that is above the minimum).
pub proof fn lemma_targets_in_bounds(current: u32, step: u32, min: u32, max: u32)
    ensures
        up_target(current, step, max) <= max,
        current <= max ==> current <= up_target(current, step, max),
        min <= down_target(current, step, min),
        min <= current ==> down_target(current, step, min) <= current,
{
}

/// One scaling carried out.
#[derive(Debug, Clone)]
pub struct ScalingHistory {
    /// When, in milliseconds since the Unix epoch.
    pub timestamp: i64,
    /// What was done.
    pub action: ScalingAction,
    /// Instances before.
    pub before_instances: u32,
    /// Instances aimed at.
    pub after_instances: u32,
    /// Whether it worked.
    pub success: bool,
    /// What went wrong, if it did not.
    pub error_message: Option<String>,
}

/// Whether the cool-down after the last scaling has passed at `now`: always
/// before the first scaling, else once `cooldown_secs` seconds have gone by.
pub open spec fn cooldown_over(last_scaling: Option<i64>, now: i64, cooldown_secs: u64) -> bool {
    match last_scaling {
        None => true,
        Some(t) => now - t >= cooldown_secs * 1000,
    }
}

/// Whether the cool-down after the last scaling (in milliseconds since the
/// Unix epoch) has passed at `now`.
pub fn check_cooldown(last_scaling: Option<i64>, now: i64, cooldown_secs: u64) -> (r: bool)
    ensures
        r == cooldown_over(last_scaling, now, cooldown_secs),
{
    match last_scaling {
        None => true,
        Some(t) => {
            let elapsed: i128 = now as i128 - t as i128;
            let cooldown: i128 = cooldown_secs as i128 * 1000;
            elapsed >= cooldown
        },
    }
}

/// The history after recording `entry`: added last, the oldest entry
/// dropped when that makes it longer than `max_entries`.
pub open spec fn history_after(history: Seq<ScalingHistory>, entry: ScalingHistory, max_entries: usize) -> Seq<ScalingHistory> {
    let added = history.push(entry);
    if added.len() > max_entries { added.drop_first() } else { added }
}

/// Records a scaling in the history, keeping at most `max_entries` entries
/// when the history held at most that many.
pub fn record_scaling(history: &mut Vec<ScalingHistory>, entry: ScalingHistory, max_entries: usize)
    requires
        old(history)@.len() < usize::MAX,
    ensures
        final(history)@ == history_after(old(history)@, entry, max_entries),
{
    history.push(entry);
    if history.len() > max_entries {
        history.remove(0);
    }
}

/// A history kept within its limit stays within it, and with a positive
/// limit the newest entry is last.
pub proof fn lemma_history_stays_bounded(history: Seq<ScalingHistory>, entry: ScalingHistory, max_entries: usize)
    requires
        history.len() <= max_entries,
    ensures
        history_after(history, entry, max_entries).len() <= max_entries,
        max_entries > 0 ==> history_after(history, entry, max_entries).last() == entry,
{
    let added = history.push(entry);
    if added.len() > max_entries && max_entries > 0 {
        assert(added.drop_first().last() == added.last());
    }
}

/// The history entry of a scaling carried out at `now` from `current`
/// instances: the action, the instances before and after, and success.
pub open spec fn scaling_entry(action: ScalingAction, current: u32, now: i64) -> ScalingHistory {
    ScalingHistory {
        timestamp: now,
        action,
        before_instances: current,
        after_instances: instances_after(action, current),
        success: true,
        error_message: None,
    }
}

/// Whether a decision is carried out: the cool-down is over, the decision is
/// sure enough, and it asks for a change.
pub open spec fn scaling_goes_ahead(last_scaling: Option<i64>, action: ScalingAction, confident: bool, now: i64, cooldown_secs: u64) -> bool {
    cooldown_over(last_scaling, now, cooldown_secs) && confident && !(action is NoAction)
}

/// Carries out a scaling decision at `now` (milliseconds since the Unix
/// epoch), with `current` instances, `confident` telling whether the
/// decision's confidence reaches the minimum. When it goes ahead (see
/// `scaling_goes_ahead`) the scaling is recorded in the history (see
/// `history_after`) and becomes the last one; otherwise nothing changes.
/// Returns whether it went ahead.
pub fn scaling_step(
    history: &mut Vec<ScalingHistory>,
    last_scaling: &mut Option<i64>,
    action: &ScalingAction,
    current: u32,
    confident: bool,
    now: i64,
    cooldown_secs: u64,
    max_entries: usize,
) -> (r: bool)
    requires
        old(history)@.len() < usize::MAX,
    ensures
        r == scaling_goes_ahead(*old(last_scaling), *action, confident, now, cooldown_secs),
        r ==> final(history)@ == history_after(old(history)@, scaling_entry(*action, current, now), max_entries)
            && *final(last_scaling) == Some(now),
        !r ==> final(history)@ == old(history)@ && *final(last_scaling) == *old(last_scaling),
{
    if !check_cooldown(*last_scaling, now, cooldown_secs) || !confident {
        return false;
    }
    match action {
        ScalingAction::NoAction => { return false; },
        _ => {},
    }
    let entry = ScalingHistory {
        timestamp: now,
        action: action.clone(),
        before_instances: current,
        after_instances: after_instances(action, current),
        success: true,
        error_message: None,
    };
    record_scaling(history, entry, max_entries);
    *last_scaling = Some(now);
    true
}

} // verus!

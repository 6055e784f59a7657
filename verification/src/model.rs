//! A sequential model of the event's state machine.
//!
//! The shared flag only ever changes under the lock, so every history of the
//! event is some interleaving of atomic `set` steps. These spec functions say
//! what one step does and what a whole sequence of steps leaves behind; the
//! executable code's contracts are stated over the single step, and the proof
//! functions here lift them to arbitrary call sequences.

use vstd::prelude::*;

verus! {

/// The flag after one `set(value)` step: the flag simply becomes `value`.
pub open spec fn flag_after_set(flag: bool, value: bool) -> bool {
    value
}

/// Whether a `set(value)` step on a flag currently holding `flag` changes
/// anything. Only a changing step wakes the threads parked on the condition
/// variable; a step that restates the current value is silent.
pub open spec fn set_changes(flag: bool, value: bool) -> bool {
    flag != value
}

/// The flag after a whole sequence of `set` steps, applied in order to an
/// event whose flag initially holds `init`. `true` entries are signals,
/// `false` entries are resets.
pub open spec fn flag_after_sets(init: bool, values: Seq<bool>) -> bool
    decreases values.len(),
{
    if values.len() == 0 {
        init
    } else {
        flag_after_set(flag_after_sets(init, values.drop_last()), values.last())
    }
}

/// After any non-empty sequence of signal/reset steps, the flag holds exactly
/// the value of the last step; everything earlier is overwritten.
pub proof fn lemma_last_set_decides(init: bool, values: Seq<bool>)
    requires
        values.len() > 0,
    ensures
        flag_after_sets(init, values) == values.last(),
{
}

/// Repeating a `set` with the value it just wrote leaves the flag as it was,
/// and the repeated step is silent: it changes nothing, so it wakes nobody.
pub proof fn lemma_set_idempotent(init: bool, values: Seq<bool>, v: bool)
    ensures
        flag_after_sets(init, values.push(v).push(v)) == flag_after_sets(init, values.push(v)),
        !set_changes(flag_after_sets(init, values.push(v)), v),
{
    assert(values.push(v).push(v).drop_last() =~= values.push(v));
}

/// A reset after a signal clears the flag again, whatever came before: the
/// event is reusable, not single-shot, and a wait after the reset blocks.
pub proof fn lemma_reset_after_signal(init: bool, values: Seq<bool>)
    ensures
        !flag_after_sets(init, values.push(true).push(false)),
{
}

} // verus!

//! Decisions taken on each timer tick of the overlay: the automatic
//! elevation (holding Q and E together turns the gun to the computed
//! elevation by moving the mouse), the time-of-flight timer, and the expiry
//! of the status message.

use vstd::prelude::*;

verus! {

/// One tick of the automatic elevation. `latched` says whether it already
/// fired during the current press of Q+E; `keys_down` whether both keys are
/// held now; `result_valid` whether there is a firing solution. Gives the new
/// latch and whether to move the mouse now.
pub open spec fn elevate_step(latched: bool, keys_down: bool, result_valid: bool) -> (bool, bool) {
    (keys_down && (latched || result_valid), keys_down && !latched && result_valid)
}

/// The automatic elevation on one timer tick: it moves the mouse once when
/// Q+E are pressed and a firing solution exists, and not again until the keys
/// have been released.
pub fn auto_elevate_step(latched: bool, keys_down: bool, result_valid: bool) -> (r: (bool, bool))
    ensures
        r == elevate_step(latched, keys_down, result_valid),
{
    if keys_down {
        if !latched && result_valid {
            (true, true)
        } else {
            (latched, false)
        }
    } else {
        (false, false)
    }
}

/// How many times the automatic elevation moves the mouse over successive
/// ticks during which Q+E stay held, starting from latch `latched`, with
/// `valids[i]` telling whether a firing solution exists at tick `i`.
pub open spec fn fires_while_held(latched: bool, valids: Seq<bool>) -> nat
    decreases valids.len(),
{
    if valids.len() == 0 {
        0
    } else {
        let (next, fire) = elevate_step(latched, true, valids[0]);
        (if fire { 1nat } else { 0nat }) + fires_while_held(next, valids.drop_first())
    }
}

/// One press of Q+E moves the mouse at most once, and not at all once the
/// latch is set.
pub proof fn lemma_one_move_per_press(latched: bool, valids: Seq<bool>)
    ensures
        fires_while_held(latched, valids) <= 1,
        latched ==> fires_while_held(latched, valids) == 0,
    decreases valids.len(),
{
    if valids.len() > 0 {
        let (next, fire) = elevate_step(latched, true, valids[0]);
        lemma_one_move_per_press(next, valids.drop_first());
    }
}

/// Releasing the keys re-arms the automatic elevation without moving the
/// mouse.
pub proof fn lemma_release_rearms(latched: bool, result_valid: bool)
    ensures
        elevate_step(latched, false, result_valid) == (false, false),
{
}

/// The vertical mouse step of the automatic elevation for an elevation of
/// `el_mils`: up (negative screen direction) for a non-negative elevation,
/// down otherwise.
pub fn mouse_step_dy(el_mils: i32) -> (dy: i32)
    ensures
        dy == (if el_mils >= 0 { -1int } else { 1int }),
{
    let sign: i32 = if el_mils >= 0 {
        1
    } else {
        -1
    };
    -1 * sign
}

/// One tick of the time-of-flight timer, with times in nanoseconds. Gives
/// whether the timer keeps running and whether the overlay must be redrawn:
/// a running timer redraws on every tick and stops once the elapsed time
/// reaches its duration; a stopped timer does nothing.
pub fn reload_tick(running: bool, elapsed_ns: u128, duration_ns: u128) -> (r: (bool, bool))
    ensures
        r.0 == (running && elapsed_ns < duration_ns),
        r.1 == running,
{
    if running {
        if elapsed_ns < duration_ns {
            (true, true)
        } else {
            (false, true)
        }
    } else {
        (false, false)
    }
}

/// What becomes of the status message when the overlay is drawn: with an
/// expiry, it is shown before the expiry and removed after; without one it
/// is shown for as long as it is there. Gives whether to show it and whether
/// to remove it.
pub fn status_check(has_text: bool, has_expiry: bool, before_expiry: bool) -> (r: (bool, bool))
    ensures
        r.0 == (has_text && (!has_expiry || before_expiry)),
        r.1 == (has_expiry && !before_expiry),
{
    if has_expiry {
        if before_expiry {
            (has_text, false)
        } else {
            (false, true)
        }
    } else {
        (has_text, false)
    }
}

} // verus!

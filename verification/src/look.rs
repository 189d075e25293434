//! Mouse look: how the camera turns with the mouse.
//!
//! The camera's orientation is a yaw and a pitch; it never rolls. Angles are
//! counted in nanoradians and time in nanoseconds, so that a turn of
//! `motion * seconds * SENSITIVITY / shorter side` radians is the same
//! expression over the integers kept here.

use vstd::prelude::*;
use vstd::arithmetic::div_mod::{
    lemma_div_denominator, lemma_div_multiples_vanish_quotient, lemma_fundamental_div_mod,
    lemma_mod_bound,
};
use crate::window::Window;

verus! {

/// The pitch never leaves `-PITCH_LIMIT ..= PITCH_LIMIT`: 1.57 rad, a little
/// short of a right angle, so that the camera cannot tip over.
pub const PITCH_LIMIT: i64 = 1_570_000_000;

/// Radians turned per second by a mouse motion as long as the window's
/// shorter side.
pub const SENSITIVITY: u32 = 100;

/// No step reaches this size, whatever the motion and the time: 2 to the 102.
const STEP_BOUND: i128 = 0x40_0000_0000_0000_0000_0000_0000;

/// The camera's orientation, in nanoradians.
#[derive(Clone, Copy, Debug, PartialEq, Eq, Structural)]
pub struct Orientation {
    /// Turn about the world's vertical axis.
    pub yaw: i64,
    /// Tilt about the camera's own lateral axis.
    pub pitch: i64,
}

/// The mouse motion gathered since the last frame, in the unit of length in
/// which the window's sides are counted.
#[derive(Clone, Copy, Debug, PartialEq, Eq, Structural)]
pub struct MouseMotion {
    pub x: i32,
    pub y: i32,
}

/// `x`, or the nearer end of `lo ..= hi` where `x` lies outside.
pub open spec fn clamp(x: int, lo: int, hi: int) -> int {
    if x < lo {
        lo
    } else if x > hi {
        hi
    } else {
        x
    }
}

/// The angle, in nanoradians, by which a motion of `motion` turns the camera
/// in a frame of `elapsed` nanoseconds, in a window whose shorter side is
/// `shorter`: `motion * elapsed * SENSITIVITY / shorter`, rounded towards
/// zero, so that a motion and its opposite turn by opposite angles.
pub open spec fn look_step(motion: int, elapsed: int, shorter: int) -> int {
    if motion >= 0 {
        (motion * elapsed * SENSITIVITY) / shorter
    } else {
        -((-motion * elapsed * SENSITIVITY) / shorter)
    }
}

impl Orientation {
    /// Whether the pitch lies within the limit.
    pub open spec fn pitch_clamped(self) -> bool {
        -PITCH_LIMIT <= self.pitch <= PITCH_LIMIT
    }

    /// This orientation after one focused frame. Both angles go down by their
    /// step. The pitch stops at the limit; the yaw stops only at the ends of
    /// what an `i64` holds.
    pub open spec fn looked(self, motion: MouseMotion, elapsed: int, window: Window) -> Orientation {
        let shorter = window.shorter_side() as int;
        Orientation {
            yaw: clamp(
                self.yaw - look_step(motion.x as int, elapsed, shorter),
                i64::MIN as int,
                i64::MAX as int,
            ) as i64,
            pitch: clamp(
                self.pitch - look_step(motion.y as int, elapsed, shorter),
                -PITCH_LIMIT as int,
                PITCH_LIMIT as int,
            ) as i64,
        }
    }
}

/// The step of one axis, computed.
fn step(motion: i32, elapsed: u64, shorter: u32) -> (angle: i128)
    requires
        shorter > 0,
    ensures
        angle == look_step(motion as int, elapsed as int, shorter as int),
        -STEP_BOUND < angle < STEP_BOUND,
{
    let length: u128 = if motion >= 0 {
        motion as u128
    } else {
        (-(motion as i64)) as u128
    };
    assert(0 <= length * elapsed <= 0x8000_0000 * 0xffff_ffff_ffff_ffff) by (nonlinear_arith)
        requires
            0 <= length <= 0x8000_0000,
            0 <= elapsed <= 0xffff_ffff_ffff_ffff,
    ;
    let product: u128 = length * (elapsed as u128) * (SENSITIVITY as u128);
    let quotient: u128 = product / (shorter as u128);
    assert(0 <= quotient <= product) by (nonlinear_arith)
        requires
            quotient == product / (shorter as u128),
            shorter > 0,
            0 <= product,
    ;
    if motion >= 0 {
        quotient as i128
    } else {
        -(quotient as i128)
    }
}

/// `x` brought into `lo ..= hi`.
fn clamp_to(x: i128, lo: i64, hi: i64) -> (y: i64)
    requires
        lo <= hi,
    ensures
        y == clamp(x as int, lo as int, hi as int),
{
    if x < lo as i128 {
        lo
    } else if x > hi as i128 {
        hi
    } else {
        x as i64
    }
}

/// Turns the player's camera by the mouse motion of one frame, which took
/// `elapsed` nanoseconds.
///
/// While the window is not focused nothing happens: the orientation stays as
/// it is and the result is `false`. In a focused window the pitch and the yaw
/// each go down by `look_step` of the motion along their axis, the pitch is
/// held within `PITCH_LIMIT`, and the result is `true`: the camera's rotation
/// is to be rebuilt from the new angles, yaw outermost, then pitch, no roll.
///
/// A focused window has sides longer than zero: the step is a share of the
/// shorter one.
pub fn player_look(
    player: &mut Orientation,
    mouse_motion: MouseMotion,
    elapsed: u64,
    window: &Window,
) -> (turned: bool)
    requires
        window.focused ==> window.shorter_side() > 0,
    ensures
        turned == window.focused,
        !window.focused ==> *final(player) == *old(player),
        window.focused ==> *final(player) == old(player).looked(
            mouse_motion,
            elapsed as int,
            *window,
        ),
        window.focused ==> final(player).pitch_clamped(),
        old(player).pitch_clamped() ==> final(player).pitch_clamped(),
{
    if !window.focused {
        return false;
    }
    let shorter: u32 = window.shorter_side();
    let yaw: i128 = player.yaw as i128 - step(mouse_motion.x, elapsed, shorter);
    let pitch: i128 = player.pitch as i128 - step(mouse_motion.y, elapsed, shorter);
    player.yaw = clamp_to(yaw, i64::MIN, i64::MAX);
    player.pitch = clamp_to(pitch, -PITCH_LIMIT, PITCH_LIMIT);
    true
}

/// Of a quotient of whole numbers: with a divisor `k` times as large, `k`
/// times the quotient falls short of the first quotient by less than `k`.
proof fn quotient_scales_inversely(n: int, s: int, k: int)
    requires
        0 <= n,
        0 < s,
        1 <= k,
    ensures
        0 <= n / s - k * (n / (k * s)) <= k - 1,
{
    let whole = n / s;
    lemma_div_denominator(n, s, k);
    assert(s * k == k * s) by (nonlinear_arith);
    lemma_fundamental_div_mod(whole, k);
    lemma_mod_bound(whole, k);
}

/// After a focused frame the pitch lies within the limit, whatever it was
/// before, however far the mouse went and however long the frame took.
pub proof fn pitch_stays_clamped(
    player: Orientation,
    motion: MouseMotion,
    elapsed: int,
    window: Window,
)
    ensures
        player.looked(motion, elapsed, window).pitch_clamped(),
{
}

/// Only the shorter side of the window counts: two windows that agree in it
/// turn the camera alike, whatever their longer sides are.
pub proof fn look_goes_by_shorter_side(
    player: Orientation,
    motion: MouseMotion,
    elapsed: int,
    one: Window,
    other: Window,
)
    requires
        one.shorter_side() == other.shorter_side(),
    ensures
        player.looked(motion, elapsed, one) == player.looked(motion, elapsed, other),
{
}

/// The step answers the window's size inversely. In a window whose shorter
/// side is `k` times as long, the same motion over the same time turns the
/// camera by a `k`-th of the angle: `k` such steps make up the one step of the
/// smaller window, short of it by less than `k` nanoradians, which is what
/// rounding towards zero can take.
pub proof fn step_scales_inversely(motion: int, elapsed: int, shorter: int, k: int)
    requires
        0 <= elapsed,
        0 < shorter,
        1 <= k,
    ensures
        motion >= 0 ==> 0 <= look_step(motion, elapsed, shorter) - k * look_step(
            motion,
            elapsed,
            k * shorter,
        ) <= k - 1,
        motion <= 0 ==> 0 <= k * look_step(motion, elapsed, k * shorter) - look_step(
            motion,
            elapsed,
            shorter,
        ) <= k - 1,
{
    let length = if motion >= 0 { motion } else { -motion };
    let n = length * elapsed * SENSITIVITY;
    assert(0 <= n) by (nonlinear_arith)
        requires
            n == length * elapsed * SENSITIVITY,
            0 <= length,
            0 <= elapsed,
            0 <= SENSITIVITY,
    ;
    quotient_scales_inversely(n, shorter, k);
    assert(0 < k * shorter) by (nonlinear_arith)
        requires
            0 < shorter,
            1 <= k,
    ;
    if motion == 0 {
        assert(n == 0) by (nonlinear_arith)
            requires
                n == length * elapsed * SENSITIVITY,
                length == 0,
        ;
        assert(0int / shorter == 0 && 0int / (k * shorter) == 0) by (nonlinear_arith)
            requires
                0 < shorter,
                0 < k * shorter,
        ;
    } else if motion < 0 {
        let small = n / (k * shorter);
        assert(k * (-small) == -(k * small)) by (nonlinear_arith);
    }
}

/// Doubling both sides of the window halves the step along either axis:
/// twice the new step is the old one, or one nanoradian nearer to zero.
pub proof fn doubled_window_halves_step(motion: i32, elapsed: u64, window: Window)
    requires
        0 < window.shorter_side(),
        2 * window.width <= u32::MAX,
        2 * window.height <= u32::MAX,
    ensures
        ({
            let doubled = Window {
                focused: window.focused,
                width: (2 * window.width) as u32,
                height: (2 * window.height) as u32,
            };
            let before = look_step(motion as int, elapsed as int, window.shorter_side() as int);
            let after = look_step(motion as int, elapsed as int, doubled.shorter_side() as int);
            &&& doubled.shorter_side() == 2 * window.shorter_side()
            &&& motion >= 0 ==> 2 * after <= before <= 2 * after + 1
            &&& motion <= 0 ==> 2 * after - 1 <= before <= 2 * after
        }),
{
    step_scales_inversely(motion as int, elapsed as int, window.shorter_side() as int, 2);
}

/// The step does not depend on the unit of length: with the motion and the
/// window's side both counted in a unit `k` times as fine, it is the same.
pub proof fn step_is_free_of_unit(motion: int, elapsed: int, shorter: int, k: int)
    requires
        0 <= elapsed,
        0 < shorter,
        1 <= k,
    ensures
        look_step(k * motion, elapsed, k * shorter) == look_step(motion, elapsed, shorter),
{
    let length = if motion >= 0 { motion } else { -motion };
    let n = length * elapsed * SENSITIVITY;
    assert(0 <= n) by (nonlinear_arith)
        requires
            n == length * elapsed * SENSITIVITY,
            0 <= length,
            0 <= elapsed,
            0 <= SENSITIVITY,
    ;
    lemma_div_multiples_vanish_quotient(k, n, shorter);
    assert(k * length * elapsed * SENSITIVITY == k * n) by (nonlinear_arith)
        requires
            n == length * elapsed * SENSITIVITY,
    ;
    if motion >= 0 {
        assert(k * motion >= 0) by (nonlinear_arith)
            requires
                motion >= 0,
                k >= 1,
        ;
    } else {
        assert(k * motion < 0) by (nonlinear_arith)
            requires
                motion < 0,
                k >= 1,
        ;
        assert(-(k * motion) == k * length) by (nonlinear_arith)
            requires
                length == -motion,
        ;
    }
}

} // verus!

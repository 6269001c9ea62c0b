use crate::timer::{Timer, TimerMode};
use vstd::arithmetic::div_mod::{
    lemma_fundamental_div_mod, lemma_fundamental_div_mod_converse_mod,
    lemma_mod_add_multiples_vanish, lemma_mod_self_0, lemma_small_mod,
};
use vstd::prelude::*;

verus! {

/// A point of the 3D scene, on the integer grid the simulation uses.
#[derive(Clone, Copy, Debug, PartialEq, Eq, Structural)]
pub struct Vec3i {
    pub x: i64,
    pub y: i64,
    pub z: i64,
}

/// The point a billboarded sprite at `pos` turns toward so that it faces the
/// camera horizontally only: the vector from sprite to camera with its
/// vertical component zeroed, offset back by the sprite's own position. The
/// offsets cancel exactly, leaving the camera's horizontal coordinates and
/// the sprite's own height.
pub open spec fn spec_face_target(cam: Vec3i, pos: Vec3i) -> Vec3i {
    Vec3i { x: cam.x, y: pos.y, z: cam.z }
}

/// Re-orientation target for a camera-facing sprite. The look direction from
/// `pos` to the result has no vertical component.
pub fn face_target(cam: Vec3i, pos: Vec3i) -> (target: Vec3i)
    ensures
        target == spec_face_target(cam, pos),
        target.y == pos.y,
        target.x == cam.x,
        target.z == cam.z,
{
    Vec3i { x: cam.x, y: pos.y, z: cam.z }
}

/// Sprite-sheet animation state: a repeating timer plus the current frame
/// index into a fixed-length texture-atlas row.
#[derive(Clone, Copy, Debug)]
pub struct SpriteAnimation {
    pub timer: Timer,
    pub index: u32,
    pub atlas_len: u32,
}

/// The frame shown after one timer completion: the current frame's successor,
/// wrapping from the last atlas frame back to the first.
pub open spec fn next_frame(index: u32, atlas_len: u32) -> u32 {
    if index + 1 >= atlas_len {
        0
    } else {
        (index + 1) as u32
    }
}

/// The frame shown after `n` timer completions.
pub open spec fn frame_after(index: u32, atlas_len: u32, n: nat) -> u32
    decreases n,
{
    if n == 0 {
        index
    } else {
        next_frame(frame_after(index, atlas_len, (n - 1) as nat), atlas_len)
    }
}

impl SpriteAnimation {
    pub open spec fn wf(self) -> bool {
        &&& self.timer.wf()
        &&& self.timer.mode == TimerMode::Repeating
        &&& 1 <= self.atlas_len
        &&& self.index < self.atlas_len
    }

    /// The animation state after one tick: the timer advances, and on each
    /// completion the frame index moves to its successor modulo the atlas
    /// length.
    pub open spec fn spec_animate(self, delta_ms: u64) -> SpriteAnimation {
        let t = self.timer.spec_tick(delta_ms);
        SpriteAnimation {
            timer: t,
            index: if t.spec_just_finished() {
                next_frame(self.index, self.atlas_len)
            } else {
                self.index
            },
            ..self
        }
    }

    pub fn new(period_ms: u64, index: u32, atlas_len: u32) -> (a: SpriteAnimation)
        requires
            1 <= period_ms <= u64::MAX / 2,
            1 <= atlas_len,
            index < atlas_len,
        ensures
            a.wf(),
            a.index == index,
            a.atlas_len == atlas_len,
            a.timer == (Timer {
                period_ms,
                elapsed_ms: 0,
                mode: TimerMode::Repeating,
                fired: false,
            }),
    {
        SpriteAnimation { timer: Timer::new_repeating(period_ms), index, atlas_len }
    }

    /// Advance the animation by the elapsed frame duration.
    pub fn animate(&mut self, delta_ms: u64)
        requires
            old(self).wf(),
        ensures
            final(self).wf(),
            *final(self) == old(self).spec_animate(delta_ms),
    {
        self.timer.tick(delta_ms);
        if self.timer.just_finished() {
            self.index = if self.index + 1 >= self.atlas_len {
                0
            } else {
                self.index + 1
            };
        }
    }
}

/// After `n` completions the frame index is the starting index advanced by
/// `n`, modulo the atlas length.
pub proof fn lemma_frame_after_mod(index: u32, atlas_len: u32, n: nat)
    requires
        1 <= atlas_len,
        index < atlas_len,
    ensures
        frame_after(index, atlas_len, n) == (index + n) % (atlas_len as int),
    decreases n,
{
    let l = atlas_len as int;
    if n == 0 {
        lemma_small_mod(index as nat, atlas_len as nat);
    } else {
        lemma_frame_after_mod(index, atlas_len, (n - 1) as nat);
        let prev = index + n - 1;
        let r = prev % l;
        lemma_fundamental_div_mod(prev, l);
        let q = prev / l;
        if r + 1 < l {
            lemma_fundamental_div_mod_converse_mod(prev + 1, l, q, r + 1);
        } else {
            assert((q + 1) * l == q * l + l) by (nonlinear_arith);
            lemma_fundamental_div_mod_converse_mod(prev + 1, l, q + 1, 0);
        }
    }
}

/// The animation after `n` ticks of `delta_ms` each.
pub open spec fn spec_animate_n(a: SpriteAnimation, delta_ms: u64, n: nat) -> SpriteAnimation
    decreases n,
{
    if n == 0 {
        a
    } else {
        spec_animate_n(a, delta_ms, (n - 1) as nat).spec_animate(delta_ms)
    }
}

/// Ticking a freshly started animation by one full period at a time completes
/// the timer exactly once per tick, so after `n` such ticks the frame has
/// advanced `n` steps modulo the atlas length.
pub proof fn lemma_animation_completions(a: SpriteAnimation, n: nat)
    requires
        a.wf(),
        a.timer.elapsed_ms == 0,
    ensures
        spec_animate_n(a, a.timer.period_ms, n).wf(),
        spec_animate_n(a, a.timer.period_ms, n).timer.elapsed_ms == 0,
        spec_animate_n(a, a.timer.period_ms, n).timer.period_ms == a.timer.period_ms,
        spec_animate_n(a, a.timer.period_ms, n).atlas_len == a.atlas_len,
        spec_animate_n(a, a.timer.period_ms, n).index == frame_after(a.index, a.atlas_len, n),
    decreases n,
{
    if n > 0 {
        lemma_animation_completions(a, (n - 1) as nat);
        lemma_mod_self_0(a.timer.period_ms as int);
    }
}

/// The animation cycle length equals the atlas length: from any valid frame,
/// after exactly `atlas_len` timer completions the frame index returns to its
/// starting value.
pub proof fn lemma_animation_cycle(index: u32, atlas_len: u32)
    requires
        1 <= atlas_len,
        index < atlas_len,
    ensures
        frame_after(index, atlas_len, atlas_len as nat) == index,
{
    let l = atlas_len as int;
    lemma_frame_after_mod(index, atlas_len, atlas_len as nat);
    lemma_mod_add_multiples_vanish(index as int, l);
    lemma_small_mod(index as nat, atlas_len as nat);
}

} // verus!

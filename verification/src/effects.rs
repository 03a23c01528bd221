//! The effect scheduler: a closed set of gameplay-warping effects, drawn one
//! per reached wall from a shuffled bag, plus the pure rules each modifier
//! applier follows when it reads the active effect.
use vstd::prelude::*;

use crate::rng::{rand_range, shuffle_effects};
use crate::{clamp_i64, spec_clamp, COORD_LIMIT};

verus! {

/// One gameplay-warping side effect. Stateless: a variant carries no payload.
#[derive(Clone, Copy, Debug, PartialEq, Eq, Structural)]
pub enum Effect {
    Earthquake,
    FastPlatforms,
    InverseKeyboard,
    FallthroughPlatforms,
    HighGravity,
    LowGravity,
    Darkness,
    IcyPlatforms,
}

/// Every effect variant, once each, in declaration order: the contents of one
/// fresh bag before it is shuffled.
pub open spec fn all_effects() -> Seq<Effect> {
    seq![
        Effect::Earthquake,
        Effect::FastPlatforms,
        Effect::InverseKeyboard,
        Effect::FallthroughPlatforms,
        Effect::HighGravity,
        Effect::LowGravity,
        Effect::Darkness,
        Effect::IcyPlatforms,
    ]
}

/// A bag holds every variant exactly once, in some order.
pub open spec fn is_full_bag(s: Seq<Effect>) -> bool {
    s.to_multiset() == all_effects().to_multiset()
}

impl Effect {
    /// Display label of the effect, as shown on the HUD.
    pub open spec fn spec_label(self) -> Seq<char> {
        match self {
            Effect::Earthquake => "Earthquake"@,
            Effect::FastPlatforms => "Fast Platforms"@,
            Effect::InverseKeyboard => "Inverse Keyboard"@,
            Effect::FallthroughPlatforms => "Fallthrough Platforms"@,
            Effect::HighGravity => "High Gravity"@,
            Effect::LowGravity => "Low Gravity"@,
            Effect::Darkness => "Darkness"@,
            Effect::IcyPlatforms => "Icy Platforms"@,
        }
    }

    pub fn to_string(&self) -> (r: String)
        ensures
            r@ == self.spec_label(),
    {
        match self {
            Effect::Earthquake => "Earthquake".to_owned(),
            Effect::FastPlatforms => "Fast Platforms".to_owned(),
            Effect::InverseKeyboard => "Inverse Keyboard".to_owned(),
            Effect::FallthroughPlatforms => "Fallthrough Platforms".to_owned(),
            Effect::HighGravity => "High Gravity".to_owned(),
            Effect::LowGravity => "Low Gravity".to_owned(),
            Effect::Darkness => "Darkness".to_owned(),
            Effect::IcyPlatforms => "Icy Platforms".to_owned(),
        }
    }

    /// Key of the sound cue played when the effect becomes active: the label
    /// with its spaces removed.
    pub open spec fn spec_cue_name(self) -> Seq<char> {
        match self {
            Effect::Earthquake => "Earthquake"@,
            Effect::FastPlatforms => "FastPlatforms"@,
            Effect::InverseKeyboard => "InverseKeyboard"@,
            Effect::FallthroughPlatforms => "FallthroughPlatforms"@,
            Effect::HighGravity => "HighGravity"@,
            Effect::LowGravity => "LowGravity"@,
            Effect::Darkness => "Darkness"@,
            Effect::IcyPlatforms => "IcyPlatforms"@,
        }
    }

    pub fn cue_name(&self) -> (r: String)
        ensures
            r@ == self.spec_cue_name(),
    {
        match self {
            Effect::Earthquake => "Earthquake".to_owned(),
            Effect::FastPlatforms => "FastPlatforms".to_owned(),
            Effect::InverseKeyboard => "InverseKeyboard".to_owned(),
            Effect::FallthroughPlatforms => "FallthroughPlatforms".to_owned(),
            Effect::HighGravity => "HighGravity".to_owned(),
            Effect::LowGravity => "LowGravity".to_owned(),
            Effect::Darkness => "Darkness".to_owned(),
            Effect::IcyPlatforms => "IcyPlatforms".to_owned(),
        }
    }
}

/// The pending/active effect queue. `current` is the active effect — the top
/// of the conceptual stack — and `pending` holds the rest of the bag, next
/// effect last.
#[derive(Clone, Debug, PartialEq, Eq)]
pub struct EffectQueue {
    pub current: Option<Effect>,
    pub pending: Vec<Effect>,
}

impl EffectQueue {
    /// Everything buffered, active effect on top (last).
    pub open spec fn buffered(self) -> Seq<Effect> {
        match self.current {
            Some(e) => self.pending@.push(e),
            None => self.pending@,
        }
    }

    /// At most one bag is buffered, with no effect twice, and effects are
    /// pending only while one is active.
    pub open spec fn wf(self) -> bool {
        &&& self.current is None ==> self.pending@.len() == 0
        &&& self.buffered().no_duplicates()
        &&& self.buffered().len() <= all_effects().len()
    }

    /// The queue a run starts with: nothing active, nothing pending.
    pub fn new() -> (q: EffectQueue)
        ensures
            q.wf(),
            q.current is None,
            q.buffered() == Seq::<Effect>::empty(),
    {
        let q = EffectQueue { current: None, pending: Vec::new() };
        proof {
            assert(q.buffered() =~= Seq::<Effect>::empty());
        }
        q
    }

    /// The effect currently in force, `None` only before the first wall is
    /// reached.
    pub fn active(&self) -> (r: Option<Effect>)
        ensures
            r == self.current,
    {
        self.current
    }

    /// How one `advance` call relates the buffered effects before and after:
    /// either the top is popped, or — when at most the active effect was left
    /// — a freshly shuffled full bag replaces the buffer.
    pub open spec fn advance_rel(pre: Seq<Effect>, post: Seq<Effect>) -> bool {
        if pre.len() > 1 {
            post == pre.drop_last()
        } else {
            is_full_bag(post)
        }
    }

    /// Called once per wall-reached signal: deactivates the current effect
    /// and activates the next, refilling the bag in the same call when the
    /// buffer runs out, so an effect is always active afterwards.
    pub fn advance(&mut self)
        requires
            old(self).wf(),
        ensures
            final(self).wf(),
            final(self).current is Some,
            Self::advance_rel(old(self).buffered(), final(self).buffered()),
    {
        let ghost pre = self.buffered();
        if self.pending.len() == 0 {
            let mut bag = full_bag_vec();
            shuffle_effects(&mut bag);
            let ghost bagv = bag@;
            proof {
                assert(is_full_bag(bagv));
                lemma_full_bag_no_duplicates(bagv);
                assert(bagv.len() == all_effects().len()) by {
                    broadcast use vstd::seq_lib::group_to_multiset_ensures;
                }
            }
            self.pending = bag;
            let e = self.pending.pop().unwrap();
            self.current = Some(e);
            proof {
                assert(self.buffered() =~= bagv);
                assert(pre.len() <= 1);
            }
        } else {
            // The invariant puts pending effects only under an active one.
            let ghost oldq = *self;
            let e = self.pending.pop().unwrap();
            self.current = Some(e);
            proof {
                assert(pre.len() > 1);
                assert(self.buffered() =~= oldq.pending@);
                assert(pre.drop_last() =~= oldq.pending@);
                assert forall|i: int, j: int|
                    0 <= i < self.buffered().len() && 0 <= j < self.buffered().len() && i != j
                    implies self.buffered()[i] != self.buffered()[j] by {
                    assert(pre[i] == self.buffered()[i]);
                    assert(pre[j] == self.buffered()[j]);
                }
            }
        }
    }
}

/// One of each effect variant, in declaration order, ready to be shuffled.
fn full_bag_vec() -> (v: Vec<Effect>)
    ensures
        v@ == all_effects(),
{
    let mut v: Vec<Effect> = Vec::new();
    v.push(Effect::Earthquake);
    v.push(Effect::FastPlatforms);
    v.push(Effect::InverseKeyboard);
    v.push(Effect::FallthroughPlatforms);
    v.push(Effect::HighGravity);
    v.push(Effect::LowGravity);
    v.push(Effect::Darkness);
    v.push(Effect::IcyPlatforms);
    proof {
        assert(v@ =~= all_effects());
    }
    v
}

/// A run of the scheduler: the successive buffered contents, starting from
/// the empty queue of a fresh game, each step related by one `advance` call.
pub open spec fn is_run(qs: Seq<Seq<Effect>>) -> bool {
    &&& qs.len() >= 1
    &&& qs[0].len() == 0
    &&& forall|i: int|
        0 <= i < qs.len() - 1 ==> #[trigger] EffectQueue::advance_rel(qs[i], qs[i + 1])
}

/// The effects drawn over a run: the active effect after each `advance`.
pub open spec fn drawn(qs: Seq<Seq<Effect>>) -> Seq<Effect> {
    Seq::new((qs.len() - 1) as nat, |i: int| qs[i + 1].last())
}

/// How many fresh bags a run has opened.
pub open spec fn refills(qs: Seq<Seq<Effect>>) -> int
    decreases qs.len(),
{
    if qs.len() <= 1 {
        0
    } else {
        refills(qs.drop_last()) + if qs[qs.len() - 2].len() <= 1 {
            1int
        } else {
            0int
        }
    }
}

/// Bookkeeping behind the fairness law. Along a run, the effects drawn so far
/// and the still-undrawn part of the open bag together hold each variant once
/// per opened bag; the number of steps is pinned to the number of refills.
proof fn lemma_run_invariant(qs: Seq<Seq<Effect>>, e: Effect)
    requires
        is_run(qs),
        qs.len() >= 2,
    ensures
        qs.last().len() >= 1,
        drawn(qs).to_multiset().count(e) + qs.last().drop_last().to_multiset().count(e)
            == refills(qs),
        qs.last().drop_last().to_multiset().count(e) <= 1,
        qs.len() - 1 == all_effects().len() * refills(qs) - qs.last().drop_last().len(),
        qs.last().drop_last().len() <= all_effects().len() - 1,
    decreases qs.len(),
{
    broadcast use vstd::seq_lib::group_to_multiset_ensures;
    broadcast use vstd::multiset::group_multiset_axioms;

    let n = qs.len() - 1;
    let post = qs.last();
    let d = drawn(qs);
    let i0 = n - 1;
    assert(EffectQueue::advance_rel(qs[i0], qs[i0 + 1]));
    assert(EffectQueue::advance_rel(qs[n - 1], qs[n]));
    assert(all_effects().len() == 8);
    assert(Seq::<Effect>::empty().to_multiset().count(e) == 0) by {
        assert(!Seq::<Effect>::empty().contains(e));
    }
    if qs.len() == 2 {
        // The very first advance opens the first bag.
        assert(qs[0].len() == 0);
        assert(is_full_bag(post));
        lemma_full_bag_count(post, e);
        assert(post.len() == all_effects().len()) by {
            assert(post.len() == post.to_multiset().len());
            assert(all_effects().len() == all_effects().to_multiset().len());
        }
        assert(post =~= post.drop_last().push(post.last()));
        assert(d =~= Seq::<Effect>::empty().push(post.last()));
        assert(refills(qs.drop_last()) == 0);
        assert(refills(qs) == 1);
    } else {
        let qs2 = qs.drop_last();
        assert(is_run(qs2)) by {
            assert(qs2[0] == qs[0]);
            assert forall|i: int| 0 <= i < qs2.len() - 1 implies #[trigger] EffectQueue::advance_rel(
                qs2[i],
                qs2[i + 1],
            ) by {
                assert(qs2[i] == qs[i]);
                assert(qs2[i + 1] == qs[i + 1]);
                assert(EffectQueue::advance_rel(qs[i], qs[i + 1]));
            }
        }
        lemma_run_invariant(qs2, e);
        let pre = qs2.last();
        assert(pre == qs[n - 1]);
        let d2 = drawn(qs2);
        assert(d =~= d2.push(post.last())) by {
            assert(d.len() == d2.len() + 1);
            assert(forall|i: int| 0 <= i < d2.len() ==> d[i] == qs[i + 1].last() && d2[i] == qs2[i + 1].last());
        }
        assert(d.to_multiset() == d2.to_multiset().insert(post.last()));
        if pre.len() > 1 {
            // A plain pop: the old undrawn part was exactly `post`.
            assert(post == pre.drop_last());
            assert(post.len() >= 1);
            assert(post =~= post.drop_last().push(post.last()));
            assert(post.to_multiset() == post.drop_last().to_multiset().insert(post.last()));
            assert(refills(qs) == refills(qs2));
        } else {
            // The old bag was spent; this advance opened a fresh one.
            assert(pre.len() == 1);
            assert(pre.drop_last().len() == 0);
            assert(pre.drop_last() =~= Seq::<Effect>::empty());
            assert(is_full_bag(post));
            lemma_full_bag_count(post, e);
            assert(post.len() == all_effects().len()) by {
                assert(post.len() == post.to_multiset().len());
                assert(all_effects().len() == all_effects().to_multiset().len());
            }
            assert(post =~= post.drop_last().push(post.last()));
            assert(post.to_multiset() == post.drop_last().to_multiset().insert(post.last()));
            assert(refills(qs) == refills(qs2) + 1);
        }
    }
}

/// Before the first advance the buffer is empty — no effect is active — and
/// from the first advance on it never is again: an active effect never
/// reverts to none.
pub proof fn lemma_active_never_reverts(qs: Seq<Seq<Effect>>, i: int)
    requires
        is_run(qs),
        1 <= i < qs.len(),
    ensures
        qs[i].len() >= 1,
{
    let qsp = qs.take(i + 1);
    assert(is_run(qsp)) by {
        assert(qsp[0] == qs[0]);
        assert forall|j: int| 0 <= j < qsp.len() - 1 implies #[trigger] EffectQueue::advance_rel(
            qsp[j],
            qsp[j + 1],
        ) by {
            assert(qsp[j] == qs[j]);
            assert(qsp[j + 1] == qs[j + 1]);
            assert(EffectQueue::advance_rel(qs[j], qs[j + 1]));
        }
    }
    lemma_run_invariant(qsp, Effect::Earthquake);
    assert(qsp.last() == qs[i]);
}

/// Fairness of the rotation: over any run of N `advance` calls, every effect
/// variant is drawn at least ⌊N / variant count⌋ times.
pub proof fn lemma_fair_rotation(qs: Seq<Seq<Effect>>, e: Effect)
    requires
        is_run(qs),
    ensures
        drawn(qs).to_multiset().count(e) >= (qs.len() - 1) / (all_effects().len() as int),
{
    broadcast use vstd::seq_lib::group_to_multiset_ensures;

    let n = qs.len() - 1;
    let k = all_effects().len() as int;
    assert(k == 8);
    if qs.len() == 1 {
        assert(drawn(qs) =~= Seq::<Effect>::empty());
        assert(drawn(qs).to_multiset().count(e) == 0) by {
            assert(!drawn(qs).contains(e));
        }
    } else {
        lemma_run_invariant(qs, e);
        let r = refills(qs);
        let u = qs.last().drop_last().len() as int;
        assert(n == k * r - u);
        assert(0 <= u <= k - 1);
        if u == 0 {
            assert(qs.last().drop_last() =~= Seq::<Effect>::empty());
            assert(qs.last().drop_last().to_multiset().count(e) == 0) by {
                assert(!qs.last().drop_last().contains(e));
            }
            assert(drawn(qs).to_multiset().count(e) == r);
            assert(n / k == r) by (nonlinear_arith)
                requires n == k * r, k == 8, r >= 0;
        } else {
            assert(drawn(qs).to_multiset().count(e) >= r - 1);
            assert(n / k <= r - 1) by (nonlinear_arith)
                requires n == k * r - u, k == 8, 1 <= u <= k - 1, r >= 1, n >= 0;
        }
    }
}

/// A full bag holds each variant exactly once.
pub proof fn lemma_full_bag_count(s: Seq<Effect>, e: Effect)
    requires
        is_full_bag(s),
    ensures
        s.to_multiset().count(e) == 1,
{
    broadcast use vstd::seq_lib::group_to_multiset_ensures;
    let s0 = Seq::<Effect>::empty();
    let s1 = s0.push(Effect::Earthquake);
    let s2 = s1.push(Effect::FastPlatforms);
    let s3 = s2.push(Effect::InverseKeyboard);
    let s4 = s3.push(Effect::FallthroughPlatforms);
    let s5 = s4.push(Effect::HighGravity);
    let s6 = s5.push(Effect::LowGravity);
    let s7 = s6.push(Effect::Darkness);
    let s8 = s7.push(Effect::IcyPlatforms);
    assert(s8 =~= all_effects());
    assert(s0.to_multiset().count(e) == 0) by {
        assert(!s0.contains(e));
    }
}

// --- Modifier appliers: the pure rule each subsystem follows when it reads
// --- the active effect. Each is a function of the active effect alone, so
// --- re-running one with an unchanged effect is idempotent by construction.

/// Gravity scale in tenths: 10.0 under HighGravity, 2.5 under LowGravity,
/// 5.0 otherwise.
pub open spec fn spec_gravity_scale(active: Option<Effect>) -> u64 {
    match active {
        Some(Effect::HighGravity) => 100,
        Some(Effect::LowGravity) => 25,
        _ => 50,
    }
}

pub fn gravity_scale(active: Option<Effect>) -> (r: u64)
    ensures
        r == spec_gravity_scale(active),
{
    match active {
        Some(Effect::HighGravity) => 100,
        Some(Effect::LowGravity) => 25,
        _ => 50,
    }
}

/// Whether the left/right input keys are swapped.
pub fn keys_swapped(active: Option<Effect>) -> (r: bool)
    ensures
        r <==> active == Some(Effect::InverseKeyboard),
{
    active == Some(Effect::InverseKeyboard)
}

/// Whether the near-opaque full-screen overlay must exist.
pub fn darkness_active(active: Option<Effect>) -> (r: bool)
    ensures
        r <==> active == Some(Effect::Darkness),
{
    active == Some(Effect::Darkness)
}

/// Whether platforms are spawned and restyled icy.
pub fn icy_platforms_active(active: Option<Effect>) -> (r: bool)
    ensures
        r <==> active == Some(Effect::IcyPlatforms),
{
    active == Some(Effect::IcyPlatforms)
}

/// Horizontal camera jitter bound under Earthquake (pixels per frame).
pub const CAMERA_JITTER_X: i64 = 2;

/// Vertical camera jitter bound under Earthquake (pixels per frame).
pub const CAMERA_JITTER_Y: i64 = 7;

/// Horizontal half-width of the window the shaken camera is clamped to.
pub const CAMERA_CLAMP_X: i64 = 3;

/// Vertical half-width of the window the shaken camera is clamped to.
pub const CAMERA_CLAMP_Y: i64 = 20;

/// Where the camera goes this frame: jittered around the screen centre but
/// clamped to a small window under Earthquake, snapped back to the centre
/// under every other effect.
pub open spec fn spec_camera_position(
    active: Option<Effect>,
    cam_x: int,
    cam_y: int,
    win_w: int,
    win_h: int,
    dx: int,
    dy: int,
) -> (int, int) {
    if active == Some(Effect::Earthquake) {
        (
            spec_clamp(cam_x + dx, win_w / 2 - CAMERA_CLAMP_X, win_w / 2 + CAMERA_CLAMP_X),
            spec_clamp(cam_y + dy, win_h / 2 - CAMERA_CLAMP_Y, win_h / 2 + CAMERA_CLAMP_Y),
        )
    } else {
        (win_w / 2, win_h / 2)
    }
}

/// Camera shake applier: draws a bounded random offset and returns the new
/// camera position; under any effect but Earthquake the camera sits at the
/// screen centre.
pub fn shake_camera(active: Option<Effect>, cam_x: i64, cam_y: i64, win_w: i64, win_h: i64) -> (r:
    (i64, i64))
    requires
        -COORD_LIMIT <= cam_x <= COORD_LIMIT,
        -COORD_LIMIT <= cam_y <= COORD_LIMIT,
        0 <= win_w <= COORD_LIMIT,
        0 <= win_h <= COORD_LIMIT,
    ensures
        exists|dx: int, dy: int|
            #![trigger spec_camera_position(active, cam_x as int, cam_y as int, win_w as int, win_h as int, dx, dy)]
            {
                &&& -CAMERA_JITTER_X <= dx <= CAMERA_JITTER_X
                &&& -CAMERA_JITTER_Y <= dy <= CAMERA_JITTER_Y
                &&& ({
                    let p = spec_camera_position(
                        active,
                        cam_x as int,
                        cam_y as int,
                        win_w as int,
                        win_h as int,
                        dx,
                        dy,
                    );
                    r.0 == p.0 && r.1 == p.1
                })
            },
        active != Some(Effect::Earthquake) ==> r.0 == win_w / 2 && r.1 == win_h / 2,
{
    if active == Some(Effect::Earthquake) {
        let dx = rand_range(0, 2 * CAMERA_JITTER_X as u64) as i64 - CAMERA_JITTER_X;
        let dy = rand_range(0, 2 * CAMERA_JITTER_Y as u64) as i64 - CAMERA_JITTER_Y;
        let x = clamp_i64(cam_x + dx, win_w / 2 - CAMERA_CLAMP_X, win_w / 2 + CAMERA_CLAMP_X);
        let y = clamp_i64(cam_y + dy, win_h / 2 - CAMERA_CLAMP_Y, win_h / 2 + CAMERA_CLAMP_Y);
        proof {
            let p = spec_camera_position(
                active,
                cam_x as int,
                cam_y as int,
                win_w as int,
                win_h as int,
                dx as int,
                dy as int,
            );
            assert(x == p.0 && y == p.1);
        }
        (x, y)
    } else {
        proof {
            let p = spec_camera_position(
                active,
                cam_x as int,
                cam_y as int,
                win_w as int,
                win_h as int,
                0,
                0,
            );
            assert(p.0 == win_w as int / 2 && p.1 == win_h as int / 2);
        }
        (win_w / 2, win_h / 2)
    }
}

/// Holding each variant at most once, a full bag has no duplicates.
pub proof fn lemma_full_bag_no_duplicates(s: Seq<Effect>)
    requires
        is_full_bag(s),
    ensures
        s.no_duplicates(),
{
    broadcast use vstd::seq_lib::group_to_multiset_ensures;
    assert forall|x: Effect| s.to_multiset().contains(x) implies s.to_multiset().count(x)
        == 1 by {
        lemma_full_bag_count(s, x);
    }
    s.lemma_multiset_has_no_duplicates_conv();
}

} // verus!

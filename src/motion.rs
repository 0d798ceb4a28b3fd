use vstd::prelude::*;
use crate::input::Key;

verus! {

/// How fast the camera goes relative to its configured speed: as set, times
/// the boost factor (shift held), or divided by it (slow motion).
#[derive(Clone, Copy, Debug, PartialEq, Eq, Structural)]
pub enum Boost {
    Normal,
    Fast,
    Slow,
}

/// The boost that a single key selects, if it selects one.
pub open spec fn boost_key(k: Key) -> Option<Boost> {
    match k {
        Key::LShift => Some(Boost::Fast),
        Key::O => Some(Boost::Slow),
        _ => None,
    }
}

/// The boost in force while `keys` are held, in the order they are listed:
/// the last key that selects a boost decides; with none the speed is normal.
pub open spec fn boost_of(keys: Seq<Key>) -> Boost
    decreases keys.len(),
{
    if keys.len() == 0 {
        Boost::Normal
    } else {
        match boost_key(keys.last()) {
            Some(b) => b,
            None => boost_of(keys.drop_last()),
        }
    }
}

/// Returns the boost selected by the held keys (left shift runs, `O` crawls).
pub fn get_boost(keys: &Vec<Key>) -> (r: Boost)
    ensures
        r == boost_of(keys@),
{
    let mut boost = Boost::Normal;
    let mut i: usize = 0;
    while i < keys.len()
        invariant
            i <= keys.len(),
            boost == boost_of(keys@.subrange(0, i as int)),
        decreases keys.len() - i,
    {
        match keys[i] {
            Key::LShift => boost = Boost::Fast,
            Key::O => boost = Boost::Slow,
            _ => {},
        }
        assert(keys@.subrange(0, i + 1).drop_last() =~= keys@.subrange(0, i as int));
        i = i + 1;
    }
    assert(keys@.subrange(0, keys.len() as int) =~= keys@);
    boost
}

/// A direction of motion or turning that held keys can drive.
#[derive(Clone, Copy, Debug, PartialEq, Eq, Structural)]
pub enum Axis {
    /// Along the camera's heading, projected onto the horizontal plane.
    Forward,
    /// Sideways, horizontal and square to the heading.
    Right,
    /// Along the world's vertical axis.
    Up,
    /// Turning about the world's vertical axis.
    Yaw,
    /// Turning about the camera's own sideways axis.
    Pitch,
    /// Turning about the camera's own viewing axis.
    Roll,
}

/// What one held key adds along an axis: `1`, `-1`, or `0` for no effect.
pub open spec fn key_step(k: Key, a: Axis) -> int {
    match a {
        Axis::Forward => match k {
            Key::W | Key::Up => 1,
            Key::S | Key::Down => -1,
            _ => 0,
        },
        Axis::Right => match k {
            Key::D | Key::Right => 1,
            Key::A | Key::Left => -1,
            _ => 0,
        },
        Axis::Up => match k {
            Key::Space | Key::Period => 1,
            Key::RShift | Key::Comma => -1,
            _ => 0,
        },
        Axis::Yaw => match k {
            Key::E => 1,
            Key::Q => -1,
            _ => 0,
        },
        Axis::Pitch => match k {
            Key::RBracket => 1,
            Key::LBracket => -1,
            _ => 0,
        },
        Axis::Roll => match k {
            Key::X => 1,
            Key::Z => -1,
            _ => 0,
        },
    }
}

/// The net drive of `keys` along an axis: the sum of their steps.
pub open spec fn axis_sum(keys: Seq<Key>, a: Axis) -> int
    decreases keys.len(),
{
    if keys.len() == 0 {
        0
    } else {
        axis_sum(keys.drop_last(), a) + key_step(keys.last(), a)
    }
}

/// The net drive of a set of held keys along every axis. Opposite keys
/// cancel; the caller scales the result by speed, boost and frame time.
#[derive(Clone, Copy, Debug, PartialEq, Eq, Structural)]
pub struct MoveIntent {
    pub forward: i64,
    pub right: i64,
    pub up: i64,
    pub yaw: i64,
    pub pitch: i64,
    pub roll: i64,
}

/// The drive of `m` along an axis.
pub open spec fn intent_along(m: MoveIntent, a: Axis) -> int {
    match a {
        Axis::Forward => m.forward as int,
        Axis::Right => m.right as int,
        Axis::Up => m.up as int,
        Axis::Yaw => m.yaw as int,
        Axis::Pitch => m.pitch as int,
        Axis::Roll => m.roll as int,
    }
}

/// No axis is driven harder than the number of keys held.
pub proof fn lemma_axis_sum_bound(keys: Seq<Key>, a: Axis)
    ensures
        -keys.len() <= axis_sum(keys, a) <= keys.len(),
    decreases keys.len(),
{
    if keys.len() > 0 {
        lemma_axis_sum_bound(keys.drop_last(), a);
    }
}

fn step(k: Key, a: Axis) -> (r: i64)
    ensures
        r == key_step(k, a),
{
    match a {
        Axis::Forward => match k {
            Key::W | Key::Up => 1,
            Key::S | Key::Down => -1,
            _ => 0,
        },
        Axis::Right => match k {
            Key::D | Key::Right => 1,
            Key::A | Key::Left => -1,
            _ => 0,
        },
        Axis::Up => match k {
            Key::Space | Key::Period => 1,
            Key::RShift | Key::Comma => -1,
            _ => 0,
        },
        Axis::Yaw => match k {
            Key::E => 1,
            Key::Q => -1,
            _ => 0,
        },
        Axis::Pitch => match k {
            Key::RBracket => 1,
            Key::LBracket => -1,
            _ => 0,
        },
        Axis::Roll => match k {
            Key::X => 1,
            Key::Z => -1,
            _ => 0,
        },
    }
}

/// Reads the held keys into the drive along each axis: `W`/`S` and the up and
/// down arrows move forward and back, `A`/`D` and the side arrows strafe,
/// space/period rise and right shift/comma sink, `Q`/`E` yaw, the brackets
/// pitch and `Z`/`X` roll.
pub fn move_intent(keys: &Vec<Key>) -> (r: MoveIntent)
    requires
        keys@.len() <= i64::MAX,
    ensures
        forall|a: Axis| #[trigger] intent_along(r, a) == axis_sum(keys@, a),
{
    let mut r = MoveIntent { forward: 0, right: 0, up: 0, yaw: 0, pitch: 0, roll: 0 };
    let mut i: usize = 0;
    while i < keys.len()
        invariant
            i <= keys.len() <= i64::MAX,
            forall|a: Axis| #[trigger] intent_along(r, a) == axis_sum(keys@.subrange(0, i as int), a),
        decreases keys.len() - i,
    {
        let k = keys[i];
        let ghost prefix = keys@.subrange(0, i as int);
        assert(keys@.subrange(0, i + 1).drop_last() =~= prefix);
        assert(keys@.subrange(0, i + 1).last() == k);
        proof {
            lemma_axis_sum_bound(prefix, Axis::Forward);
            lemma_axis_sum_bound(prefix, Axis::Right);
            lemma_axis_sum_bound(prefix, Axis::Up);
            lemma_axis_sum_bound(prefix, Axis::Yaw);
            lemma_axis_sum_bound(prefix, Axis::Pitch);
            lemma_axis_sum_bound(prefix, Axis::Roll);
            assert(intent_along(r, Axis::Forward) == axis_sum(prefix, Axis::Forward));
            assert(intent_along(r, Axis::Right) == axis_sum(prefix, Axis::Right));
            assert(intent_along(r, Axis::Up) == axis_sum(prefix, Axis::Up));
            assert(intent_along(r, Axis::Yaw) == axis_sum(prefix, Axis::Yaw));
            assert(intent_along(r, Axis::Pitch) == axis_sum(prefix, Axis::Pitch));
            assert(intent_along(r, Axis::Roll) == axis_sum(prefix, Axis::Roll));
        }
        r.forward = r.forward + step(k, Axis::Forward);
        r.right = r.right + step(k, Axis::Right);
        r.up = r.up + step(k, Axis::Up);
        r.yaw = r.yaw + step(k, Axis::Yaw);
        r.pitch = r.pitch + step(k, Axis::Pitch);
        r.roll = r.roll + step(k, Axis::Roll);
        i = i + 1;
        assert forall|a: Axis| #[trigger] intent_along(r, a) == axis_sum(keys@.subrange(0, i as int), a) by {
            assert(keys@.subrange(0, i as int).drop_last() =~= prefix);
        }
    }
    assert(keys@.subrange(0, keys.len() as int) =~= keys@);
    r
}

} // verus!

use vstd::prelude::*;

verus! {

/// How far the cursor goes per injected move.
#[derive(Clone, Copy, Debug, PartialEq, Eq, Structural)]
pub enum MoveType {
    /// Just sets the cursor at the target.
    Immediate,
    /// One pixel per move.
    Smooth,
    /// Two pixels per move.
    Faster,
    /// Three pixels per move.
    VeryFast,
}

pub open spec fn spec_step_size(m: MoveType) -> u32 {
    match m {
        MoveType::Immediate => 0,
        MoveType::Smooth => 1,
        MoveType::Faster => 2,
        MoveType::VeryFast => 3,
    }
}

impl MoveType {
    /// The largest distance along one axis that a single move covers; zero
    /// means no limit.
    pub fn step_size(self) -> (r: u32)
        ensures
            r == spec_step_size(self),
    {
        match self {
            MoveType::Immediate => 0,
            MoveType::Smooth => 1,
            MoveType::Faster => 2,
            MoveType::VeryFast => 3,
        }
    }
}

pub open spec fn abs(v: int) -> int {
    if v < 0 {
        -v
    } else {
        v
    }
}

/// The larger of the distances along the two axes from `(x, y)` to `(tx, ty)`.
pub open spec fn dist(x: int, y: int, tx: int, ty: int) -> nat {
    if abs(tx - x) >= abs(ty - y) {
        abs(tx - x) as nat
    } else {
        abs(ty - y) as nat
    }
}

/// The part of the remaining distance `rem` that one move covers: all of
/// it, or `step` in its direction, whichever is shorter.
pub open spec fn toward(rem: int, step: int) -> int {
    if rem > step {
        step
    } else if rem < -step {
        -step
    } else {
        rem
    }
}

/// The positions that a walk from `(x, y)` to `(tx, ty)` visits, with at
/// most `step` per axis and move; empty when it is already there.
pub open spec fn smooth_path(x: int, y: int, tx: int, ty: int, step: nat) -> Seq<(int, int)>
    decreases dist(x, y, tx, ty),
{
    if step == 0 || (x == tx && y == ty) {
        Seq::empty()
    } else {
        let nx = x + toward(tx - x, step as int);
        let ny = y + toward(ty - y, step as int);
        seq![(nx, ny)] + smooth_path(nx, ny, tx, ty, step)
    }
}

/// The absolute positions that one move of the cursor from `cur` to `target`
/// goes through: the target alone when `step` is zero, else the walk.
pub open spec fn motion_path(cur: (i32, i32), target: (i32, i32), step: u32) -> Seq<(int, int)> {
    if step == 0 {
        seq![(target.0 as int, target.1 as int)]
    } else {
        smooth_path(cur.0 as int, cur.1 as int, target.0 as int, target.1 as int, step as nat)
    }
}

pub open spec fn points(s: Seq<(i32, i32)>) -> Seq<(int, int)> {
    s.map_values(|p: (i32, i32)| (p.0 as int, p.1 as int))
}

proof fn lemma_step_shrinks(x: int, y: int, tx: int, ty: int, step: nat)
    requires
        step > 0,
        !(x == tx && y == ty),
    ensures
        dist(x + toward(tx - x, step as int), y + toward(ty - y, step as int), tx, ty) < dist(
            x,
            y,
            tx,
            ty,
        ),
{
}

/// The absolute positions for moving the cursor from `current` to `target`
/// in moves of at most `step` per axis (one move straight there when `step`
/// is zero).
pub fn smooth_move(current: (i32, i32), target: (i32, i32), step: u32) -> (r: Vec<(i32, i32)>)
    ensures
        points(r@) == motion_path(current, target, step),
{
    let mut out: Vec<(i32, i32)> = Vec::new();
    if step == 0 {
        out.push(target);
        assert(points(out@) =~= motion_path(current, target, step));
        return out;
    }
    let (tx, ty) = target;
    let mut cx: i32 = current.0;
    let mut cy: i32 = current.1;
    let s: i64 = step as i64;
    while cx != tx || cy != ty
        invariant
            s == step as i64,
            s > 0,
            points(out@) + smooth_path(cx as int, cy as int, tx as int, ty as int, step as nat)
                == motion_path(current, target, step),
        decreases dist(cx as int, cy as int, tx as int, ty as int),
    {
        let rx: i64 = tx as i64 - cx as i64;
        let ry: i64 = ty as i64 - cy as i64;
        let mx: i64 = if rx > s {
            s
        } else if rx < -s {
            -s
        } else {
            rx
        };
        let my: i64 = if ry > s {
            s
        } else if ry < -s {
            -s
        } else {
            ry
        };
        let nx: i32 = (cx as i64 + mx) as i32;
        let ny: i32 = (cy as i64 + my) as i32;
        proof {
            lemma_step_shrinks(cx as int, cy as int, tx as int, ty as int, step as nat);
        }
        let ghost old_out = out@;
        out.push((nx, ny));
        assert(points(out@) =~= points(old_out) + seq![(nx as int, ny as int)]);
        assert(points(out@) + smooth_path(nx as int, ny as int, tx as int, ty as int, step as nat)
            =~= points(old_out) + smooth_path(cx as int, cy as int, tx as int, ty as int, step as nat));
        cx = nx;
        cy = ny;
    }
    assert(points(out@) + Seq::empty() =~= points(out@));
    out
}

/// `m / s` rounded up.
pub open spec fn ceil_div(m: nat, s: nat) -> nat
    recommends
        s > 0,
{
    ((m + s - 1) / (s as int)) as nat
}

proof fn lemma_step_distance(x: int, y: int, tx: int, ty: int, step: nat)
    requires
        step > 0,
    ensures
        dist(x + toward(tx - x, step as int), y + toward(ty - y, step as int), tx, ty) == if dist(
            x,
            y,
            tx,
            ty,
        ) > step {
            dist(x, y, tx, ty) - step
        } else {
            0
        },
{
}

proof fn lemma_ceil_div_step(m: nat, s: nat)
    requires
        s > 0,
        m > 0,
    ensures
        ceil_div(m, s) == 1 + ceil_div(if m > s { (m - s) as nat } else { 0 }, s),
{
    if m > s {
        let k = (m - s) as nat;
        assert((k + s - 1 + s) / (s as int) == (k + s - 1) / (s as int) + 1) by (nonlinear_arith)
            requires
                s > 0,
                k + s - 1 >= 0,
        {
            vstd::arithmetic::div_mod::lemma_div_plus_one((k + s - 1) as int, s as int);
        }
    } else {
        assert((m + s - 1) / (s as int) == 1) by (nonlinear_arith)
            requires
                s > 0,
                0 < m <= s,
        ;
        assert((s - 1) / (s as int) == 0) by (nonlinear_arith)
            requires
                s > 0,
        ;
    }
}

proof fn lemma_smooth_path_exact(x: int, y: int, tx: int, ty: int, step: nat)
    requires
        step > 0,
    ensures
        smooth_path(x, y, tx, ty, step).len() == ceil_div(dist(x, y, tx, ty), step),
        dist(x, y, tx, ty) > 0 ==> smooth_path(x, y, tx, ty, step).last() == (tx, ty),
    decreases dist(x, y, tx, ty),
{
    if x == tx && y == ty {
        assert((step - 1) / (step as int) == 0) by (nonlinear_arith)
            requires
                step > 0,
        ;
    } else {
        let nx = x + toward(tx - x, step as int);
        let ny = y + toward(ty - y, step as int);
        lemma_step_shrinks(x, y, tx, ty, step);
        lemma_step_distance(x, y, tx, ty, step);
        lemma_smooth_path_exact(nx, ny, tx, ty, step);
        lemma_ceil_div_step(dist(x, y, tx, ty), step);
        let rest = smooth_path(nx, ny, tx, ty, step);
        if dist(nx, ny, tx, ty) == 0 {
            assert(nx == tx && ny == ty);
            assert(rest.len() == 0);
        }
    }
}

/// A move reaches its target exactly. With a step of zero it is one
/// position; otherwise it is `ceil(max(|dx|, |dy|) / step)` positions, the
/// last of which is the target.
pub proof fn lemma_motion_path_exact(cur: (i32, i32), target: (i32, i32), step: u32)
    ensures
        step == 0 ==> motion_path(cur, target, step) == seq![(target.0 as int, target.1 as int)],
        step > 0 ==> motion_path(cur, target, step).len() == ceil_div(
            dist(cur.0 as int, cur.1 as int, target.0 as int, target.1 as int),
            step as nat,
        ),
        motion_path(cur, target, step).len() > 0 ==> motion_path(cur, target, step).last() == (
            target.0 as int,
            target.1 as int,
        ),
{
    if step > 0 {
        lemma_smooth_path_exact(
            cur.0 as int,
            cur.1 as int,
            target.0 as int,
            target.1 as int,
            step as nat,
        );
    }
}

} // verus!

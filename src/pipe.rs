use vstd::prelude::*;

use rand::{thread_rng, Rng};

use crate::geometry::{meets, meets_at, Bounds};

verus! {

/// Horizontal position at which every pipe enters: the right edge of the
/// screen.
pub const SPAWN_X: i32 = 800;

/// Height of the screen; upright pipes stand on its bottom edge.
pub const SCREEN_HEIGHT: i32 = 600;

/// Width shared by all pipes.
pub const PIPE_WIDTH: i32 = 50;

/// Smallest height a pipe is given.
pub const MIN_HEIGHT: i32 = 100;

/// Number of equally likely extra heights drawn on top of `MIN_HEIGHT`.
pub const HEIGHT_ROLLS: u32 = 300;

/// Number of equally likely outcomes of the orientation draw.
pub const FLIP_ROLLS: u32 = 10;

/// An orientation draw above this value turns the pipe upside down, which
/// happens on four of the ten outcomes.
pub const FLIP_ABOVE: u32 = 5;

/// One obstacle: a rectangle of width `w` and height `h` at horizontal
/// position `x`, standing on the bottom of the screen, or hanging from its
/// top when `inverted`.
#[derive(Clone, Copy, Debug, PartialEq, Eq)]
pub struct Pipe {
    pub x: i32,
    pub h: i32,
    pub w: i32,
    pub inverted: bool,
}

/// What a freshly spawned pipe looks like, whatever was drawn for it.
pub open spec fn spawned(p: Pipe) -> bool {
    &&& p.x == SPAWN_X
    &&& p.w == PIPE_WIDTH
    &&& MIN_HEIGHT <= p.h < MIN_HEIGHT + HEIGHT_ROLLS
}

/// The pipe spawned from a height draw and an orientation draw.
pub open spec fn rolled(height_roll: int, flip_roll: int) -> Pipe {
    Pipe {
        x: SPAWN_X,
        h: (MIN_HEIGHT + height_roll) as i32,
        w: PIPE_WIDTH,
        inverted: flip_roll > FLIP_ABOVE,
    }
}

/// The upper edge of the pipe's rectangle: the top of the screen for an
/// inverted pipe, `SCREEN_HEIGHT - h` for an upright one.
pub open spec fn top(p: Pipe) -> int {
    if p.inverted {
        0
    } else {
        SCREEN_HEIGHT - p.h
    }
}

/// The pipe's rectangle and the hitbox `b` have a common point.
pub open spec fn touches(p: Pipe, b: Bounds) -> bool {
    meets(p.x as int, top(p), p.w as int, p.h as int, b)
}

/// The pipe moved `speed` pixels to the left.
pub open spec fn shifted(p: Pipe, speed: int) -> Pipe {
    Pipe { x: (p.x - speed) as i32, h: p.h, w: p.w, inverted: p.inverted }
}

/// After moving `speed` pixels to the left the pipe's right edge is no
/// longer on the screen.
pub open spec fn expires(p: Pipe, speed: int) -> bool {
    p.x - speed + p.w <= 0
}

/// Relies on rand's `Rng::gen_range` on the thread-local generator: a value
/// in `[0, n)`, which panics when the range is empty.
#[verifier::external_body]
fn random_below(n: u32) -> (r: u32)
    requires
        n > 0,
    ensures
        r < n,
{
    thread_rng().gen_range(0, n)
}

/// Where and how a pipe is drawn: the destination rectangle on the screen,
/// and whether the sprite is mirrored top to bottom.
#[derive(Clone, Copy, Debug, PartialEq, Eq)]
pub struct Placement {
    pub rect: Bounds,
    pub flip_vertical: bool,
}

impl Pipe {
    /// A new pipe at the right edge of the screen, with a random height in
    /// `[100, 400)` and upside down with probability 4/10.
    pub fn new() -> (r: Pipe)
        ensures
            spawned(r),
    {
        let flip_roll = random_below(FLIP_ROLLS);
        let height_roll = random_below(HEIGHT_ROLLS);
        Pipe::from_rolls(height_roll, flip_roll)
    }

    /// The pipe spawned from the draws `height_roll` in `[0, 300)` and
    /// `flip_roll`: height `100 + height_roll`, inverted when `flip_roll > 5`.
    pub fn from_rolls(height_roll: u32, flip_roll: u32) -> (r: Pipe)
        requires
            height_roll < HEIGHT_ROLLS,
        ensures
            r == rolled(height_roll as int, flip_roll as int),
            spawned(r),
    {
        Pipe {
            x: SPAWN_X,
            h: MIN_HEIGHT + height_roll as i32,
            w: PIPE_WIDTH,
            inverted: flip_roll > FLIP_ABOVE,
        }
    }

    /// This pipe one frame later: moved `speed` pixels to the left, or
    /// `None` once its right edge has left the screen.
    pub fn step(&self, speed: i32) -> (r: Option<Pipe>)
        requires
            i32::MIN <= self.x - speed <= i32::MAX,
        ensures
            r == (if expires(*self, speed as int) {
                None
            } else {
                Some(shifted(*self, speed as int))
            }),
    {
        let x = self.x - speed;
        if (x as i64) + (self.w as i64) > 0 {
            Some(Pipe { x, h: self.h, w: self.w, inverted: self.inverted })
        } else {
            None
        }
    }

    /// How this pipe is drawn: its rectangle, anchored to the top of the
    /// screen and mirrored when inverted, to the bottom and unmirrored
    /// otherwise.
    pub fn placement(&self) -> (r: Placement)
        requires
            SCREEN_HEIGHT - self.h <= i32::MAX,
        ensures
            r.rect == (Bounds { x: self.x, y: top(*self) as i32, w: self.w, h: self.h }),
            r.flip_vertical == self.inverted,
    {
        let mut rect = Bounds { x: self.x, y: SCREEN_HEIGHT - self.h, w: self.w, h: self.h };
        let mut flip = false;
        if self.inverted {
            rect.y = 0;
            flip = true;
        }
        Placement { rect, flip_vertical: flip }
    }

    /// Whether the bird's hitbox meets this pipe's rectangle.
    pub fn touch(&self, bird: &Bounds) -> (r: bool)
        ensures
            r == touches(*self, *bird),
    {
        let y: i64 = if self.inverted {
            0
        } else {
            SCREEN_HEIGHT as i64 - self.h as i64
        };
        meets_at(self.x as i64, y, self.w as i64, self.h as i64, bird)
    }
}

/// Of the ten equally likely orientation draws, exactly four give an
/// inverted pipe, whatever height was drawn: a pipe hangs from the top with
/// probability 4/10.
pub proof fn lemma_inverted_odds(height_roll: int)
    ensures
        Set::new(|f: int| 0 <= f < FLIP_ROLLS && rolled(height_roll, f).inverted) == set![
            6int,
            7int,
            8int,
            9int,
        ],
        Set::new(|f: int| 0 <= f < FLIP_ROLLS && rolled(height_roll, f).inverted).len() == 4,
{
    let inverting = Set::new(|f: int| 0 <= f < FLIP_ROLLS && rolled(height_roll, f).inverted);
    assert(inverting =~= set![6int, 7int, 8int, 9int]);
    assert(set![6int, 7int, 8int, 9int].len() == 4) by {
        let s0 = Set::<int>::empty();
        assert(s0.insert(6).insert(7).insert(8).insert(9) == set![6int, 7int, 8int, 9int]);
    }
}

} // verus!

use vstd::prelude::*;

use crate::geometry::Bounds;
use crate::pipe::{
    expires, shifted, spawned, touches, Pipe, HEIGHT_ROLLS, MIN_HEIGHT, PIPE_WIDTH, SPAWN_X,
};

verus! {

/// Pixels every pipe moves to the left in one frame.
pub const SPEED: i32 = 4;

/// A pipe that can stand in the collection: its width and height as spawned,
/// its position between the spawn point and the last on which its right edge
/// is still on the screen.
pub open spec fn in_play(p: Pipe) -> bool {
    &&& p.w == PIPE_WIDTH
    &&& MIN_HEIGHT <= p.h < MIN_HEIGHT + HEIGHT_ROLLS
    &&& -PIPE_WIDTH < p.x <= SPAWN_X
}

/// The obstacles on the screen, in spawn order. There is always exactly one.
pub struct Pipes {
    speed: i32,
    pipes: Vec<Pipe>,
}

impl View for Pipes {
    type V = Seq<Pipe>;

    closed spec fn view(&self) -> Seq<Pipe> {
        self.pipes@
    }
}

impl Pipes {
    #[verifier::type_invariant]
    spec fn well_formed(self) -> bool {
        &&& self.speed == SPEED
        &&& self.pipes@.len() == 1
        &&& forall|i: int| 0 <= i < self.pipes@.len() ==> in_play(#[trigger] self.pipes@[i])
    }

    /// The distance the pipes move per frame.
    pub closed spec fn spec_speed(self) -> int {
        self.speed as int
    }

    /// A collection holding one freshly spawned pipe.
    pub fn new() -> (r: Pipes)
        ensures
            r@.len() == 1,
            spawned(r@[0]),
            in_play(r@[0]),
            r.spec_speed() == SPEED,
    {
        Pipes { speed: SPEED, pipes: vec![Pipe::new()] }
    }

    /// Starts a new round: all pipes are dropped and one freshly spawned
    /// pipe takes their place.
    pub fn restart(&mut self)
        ensures
            final(self)@.len() == 1,
            spawned(final(self)@[0]),
            in_play(final(self)@[0]),
            final(self).spec_speed() == old(self).spec_speed(),
    {
        proof {
            use_type_invariant(&*self);
        }
        let fresh = vec![Pipe::new()];
        self.pipes = fresh;
    }

    /// Moves every pipe `speed` pixels to the left; a pipe whose right edge
    /// would leave the screen is replaced, in its slot, by a freshly spawned
    /// one.
    pub fn update(&mut self)
        ensures
            final(self).spec_speed() == old(self).spec_speed(),
            final(self)@.len() == old(self)@.len(),
            final(self)@.len() == 1,
            in_play(final(self)@[0]),
            forall|i: int|
                0 <= i < old(self)@.len() ==> if expires(
                    #[trigger] old(self)@[i],
                    old(self).spec_speed(),
                ) {
                    spawned(final(self)@[i])
                } else {
                    final(self)@[i] == shifted(old(self)@[i], old(self).spec_speed())
                },
    {
        proof {
            use_type_invariant(&*self);
        }
        let mut remaining: Vec<Pipe> = Vec::new();
        let mut i: usize = 0;
        while i < self.pipes.len()
            invariant
                self.speed == SPEED,
                self.pipes@.len() == 1,
                forall|j: int| 0 <= j < self.pipes@.len() ==> in_play(#[trigger] self.pipes@[j]),
                i <= self.pipes@.len(),
                remaining@.len() == i,
                forall|j: int| 0 <= j < i ==> in_play(#[trigger] remaining@[j]),
                forall|j: int|
                    0 <= j < i ==> if expires(#[trigger] self.pipes@[j], SPEED as int) {
                        spawned(remaining@[j])
                    } else {
                        remaining@[j] == shifted(self.pipes@[j], SPEED as int)
                    },
            decreases self.pipes@.len() - i,
        {
            let p = self.pipes[i];
            match p.step(self.speed) {
                Some(moved) => remaining.push(moved),
                None => remaining.push(Pipe::new()),
            }
            i += 1;
        }
        self.pipes = remaining;
    }

    /// Whether any pipe meets the bird's hitbox; every pipe is tested.
    pub fn touch(&self, bird: &Bounds) -> (r: bool)
        ensures
            r == exists|i: int| 0 <= i < self@.len() && touches(#[trigger] self@[i], *bird),
    {
        let mut hit = false;
        let mut i: usize = 0;
        while i < self.pipes.len()
            invariant
                i <= self.pipes@.len(),
                hit == exists|j: int| 0 <= j < i && touches(#[trigger] self.pipes@[j], *bird),
            decreases self.pipes@.len() - i,
        {
            let touched = self.pipes[i].touch(bird);
            hit = hit || touched;
            i += 1;
        }
        assert(self@ == self.pipes@);
        hit
    }

    /// The distance the pipes move per frame, always `SPEED`.
    pub fn speed(&self) -> (r: i32)
        ensures
            r == self.spec_speed(),
            r == SPEED,
    {
        proof {
            use_type_invariant(self);
        }
        self.speed
    }

    /// The pipes, in spawn order: always exactly one, and in play.
    pub fn pipes(&self) -> (r: &Vec<Pipe>)
        ensures
            r@ == self@,
            self@.len() == 1,
            in_play(self@[0]),
    {
        proof {
            use_type_invariant(self);
        }
        &self.pipes
    }
}

} // verus!

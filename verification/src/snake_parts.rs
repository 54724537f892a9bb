use crate::game_utils::{Direction, Position};
use vstd::prelude::*;

verus! {

/// One body segment of the snake: where it is and which way it faces.
#[derive(Clone, Copy, Debug)]
pub struct SnakeBody {
    pub position: Position,
    pub direction: Direction,
}

impl SnakeBody {
    /// The segment centered on cell `(x, y)`, facing right.
    pub open spec fn at_cell_spec(x: int, y: int) -> SnakeBody {
        SnakeBody {
            position: Position { x: (x * 1000) as i64, y: (y * 1000) as i64 },
            direction: Direction::right_spec(),
        }
    }

    pub fn new(x: u16, y: u16) -> (b: SnakeBody)
        ensures
            b == SnakeBody::at_cell_spec(x as int, y as int),
            b.wf(),
    {
        SnakeBody {
            position: Position { x: x as i64 * 1000, y: y as i64 * 1000 },
            direction: Direction::right(),
        }
    }

    /// A segment is well formed when it faces one of the four directions.
    pub open spec fn wf(self) -> bool {
        self.direction.is_canonical()
    }
}

/// The snake's whole body, head first: segment `i + 1` trails segment `i`.
/// A chain always holds at least the head.
#[derive(Clone, Debug)]
pub struct SnakeChain {
    pub parts: Vec<SnakeBody>,
}

impl SnakeChain {
    pub open spec fn wf(self) -> bool {
        self.parts@.len() >= 1 && forall|i: int|
            0 <= i < self.parts@.len() ==> (#[trigger] self.parts@[i]).wf()
    }

    /// A chain of one segment: the head centered on cell `(x, y)`.
    pub fn new(x: u16, y: u16) -> (c: SnakeChain)
        ensures
            c.parts@.len() == 1,
            c.parts@[0] == SnakeBody::at_cell_spec(x as int, y as int),
            c.wf(),
    {
        let mut parts: Vec<SnakeBody> = Vec::new();
        parts.push(SnakeBody::new(x, y));
        SnakeChain { parts }
    }

    pub fn head(&self) -> (b: SnakeBody)
        requires
            self.wf(),
        ensures
            b == self.parts@[0],
    {
        self.parts[0]
    }

    pub fn len(&self) -> (n: usize)
        ensures
            n == self.parts@.len(),
    {
        self.parts.len()
    }

    /// The chain after growing: a new tail one cell behind the old tail,
    /// facing the same way.
    pub open spec fn grown_spec(parts: Seq<SnakeBody>) -> Seq<SnakeBody> {
        parts.push(
            SnakeBody {
                position: parts.last().position.cell_behind_spec(parts.last().direction),
                direction: parts.last().direction,
            },
        )
    }

    /// Append a segment one cell behind the tail, along the tail's facing.
    pub fn add_body(&mut self)
        requires
            old(self).wf(),
            old(self).parts@.len() < usize::MAX,
        ensures
            final(self).parts@ == Self::grown_spec(old(self).parts@),
            final(self).parts@.len() == old(self).parts@.len() + 1,
            final(self).wf(),
    {
        let n = self.parts.len();
        let tail = self.parts[n - 1];
        proof {
            assert(self.parts@[n - 1].wf());
        }
        let grown = SnakeBody {
            position: tail.position.cell_behind(tail.direction),
            direction: tail.direction,
        };
        self.parts.push(grown);
    }

    /// The chain after growing `n` times in a row.
    pub open spec fn grown_n_spec(parts: Seq<SnakeBody>, n: nat) -> Seq<SnakeBody>
        decreases n,
    {
        if n == 0 {
            parts
        } else {
            Self::grown_spec(Self::grown_n_spec(parts, (n - 1) as nat))
        }
    }

    /// Whether the head's cell is occupied by any trailing segment.
    pub open spec fn collides_spec(parts: Seq<SnakeBody>) -> bool {
        exists|i: int|
            1 <= i < parts.len() && (#[trigger] parts[i].position).same_cell(parts[0].position)
    }

    /// Walk the whole chain and report whether any segment shares the
    /// head's cell. A single-segment chain never collides with itself.
    pub fn self_collision(&self) -> (r: bool)
        requires
            self.wf(),
        ensures
            r == Self::collides_spec(self.parts@),
    {
        let head_cell = self.parts[0].position.get_screen_coordinates();
        let n = self.parts.len();
        let mut i: usize = 1;
        while i < n
            invariant
                1 <= i <= n,
                n == self.parts@.len(),
                self.wf(),
                forall|j: int|
                    1 <= j < i ==> !(#[trigger] self.parts@[j].position).same_cell(
                        self.parts@[0].position,
                    ),
                head_cell.0 == crate::game_utils::cell_of(self.parts@[0].position.x as int),
                head_cell.1 == crate::game_utils::cell_of(self.parts@[0].position.y as int),
            decreases n - i,
        {
            let cell = self.parts[i].position.get_screen_coordinates();
            if cell.0 == head_cell.0 && cell.1 == head_cell.1 {
                return true;
            }
            i = i + 1;
        }
        false
    }

    /// A chain is in shape when every segment sits exactly one cell
    /// behind its parent, along its own facing.
    pub open spec fn in_shape_spec(parts: Seq<SnakeBody>) -> bool {
        forall|i: int|
            1 <= i < parts.len() ==> (#[trigger] parts[i]).position == parts[i
                - 1].position.cell_behind_spec(parts[i].direction)
    }

    /// The chain with its head advanced exactly one cell along its facing.
    pub open spec fn stepped_spec(orig: Seq<SnakeBody>) -> Seq<SnakeBody> {
        orig.update(
            0,
            SnakeBody {
                position: orig[0].position.advanced_spec(orig[0].direction, 1000),
                direction: orig[0].direction,
            },
        )
    }

    /// The direction a segment inherits during a follow step: the head's
    /// vacating direction for the first follower, each parent's previous
    /// facing after that.
    pub open spec fn passed_direction(orig: Seq<SnakeBody>, d0: Direction, i: int) -> Direction {
        if i <= 1 {
            d0
        } else {
            orig[i - 1].direction
        }
    }

    /// Segment `i` after one follow step: one cell behind its (already
    /// moved) parent, facing the way the parent vacated.
    pub open spec fn followed_part(orig: Seq<SnakeBody>, d0: Direction, i: int) -> SnakeBody
        decreases i,
    {
        if i <= 0 {
            orig[0]
        } else {
            SnakeBody {
                position: Self::followed_part(orig, d0, i - 1).position.cell_behind_spec(
                    Self::passed_direction(orig, d0, i),
                ),
                direction: Self::passed_direction(orig, d0, i),
            }
        }
    }

    /// The whole chain after one follow step behind a head that vacated
    /// its cell moving in direction `d0`.
    pub open spec fn followed_spec(orig: Seq<SnakeBody>, d0: Direction) -> Seq<SnakeBody> {
        Seq::new(orig.len(), |i: int| Self::followed_part(orig, d0, i))
    }

    /// One follow step, head to tail in a single pass: each segment moves
    /// into the cell its parent just vacated and inherits the direction the
    /// parent had while vacating it.
    pub fn follow(&mut self, d0: Direction)
        requires
            old(self).wf(),
            d0.is_canonical(),
        ensures
            final(self).parts@ == Self::followed_spec(old(self).parts@, d0),
            final(self).parts@.len() == old(self).parts@.len(),
            final(self).wf(),
    {
        let ghost orig = self.parts@;
        let n = self.parts.len();
        let mut prev_dir = d0;
        let mut i: usize = 1;
        while i < n
            invariant
                1 <= i <= n,
                n == self.parts@.len(),
                n == orig.len(),
                d0.is_canonical(),
                prev_dir == Self::passed_direction(orig, d0, i as int),
                prev_dir.is_canonical(),
                forall|j: int| 0 <= j < orig.len() ==> (#[trigger] orig[j]).wf(),
                forall|j: int|
                    0 <= j < i ==> #[trigger] self.parts@[j] == Self::followed_part(orig, d0, j),
                forall|j: int| i <= j < n ==> #[trigger] self.parts@[j] == orig[j],
            decreases n - i,
        {
            let old_dir = self.parts[i].direction;
            let moved = SnakeBody {
                position: self.parts[i - 1].position.cell_behind(prev_dir),
                direction: prev_dir,
            };
            self.parts[i] = moved;
            prev_dir = old_dir;
            i = i + 1;
        }
        proof {
            assert(self.parts@ =~= Self::followed_spec(orig, d0));
        }
    }

    /// Shrink back to the head alone and recenter it on cell `(x, y)`,
    /// facing right.
    pub fn reset_to(&mut self, x: u16, y: u16)
        requires
            old(self).wf(),
        ensures
            final(self).parts@.len() == 1,
            final(self).parts@[0] == SnakeBody::at_cell_spec(x as int, y as int),
            final(self).wf(),
    {
        self.parts.truncate(1);
        self.parts[0] = SnakeBody::new(x, y);
    }
}

impl Default for SnakeBody {
    /// A lone segment parked on cell (20, 20), facing right.
    fn default() -> (b: SnakeBody)
        ensures
            b == SnakeBody::at_cell_spec(20, 20),
            b.wf(),
    {
        SnakeBody::new(20, 20)
    }
}

/// After a follow step every segment sits exactly one cell behind its
/// parent's new position, along the direction it just inherited: the
/// chain keeps its shape, with no gaps.
pub proof fn lemma_follow_adjacent(orig: Seq<SnakeBody>, d0: Direction, i: int)
    requires
        1 <= i < orig.len(),
    ensures
        SnakeChain::followed_spec(orig, d0)[i].position == SnakeChain::followed_spec(orig, d0)[i
            - 1].position.cell_behind_spec(SnakeChain::followed_spec(orig, d0)[i].direction),
        SnakeChain::followed_spec(orig, d0)[i].direction == SnakeChain::passed_direction(
            orig,
            d0,
            i,
        ),
{
}

/// After a follow step no segment shares a cell with its parent, as long
/// as the parent's new position stays inside the non-saturated,
/// non-negative range: consecutive segments never overlap.
pub proof fn lemma_follow_no_overlap(orig: Seq<SnakeBody>, d0: Direction, i: int)
    requires
        1 <= i < orig.len(),
        d0.is_canonical(),
        forall|j: int| 0 <= j < orig.len() ==> (#[trigger] orig[j]).wf(),
        1000 <= SnakeChain::followed_spec(orig, d0)[i - 1].position.x,
        1000 <= SnakeChain::followed_spec(orig, d0)[i - 1].position.y,
        SnakeChain::followed_spec(orig, d0)[i - 1].position.x + 1000 <= i64::MAX as int,
        SnakeChain::followed_spec(orig, d0)[i - 1].position.y + 1000 <= i64::MAX as int,
    ensures
        !SnakeChain::followed_spec(orig, d0)[i].position.same_cell(
            SnakeChain::followed_spec(orig, d0)[i - 1].position,
        ),
{
    let prev = SnakeChain::followed_spec(orig, d0)[i - 1].position;
    let d = SnakeChain::passed_direction(orig, d0, i);
    assert(d.is_canonical());
    crate::game_utils::lemma_cell_behind_changes_cell(prev, d);
}

/// Classic follow-the-leader: when a chain in shape advances its head by
/// exactly one cell and then runs the follow step, every trailing segment
/// moves precisely into the position its parent just vacated and inherits
/// the direction the parent had while vacating it. The head must sit in
/// the non-saturated, non-negative coordinate range.
pub proof fn lemma_follow_the_leader(orig: Seq<SnakeBody>, i: int)
    requires
        SnakeChain::in_shape_spec(orig),
        forall|j: int| 0 <= j < orig.len() ==> (#[trigger] orig[j]).wf(),
        1 <= i < orig.len(),
        0 <= orig[0].position.x,
        0 <= orig[0].position.y,
        orig[0].position.x + 1000 <= i64::MAX as int,
        orig[0].position.y + 1000 <= i64::MAX as int,
    ensures
        SnakeChain::followed_spec(
            SnakeChain::stepped_spec(orig),
            orig[0].direction,
        )[i].position == orig[i - 1].position,
        SnakeChain::followed_spec(
            SnakeChain::stepped_spec(orig),
            orig[0].direction,
        )[i].direction == orig[i - 1].direction,
    decreases i,
{
    let stepped = SnakeChain::stepped_spec(orig);
    let d0 = orig[0].direction;
    if i == 1 {
        assert(orig[0].wf());
        assert(SnakeChain::followed_part(stepped, d0, 0) == stepped[0]);
        assert(SnakeChain::followed_part(stepped, d0, 1).position == stepped[0].position.cell_behind_spec(d0));
        assert(stepped[0].position.cell_behind_spec(d0) == orig[0].position);
    } else {
        lemma_follow_the_leader(orig, i - 1);
        assert(orig[i - 1].position == orig[i - 2].position.cell_behind_spec(
            orig[i - 1].direction,
        ));
    }
}

/// Growing a chain `n` times adds exactly `n` segments: a fresh chain of
/// one segment reaches exactly `n + 1`.
pub proof fn lemma_grown_n_length(parts: Seq<SnakeBody>, n: nat)
    ensures
        SnakeChain::grown_n_spec(parts, n).len() == parts.len() + n,
    decreases n,
{
    if n > 0 {
        lemma_grown_n_length(parts, (n - 1) as nat);
    }
}

/// A chain of a single segment never reports a self-collision, whatever
/// its position and direction are.
pub proof fn lemma_single_segment_never_collides(c: SnakeChain)
    requires
        c.parts@.len() == 1,
    ensures
        !SnakeChain::collides_spec(c.parts@),
{
}

} // verus!

//! The body of the snake: an ordered run of cells, tail first, together with
//! the set of cells that the collision test answers for.

use std::collections::BTreeSet;
use std::collections::VecDeque;
use vstd::prelude::*;

verus! {

broadcast use vstd::laws_cmp::group_laws_cmp;

/// A cell of the grid, as column and row.
pub type Position = (u16, u16);

/// The segments of a snake and the cells they occupy.
///
/// The body is kept in order, in a queue, and the set of its cells beside
/// it, so that the collision test need not walk the body. Several segments
/// may lie on one cell, as all of them do in a fresh snake; the cell is
/// occupied as long as one of them lies there.
pub struct Snake {
    occupied_fields: BTreeSet<(u16, u16)>,
    field_queue: VecDeque<(u16, u16)>,
}

impl Snake {
    /// The segments in order: the tail at index 0, the head last.
    pub closed spec fn body(&self) -> Seq<Position> {
        self.field_queue@
    }

    /// The cells that the occupancy set holds.
    pub closed spec fn occupied(&self) -> Set<Position> {
        self.occupied_fields@
    }

    /// The occupancy set holds exactly the cells on which a segment lies.
    pub open spec fn wf(&self) -> bool {
        self.occupied() == self.body().to_set()
    }

    /// No two segments share a cell.
    pub open spec fn settled(&self) -> bool {
        self.body().no_duplicates()
    }

    /// A settled snake has as many segments as it has occupied cells.
    pub proof fn lemma_settled_sizes_agree(&self)
        requires
            self.wf(),
            self.settled(),
        ensures
            self.occupied().finite(),
            self.occupied().len() == self.body().len(),
    {
        broadcast use vstd::seq_lib::seq_to_set_is_finite;

        self.body().unique_seq_to_set();
    }

    /// The body is no longer than a machine can count.
    pub proof fn lemma_len_bounded(&self)
        ensures
            self.body().len() <= usize::MAX,
    {
        assert(self.field_queue@.len() == self.field_queue.len());
    }

    /// A snake of `initial_len` segments, all of them on `initial_pos`.
    pub fn new(initial_pos: (u16, u16), initial_len: u16) -> (snake: Self)
        ensures
            snake.wf(),
            snake.body() == Seq::new(initial_len as nat, |i: int| initial_pos),
            snake.occupied() == if initial_len > 0 {
                set![initial_pos]
            } else {
                Set::empty()
            },
            initial_len <= 1 ==> snake.settled(),
    {
        let mut snake = Self { occupied_fields: BTreeSet::new(), field_queue: VecDeque::new() };
        assert(snake.occupied() =~= snake.body().to_set());
        let mut added: u16 = 0;
        while added < initial_len
            invariant
                added <= initial_len,
                snake.wf(),
                snake.body() == Seq::new(added as nat, |i: int| initial_pos),
                snake.occupied() == if added > 0 {
                    set![initial_pos]
                } else {
                    Set::empty()
                },
                added <= 1 ==> snake.settled(),
            decreases initial_len - added,
        {
            snake.add_segment(initial_pos);
            added = added + 1;
        }
        snake
    }

    /// Appends `pos` as the new head and marks its cell occupied.
    pub fn add_segment(&mut self, pos: (u16, u16))
        requires
            old(self).wf(),
        ensures
            final(self).wf(),
            final(self).body() == old(self).body().push(pos),
            final(self).occupied() == old(self).occupied().insert(pos),
            old(self).settled() && !old(self).body().contains(pos) ==> final(self).settled(),
    {
        self.field_queue.push_back(pos);
        self.occupied_fields.insert(pos);
        proof {
            old(self).body().lemma_push_to_set_commute(pos);
        }
    }

    /// The tail: the oldest segment still in the body.
    pub fn get_last_segment(&self) -> (pos: &(u16, u16))
        requires
            self.body().len() > 0,
        ensures
            *pos == self.body().first(),
    {
        &self.field_queue[0]
    }

    /// The head: the segment added last.
    pub fn get_first_segment(&self) -> (pos: &(u16, u16))
        requires
            self.body().len() > 0,
        ensures
            *pos == self.body().last(),
    {
        &self.field_queue[self.field_queue.len() - 1]
    }

    /// Whether a segment lies on `pos`, found by walking the body.
    fn lies_on(&self, pos: &(u16, u16)) -> (found: bool)
        ensures
            found == self.body().contains(*pos),
    {
        let mut at: usize = 0;
        while at < self.field_queue.len()
            invariant
                at <= self.body().len(),
                forall|i: int| 0 <= i < at ==> self.body()[i] != *pos,
            decreases self.body().len() - at,
        {
            let cell = self.field_queue[at];
            if cell.0 == pos.0 && cell.1 == pos.1 {
                return true;
            }
            at = at + 1;
        }
        false
    }

    /// Drops the tail segment. Its cell leaves the occupancy set unless
    /// another segment still lies on it, which can only be where the snake
    /// has more segments than cells; only then is the body walked.
    pub fn remove_last_segment(&mut self)
        requires
            old(self).wf(),
            old(self).body().len() > 0,
        ensures
            final(self).wf(),
            final(self).body() == old(self).body().drop_first(),
            final(self).occupied() == final(self).body().to_set(),
            old(self).settled() ==> final(self).settled(),
    {
        let pos = *self.get_last_segment();
        let apart = self.occupied_fields.len() == self.field_queue.len();
        self.field_queue.pop_front();
        if apart || !self.lies_on(&pos) {
            self.occupied_fields.remove(&pos);
        }
        proof {
            let before = old(self).body();
            let after = before.drop_first();
            if apart {
                before.lemma_no_dup_set_cardinality();
                assert(!after.contains(pos)) by {
                    if after.contains(pos) {
                        let i = choose|i: int| 0 <= i < after.len() && after[i] == pos;
                        assert(before[i + 1] == before[0]);
                    }
                }
            }
            assert forall|p: Position|
                before.to_set().contains(p) && p != pos implies after.to_set().contains(p) by {
                let i = choose|i: int| 0 <= i < before.len() && before[i] == p;
                assert(after[i - 1] == p);
            }
            assert(self.occupied() =~= after.to_set());
        }
    }

    /// Whether a segment lies on `pos`.
    pub fn is_inside(&self, pos: &(u16, u16)) -> (inside: bool)
        requires
            self.wf(),
        ensures
            inside == self.body().contains(*pos),
    {
        self.occupied_fields.contains(pos)
    }

    /// The number of segments.
    pub fn len(&self) -> (len: usize)
        ensures
            len == self.body().len(),
    {
        self.field_queue.len()
    }

    /// The number of occupied cells.
    pub fn occupied_len(&self) -> (len: usize)
        ensures
            len == self.occupied().len(),
    {
        self.occupied_fields.len()
    }
}

} // verus!

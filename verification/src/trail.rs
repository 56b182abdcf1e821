//! A bounded first-in, first-out history of positions.

use std::collections::VecDeque;
use vstd::prelude::*;

verus! {

/// The most recent positions of a body, oldest first.
///
/// A trail is made with a limit, and never holds more positions than that.
/// Once it holds that many, each push drops the oldest one first. A trail
/// made with limit zero holds nothing.
pub struct Trail<P> {
    positions: VecDeque<P>,
    max_length: usize,
}

/// What a trail with the given limit holds after one more position: nothing
/// where the limit is zero; else the position behind what it held, less the
/// oldest where it was full.
pub open spec fn after_push<P>(held: Seq<P>, limit: nat, position: P) -> Seq<P> {
    if limit == 0 {
        Seq::empty()
    } else if held.len() >= limit {
        held.drop_first().push(position)
    } else {
        held.push(position)
    }
}

/// What a trail with the given limit holds after the positions of `added`,
/// pushed one by one from the first to the last.
pub open spec fn after_pushes<P>(held: Seq<P>, limit: nat, added: Seq<P>) -> Seq<P>
    decreases added.len(),
{
    if added.len() == 0 {
        held
    } else {
        after_push(after_pushes(held, limit, added.drop_last()), limit, added.last())
    }
}

/// The last `count` items of `items`, or all of them where there are fewer.
pub open spec fn newest<P>(items: Seq<P>, count: nat) -> Seq<P> {
    if items.len() <= count {
        items
    } else {
        items.subrange(items.len() - count, items.len() as int)
    }
}

impl<P> Trail<P> {
    /// The positions held, oldest first.
    pub closed spec fn view(&self) -> Seq<P> {
        self.positions@
    }

    /// The limit the trail was made with.
    pub closed spec fn limit(&self) -> nat {
        self.max_length as nat
    }

    /// The trail holds no more positions than its limit allows. Every trail
    /// made by `new` is within bounds, and no method leads out of them.
    pub open spec fn within_bound(&self) -> bool {
        self@.len() <= self.limit()
    }

    /// An empty trail that keeps the `max_length` newest positions.
    pub fn new(max_length: usize) -> (trail: Trail<P>)
        ensures
            trail@ == Seq::<P>::empty(),
            trail.limit() == max_length,
            trail.within_bound(),
    {
        Trail { positions: VecDeque::with_capacity(max_length), max_length }
    }

    /// Appends a position, dropping the oldest one first where the trail is
    /// full. A trail with limit zero takes nothing in.
    pub fn push(&mut self, position: P)
        ensures
            final(self)@ == after_push(old(self)@, old(self).limit(), position),
            final(self).limit() == old(self).limit(),
            old(self).within_bound() ==> final(self).within_bound(),
    {
        if self.max_length == 0 {
            self.positions.clear();
        } else {
            if self.positions.len() >= self.max_length {
                let _ = self.positions.pop_front();
            }
            self.positions.push_back(position);
        }
    }

    /// Forgets every position; the limit stays.
    pub fn clear(&mut self)
        ensures
            final(self)@ == Seq::<P>::empty(),
            final(self).limit() == old(self).limit(),
            final(self).within_bound(),
    {
        self.positions.clear();
    }

    /// The number of positions held.
    pub fn len(&self) -> (count: usize)
        ensures
            count == self@.len(),
    {
        self.positions.len()
    }

    /// The limit the trail was made with.
    pub fn max_length(&self) -> (limit: usize)
        ensures
            limit == self.limit(),
    {
        self.max_length
    }
}

impl<P: Copy> Trail<P> {
    /// The line strip that shows the trail: every position held, oldest
    /// first, or nothing where fewer than two are held, since one point makes
    /// no line.
    pub fn draw(&self) -> (strip: Vec<P>)
        ensures
            strip@ == line_strip(self@),
    {
        let mut strip: Vec<P> = Vec::new();
        let count: usize = self.positions.len();
        if count > 1 {
            let mut i: usize = 0;
            while i < count
                invariant
                    count == self.positions@.len(),
                    i <= count,
                    strip@ == self.positions@.subrange(0, i as int),
                decreases count - i,
            {
                strip.push(self.positions[i]);
                i = i + 1;
            }
            assert(strip@ == self.positions@);
        }
        strip
    }
}

/// The points of the line strip through `held`: all of them, or none where
/// there are fewer than two.
pub open spec fn line_strip<P>(held: Seq<P>) -> Seq<P> {
    if held.len() > 1 {
        held
    } else {
        Seq::empty()
    }
}

/// A trail never holds more than its limit: pushing onto a trail within the
/// limit leaves it within the limit, with the position pushed at its end
/// unless the limit is zero.
pub proof fn push_keeps_bound<P>(held: Seq<P>, limit: nat, position: P)
    requires
        held.len() <= limit,
    ensures
        after_push(held, limit, position).len() <= limit,
        limit > 0 ==> after_push(held, limit, position).last() == position,
{
}

/// Pushing positions one by one onto a trail leaves the newest `limit` of
/// everything it held and was given, in the order in which they came.
pub proof fn pushes_keep_newest<P>(held: Seq<P>, limit: nat, added: Seq<P>)
    requires
        held.len() <= limit,
    ensures
        after_pushes(held, limit, added) == newest(held + added, limit),
    decreases added.len(),
{
    if added.len() == 0 {
        assert(held + added =~= held);
    } else {
        let front = added.drop_last();
        pushes_keep_newest(held, limit, front);
        let before = newest(held + front, limit);
        let all = held + added;
        assert(all =~= (held + front).push(added.last()));
        assert(after_push(before, limit, added.last()) =~= newest(all, limit));
    }
}

/// Pushing at least `limit` positions onto a trail leaves exactly the last
/// `limit` of them, oldest first, whatever the trail held before.
pub proof fn full_trail_is_newest_pushed<P>(held: Seq<P>, limit: nat, added: Seq<P>)
    requires
        held.len() <= limit,
        added.len() >= limit,
    ensures
        after_pushes(held, limit, added).len() == limit,
        after_pushes(held, limit, added) == added.subrange(
            added.len() - limit,
            added.len() as int,
        ),
{
    pushes_keep_newest(held, limit, added);
    assert(newest(held + added, limit) =~= added.subrange(
        added.len() - limit,
        added.len() as int,
    ));
}

} // verus!

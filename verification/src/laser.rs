use vstd::prelude::*;

use crate::sprite::{collides, collides_exec, stepped, Sprite, SpriteData};

verus! {

/// Collision diameter of a laser shot, in milli-pixels.
pub const LASER_DIAMETER: i64 = 2_000;

/// Speed a laser leaves its shooter with, in milli-pixels per frame.
pub const LASER_SPEED: i64 = 5_000;

/// Frames a laser lives before it retires.
pub const LASER_LIFE_FRAMES: u32 = 60;

/// The relation between a laser before and after one frame: the sprite
/// integrates and one frame of life burns off.
pub open spec fn laser_frame(pre: Laser, post: Laser) -> bool {
    stepped(pre.sprite, post.sprite) && post.life == pre.life - 1
}

/// Whether any laser of the collection is within collision distance of the
/// target.
pub open spec fn laser_hits_any(lasers: Seq<Laser>, target: SpriteData) -> bool {
    exists|i: int| 0 <= i < lasers.len() && collides(#[trigger] lasers[i].sprite.data, target)
}

/// The index of the laser a strike pass spends: the last one within reach
/// of the target, since the pass scans from the end of the collection.
pub open spec fn last_hit_index(lasers: Seq<Laser>, target: SpriteData) -> int
    decreases lasers.len(),
{
    if lasers.len() == 0 {
        -1
    } else if collides(lasers.last().sprite.data, target) {
        lasers.len() - 1
    } else {
        last_hit_index(lasers.drop_last(), target)
    }
}

/// What a strike pass leaves of a laser collection: the last laser within
/// reach of the target is spent and every other laser is untouched; with
/// none in reach, nothing changes.
pub open spec fn lasers_struck(pre: Seq<Laser>, post: Seq<Laser>, target: SpriteData) -> bool {
    if laser_hits_any(pre, target) {
        post == pre.remove(last_hit_index(pre, target))
    } else {
        post == pre
    }
}

/// A hit at `i` with nothing in reach above it pins `last_hit_index` to `i`.
proof fn lemma_last_hit_index(lasers: Seq<Laser>, target: SpriteData, i: int)
    requires
        0 <= i < lasers.len(),
        collides(lasers[i].sprite.data, target),
        forall|j: int| i < j < lasers.len() ==> !collides(#[trigger] lasers[j].sprite.data, target),
    ensures
        last_hit_index(lasers, target) == i,
    decreases lasers.len(),
{
    if i == lasers.len() - 1 {
    } else {
        assert(!collides(lasers.last().sprite.data, target));
        assert(lasers.drop_last()[i] == lasers[i]);
        lemma_last_hit_index(lasers.drop_last(), target, i);
    }
}

/// The advance pass: every laser integrates and burns one frame of life;
/// the ones whose life runs out retire, the rest survive in order.
pub open spec fn lasers_advanced(pre: Seq<Laser>, post: Seq<Laser>) -> bool
    decreases pre.len(),
{
    if pre.len() == 0 {
        post.len() == 0
    } else {
        exists|l1: Laser|
            #[trigger] laser_frame(pre[0], l1) && if l1.life == 0 {
                lasers_advanced(pre.skip(1), post)
            } else {
                post.len() >= 1 && post[0] == l1 && lasers_advanced(pre.skip(1), post.skip(1))
            }
    }
}

/// A short-lived projectile: a small sprite plus the frames it has left.
#[derive(Clone, Copy, PartialEq, Eq, Structural, Debug)]
pub struct Laser {
    pub sprite: Sprite,
    pub life: u32,
}

impl Laser {
    /// A live laser: well-formed sprite of the laser's fixed diameter, with
    /// at least one frame left.
    pub open spec fn wf(self) -> bool {
        self.sprite.wf() && self.sprite.data.diameter == LASER_DIAMETER && 1 <= self.life <= 60
    }

    /// One frame: the sprite integrates and one frame of life burns off.
    pub fn update(&mut self)
        requires
            old(self).wf(),
        ensures
            stepped(old(self).sprite, final(self).sprite),
            final(self).sprite.wf(),
            final(self).life == old(self).life - 1,
    {
        self.sprite.update();
        self.life = self.life - 1;
    }
}

/// Advance every laser by one frame and drop the ones whose life ran out;
/// the survivors keep their order.
pub fn advance_lasers(lasers: &mut Vec<Laser>)
    requires
        forall|i: int| 0 <= i < old(lasers)@.len() ==> #[trigger] old(lasers)@[i].wf(),
    ensures
        lasers_advanced(old(lasers)@, final(lasers)@),
        forall|i: int| 0 <= i < final(lasers)@.len() ==> #[trigger] final(lasers)@[i].wf(),
        final(lasers)@.len() <= old(lasers)@.len(),
{
    let ghost all = lasers@;
    let mut pending: Vec<Laser> = Vec::new();
    core::mem::swap(lasers, &mut pending);
    proof {
        assert(pending@ =~= all.take(pending@.len() as int));
        assert(all.skip(pending@.len() as int) =~= Seq::<Laser>::empty());
    }
    while pending.len() > 0
        invariant
            forall|i: int| 0 <= i < pending@.len() ==> #[trigger] pending@[i].wf(),
            forall|i: int| 0 <= i < lasers@.len() ==> #[trigger] lasers@[i].wf(),
            pending@.len() <= all.len(),
            pending@ == all.take(pending@.len() as int),
            lasers_advanced(all.skip(pending@.len() as int), lasers@),
            lasers@.len() + pending@.len() <= all.len(),
        decreases pending@.len(),
    {
        let ghost k = pending@.len() as int;
        let ghost kept_p = lasers@;
        let ghost pend0 = pending@;
        let mut laser = pending.pop().unwrap();
        proof {
            assert(pend0[k - 1].wf());
            assert(laser.wf());
            assert(pending@ =~= all.take(k - 1));
            assert(laser == all[k - 1]);
        }
        laser.update();
        let ghost l1 = laser;
        if laser.life > 0 {
            lasers.insert(0, laser);
            proof {
                assert(lasers@ =~= seq![l1] + kept_p);
                assert(lasers@.skip(1) =~= kept_p);
                assert(l1.life >= 1);
                assert(l1.wf());
                assert forall|i: int| 0 <= i < lasers@.len() implies (
                #[trigger] lasers@[i]).wf() by {
                    if i > 0 {
                        assert(lasers@[i] == kept_p[i - 1]);
                    } else {
                        assert(lasers@[0] == l1);
                    }
                }
            }
        }
        proof {
            assert(laser_frame(all[k - 1], l1));
            assert(all.skip(k - 1)[0] == all[k - 1]);
            assert(all.skip(k - 1).skip(1) =~= all.skip(k));
            assert(lasers_advanced(all.skip(k - 1), lasers@));
        }
    }
    proof {
        assert(all.skip(0) =~= all);
    }
}

/// Whether any laser strikes the target; the last laser within reach is
/// spent and removed, since the scan runs from the end of the collection.
pub fn strike_lasers(lasers: &mut Vec<Laser>, target: SpriteData) -> (hit: bool)
    requires
        forall|i: int| 0 <= i < old(lasers)@.len() ==> #[trigger] old(lasers)@[i].wf(),
        target.wf(),
    ensures
        hit == laser_hits_any(old(lasers)@, target),
        lasers_struck(old(lasers)@, final(lasers)@, target),
        forall|i: int| 0 <= i < final(lasers)@.len() ==> #[trigger] final(lasers)@[i].wf(),
{
    let mut index = lasers.len();
    while index > 0
        invariant
            index <= lasers@.len(),
            lasers@ == old(lasers)@,
            forall|i: int| 0 <= i < lasers@.len() ==> #[trigger] lasers@[i].wf(),
            target.wf(),
            forall|i: int|
                index <= i < lasers@.len() ==> !collides(
                    #[trigger] lasers@[i].sprite.data,
                    target,
                ),
        decreases index,
    {
        index = index - 1;
        let laser = lasers[index];
        proof {
            assert(lasers@[index as int].wf());
        }
        if collides_exec(laser.sprite.data, target) {
            proof {
                lemma_last_hit_index(lasers@, target, index as int);
            }
            lasers.remove(index);
            return true;
        }
    }
    false
}

} // verus!

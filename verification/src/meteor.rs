//! The rules of a meteor: how many times it has been hit, what the next hit
//! does to it, and what that scores.

use vstd::prelude::*;

use crate::text::{decimal, push_decimal};

verus! {

/// The score bonus for destroying a meteor.
pub const DIE_BONUS: i32 = 10;

/// The score bonus for cracking a meteor in two.
pub const CRACK_BONUS: i32 = 1;

/// The state of a meteor that the rules read and change.
#[derive(Clone, Copy, Debug, PartialEq, Eq, Structural)]
pub struct Meteor {
    /// How many times this meteor, and the meteors it broke off from, were hit.
    pub hits: i32,
    /// A hit waits to be handled.
    pub hit: bool,
}

/// What handling a hit does.
#[derive(Clone, Copy, Debug, PartialEq, Eq, Structural)]
pub enum HitOutcome {
    /// The meteor scores `DIE_BONUS` and is removed once its explosion sound ends.
    Die,
    /// The meteor scores `CRACK_BONUS`, takes a new random course, and throws
    /// off a debris meteor with `debris_hits` hits.
    Crack { debris_hits: i32 },
}

/// Whether handling a hit with these rolls destroys the meteor: only a
/// meteor hit more than four times can be destroyed, and then unless the
/// roll is zero.
pub open spec fn dies(hits: i32, die_roll: i64) -> bool {
    hits > 4 && die_roll > 0
}

/// Whether a hit with these rolls can be handled without overflowing the hit
/// count of the meteor or of its debris.
pub open spec fn hit_fits(hits: i32, die_roll: i64, debris_roll: i64) -> bool {
    dies(hits, die_roll) || (hits + 1 <= i32::MAX && (debris_roll == 0 ==> hits + 2 <= i32::MAX))
}

/// The meteor after handling a hit: the hit is cleared, and a cracked meteor
/// counts one hit more.
pub open spec fn after_hit(m: Meteor, die_roll: i64) -> Meteor {
    if dies(m.hits, die_roll) {
        Meteor { hits: m.hits, hit: false }
    } else {
        Meteor { hits: (m.hits + 1) as i32, hit: false }
    }
}

/// What handling a hit does: destroy the meteor, or crack it and throw off
/// debris with one more hit than the cracked meteor when the debris roll is
/// zero, and as many otherwise.
pub open spec fn hit_outcome(m: Meteor, die_roll: i64, debris_roll: i64) -> HitOutcome {
    if dies(m.hits, die_roll) {
        HitOutcome::Die
    } else if debris_roll == 0 {
        HitOutcome::Crack { debris_hits: (m.hits + 2) as i32 }
    } else {
        HitOutcome::Crack { debris_hits: (m.hits + 1) as i32 }
    }
}

/// The score bonus of an outcome.
pub open spec fn outcome_bonus(outcome: HitOutcome) -> i32 {
    match outcome {
        HitOutcome::Die => DIE_BONUS,
        HitOutcome::Crack { .. } => CRACK_BONUS,
    }
}

impl HitOutcome {
    /// The score bonus of this outcome.
    pub fn bonus(&self) -> (bonus: i32)
        ensures
            bonus == outcome_bonus(*self),
    {
        match self {
            HitOutcome::Die => DIE_BONUS,
            HitOutcome::Crack { .. } => CRACK_BONUS,
        }
    }
}

impl Meteor {
    /// A meteor that was never hit.
    pub fn new() -> (m: Meteor)
        ensures
            m == (Meteor { hits: 0, hit: false }),
    {
        Meteor { hits: 0, hit: false }
    }

    /// Whether a hit with these rolls can be handled without overflowing a hit
    /// count (`after_hit` asks for it).
    pub fn can_handle_hit(&self, die_roll: i64, debris_roll: i64) -> (fits: bool)
        ensures
            fits == hit_fits(self.hits, die_roll, debris_roll),
    {
        (self.hits > 4 && die_roll > 0) || (self.hits < i32::MAX && (debris_roll != 0
            || self.hits < i32::MAX - 1))
    }

    /// A bullet hit the meteor: the hit is handled on the next frame.
    pub fn on_hit(&mut self)
        ensures
            *final(self) == (Meteor { hit: true, ..*old(self) }),
    {
        self.hit = true;
    }

    /// Handles a hit with a roll from 0 to 5 that decides whether a meteor hit
    /// more than four times is destroyed, and a roll from 0 to 3 that decides
    /// whether its debris counts an extra hit.
    pub fn after_hit(&mut self, die_roll: i64, debris_roll: i64) -> (outcome: HitOutcome)
        requires
            hit_fits(old(self).hits, die_roll, debris_roll),
        ensures
            *final(self) == after_hit(*old(self), die_roll),
            outcome == hit_outcome(*old(self), die_roll, debris_roll),
    {
        self.hit = false;
        if self.hits > 4 && die_roll > 0 {
            self.die()
        } else {
            self.crack(debris_roll)
        }
    }

    fn die(&self) -> (outcome: HitOutcome)
        ensures
            outcome == HitOutcome::Die,
    {
        HitOutcome::Die
    }

    fn crack(&mut self, debris_roll: i64) -> (outcome: HitOutcome)
        requires
            old(self).hits + 1 <= i32::MAX,
            debris_roll == 0 ==> old(self).hits + 2 <= i32::MAX,
        ensures
            final(self).hits == old(self).hits + 1,
            final(self).hit == old(self).hit,
            outcome == (if debris_roll == 0 {
                HitOutcome::Crack { debris_hits: (old(self).hits + 2) as i32 }
            } else {
                HitOutcome::Crack { debris_hits: (old(self).hits + 1) as i32 }
            }),
    {
        let hits: i32 = self.hits + 1;
        self.hits = hits;
        if debris_roll == 0 {
            HitOutcome::Crack { debris_hits: hits + 1 }
        } else {
            HitOutcome::Crack { debris_hits: hits }
        }
    }
}

/// The name of the sprite node that shows skin number `idx`: "Meteor" and the
/// number in decimal.
pub fn skin_node_name(idx: u32) -> (name: String)
    ensures
        name@ == "Meteor"@ + decimal(idx as nat),
{
    let mut name = "Meteor".to_owned();
    push_decimal(&mut name, idx);
    name
}

/// Law: handling a hit clears it, never lowers the hit count, and destroys
/// only meteors hit more than four times.
pub proof fn law_hit_handling(m: Meteor, die_roll: i64, debris_roll: i64)
    requires
        hit_fits(m.hits, die_roll, debris_roll),
    ensures
        !after_hit(m, die_roll).hit,
        after_hit(m, die_roll).hits >= m.hits,
        hit_outcome(m, die_roll, debris_roll) is Die ==> m.hits > 4,
        m.hits <= 4 ==> hit_outcome(m, die_roll, debris_roll) is Crack,
{
}

/// Law: debris never counts fewer hits than the meteor it broke off, nor more
/// than one hit more.
pub proof fn law_debris_hits(m: Meteor, die_roll: i64, debris_roll: i64)
    requires
        hit_fits(m.hits, die_roll, debris_roll),
        !dies(m.hits, die_roll),
    ensures
        hit_outcome(m, die_roll, debris_roll) matches HitOutcome::Crack { debris_hits } && after_hit(
            m,
            die_roll,
        ).hits <= debris_hits <= after_hit(m, die_roll).hits + 1,
{
}

/// Law: every handled hit scores: ten for a destroyed meteor, one for a crack.
pub proof fn law_hit_scores(m: Meteor, die_roll: i64, debris_roll: i64)
    ensures
        outcome_bonus(hit_outcome(m, die_roll, debris_roll)) == (if dies(m.hits, die_roll) {
            10int
        } else {
            1int
        }),
{
}

/// Law: the rule of a hit, in terms of the hit count and the two rolls: the
/// meteor is destroyed exactly when it was hit more than four times and the
/// die roll is not zero, and then keeps its hit count; otherwise it counts one
/// hit more and throws off debris with two hits more than it had when the
/// debris roll is zero, and one more otherwise. Either way the hit is cleared.
pub proof fn law_hit_rule(m: Meteor, die_roll: i64, debris_roll: i64)
    requires
        hit_fits(m.hits, die_roll, debris_roll),
    ensures
        (hit_outcome(m, die_roll, debris_roll) == HitOutcome::Die) <==> (m.hits > 4 && die_roll
            > 0),
        !after_hit(m, die_roll).hit,
        (m.hits > 4 && die_roll > 0) ==> after_hit(m, die_roll).hits == m.hits,
        !(m.hits > 4 && die_roll > 0) ==> {
            &&& after_hit(m, die_roll).hits == m.hits + 1
            &&& hit_outcome(m, die_roll, debris_roll) matches HitOutcome::Crack { debris_hits }
            &&& debris_hits == m.hits + (if debris_roll == 0 {
                2int
            } else {
                1int
            })
        },
        outcome_bonus(hit_outcome(m, die_roll, debris_roll)) == (if m.hits > 4 && die_roll > 0 {
            10int
        } else {
            1int
        }),
{
}

/// Law: a hit can be handled unless it cracks a meteor whose hit count, or
/// whose debris's hit count (one more when the debris roll is zero), would go
/// past `i32::MAX`.
pub proof fn law_hit_fits_rule(hits: i32, die_roll: i64, debris_roll: i64)
    ensures
        hit_fits(hits, die_roll, debris_roll) <==> ((hits > 4 && die_roll > 0) || hits + (
        if debris_roll == 0 {
            2int
        } else {
            1int
        }) <= i32::MAX),
{
}

} // verus!

//! The military conflict track: an asymmetric zero-sum pawn position per
//! city, with one-time fines for newly reached zones.

use vstd::prelude::*;
use crate::{Coins, Points};

verus! {

pub type Pos = u8;

/// One side of the conflict track.  `pos` is how far this city has pushed the
/// pawn towards the enemy capital; `max_zone` records the highest fine zone
/// ever reached, so each zone's fine is charged at most once.
#[derive(Debug, Copy, Clone, PartialEq, Eq, Structural)]
pub struct Track {
    pub pos: Pos,
    pub max_zone: usize,
}

impl Default for Track {
    fn default() -> (r: Self)
        ensures
            r.pos == 0,
            r.max_zone == 0,
    {
        Track { pos: 0, max_zone: 0 }
    }
}

/// A fine zone: starting position, victory points while inside it, and the
/// one-time coin fine for entering it.
#[derive(Debug, Copy, Clone, PartialEq, Eq, Structural)]
pub struct Zone {
    pub start: Pos,
    pub points: Points,
    pub fine: Coins,
}

/// Position at which the pawn reaches the enemy capital: military supremacy.
pub const CAPITAL_POS: u8 = 9;

/// The fixed ascending zone table.
pub open spec fn spec_zone(i: int) -> Zone {
    if i == 1 {
        Zone { start: 1, points: 2, fine: 0 }
    } else if i == 2 {
        Zone { start: 3, points: 5, fine: 2 }
    } else if i == 3 {
        Zone { start: 6, points: 10, fine: 5 }
    } else {
        Zone { start: 0, points: 0, fine: 0 }
    }
}

/// The zone a position falls in: the highest zone whose start it has reached.
pub open spec fn spec_zone_index(pos: Pos) -> int {
    if pos >= 6 {
        3
    } else if pos >= 3 {
        2
    } else if pos >= 1 {
        1
    } else {
        0
    }
}

/// The full outcome of one pawn move: both tracks after it, the one-time
/// fine to charge the opponent, and whether the capital was reached.
pub open spec fn conflict_result(me: Track, enemy: Track, power: u8) -> (Track, Track, Coins,
    bool) {
    if enemy.pos >= power {
        (me, Track { pos: (enemy.pos - power) as u8, ..enemy }, 0u8, false)
    } else {
        let gain = power - enemy.pos;
        let reached = me.pos + gain >= CAPITAL_POS;
        let moved = if reached {
            CAPITAL_POS as int
        } else {
            me.pos + gain
        };
        let z = spec_zone_index(moved as u8);
        let (mz, fine) = if z > me.max_zone {
            (z, spec_zone(z).fine)
        } else {
            (me.max_zone as int, 0u8)
        };
        (
            Track { pos: moved as u8, max_zone: mz as usize },
            Track { pos: 0, ..enemy },
            fine,
            reached,
        )
    }
}

/// Military zero-sum: a pawn move never leaves both positions nonzero, so
/// at most one side ever stands on the track.
pub proof fn lemma_military_zero_sum(me: Track, enemy: Track, power: u8)
    requires
        me.pos == 0 || enemy.pos == 0,
    ensures
        ({
            let (m2, e2, _, _) = conflict_result(me, enemy, power);
            m2.pos == 0 || e2.pos == 0
        }),
{
}

/// Zone fines fire at most once: a move that charges a fine raises
/// `max_zone` to the fine's zone, and `max_zone` never decreases, so two
/// fining moves always charge two strictly increasing zones.
pub proof fn lemma_zone_fine_once(t0: Track, e0: Track, p1: u8, p2: u8)
    ensures
        ({
            let (t1, e1, fine1, _) = conflict_result(t0, e0, p1);
            let (t2, _, fine2, _) = conflict_result(t1, e1, p2);
            &&& t1.max_zone >= t0.max_zone
            &&& t2.max_zone >= t1.max_zone
            &&& (fine1 > 0 && fine2 > 0 ==> t2.max_zone > t1.max_zone > t0.max_zone)
        }),
{
}

impl Track {
    pub fn zone(i: usize) -> (z: Zone)
        requires
            i <= 3,
        ensures
            z == spec_zone(i as int),
    {
        if i == 1 {
            Zone { start: 1, points: 2, fine: 0 }
        } else if i == 2 {
            Zone { start: 3, points: 5, fine: 2 }
        } else if i == 3 {
            Zone { start: 6, points: 10, fine: 5 }
        } else {
            Zone { start: 0, points: 0, fine: 0 }
        }
    }

    /// Victory points granted by the zone the pawn currently occupies.
    pub fn get_points(&self) -> (p: Points)
        ensures
            p == spec_zone(spec_zone_index(self.pos)).points,
    {
        Self::zone(self.get_zone_index()).points
    }

    /// Push the pawn with `power`: the enemy position is cancelled first,
    /// one for one, and only the remainder advances this side.  Reaching the
    /// capital clamps the position and signals supremacy.  A zone entered for
    /// the first time returns its one-time fine; `max_zone` never decreases,
    /// so no zone fines twice.
    pub fn move_conflict_pawn(&mut self, enemy: &mut Track, power: u8) -> (r: (Coins, bool))
        requires
            old(self).pos <= CAPITAL_POS,
            old(enemy).pos <= CAPITAL_POS,
        ensures
            (*final(self), *final(enemy), r.0, r.1) == conflict_result(
                *old(self),
                *old(enemy),
                power,
            ),
            final(self).pos <= CAPITAL_POS,
            final(enemy).pos <= CAPITAL_POS,
            final(self).max_zone >= old(self).max_zone,
            final(enemy).max_zone == old(enemy).max_zone,
            r.0 > 0 ==> final(self).max_zone > old(self).max_zone,
            old(self).pos == 0 || old(enemy).pos == 0
                ==> final(self).pos == 0 || final(enemy).pos == 0,
            old(enemy).pos >= power ==> {
                &&& *final(self) == *old(self)
                &&& *final(enemy) == (Track { pos: (old(enemy).pos - power) as u8, ..*old(enemy) })
                &&& r == (0u8, false)
            },
            old(enemy).pos < power ==> {
                let gain = power - old(enemy).pos;
                let moved = if old(self).pos + gain >= CAPITAL_POS {
                    CAPITAL_POS as int
                } else {
                    old(self).pos + gain
                };
                let z = spec_zone_index(moved as u8);
                &&& final(enemy).pos == 0
                &&& final(self).pos == moved
                &&& r.1 == (old(self).pos + gain >= CAPITAL_POS)
                &&& (z > old(self).max_zone ==> final(self).max_zone == z
                        && r.0 == spec_zone(z).fine)
                &&& (z <= old(self).max_zone ==> final(self).max_zone == old(self).max_zone
                        && r.0 == 0)
            },
    {
        let mut fine: Coins = 0;
        let mut supremacy = false;

        if enemy.pos >= power {
            enemy.pos = enemy.pos - power;
            return (fine, supremacy);
        }

        let gain: u16 = (power - enemy.pos) as u16;
        enemy.pos = 0;

        let advanced: u16 = self.pos as u16 + gain;
        if advanced >= CAPITAL_POS as u16 {
            self.pos = CAPITAL_POS;
            supremacy = true;
        } else {
            self.pos = advanced as u8;
        }

        let zone_index = self.get_zone_index();
        if zone_index > self.max_zone {
            self.max_zone = zone_index;
            fine = Self::zone(zone_index).fine;
        }

        (fine, supremacy)
    }

    pub fn get_zone_index(&self) -> (i: usize)
        ensures
            i == spec_zone_index(self.pos),
            i <= 3,
    {
        if self.pos >= 6 {
            3
        } else if self.pos >= 3 {
            2
        } else if self.pos >= 1 {
            1
        } else {
            0
        }
    }
}

} // verus!

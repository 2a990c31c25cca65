//! The enemy stomp resolver.
//!
//! The character controller reports, for the player's last move, a list of
//! contacts: the entity collided with and the contact normal. An enemy is
//! stomped — destroyed, immediately and irreversibly — exactly when some
//! contact of the frame hits that enemy with a normal pointing straight up
//! (the player landed on top of it). The comparison is deliberately exact:
//! a contact at any other angle leaves the enemy alive.

use vstd::prelude::*;
use vstd::seq_lib::group_filter_ensures;
use crate::enemy::Enemy;

verus! {

/// The vertical component of a straight-up contact normal. Normal
/// components are unit-vector coordinates held as plain integers, so `1`
/// here is exactly the `+1.0` of the host physics engine.
pub const NORMAL_UP: i64 = 1;

/// One contact from the character controller's last move.
#[derive(Clone, Copy, PartialEq, Eq, Structural, Debug)]
pub struct Contact {
    /// The entity collided with.
    pub entity: u64,
    /// Horizontal component of the contact normal.
    pub normal_x: i64,
    /// Vertical component of the contact normal: `NORMAL_UP` means the
    /// collision surface faces straight up.
    pub normal_y: i64,
}

/// Whether the frame's contacts stomp the entity `id`: some contact hits it
/// with an exactly straight-up normal.
pub open spec fn stomped(contacts: Seq<Contact>, id: u64) -> bool {
    exists|i: int|
        0 <= i < contacts.len() && (#[trigger] contacts[i]).entity == id && contacts[i].normal_y
            == NORMAL_UP
}

/// An enemy the frame's contacts leave alive.
pub open spec fn survives(contacts: Seq<Contact>, e: Enemy) -> bool {
    !stomped(contacts, e.id)
}

/// Whether the contacts stomp the entity `id`.
pub fn is_stomped(contacts: &Vec<Contact>, id: u64) -> (r: bool)
    ensures
        r == stomped(contacts@, id),
{
    let mut i: usize = 0;
    while i < contacts.len()
        invariant
            0 <= i <= contacts@.len(),
            forall|j: int|
                0 <= j < i ==> !((#[trigger] contacts@[j]).entity == id && contacts@[j].normal_y
                    == NORMAL_UP),
        decreases contacts@.len() - i,
    {
        let c = contacts[i];
        if c.entity == id && c.normal_y == NORMAL_UP {
            assert(contacts@[i as int].entity == id && contacts@[i as int].normal_y == NORMAL_UP);
            return true;
        }
        i = i + 1;
    }
    false
}

/// The stomp resolver: keeps, in order, exactly the enemies that no
/// straight-up contact of the frame hit. An enemy is destroyed if and only
/// if a contact with an exactly straight-up normal names it.
pub fn resolve_stomps(enemies: &Vec<Enemy>, contacts: &Vec<Contact>) -> (survivors: Vec<Enemy>)
    ensures
        survivors@ == enemies@.filter(|e: Enemy| survives(contacts@, e)),
        forall|j: int|
            0 <= j < enemies@.len() && survives(contacts@, #[trigger] enemies@[j])
                ==> survivors@.contains(enemies@[j]),
        forall|k: int|
            0 <= k < survivors@.len() ==> survives(contacts@, #[trigger] survivors@[k])
                && enemies@.contains(survivors@[k]),
        forall|j: int|
            0 <= j < enemies@.len() && stomped(contacts@, (#[trigger] enemies@[j]).id)
                ==> !survivors@.contains(enemies@[j]),
{
    let ghost pred = |e: Enemy| survives(contacts@, e);
    let mut survivors: Vec<Enemy> = Vec::new();
    let mut i: usize = 0;
    while i < enemies.len()
        invariant
            0 <= i <= enemies@.len(),
            survivors@ == enemies@.take(i as int).filter(pred),
            pred == (|e: Enemy| survives(contacts@, e)),
            forall|k: int| 0 <= k < survivors@.len() ==> enemies@.contains(#[trigger] survivors@[k]),
        decreases enemies@.len() - i,
    {
        let e = enemies[i];
        let keep = !is_stomped(contacts, e.id);
        proof {
            reveal(Seq::filter);
            assert(enemies@.take(i + 1).drop_last() =~= enemies@.take(i as int));
            assert(enemies@.take(i + 1).last() == enemies@[i as int]);
        }
        if keep {
            survivors.push(e);
            proof {
                assert(enemies@.contains(enemies@[i as int]));
                assert forall|k: int|
                    0 <= k < survivors@.len() implies enemies@.contains(
                    #[trigger] survivors@[k]) by {
                    if k < survivors@.len() - 1 {
                        assert(survivors@[k] == survivors@.drop_last()[k]);
                    }
                }
            }
        }
        i = i + 1;
    }
    proof {
        assert(enemies@.take(enemies@.len() as int) =~= enemies@);
        broadcast use group_filter_ensures;

        assert forall|j: int|
            0 <= j < enemies@.len() && survives(contacts@, #[trigger] enemies@[j])
                implies survivors@.contains(enemies@[j]) by {
            assert(pred(enemies@[j]));
        }
        assert forall|k: int|
            0 <= k < survivors@.len() implies survives(contacts@, #[trigger] survivors@[k])
                && enemies@.contains(survivors@[k]) by {
            assert(pred(survivors@[k]));
        }
        assert forall|j: int|
            0 <= j < enemies@.len() && stomped(contacts@, (#[trigger] enemies@[j]).id)
                implies !survivors@.contains(enemies@[j]) by {
            if survivors@.contains(enemies@[j]) {
                let k = choose|k: int|
                    0 <= k < survivors@.len() && survivors@[k] == enemies@[j];
                assert(pred(survivors@[k]));
            }
        }
    }
    survivors
}

} // verus!

use std::collections::HashMap;
use vstd::prelude::*;
use vstd::std_specs::hash::*;

verus! {

/// The players chad and brad and their scores, each player's score under the
/// player's place in the list: every score starts at 0, and the first
/// player is given a point.
pub fn run() -> (board: (Vec<&'static str>, HashMap<u64, u8>))
    ensures
        board.0@.len() == 2,
        board.0@[0]@ == "chad"@,
        board.0@[1]@ == "brad"@,
        board.1@ == Map::<u64, u8>::empty().insert(0, 1).insert(1, 0),
{
    broadcast use group_hash_axioms;

    let players: Vec<&'static str> = vec!["chad", "brad"];
    let mut scores: HashMap<u64, u8> = HashMap::new();

    let mut p: u64 = 0;
    while p < 2
        invariant
            p <= 2,
            scores@.dom() =~= Set::new(|k: u64| k < p),
            forall|k: u64| k < p ==> scores@[k] == 0,
        decreases 2 - p,
    {
        scores.insert(p, 0);
        p += 1;
    }

    let count = scores.entry(0).or_insert(0);
    *count += 1;

    assert(scores@ =~= Map::<u64, u8>::empty().insert(0, 1).insert(1, 0));
    (players, scores)
}

} // verus!

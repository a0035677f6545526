//! The two-pass Mastermind scoring algorithm.
//!
//! Pass one counts exact positional matches ("hits") and consumes the
//! matched pegs on both sides.  Pass two walks the remaining secret pegs in
//! ascending position order and, for each, consumes the first remaining
//! guess peg of equal value at a different position ("near hits").  No peg
//! on either side contributes to more than one counted match.

use vstd::prelude::*;

verus! {

/// Number of exact positional matches between `s` and `g` at positions
/// `i` and beyond.
pub open spec fn hits_from(s: Seq<u8>, g: Seq<u8>, i: int) -> nat
    recommends
        s.len() == g.len(),
        0 <= i,
    decreases s.len() - i,
{
    if i < 0 || i >= s.len() {
        0
    } else {
        (if s[i] == g[i] {
            1nat
        } else {
            0nat
        }) + hits_from(s, g, i + 1)
    }
}

/// Number of exact positional matches ("hits") between secret `s` and
/// guess `g`.
pub open spec fn spec_hits(s: Seq<u8>, g: Seq<u8>) -> nat {
    hits_from(s, g, 0)
}

/// The secret pegs left after pass one: a peg that matched the guess at its
/// own position is consumed.
pub open spec fn secret_mask(s: Seq<u8>, g: Seq<u8>) -> Seq<Option<u8>>
    recommends
        s.len() == g.len(),
{
    Seq::new(s.len(), |i: int| if s[i] == g[i] { None } else { Some(s[i]) })
}

/// The guess pegs left after pass one: a peg that matched the secret at its
/// own position is consumed.
pub open spec fn guess_mask(s: Seq<u8>, g: Seq<u8>) -> Seq<Option<u8>>
    recommends
        s.len() == g.len(),
{
    Seq::new(g.len(), |i: int| if s[i] == g[i] { None } else { Some(g[i]) })
}

/// First position `k >= j` in `g` holding an unconsumed peg of value `v` at
/// a position other than `i`, or `g.len()` if there is none.
pub open spec fn first_match(g: Seq<Option<u8>>, v: u8, i: int, j: int) -> int
    recommends
        0 <= j,
    decreases g.len() - j,
{
    if j < 0 || j >= g.len() {
        g.len() as int
    } else if g[j] == Some(v) && j != i {
        j
    } else {
        first_match(g, v, i, j + 1)
    }
}

/// Near hits gathered by pass two from secret position `i` onward, given
/// the unconsumed secret pegs `s` and unconsumed guess pegs `g`.  Each
/// secret peg pairs with the first unconsumed equal guess peg at a
/// different position; the pair is consumed at once.
pub open spec fn near_from(s: Seq<Option<u8>>, g: Seq<Option<u8>>, i: int) -> nat
    decreases s.len() - i,
{
    if i < 0 || i >= s.len() {
        0
    } else {
        match s[i] {
            None => near_from(s, g, i + 1),
            Some(v) => {
                let j = first_match(g, v, i, 0);
                if j < g.len() {
                    1 + near_from(s, g.update(j, None), i + 1)
                } else {
                    near_from(s, g, i + 1)
                }
            },
        }
    }
}

/// Number of correct-color-wrong-position matches ("near hits") between
/// secret `s` and guess `g`, after exact hits are removed from
/// consideration.
pub open spec fn spec_near_hits(s: Seq<u8>, g: Seq<u8>) -> nat {
    near_from(secret_mask(s, g), guess_mask(s, g), 0)
}

/// Number of unconsumed entries of `s` at positions `i` and beyond.
pub open spec fn count_unconsumed(s: Seq<Option<u8>>, i: int) -> nat
    decreases s.len() - i,
{
    if i < 0 || i >= s.len() {
        0
    } else {
        (if s[i] is Some {
            1nat
        } else {
            0nat
        }) + count_unconsumed(s, i + 1)
    }
}

proof fn lemma_near_le_unconsumed(s: Seq<Option<u8>>, g: Seq<Option<u8>>, i: int)
    ensures
        near_from(s, g, i) <= count_unconsumed(s, i),
    decreases s.len() - i,
{
    if 0 <= i < s.len() {
        match s[i] {
            None => lemma_near_le_unconsumed(s, g, i + 1),
            Some(v) => {
                let j = first_match(g, v, i, 0);
                if j < g.len() {
                    lemma_near_le_unconsumed(s, g.update(j, None), i + 1);
                } else {
                    lemma_near_le_unconsumed(s, g, i + 1);
                }
            },
        }
    }
}

proof fn lemma_mask_count(s: Seq<u8>, g: Seq<u8>, i: int)
    requires
        s.len() == g.len(),
        0 <= i <= s.len(),
    ensures
        count_unconsumed(secret_mask(s, g), i) + hits_from(s, g, i) == s.len() - i,
    decreases s.len() - i,
{
    if i < s.len() {
        lemma_mask_count(s, g, i + 1);
    }
}

/// No single peg contributes to more than one counted match, so the hits
/// and near hits of one guess together never exceed the secret's length.
pub proof fn lemma_score_bounds(s: Seq<u8>, g: Seq<u8>)
    requires
        s.len() == g.len(),
    ensures
        spec_hits(s, g) + spec_near_hits(s, g) <= s.len(),
{
    lemma_near_le_unconsumed(secret_mask(s, g), guess_mask(s, g), 0);
    lemma_mask_count(s, g, 0);
}

proof fn lemma_first_match_prefix(g: Seq<Option<u8>>, v: u8, i: int, j: int)
    requires
        0 <= j <= g.len(),
        forall|k: int| 0 <= k < j ==> !(g[k] == Some(v) && k != i),
    ensures
        first_match(g, v, i, 0) == first_match(g, v, i, j),
    decreases j,
{
    if j > 0 {
        lemma_first_match_prefix(g, v, i, j - 1);
    }
}

/// Score guess `guess` against secret `secret` with the two-pass
/// algorithm: the pair of exact hits and near hits.
pub fn score(secret: &[u8], guess: &[u8]) -> (r: (u8, u8))
    requires
        secret@.len() == guess@.len(),
        secret@.len() <= 255,
    ensures
        r.0 == spec_hits(secret@, guess@),
        r.1 == spec_near_hits(secret@, guess@),
        r.0 + r.1 <= secret@.len(),
{
    let n = secret.len();
    let mut hits: u8 = 0;
    let mut smask: Vec<Option<u8>> = Vec::new();
    let mut gmask: Vec<Option<u8>> = Vec::new();
    let mut i: usize = 0;
    while i < n
        invariant
            n == secret@.len(),
            n == guess@.len(),
            n <= 255,
            i <= n,
            smask@.len() == i,
            gmask@.len() == i,
            forall|k: int| 0 <= k < i ==> smask@[k] == secret_mask(secret@, guess@)[k],
            forall|k: int| 0 <= k < i ==> gmask@[k] == guess_mask(secret@, guess@)[k],
            hits <= i,
            hits + hits_from(secret@, guess@, i as int) == spec_hits(secret@, guess@),
        decreases n - i,
    {
        if secret[i] == guess[i] {
            hits = hits + 1;
            smask.push(None);
            gmask.push(None);
        } else {
            smask.push(Some(secret[i]));
            gmask.push(Some(guess[i]));
        }
        i = i + 1;
    }
    assert(smask@ =~= secret_mask(secret@, guess@));
    assert(gmask@ =~= guess_mask(secret@, guess@));

    let mut near: u8 = 0;
    let mut i: usize = 0;
    while i < n
        invariant
            n == secret@.len(),
            n == guess@.len(),
            n <= 255,
            i <= n,
            near <= i,
            smask@ == secret_mask(secret@, guess@),
            gmask@.len() == n,
            near + near_from(smask@, gmask@, i as int) == spec_near_hits(secret@, guess@),
        decreases n - i,
    {
        match smask[i] {
            None => {},
            Some(v) => {
                let mut j: usize = 0;
                let mut found = false;
                while j < n && !found
                    invariant
                        n == gmask@.len(),
                        j <= n,
                        i < n,
                        forall|k: int| 0 <= k < j ==> !(gmask@[k] == Some(v) && k != i),
                        found ==> j < n && gmask@[j as int] == Some(v) && j != i,
                    decreases n - j + (if found { 0int } else { 1int }),
                {
                    let hit_here = match gmask[j] {
                        Some(w) => w == v && j != i,
                        None => false,
                    };
                    if hit_here {
                        found = true;
                    } else {
                        j = j + 1;
                    }
                }
                if found {
                    proof {
                        lemma_first_match_prefix(gmask@, v, i as int, j as int);
                        assert(first_match(gmask@, v, i as int, 0) == j);
                    }
                    gmask[j] = None;
                    near = near + 1;
                } else {
                    proof {
                        lemma_first_match_prefix(gmask@, v, i as int, n as int);
                        assert(first_match(gmask@, v, i as int, 0) == n);
                    }
                }
            },
        }
        i = i + 1;
    }
    proof {
        lemma_score_bounds(secret@, guess@);
    }
    (hits, near)
}

} // verus!

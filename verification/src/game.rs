//! The game session: the secret peg sequence, the guess history, and the
//! guess-limit policy.

mod builder;
mod variant;

pub use builder::BuildError;
pub use builder::GameBuilder;
pub use variant::Variant;

use vstd::prelude::*;

use crate::scoring::score;
use crate::scoring::spec_hits;
use crate::scoring::spec_near_hits;

verus! {

/// Error returned by [`Game::guess`].  The game state is unchanged whenever
/// one of these is returned: no partial guess is recorded.
#[derive(Debug, PartialEq, Eq)]
pub enum GuessError {
    /// The finite guess limit has been reached.
    NoGuessesLeft,
    /// The guess length differs from the secret length.
    WrongGuessLength,
}

/// A running game: an immutable secret, an append-only guess history, and
/// an optional finite guess limit (`None` means unlimited).
#[derive(Debug)]
pub struct Game {
    pegs: Vec<u8>,
    guesses: Vec<Vec<u8>>,
    max_guesses: Option<u8>,
}

impl Game {
    /// The secret peg sequence, fixed at construction.
    pub closed spec fn spec_pegs(&self) -> Seq<u8> {
        self.pegs@
    }

    /// The recorded guesses, in submission order.
    pub closed spec fn spec_guesses(&self) -> Seq<Seq<u8>> {
        self.guesses.deep_view()
    }

    /// The guess limit: `None` means unlimited.
    pub closed spec fn spec_max_guesses(&self) -> Option<u8> {
        self.max_guesses
    }

    /// Well-formedness: the secret's length fits a peg count, the history
    /// never exceeds a finite guess limit, and every recorded guess has the
    /// secret's length.
    pub closed spec fn wf(&self) -> bool {
        &&& self.pegs@.len() <= 255
        &&& (self.max_guesses is Some ==> self.guesses@.len() <= self.max_guesses->0)
        &&& (forall|k: int|
            0 <= k < self.guesses@.len() ==> (#[trigger] self.guesses@[k])@.len()
                == self.pegs@.len())
    }

    /// Whether a finite guess limit is set and already reached, so that no
    /// further guess is accepted.
    pub open spec fn spec_limit_reached(&self) -> bool {
        self.spec_max_guesses() is Some && self.spec_guesses().len() >= self.spec_max_guesses()->0
    }

    /// In a well-formed game the guess history never exceeds a finite
    /// guess limit.  Every game that [`GameBuilder::build`] produces is
    /// well-formed, and [`Game::guess`] keeps it so.
    pub proof fn lemma_history_within_limit(&self)
        requires
            self.wf(),
            self.spec_max_guesses() is Some,
        ensures
            self.spec_guesses().len() <= self.spec_max_guesses()->0,
    {
    }

    /// A game built with unlimited guesses never reaches a guess limit, so
    /// by the contract of [`Game::guess`] it never refuses a guess with
    /// [`GuessError::NoGuessesLeft`], however long its history grows.
    pub proof fn lemma_unlimited_never_exhausted(&self)
        requires
            self.spec_max_guesses() is None,
        ensures
            !self.spec_limit_reached(),
    {
    }

    /// Construct a game directly from its parts.
    pub(crate) fn from_parts(pegs: Vec<u8>, max_guesses: Option<u8>) -> (r: Game)
        requires
            pegs@.len() <= 255,
        ensures
            r.wf(),
            r.spec_pegs() == pegs@,
            r.spec_guesses() == Seq::<Seq<u8>>::empty(),
            r.spec_max_guesses() == max_guesses,
    {
        let r = Game { pegs, guesses: Vec::new(), max_guesses };
        proof {
            assert(r.spec_guesses() =~= Seq::<Seq<u8>>::empty());
        }
        r
    }

    /// The secret peg sequence.
    pub fn pegs(&self) -> (r: &[u8])
        ensures
            r@ == self.spec_pegs(),
    {
        self.pegs.as_slice()
    }

    /// The full guess history, in submission order.
    pub fn guesses(&self) -> (r: &[Vec<u8>])
        ensures
            r.deep_view() == self.spec_guesses(),
    {
        let r = self.guesses.as_slice();
        proof {
            assert(r.deep_view() =~= self.guesses.deep_view());
        }
        r
    }

    /// The guess limit: `None` means unlimited.
    pub fn max_guesses(&self) -> (r: Option<u8>)
        ensures
            r == self.spec_max_guesses(),
    {
        self.max_guesses
    }

    /// Submit a guess.  If a finite guess limit is set and reached, the
    /// guess is refused with [`GuessError::NoGuessesLeft`]; if the guess
    /// length differs from the secret length, it is refused with
    /// [`GuessError::WrongGuessLength`]; in either case the state is
    /// unchanged.  Otherwise the guess is appended to the history and its
    /// score, the pair of hits and near hits, is returned.
    pub fn guess(&mut self, guess: &[u8]) -> (r: Result<(u8, u8), GuessError>)
        requires
            old(self).wf(),
        ensures
            final(self).wf(),
            old(self).spec_limit_reached() ==> {
                &&& r == Err::<(u8, u8), GuessError>(GuessError::NoGuessesLeft)
                &&& *final(self) == *old(self)
            },
            !old(self).spec_limit_reached() && guess@.len() != old(self).spec_pegs().len() ==> {
                &&& r == Err::<(u8, u8), GuessError>(GuessError::WrongGuessLength)
                &&& *final(self) == *old(self)
            },
            !old(self).spec_limit_reached() && guess@.len() == old(self).spec_pegs().len() ==> {
                &&& r matches Ok(p)
                &&& p.0 == spec_hits(old(self).spec_pegs(), guess@)
                &&& p.1 == spec_near_hits(old(self).spec_pegs(), guess@)
                &&& p.0 + p.1 <= old(self).spec_pegs().len()
                &&& final(self).spec_guesses() == old(self).spec_guesses().push(guess@)
            },
            final(self).spec_pegs() == old(self).spec_pegs(),
            final(self).spec_max_guesses() == old(self).spec_max_guesses(),
    {
        if let Some(m) = self.max_guesses {
            if self.guesses.len() >= m as usize {
                return Err(GuessError::NoGuessesLeft);
            }
        }
        if guess.len() != self.pegs.len() {
            return Err(GuessError::WrongGuessLength);
        }
        let (h, nh) = score(self.pegs.as_slice(), guess);
        let owned = vstd::slice::slice_to_vec(guess);
        self.guesses.push(owned);
        proof {
            assert(self.spec_guesses() =~~= old(self).spec_guesses().push(guess@));
        }
        Ok((h, nh))
    }

    /// The score of the guess recorded at `index`, recomputed from the
    /// stored guess and the immutable secret, or `None` if no guess with
    /// that index was recorded.  A pure query: asking twice returns the
    /// same pair.
    pub fn hits(&self, index: usize) -> (r: Option<(u8, u8)>)
        requires
            self.wf(),
        ensures
            index < self.spec_guesses().len() ==> {
                &&& r matches Some(p)
                &&& p.0 == spec_hits(self.spec_pegs(), self.spec_guesses()[index as int])
                &&& p.1 == spec_near_hits(self.spec_pegs(), self.spec_guesses()[index as int])
                &&& p.0 + p.1 <= self.spec_pegs().len()
            },
            index >= self.spec_guesses().len() ==> r is None,
    {
        if index < self.guesses.len() {
            let recorded: &Vec<u8> = &self.guesses[index];
            proof {
                assert(self.spec_guesses()[index as int] =~~= recorded@);
            }
            let (h, nh) = score(self.pegs.as_slice(), recorded.as_slice());
            Some((h, nh))
        } else {
            None
        }
    }
}

impl Default for Game {
    /// A freshly built game with all defaults: a random secret of four
    /// pegs, each in `[0, 6)`, an empty history, and a limit of twelve
    /// guesses.
    fn default() -> (r: Game)
        ensures
            r.wf(),
            r.spec_pegs().len() == 4,
            forall|k: int| 0 <= k < r.spec_pegs().len() ==> r.spec_pegs()[k] < 6,
            r.spec_guesses() == Seq::<Seq<u8>>::empty(),
            r.spec_max_guesses() == Some(12u8),
    {
        GameBuilder::new().build().unwrap()
    }
}

} // verus!

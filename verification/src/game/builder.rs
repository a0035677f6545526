//! The configuration builder: accumulates optional parameters, then
//! validates them and produces an immutable starting [`Game`].

use vstd::prelude::*;

use super::Game;

verus! {

/// Error refused at construction; no game is produced.
#[derive(Debug, PartialEq, Eq)]
pub enum BuildError {
    /// An explicit peg sequence was supplied whose length disagrees with
    /// the configured peg count; both lengths are reported.
    PegLengthMismatch { pegs_len: usize, peg_count: u8 },
    /// The requested game variant has no rules defined.
    UnsupportedVariant,
}

/// Accumulates optional game parameters.  Unset parameters fall back to
/// their defaults at build time: peg count 4, peg value range 6, guess
/// limit 12.
#[derive(Debug)]
pub struct GameBuilder {
    pub pegs: Option<Vec<u8>>,
    pub peg_range: Option<u8>,
    pub peg_count: Option<u8>,
    pub max_guesses: Option<u8>,
    pub unlimited_guesses: bool,
}

impl GameBuilder {
    /// The peg count that `build` uses: the configured one, or 4.
    pub open spec fn spec_peg_count(self) -> u8 {
        match self.peg_count {
            Some(c) => c,
            None => 4,
        }
    }

    /// The exclusive upper bound on generated peg values that `build`
    /// uses: the configured one, or 6.
    pub open spec fn spec_peg_range(self) -> u8 {
        match self.peg_range {
            Some(r) => r,
            None => 6,
        }
    }

    /// The guess limit that `build` gives the game: `None` when unlimited
    /// guesses are chosen, else the configured limit, or 12.
    pub open spec fn spec_guess_limit(self) -> Option<u8> {
        if self.unlimited_guesses {
            None
        } else {
            Some(
                match self.max_guesses {
                    Some(m) => m,
                    None => 12,
                },
            )
        }
    }

    /// Whether `build` succeeds: an explicit peg sequence, if supplied,
    /// must have exactly the configured peg count.
    pub open spec fn spec_pegs_ok(self) -> bool {
        match self.pegs {
            Some(p) => p@.len() == self.spec_peg_count(),
            None => true,
        }
    }

    /// A builder with every parameter unset.
    pub fn new() -> (r: Self)
        ensures
            r.pegs is None,
            r.peg_range is None,
            r.peg_count is None,
            r.max_guesses is None,
            !r.unlimited_guesses,
    {
        Self::default()
    }

    /// Set the explicit peg sequence the game will use as its secret.
    pub fn pegs(self, pegs: &[u8]) -> (r: Self)
        ensures
            r.pegs matches Some(p) && p@ == pegs@,
            r.peg_range == self.peg_range,
            r.peg_count == self.peg_count,
            r.max_guesses == self.max_guesses,
            r.unlimited_guesses == self.unlimited_guesses,
    {
        let mut b = self;
        b.pegs = Some(vstd::slice::slice_to_vec(pegs));
        b
    }

    /// Set the exclusive upper bound on randomly generated peg values.
    /// A bound of 0 leaves no value to draw: `build` then requires an
    /// explicit peg sequence.
    pub fn peg_range(self, range: u8) -> (r: Self)
        ensures
            r.peg_range == Some(range),
            r.pegs == self.pegs,
            r.peg_count == self.peg_count,
            r.max_guesses == self.max_guesses,
            r.unlimited_guesses == self.unlimited_guesses,
    {
        let mut b = self;
        b.peg_range = Some(range);
        b
    }

    /// Set the secret's length for randomly generated pegs.
    pub fn peg_count(self, count: u8) -> (r: Self)
        ensures
            r.peg_count == Some(count),
            r.pegs == self.pegs,
            r.peg_range == self.peg_range,
            r.max_guesses == self.max_guesses,
            r.unlimited_guesses == self.unlimited_guesses,
    {
        let mut b = self;
        b.peg_count = Some(count);
        b
    }

    /// Set the finite guess limit.
    pub fn max_guesses(self, guesses: u8) -> (r: Self)
        ensures
            r.max_guesses == Some(guesses),
            r.pegs == self.pegs,
            r.peg_range == self.peg_range,
            r.peg_count == self.peg_count,
            r.unlimited_guesses == self.unlimited_guesses,
    {
        let mut b = self;
        b.max_guesses = Some(guesses);
        b
    }

    /// Choose unlimited guesses: `true` disables the bound regardless of a
    /// previously set limit.
    pub fn unlimited_guesses(self, unlimited_guesses: bool) -> (r: Self)
        ensures
            r.unlimited_guesses == unlimited_guesses,
            r.pegs == self.pegs,
            r.peg_range == self.peg_range,
            r.peg_count == self.peg_count,
            r.max_guesses == self.max_guesses,
    {
        let mut b = self;
        b.unlimited_guesses = unlimited_guesses;
        b
    }

    /// Validate the configuration and produce the starting game: the
    /// explicit pegs if supplied and of the configured count, else a
    /// randomly generated secret of that count with every value in
    /// `[0, peg_range)`; an empty history; and the effective guess limit.
    pub fn build(self) -> (r: Result<Game, BuildError>)
        requires
            self.pegs is None ==> self.spec_peg_range() >= 1,
        ensures
            r is Ok <==> self.spec_pegs_ok(),
            r matches Ok(g) ==> {
                &&& g.wf()
                &&& g.spec_pegs().len() == self.spec_peg_count()
                &&& (self.pegs matches Some(p) ==> g.spec_pegs() == p@)
                &&& (self.pegs is None ==> forall|k: int|
                    0 <= k < g.spec_pegs().len() ==> g.spec_pegs()[k] < self.spec_peg_range())
                &&& g.spec_guesses() == Seq::<Seq<u8>>::empty()
                &&& g.spec_max_guesses() == self.spec_guess_limit()
            },
            r matches Err(e) ==> {
                &&& self.pegs matches Some(p) && p@.len() != self.spec_peg_count()
                &&& e == (BuildError::PegLengthMismatch {
                    pegs_len: self.pegs->0@.len() as usize,
                    peg_count: self.spec_peg_count(),
                })
            },
    {
        let peg_count = match self.peg_count {
            Some(c) => c,
            None => 4,
        };
        let max_guesses = if self.unlimited_guesses {
            None
        } else {
            match self.max_guesses {
                Some(m) => Some(m),
                None => Some(12),
            }
        };
        let range = match self.peg_range {
            Some(r) => r,
            None => 6,
        };
        let pegs: Vec<u8> = match self.pegs {
            Some(p) => {
                if p.len() != peg_count as usize {
                    return Err(
                        BuildError::PegLengthMismatch { pegs_len: p.len(), peg_count },
                    );
                }
                p
            },
            None => generate_pegs(peg_count, range),
        };
        Ok(Game::from_parts(pegs, max_guesses))
    }
}

impl Default for GameBuilder {
    /// A builder with every parameter unset.
    fn default() -> (r: GameBuilder)
        ensures
            r.pegs is None,
            r.peg_range is None,
            r.peg_count is None,
            r.max_guesses is None,
            !r.unlimited_guesses,
    {
        GameBuilder {
            pegs: None,
            peg_range: None,
            peg_count: None,
            max_guesses: None,
            unlimited_guesses: false,
        }
    }
}

/// Relies on rand::random: a uniformly distributed `u8` from the
/// thread-local generator.  Nothing is promised of the value.
#[verifier::external_body]
fn random_byte() -> u8 {
    rand::random()
}

/// Generate `count` pegs, each drawn at random and reduced by modulo into
/// `[0, range)`.
fn generate_pegs(count: u8, range: u8) -> (r: Vec<u8>)
    requires
        range >= 1,
    ensures
        r@.len() == count,
        forall|k: int| 0 <= k < r@.len() ==> r@[k] < range,
{
    let mut pegs: Vec<u8> = Vec::new();
    let mut i: u8 = 0;
    while i < count
        invariant
            i <= count,
            range >= 1,
            pegs@.len() == i,
            forall|k: int| 0 <= k < pegs@.len() ==> pegs@[k] < range,
        decreases count - i,
    {
        let b = random_byte();
        pegs.push(b % range);
        i = i + 1;
    }
    pegs
}

} // verus!

//! Game variants.  Only the classic rules are defined; the advanced
//! variant is a placeholder and is refused as unsupported.

use vstd::prelude::*;

use super::BuildError;
use super::Game;
use super::GameBuilder;

verus! {

/// The set of game variants a caller can ask for.
#[derive(Debug, PartialEq, Eq)]
pub enum Variant {
    Classic,
    Advanced,
}

impl Default for Variant {
    /// The classic variant.
    fn default() -> (r: Variant)
        ensures
            r == Variant::Classic,
    {
        Variant::Classic
    }
}

impl GameBuilder {
    /// The builder for the given variant: the all-defaults builder for the
    /// classic rules, or [`BuildError::UnsupportedVariant`] for a variant
    /// without rules.
    pub fn from_variant(variant: Variant) -> (r: Result<GameBuilder, BuildError>)
        ensures
            variant == Variant::Classic ==> {
                &&& r matches Ok(b)
                &&& b.pegs is None
                &&& b.peg_range is None
                &&& b.peg_count is None
                &&& b.max_guesses is None
                &&& !b.unlimited_guesses
            },
            variant == Variant::Advanced ==> r == Err::<GameBuilder, BuildError>(
                BuildError::UnsupportedVariant,
            ),
    {
        match variant {
            Variant::Classic => Ok(GameBuilder::new()),
            Variant::Advanced => Err(BuildError::UnsupportedVariant),
        }
    }
}

impl Game {
    /// A freshly built game for the given variant, or
    /// [`BuildError::UnsupportedVariant`] for a variant without rules.
    pub fn from_variant(variant: Variant) -> (r: Result<Game, BuildError>)
        ensures
            variant == Variant::Classic ==> {
                &&& r matches Ok(g)
                &&& g.wf()
                &&& g.spec_pegs().len() == 4
                &&& (forall|k: int| 0 <= k < g.spec_pegs().len() ==> g.spec_pegs()[k] < 6)
                &&& g.spec_guesses() == Seq::<Seq<u8>>::empty()
                &&& g.spec_max_guesses() == Some(12u8)
            },
            variant == Variant::Advanced ==> r == Err::<Game, BuildError>(
                BuildError::UnsupportedVariant,
            ),
    {
        match GameBuilder::from_variant(variant) {
            Ok(b) => b.build(),
            Err(e) => Err(e),
        }
    }
}

} // verus!

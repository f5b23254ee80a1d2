//! Turn-based combat between combatants of one or two elemental types: bounded
//! numbers, the table of type matchups, and the way from an attack to the health
//! it takes.
use vstd::prelude::*;

pub mod combat;
pub mod matchup;
pub mod num;
pub mod scalar;

pub use crate::combat::AttackMove;
pub use crate::combat::AttackOutcome;
pub use crate::combat::Damage;
pub use crate::combat::EffectMove;
pub use crate::combat::Experience;
pub use crate::combat::ExperienceThreshold;
pub use crate::combat::Health;
pub use crate::combat::Level;
pub use crate::combat::Move;
pub use crate::combat::MoveInner;
pub use crate::combat::MoveKind;
pub use crate::combat::Pokemon;
pub use crate::combat::Power;
pub use crate::combat::Stats;
pub use crate::matchup::BaseType;
pub use crate::matchup::Matchup;
pub use crate::matchup::TypeMatchup;
pub use crate::matchup::Typing;

verus! {

/// The sum of two unsigned integers, where it fits the machine word.
pub fn add(left: u64, right: u64) -> (sum: u64)
    requires
        left + right <= u64::MAX,
    ensures
        sum == left + right,
{
    left + right
}

} // verus!

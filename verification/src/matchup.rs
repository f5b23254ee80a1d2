//! Elemental types, the table of how one type fares against another, and the
//! rule by which the entries of combatants with two types are taken together.
use crate::num::IntoPercentage;
use crate::num::Percentage;
use crate::scalar::Hundredths;
use std::ops::ControlFlow;
use vstd::prelude::*;
use vstd::std_specs::convert::IntoSpec;

verus! {

/// Whether an attack takes effect, and with what payload when it does.
#[derive(Debug, PartialEq, Eq)]
pub enum TypeMatchup<T> {
    Affected(T),
    Unaffected,
}

impl<T: View> View for TypeMatchup<T> {
    type V = Option<T::V>;

    open spec fn view(&self) -> Option<T::V> {
        match self {
            TypeMatchup::Affected(value) => Some(value@),
            TypeMatchup::Unaffected => None,
        }
    }
}

impl<T> TypeMatchup<T> {
    /// Transforms the payload and keeps the variant.
    pub fn map<U>(self, f: impl FnOnce(T) -> U) -> (mapped: TypeMatchup<U>)
        requires
            self matches TypeMatchup::Affected(value) ==> f.requires((value,)),
        ensures
            match self {
                TypeMatchup::Unaffected => mapped is Unaffected,
                TypeMatchup::Affected(value) => mapped matches TypeMatchup::Affected(out)
                    && f.ensures((value,), out),
            },
    {
        match self {
            TypeMatchup::Unaffected => TypeMatchup::Unaffected,
            TypeMatchup::Affected(value) => TypeMatchup::Affected(f(value)),
        }
    }

    /// Chains into another matchup; `Unaffected` absorbs.
    pub fn and_then<U>(self, f: impl FnOnce(T) -> TypeMatchup<U>) -> (chained: TypeMatchup<U>)
        requires
            self matches TypeMatchup::Affected(value) ==> f.requires((value,)),
        ensures
            match self {
                TypeMatchup::Unaffected => chained is Unaffected,
                TypeMatchup::Affected(value) => f.ensures((value,), chained),
            },
    {
        match self.map(f) {
            TypeMatchup::Unaffected => TypeMatchup::Unaffected,
            TypeMatchup::Affected(value) => value,
        }
    }
}

impl<T> TypeMatchup<T> {
    /// The matchup that carries `output`.
    pub fn from_output(output: T) -> (matchup: TypeMatchup<T>)
        ensures
            matchup == TypeMatchup::Affected(output),
    {
        TypeMatchup::Affected(output)
    }

    /// Parts a matchup into the payload to go on with, or the signal to stop at once.
    pub fn branch(self) -> (flow: ControlFlow<Option<T>, T>)
        ensures
            flow == match self {
                TypeMatchup::Affected(value) => ControlFlow::<Option<T>, T>::Continue(value),
                TypeMatchup::Unaffected => ControlFlow::<Option<T>, T>::Break(None),
            },
    {
        let TypeMatchup::Affected(value) = self else {
            return ControlFlow::Break(None);
        };
        ControlFlow::Continue(value)
    }

    /// The matchup that a stopped computation ends in: `Unaffected` where the
    /// signal carries nothing, else the converted payload.
    pub fn from_residual<R: Into<T>>(residual: Option<R>) -> (matchup: TypeMatchup<T>)
        ensures
            residual is None ==> matchup is Unaffected,
            residual matches Some(held) ==> matchup matches TypeMatchup::Affected(value) && (
            R::obeys_into_spec() ==> value == held.into_spec()),
    {
        match residual {
            Some(held) => TypeMatchup::Affected(held.into()),
            None => TypeMatchup::default(),
        }
    }

    /// The matchup that a stopped matchup of another payload ends in: the same
    /// variant, with the payload converted.
    pub fn from_matchup<R: Into<T>>(residual: TypeMatchup<R>) -> (matchup: TypeMatchup<T>)
        ensures
            residual is Unaffected ==> matchup is Unaffected,
            residual matches TypeMatchup::Affected(held) ==> matchup matches TypeMatchup::Affected(
                value,
            ) && (R::obeys_into_spec() ==> value == held.into_spec()),
    {
        residual.map(
            |held: R| -> (value: T)
                ensures
                    R::obeys_into_spec() ==> value == held.into_spec()
                { held.into() },
        )
    }
}

impl<T> Default for TypeMatchup<T> {
    fn default() -> (matchup: TypeMatchup<T>)
        ensures
            matchup is Unaffected,
    {
        TypeMatchup::Unaffected
    }
}

impl<T> From<T> for TypeMatchup<T> {
    fn from(value: T) -> (matchup: TypeMatchup<T>) {
        TypeMatchup::Affected(value)
    }
}

impl<T> vstd::std_specs::convert::FromSpecImpl<T> for TypeMatchup<T> {
    open spec fn obeys_from_spec() -> bool {
        true
    }

    open spec fn from_spec(value: T) -> TypeMatchup<T> {
        TypeMatchup::Affected(value)
    }
}

impl<T> From<T> for TypeMatchup<Percentage<T>> where T: IntoPercentage<T> {
    fn from(value: T) -> (matchup: TypeMatchup<Percentage<T>>) {
        TypeMatchup::Affected(value.into_percentage())
    }
}

impl<T> vstd::std_specs::convert::FromSpecImpl<T> for TypeMatchup<Percentage<T>> where T: IntoPercentage<T> {
    open spec fn obeys_from_spec() -> bool {
        true
    }

    open spec fn from_spec(value: T) -> TypeMatchup<Percentage<T>> {
        TypeMatchup::Affected(value.percentage_spec())
    }
}

impl<T> From<Option<T>> for TypeMatchup<T> {
    fn from(value: Option<T>) -> (matchup: TypeMatchup<T>) {
        match value {
            Some(held) => TypeMatchup::Affected(held),
            None => TypeMatchup::Unaffected,
        }
    }
}

impl<T> vstd::std_specs::convert::FromSpecImpl<Option<T>> for TypeMatchup<T> {
    open spec fn obeys_from_spec() -> bool {
        true
    }

    open spec fn from_spec(value: Option<T>) -> TypeMatchup<T> {
        match value {
            Some(held) => TypeMatchup::Affected(held),
            None => TypeMatchup::Unaffected,
        }
    }
}

/// The elemental category of a combatant or of a move.
#[derive(Clone, Copy, Debug, PartialEq, Eq, Structural)]
pub enum BaseType {
    Normal,
    Fire,
    Grass,
    Water,
    Lightning,
    Spectre,
    Fighting,
}

/// Hundredths of a not very effective attack.
pub const NOT_VERY_EFFECTIVE: i32 = 50;

/// Hundredths of a neutral attack.
pub const NEUTRAL: i32 = 100;

/// Hundredths of a super-effective attack.
pub const SUPER_EFFECTIVE: i32 = 200;

impl BaseType {
    /// An attack of this type leaves a defender of type `rhs` untouched.
    pub open spec fn cannot_affect(self, rhs: BaseType) -> bool {
        (self is Normal || self is Fighting) && rhs is Spectre
    }

    /// An attack of this type is not very effective against `rhs`.
    pub open spec fn is_resisted_by(self, rhs: BaseType) -> bool {
        match self {
            BaseType::Fire => rhs is Fire || rhs is Water,
            BaseType::Water => rhs is Water || rhs is Grass || rhs is Lightning,
            BaseType::Grass => rhs is Grass || rhs is Fire || rhs is Lightning,
            BaseType::Lightning => rhs is Lightning || rhs is Grass,
            _ => false,
        }
    }

    /// An attack of this type is super-effective against `rhs`.
    pub open spec fn is_strong_against(self, rhs: BaseType) -> bool {
        match self {
            BaseType::Fire => rhs is Grass,
            BaseType::Water => rhs is Fire,
            BaseType::Grass => rhs is Water,
            BaseType::Lightning => rhs is Water,
            BaseType::Fighting => rhs is Fighting || rhs is Normal,
            _ => false,
        }
    }

    /// The multiplier, in hundredths, of an attack of this type against `rhs`;
    /// `None` where the attack has no effect.
    pub open spec fn effectiveness(self, rhs: BaseType) -> Option<int> {
        if self.cannot_affect(rhs) {
            None
        } else if self.is_resisted_by(rhs) {
            Some(NOT_VERY_EFFECTIVE as int)
        } else if self.is_strong_against(rhs) {
            Some(SUPER_EFFECTIVE as int)
        } else {
            Some(NEUTRAL as int)
        }
    }

    /// The entry of the table for an attack of this type on a defender of type `rhs`.
    pub fn attacking(&self, rhs: &BaseType) -> (matchup: TypeMatchup<Percentage<Hundredths>>)
        ensures
            matchup@ == self.effectiveness(*rhs),
    {
        match self {
            BaseType::Normal if matches!(rhs, BaseType::Spectre) => TypeMatchup::Unaffected,
            BaseType::Fighting if matches!(rhs, BaseType::Spectre) => TypeMatchup::Unaffected,
            BaseType::Fire if matches!(rhs, BaseType::Fire | BaseType::Water) => {
                Hundredths(NOT_VERY_EFFECTIVE).into()
            },
            BaseType::Fire if matches!(rhs, BaseType::Grass) => {
                Hundredths(SUPER_EFFECTIVE).into()
            },
            BaseType::Water if matches!(
                rhs,
                BaseType::Water | BaseType::Grass | BaseType::Lightning
            ) => { Hundredths(NOT_VERY_EFFECTIVE).into() },
            BaseType::Water if matches!(rhs, BaseType::Fire) => {
                Hundredths(SUPER_EFFECTIVE).into()
            },
            BaseType::Grass if matches!(
                rhs,
                BaseType::Grass | BaseType::Fire | BaseType::Lightning
            ) => { Hundredths(NOT_VERY_EFFECTIVE).into() },
            BaseType::Grass if matches!(rhs, BaseType::Water) => {
                Hundredths(SUPER_EFFECTIVE).into()
            },
            BaseType::Lightning if matches!(rhs, BaseType::Lightning | BaseType::Grass) => {
                Hundredths(NOT_VERY_EFFECTIVE).into()
            },
            BaseType::Lightning if matches!(rhs, BaseType::Water) => {
                Hundredths(SUPER_EFFECTIVE).into()
            },
            BaseType::Fighting if matches!(rhs, BaseType::Fighting | BaseType::Normal) => {
                Hundredths(SUPER_EFFECTIVE).into()
            },
            _ => Hundredths(NEUTRAL).into(),
        }
    }

    /// The entry of the table for an attack of type `rhs` on a defender of this type.
    pub fn defending(&self, rhs: &BaseType) -> (matchup: TypeMatchup<Percentage<Hundredths>>)
        ensures
            matchup@ == rhs.effectiveness(*self),
    {
        rhs.attacking(self)
    }
}

/// The one or two elemental categories of a combatant.
#[derive(Clone, Copy, Debug, PartialEq, Eq, Structural)]
pub enum Typing {
    Single(BaseType),
    Mixed { primary: BaseType, secondary: BaseType },
}

impl Typing {
    /// Whether `base` is the type, or one of the two types, of this typing.
    pub open spec fn includes(self, base: BaseType) -> bool {
        match self {
            Typing::Single(only) => only == base,
            Typing::Mixed { primary, secondary } => primary == base || secondary == base,
        }
    }
}

/// Two facets taken together: their sum where both take effect, nothing otherwise.
pub open spec fn combined(first: Option<int>, second: Option<int>) -> Option<int> {
    match (first, second) {
        (Some(a), Some(b)) => Some(a + b),
        _ => None,
    }
}

/// Whether `hundredths` can be the sum of `entries` entries of the table.
pub open spec fn sums_entries(hundredths: int, entries: int) -> bool {
    0 <= hundredths <= SUPER_EFFECTIVE * entries
}

impl BaseType {
    /// The multiplier, in hundredths, of an attack of this type against a
    /// defender of typing `rhs`.
    pub open spec fn effectiveness_against(self, rhs: Typing) -> Option<int> {
        match rhs {
            Typing::Single(base) => self.effectiveness(base),
            Typing::Mixed { primary, secondary } => combined(
                self.effectiveness(primary),
                self.effectiveness(secondary),
            ),
        }
    }
}

impl Typing {
    /// The multiplier, in hundredths, of an attacker of this typing against a
    /// defender of typing `rhs`.
    pub open spec fn effectiveness_against(self, rhs: Typing) -> Option<int> {
        match self {
            Typing::Single(base) => base.effectiveness_against(rhs),
            Typing::Mixed { primary, secondary } => combined(
                primary.effectiveness_against(rhs),
                secondary.effectiveness_against(rhs),
            ),
        }
    }
}

/// How effective one side is when it attacks, or is attacked by, another.
pub trait Matchup<Rhs = Self>: Sized {
    type Output: View;

    /// What `attacking_effectiveness` computes, as a plain value.
    spec fn attacking_spec(&self, rhs: &Rhs) -> Option<<Self::Output as View>::V>;

    /// How effective `self` is when it attacks `rhs`.
    fn attacking_effectiveness(&self, rhs: &Rhs) -> (matchup: TypeMatchup<Self::Output>)
        ensures
            matchup@ == self.attacking_spec(rhs),
    ;
}

/// How effective `rhs` is when it attacks `defender`: the matchup seen from
/// the side that is hit.
pub fn defending_effectiveness<Defender, Attacker: Matchup<Defender>>(
    defender: &Defender,
    rhs: &Attacker,
) -> (matchup: TypeMatchup<Attacker::Output>)
    ensures
        matchup@ == rhs.attacking_spec(defender),
{
    rhs.attacking_effectiveness(defender)
}

impl Matchup<Typing> for BaseType {
    type Output = Percentage<Hundredths>;

    open spec fn attacking_spec(&self, rhs: &Typing) -> Option<int> {
        self.effectiveness_against(*rhs)
    }

    fn attacking_effectiveness(&self, rhs: &Typing) -> (matchup: TypeMatchup<
        Percentage<Hundredths>,
    >) {
        match rhs {
            Typing::Single(base) => self.attacking(base),
            Typing::Mixed { primary, secondary } => {
                self.attacking(primary).and_then(
                    |primary_effectiveness: Percentage<Hundredths>| -> (sum: TypeMatchup<
                        Percentage<Hundredths>,
                    >)
                        requires
                            sums_entries(primary_effectiveness@, 1),
                        ensures
                            sum@ == combined(
                                Some(primary_effectiveness@),
                                self.effectiveness(*secondary),
                            )
                        {
                            self.attacking(secondary).map(
                                |secondary_effectiveness: Percentage<Hundredths>| -> (sum:
                                    Percentage<Hundredths>)
                                    requires
                                        sums_entries(secondary_effectiveness@, 1),
                                    ensures
                                        sum@ == (primary_effectiveness@ + secondary_effectiveness@)
                                    { primary_effectiveness + secondary_effectiveness },
                            )
                        },
                )
            },
        }
    }
}

impl Matchup for Typing {
    type Output = Percentage<Hundredths>;

    open spec fn attacking_spec(&self, rhs: &Typing) -> Option<int> {
        self.effectiveness_against(*rhs)
    }

    fn attacking_effectiveness(&self, rhs: &Typing) -> (matchup: TypeMatchup<
        Percentage<Hundredths>,
    >) {
        match self {
            Typing::Single(base) => base.attacking_effectiveness(rhs),
            Typing::Mixed { primary, secondary } => {
                primary.attacking_effectiveness(rhs).and_then(
                    |primary_effectiveness: Percentage<Hundredths>| -> (sum: TypeMatchup<
                        Percentage<Hundredths>,
                    >)
                        requires
                            sums_entries(primary_effectiveness@, 2),
                        ensures
                            sum@ == combined(
                                Some(primary_effectiveness@),
                                secondary.effectiveness_against(*rhs),
                            )
                        {
                            secondary.attacking_effectiveness(rhs).map(
                                |secondary_effectiveness: Percentage<Hundredths>| -> (sum:
                                    Percentage<Hundredths>)
                                    requires
                                        sums_entries(secondary_effectiveness@, 2),
                                    ensures
                                        sum@ == (primary_effectiveness@ + secondary_effectiveness@)
                                    { primary_effectiveness + secondary_effectiveness },
                            )
                        },
                )
            },
        }
    }
}

/// No ordered pair of types stands in two lists of the table.
pub proof fn lemma_table_lists_are_disjoint(attacker: BaseType, defender: BaseType)
    ensures
        !(attacker.cannot_affect(defender) && attacker.is_resisted_by(defender)),
        !(attacker.cannot_affect(defender) && attacker.is_strong_against(defender)),
        !(attacker.is_resisted_by(defender) && attacker.is_strong_against(defender)),
{
}

/// An ordered pair that the table does not list is neutral.
pub proof fn lemma_unlisted_pair_is_neutral(attacker: BaseType, defender: BaseType)
    requires
        !attacker.cannot_affect(defender),
        !attacker.is_resisted_by(defender),
        !attacker.is_strong_against(defender),
    ensures
        attacker.effectiveness(defender) == Some(100int),
{
}

/// The table knows four verdicts and no other.
pub proof fn lemma_table_verdicts(attacker: BaseType, defender: BaseType)
    ensures
        attacker.effectiveness(defender) is None <==> attacker.cannot_affect(defender),
        attacker.effectiveness(defender) == Some(50int) <==> attacker.is_resisted_by(defender),
        attacker.effectiveness(defender) == Some(200int) <==> attacker.is_strong_against(defender),
        attacker.effectiveness(defender) matches Some(hundredths) ==> hundredths == 50
            || hundredths == 100 || hundredths == 200,
{
}

/// A facet without effect leaves the two facets together without effect.
pub proof fn lemma_unaffected_facet_absorbs(first: Option<int>, second: Option<int>)
    ensures
        combined(first, second) is Some <==> first is Some && second is Some,
{
}

/// A single type against a defender of two types: without effect where neither
/// facet is affected, the sum of the two multipliers where both are.
pub proof fn lemma_dual_defender(attacker: BaseType, primary: BaseType, secondary: BaseType)
    requires
        attacker.effectiveness(primary) is Some <==> attacker.effectiveness(secondary) is Some,
    ensures
        attacker.effectiveness(primary) is None ==> attacker.effectiveness_against(
            Typing::Mixed { primary, secondary },
        ) is None,
        attacker.effectiveness(primary) is Some ==> attacker.effectiveness_against(
            Typing::Mixed { primary, secondary },
        ) == Some(attacker.effectiveness(primary)->0 + attacker.effectiveness(secondary)->0),
{
}

/// An attacker of two types against any defender: without effect where neither
/// of its types has one, the sum of the two multipliers where both have.
pub proof fn lemma_dual_attacker(primary: BaseType, secondary: BaseType, defender: Typing)
    requires
        primary.effectiveness_against(defender) is Some <==> secondary.effectiveness_against(
            defender,
        ) is Some,
    ensures
        primary.effectiveness_against(defender) is None ==> (Typing::Mixed {
            primary,
            secondary,
        }).effectiveness_against(defender) is None,
        primary.effectiveness_against(defender) is Some ==> (Typing::Mixed {
            primary,
            secondary,
        }).effectiveness_against(defender) == Some(
            primary.effectiveness_against(defender)->0 + secondary.effectiveness_against(
                defender,
            )->0,
        ),
{
}

/// Two types against two types: the four entries of the table taken together,
/// which is their sum where all four take effect and nothing otherwise.
pub proof fn lemma_cross_of_four(
    first: BaseType,
    second: BaseType,
    primary: BaseType,
    secondary: BaseType,
)
    ensures
        ({
            let resolved = (Typing::Mixed {
                primary: first,
                secondary: second,
            }).effectiveness_against(Typing::Mixed { primary, secondary });
            let a = first.effectiveness(primary);
            let b = first.effectiveness(secondary);
            let c = second.effectiveness(primary);
            let d = second.effectiveness(secondary);
            if a is Some && b is Some && c is Some && d is Some {
                resolved == Some(a->0 + b->0 + c->0 + d->0)
            } else {
                resolved is None
            }
        }),
{
}

/// How many table entries a typing brings into a matchup.
pub open spec fn facets(typing: Typing) -> int {
    match typing {
        Typing::Single(_) => 1,
        Typing::Mixed { .. } => 2,
    }
}

/// A resolved multiplier is the sum of one entry for each pair of facets, and
/// each entry lies between 50 and 200 hundredths.
pub proof fn lemma_effectiveness_is_bounded(attacker: Typing, defender: Typing)
    ensures
        attacker.effectiveness_against(defender) matches Some(hundredths) ==> 50 * facets(attacker)
            * facets(defender) <= hundredths <= 200 * facets(attacker) * facets(defender),
{
}

} // verus!

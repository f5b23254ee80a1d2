//! Combatants and their moves: the figures they hold, how an attack is
//! resolved into an outcome, and how an outcome is applied.
use crate::matchup::BaseType;
use crate::matchup::Matchup;
use crate::matchup::TypeMatchup;
use crate::matchup::Typing;
use crate::matchup::NEUTRAL;
use crate::num::BoundedPercentage;
use crate::num::Constu8InclusiveRange;
use crate::num::IntoPercentage;
use crate::num::Percentage;
use crate::scalar::Hundredths;
use crate::scalar::Ratio;
use vstd::prelude::*;

verus! {

/// What a combatant can still take before it faints.
#[derive(Clone, Copy, Debug, PartialEq, Eq)]
pub struct Health {
    value: u16,
}

impl View for Health {
    type V = int;

    closed spec fn view(&self) -> int {
        self.value as int
    }
}

impl Health {
    pub fn new(value: u16) -> (health: Health)
        ensures
            health@ == value,
    {
        Health { value }
    }

    pub fn value(&self) -> (value: u16)
        ensures
            value == self@,
    {
        self.value
    }

    /// A health is a count that fits sixteen bits.
    pub proof fn lemma_fits_sixteen_bits(self)
        ensures
            0 <= self@ <= u16::MAX,
    {
    }

    /// What is left after `damage` is taken: never less than nothing.
    pub open spec fn remaining_after(health: int, damage: int) -> int {
        if damage >= health {
            0
        } else {
            health - damage
        }
    }

    /// Takes `damage` off, stopping at zero.
    pub fn reduced_by(&self, damage: &Health) -> (left: Health)
        ensures
            left@ == Self::remaining_after(self@, damage@),
    {
        if damage.value >= self.value {
            Health { value: 0 }
        } else {
            Health { value: self.value - damage.value }
        }
    }
}

/// The lowest level a combatant can have.
pub const LOWEST_LEVEL: u8 = 1;

/// The highest level a combatant can reach.
pub const HIGHEST_LEVEL: u8 = 100;

/// A combatant's level, from 1 to 100.
#[derive(Clone, Copy, Debug)]
pub struct Level {
    value: Constu8InclusiveRange<1, 100>,
}

impl View for Level {
    type V = int;

    closed spec fn view(&self) -> int {
        self.value@
    }
}

impl Level {
    /// The level `value`, which must be one that exists.
    pub fn new(value: u8) -> (level: Level)
        requires
            LOWEST_LEVEL <= value <= HIGHEST_LEVEL,
        ensures
            level@ == value,
    {
        Level { value: Constu8InclusiveRange::new(value) }
    }

    pub fn value(&self) -> (value: u8)
        ensures
            value == self@,
            LOWEST_LEVEL <= value <= HIGHEST_LEVEL,
    {
        self.value.get()
    }

    /// Whether there is a higher level to reach.
    pub fn not_at_max(&self) -> (below: bool)
        ensures
            below == (self@ < HIGHEST_LEVEL),
    {
        self.value.is_bounded_above_exclusive()
    }
}

/// The experience at which the present level began and that at which the next begins.
pub struct ExperienceThresholdView {
    pub current: int,
    pub next: int,
}

/// The two experience marks that enclose the present level.
#[derive(Clone, Copy, Debug)]
pub struct ExperienceThreshold {
    current: u32,
    next: u32,
}

impl View for ExperienceThreshold {
    type V = ExperienceThresholdView;

    closed spec fn view(&self) -> ExperienceThresholdView {
        ExperienceThresholdView { current: self.current as int, next: self.next as int }
    }
}

impl ExperienceThreshold {
    #[verifier::type_invariant]
    spec fn ordered(self) -> bool {
        self.current <= self.next
    }

    /// The marks of a level that begins at `current` and ends at `next`, which
    /// must not lie before its beginning.
    pub fn new(current: u32, next: u32) -> (threshold: ExperienceThreshold)
        requires
            current <= next,
        ensures
            threshold@.current == current,
            threshold@.next == next,
    {
        ExperienceThreshold { current, next }
    }

    pub fn current(&self) -> (current: u32)
        ensures
            current == self@.current,
            current <= self@.next,
    {
        proof {
            use_type_invariant(self);
        }
        self.current
    }

    pub fn next(&self) -> (next: u32)
        ensures
            next == self@.next,
            self@.current <= next,
    {
        proof {
            use_type_invariant(self);
        }
        self.next
    }

    /// The experience that the level takes from its beginning to its end.
    pub fn difference(&self) -> (difference: u32)
        ensures
            difference == self@.next - self@.current,
    {
        proof {
            use_type_invariant(self);
        }
        self.next - self.current
    }
}

/// Experience gathered, with the marks of the present level.
pub struct ExperienceView {
    pub value: int,
    pub threshold: ExperienceThresholdView,
}

impl ExperienceView {
    /// Experience gathered since the present level began.
    pub open spec fn progress(self) -> int {
        self.value - self.threshold.current
    }

    /// Experience between the two marks.
    pub open spec fn difference(self) -> int {
        self.threshold.next - self.threshold.current
    }
}

/// A combatant's experience within its present level.
#[derive(Clone, Copy, Debug)]
pub struct Experience {
    value: u32,
    threshold: ExperienceThreshold,
}

impl View for Experience {
    type V = ExperienceView;

    closed spec fn view(&self) -> ExperienceView {
        ExperienceView { value: self.value as int, threshold: self.threshold@ }
    }
}

impl Experience {
    #[verifier::type_invariant]
    spec fn begun(self) -> bool {
        self.threshold@.current <= self.value
    }

    /// Experience of `value` within the level of `threshold`, which must have begun.
    pub fn new(value: u32, threshold: ExperienceThreshold) -> (experience: Experience)
        requires
            threshold@.current <= value,
        ensures
            experience@.value == value,
            experience@.threshold == threshold@,
    {
        Experience { value, threshold }
    }

    pub fn value(&self) -> (value: u32)
        ensures
            value == self@.value,
            self@.threshold.current <= value,
    {
        proof {
            use_type_invariant(self);
        }
        self.value
    }

    pub fn threshold(&self) -> (threshold: ExperienceThreshold)
        ensures
            threshold@ == self@.threshold,
    {
        self.threshold
    }

    /// The experience gathered since the present level began.
    pub fn progress(&self) -> (progress: u32)
        ensures
            progress == self@.progress(),
    {
        proof {
            use_type_invariant(self);
        }
        self.value - self.threshold.current
    }

    /// The experience still missing to the next mark, which must not be passed yet.
    pub fn remainder(&self) -> (remainder: u32)
        requires
            self@.value <= self@.threshold.next,
        ensures
            remainder == self@.difference() - self@.progress(),
    {
        self.threshold.difference() - self.progress()
    }

    /// Progress through the present level as a part of the whole level; `None`
    /// where the experience lies beyond the next mark or the two marks coincide.
    pub fn as_percentage(&self) -> (percentage: Option<BoundedPercentage<Ratio>>)
        ensures
            percentage is Some <==> self@.difference() != 0 && self@.value <= self@.threshold.next,
            percentage matches Some(part) ==> part.inner().numerator == self@.progress()
                && part.inner().denominator == self@.difference(),
    {
        let ratio = Ratio { numerator: self.progress(), denominator: self.threshold.difference() };
        ratio.into_bounded_percentage()
    }

    /// Whether the experience stands exactly at the next mark.
    pub fn is_at_next_threshold(&self) -> (reached: bool)
        ensures
            reached == (self@.value == self@.threshold.next),
    {
        self.value == self.threshold.next
    }
}

/// Health, experience and level of a combatant.
pub struct StatsView {
    pub health: int,
    pub experience: ExperienceView,
    pub level: int,
}

/// The figures of a combatant that change in play.
#[derive(Clone, Copy, Debug)]
pub struct Stats {
    hp: Health,
    exp: Experience,
    lvl: Level,
}

impl View for Stats {
    type V = StatsView;

    closed spec fn view(&self) -> StatsView {
        StatsView { health: self.hp@, experience: self.exp@, level: self.lvl@ }
    }
}

impl Stats {
    pub fn new(hp: Health, exp: Experience, lvl: Level) -> (stats: Stats)
        ensures
            stats@.health == hp@,
            stats@.experience == exp@,
            stats@.level == lvl@,
    {
        Stats { hp, exp, lvl }
    }

    pub fn health(&self) -> (hp: Health)
        ensures
            hp@ == self@.health,
    {
        self.hp
    }

    pub fn experience(&self) -> (exp: Experience)
        ensures
            exp@ == self@.experience,
    {
        self.exp
    }

    pub fn level(&self) -> (lvl: Level)
        ensures
            lvl@ == self@.level,
    {
        self.lvl
    }
}

/// What every move has, whatever it does.
pub struct MoveInnerView {
    pub name: Seq<char>,
    pub description: Seq<char>,
    pub base_type: BaseType,
    pub max_uses: int,
}

/// What every move has, whatever it does.
#[derive(Clone, Copy, Debug)]
pub struct MoveInner {
    name: &'static str,
    description: &'static str,
    base_type: BaseType,
    max_uses: u8,
}

impl View for MoveInner {
    type V = MoveInnerView;

    closed spec fn view(&self) -> MoveInnerView {
        MoveInnerView {
            name: self.name@,
            description: self.description@,
            base_type: self.base_type,
            max_uses: self.max_uses as int,
        }
    }
}

impl MoveInner {
    pub fn new(
        name: &'static str,
        description: &'static str,
        base_type: BaseType,
        max_uses: u8,
    ) -> (inner: MoveInner)
        ensures
            inner@ == (MoveInnerView {
                name: name@,
                description: description@,
                base_type,
                max_uses: max_uses as int,
            }),
    {
        MoveInner { name, description, base_type, max_uses }
    }

    pub fn name(&self) -> (name: &'static str)
        ensures
            name@ == self@.name,
    {
        self.name
    }

    pub fn description(&self) -> (description: &'static str)
        ensures
            description@ == self@.description,
    {
        self.description
    }

    pub fn base_type(&self) -> (base_type: BaseType)
        ensures
            base_type == self@.base_type,
    {
        self.base_type
    }

    pub fn max_uses(&self) -> (max_uses: u8)
        ensures
            max_uses == self@.max_uses,
    {
        self.max_uses
    }
}

/// What a move does: it strikes, or it has some other effect.
#[derive(Debug)]
pub enum MoveKind {
    Attack { accuracy: Option<BoundedPercentage<u8>>, power: u8 },
    Effect {  },
}

/// The raw magnitude of an attack.
#[derive(Clone, Copy, Debug)]
pub struct Power {
    value: u8,
}

impl View for Power {
    type V = int;

    closed spec fn view(&self) -> int {
        self.value as int
    }
}

/// The health that an attack of magnitude `power` takes at a multiplier of
/// `effectiveness` hundredths: their product in whole points, rounded down, and
/// kept within what a health can hold.
pub open spec fn damage_dealt(effectiveness: int, power: int) -> int {
    let scaled = (effectiveness * power) / 100;
    if scaled < 0 {
        0
    } else if scaled > u16::MAX {
        u16::MAX as int
    } else {
        scaled
    }
}

/// An attack's magnitude with the multiplier to apply, if there is one.
pub struct DamageView {
    pub power: int,
    pub effectiveness: Option<int>,
}

/// An attack's magnitude with the multiplier to apply, if there is one.
pub struct Damage<'p, 'e> {
    power: &'p Power,
    effectiveness: Option<&'e Percentage<Hundredths>>,
}

impl<'p, 'e> View for Damage<'p, 'e> {
    type V = DamageView;

    closed spec fn view(&self) -> DamageView {
        DamageView {
            power: self.power@,
            effectiveness: match self.effectiveness {
                Some(effectiveness) => Some(effectiveness@),
                None => None,
            },
        }
    }
}

impl<'p, 'e> Damage<'p, 'e> {
    /// The health taken; without a multiplier the attack counts as neutral.
    pub fn calculate(self) -> (health: Health)
        ensures
            health@ == damage_dealt(
                match self@.effectiveness {
                    Some(effectiveness) => effectiveness,
                    None => 100,
                },
                self@.power,
            ),
    {
        let Damage { power: Power { value }, effectiveness } = self;
        let scale: i32 = match effectiveness {
            Some(percentage) => percentage.copy_inner().0,
            None => NEUTRAL,
        };
        if scale <= 0 {
            assert((scale * *value) / 100 <= 0) by (nonlinear_arith)
                requires
                    scale <= 0,
                    0 <= *value,
            ;
            return Health { value: 0 };
        }
        assert(0 <= scale * *value <= i32::MAX * u8::MAX) by (nonlinear_arith)
            requires
                0 < scale <= i32::MAX,
                0 <= *value <= u8::MAX,
        ;
        let scaled: u64 = (scale as u64) * (*value as u64) / 100;
        if scaled > u16::MAX as u64 {
            Health { value: u16::MAX }
        } else {
            Health { value: scaled as u16 }
        }
    }
}

impl Power {
    pub fn new(value: u8) -> (power: Power)
        ensures
            power@ == value,
    {
        Power { value }
    }

    pub fn value(&self) -> (value: u8)
        ensures
            value == self@,
    {
        self.value
    }

    /// A power is a count that fits a byte.
    pub proof fn lemma_fits_a_byte(self)
        ensures
            0 <= self@ <= u8::MAX,
    {
    }

    /// The damage of this power with no multiplier to apply.
    pub fn into_damage<'p>(&'p self) -> (damage: Damage<'p, '_>)
        ensures
            damage@ == (DamageView { power: self@, effectiveness: None }),
    {
        Damage { power: self, effectiveness: None }
    }

    /// The damage of this power at the multiplier `effectiveness`.
    pub fn into_damage_at<'p, 'e>(&'p self, effectiveness: &'e Percentage<Hundredths>) -> (damage:
        Damage<'p, 'e>)
        ensures
            damage@ == (DamageView { power: self@, effectiveness: Some(effectiveness@) }),
    {
        Damage { power: self, effectiveness: Some(effectiveness) }
    }
}

/// A move that strikes.
pub struct AttackMoveView {
    pub inner: MoveInnerView,
    pub accuracy: Option<int>,
    pub power: int,
}

/// A move that strikes: its chance to hit, if it can miss at all, and its magnitude.
#[derive(Clone, Copy, Debug)]
pub struct AttackMove {
    inner: MoveInner,
    accuracy: Option<BoundedPercentage<u8>>,
    power: Power,
}

impl View for AttackMove {
    type V = AttackMoveView;

    closed spec fn view(&self) -> AttackMoveView {
        AttackMoveView {
            inner: self.inner@,
            accuracy: match self.accuracy {
                Some(accuracy) => Some(accuracy@ as int),
                None => None,
            },
            power: self.power@,
        }
    }
}

impl AttackMove {
    pub fn new(inner: MoveInner, accuracy: Option<BoundedPercentage<u8>>, power: Power) -> (attack:
        AttackMove)
        ensures
            attack@.inner == inner@,
            attack@.accuracy == match accuracy {
                Some(accuracy) => Some(accuracy@ as int),
                None => None,
            },
            attack@.power == power@,
    {
        AttackMove { inner, accuracy, power }
    }

    pub fn inner(&self) -> (inner: MoveInner)
        ensures
            inner@ == self@.inner,
    {
        self.inner
    }

    pub fn accuracy(&self) -> (accuracy: Option<BoundedPercentage<u8>>)
        ensures
            self@.accuracy == match accuracy {
                Some(accuracy) => Some(accuracy@ as int),
                None => None,
            },
    {
        self.accuracy
    }

    pub fn power(&self) -> (power: Power)
        ensures
            power@ == self@.power,
    {
        self.power
    }

    /// Whether the move is of a type that the user of typing `typing` has itself.
    pub fn is_stab_for_type(&self, typing: &Typing) -> (stab: bool)
        ensures
            stab == typing.includes(self@.inner.base_type),
    {
        match typing {
            Typing::Single(only) => *only == self.inner.base_type,
            Typing::Mixed { primary, secondary } => self.inner.base_type == *primary
                || self.inner.base_type == *secondary,
        }
    }

    /// The health that the move takes at the multiplier `effectiveness`.
    pub fn damage_at_effectiveness(&self, effectiveness: &Percentage<Hundredths>) -> (health:
        Health)
        ensures
            health@ == damage_dealt(effectiveness@, self@.power),
    {
        self.power.into_damage_at(effectiveness).calculate()
    }
}

/// A move that does something other than strike.
pub struct EffectMoveView {
    pub inner: MoveInnerView,
}

/// A move that does something other than strike.
#[derive(Clone, Copy, Debug)]
pub struct EffectMove {
    inner: MoveInner,
}

impl View for EffectMove {
    type V = EffectMoveView;

    closed spec fn view(&self) -> EffectMoveView {
        EffectMoveView { inner: self.inner@ }
    }
}

impl EffectMove {
    pub fn new(inner: MoveInner) -> (effect: EffectMove)
        ensures
            effect@.inner == inner@,
    {
        EffectMove { inner }
    }

    pub fn inner(&self) -> (inner: MoveInner)
        ensures
            inner@ == self@.inner,
    {
        self.inner
    }
}

/// A move as a plain value.
pub enum MoveView {
    Attack(AttackMoveView),
    Effect(EffectMoveView),
}

/// A move that a combatant knows.
#[derive(Clone, Copy, Debug)]
pub enum Move {
    Attack(AttackMove),
    Effect(EffectMove),
}

impl View for Move {
    type V = MoveView;

    open spec fn view(&self) -> MoveView {
        match self {
            Move::Attack(attack) => MoveView::Attack(attack@),
            Move::Effect(effect) => MoveView::Effect(effect@),
        }
    }
}

/// How one attack ended, as a plain value.
pub enum AttackOutcomeView {
    Missed,
    DidNotAffect,
    Hit(int),
}

/// How one attack ended.
#[derive(Clone, Copy, Debug, PartialEq, Eq)]
pub enum AttackOutcome {
    Missed,
    DidNotAffect,
    Hit(Health),
}

impl View for AttackOutcome {
    type V = AttackOutcomeView;

    open spec fn view(&self) -> AttackOutcomeView {
        match self {
            AttackOutcome::Missed => AttackOutcomeView::Missed,
            AttackOutcome::DidNotAffect => AttackOutcomeView::DidNotAffect,
            AttackOutcome::Hit(damage) => AttackOutcomeView::Hit(damage@),
        }
    }
}

/// Hundredths by which a move of the user's own type is scaled.
pub const SAME_TYPE_BONUS: i32 = 200;

/// Whether a move of accuracy `accuracy` misses on the roll `roll`: a move
/// without an accuracy never does, another one unless the roll lies below it.
pub open spec fn misses(accuracy: Option<int>, roll: int) -> bool {
    accuracy matches Some(threshold) && roll >= threshold
}

/// How an attack that does not miss ends: without effect where the attacker's
/// typing cannot affect the defender's, else with the damage of the move's power
/// at the resolved multiplier, doubled where the move is of the attacker's own type.
pub open spec fn outcome_of_hit(
    attacker: Typing,
    attack: AttackMoveView,
    defender: Typing,
) -> AttackOutcomeView {
    match attacker.effectiveness_against(defender) {
        None => AttackOutcomeView::DidNotAffect,
        Some(effectiveness) => AttackOutcomeView::Hit(
            damage_dealt(
                if attacker.includes(attack.inner.base_type) {
                    2 * effectiveness
                } else {
                    effectiveness
                },
                attack.power,
            ),
        ),
    }
}

/// How an attack ends on the roll `roll`.
pub open spec fn outcome_of_attack(
    attacker: Typing,
    attack: AttackMoveView,
    defender: Typing,
    roll: int,
) -> AttackOutcomeView {
    if misses(attack.accuracy, roll) {
        AttackOutcomeView::Missed
    } else {
        outcome_of_hit(attacker, attack, defender)
    }
}

/// A combatant as a plain value.
pub struct PokemonView {
    pub name: Seq<char>,
    pub typing: Typing,
    pub stats: StatsView,
    pub known_moves: Seq<MoveView>,
}

/// A combatant: its name, its typing, its figures and the moves it knows.
#[derive(Clone, Copy, Debug)]
pub struct Pokemon {
    name: &'static str,
    typing: Typing,
    stats: Stats,
    known_moves: [Move; 4],
}

impl View for Pokemon {
    type V = PokemonView;

    closed spec fn view(&self) -> PokemonView {
        PokemonView {
            name: self.name@,
            typing: self.typing,
            stats: self.stats@,
            known_moves: self.known_moves@.map_values(|known: Move| known@),
        }
    }
}

/// One byte from the thread's random number generator, by `rand::random`.
/// Any byte can come back, so nothing is claimed of the result. The generator
/// seeds itself from the operating system and panics where that fails.
#[verifier::external_body]
fn random_roll() -> u8 {
    rand::random()
}

impl Pokemon {
    pub fn new(name: &'static str, typing: Typing, stats: Stats, known_moves: [Move; 4]) -> (pokemon:
        Pokemon)
        ensures
            pokemon@ == (PokemonView {
                name: name@,
                typing,
                stats: stats@,
                known_moves: known_moves@.map_values(|known: Move| known@),
            }),
    {
        Pokemon { name, typing, stats, known_moves }
    }

    pub fn name(&self) -> (name: &'static str)
        ensures
            name@ == self@.name,
    {
        self.name
    }

    pub fn typing(&self) -> (typing: Typing)
        ensures
            typing == self@.typing,
    {
        self.typing
    }

    pub fn stats(&self) -> (stats: Stats)
        ensures
            stats@ == self@.stats,
    {
        self.stats
    }

    pub fn known_moves(&self) -> (known_moves: [Move; 4])
        ensures
            known_moves@.map_values(|known: Move| known@) == self@.known_moves,
    {
        self.known_moves
    }

    /// Whether the combatant is due to rise a level: its experience stands exactly
    /// at the next mark and its level is not yet the highest.
    pub fn can_level_up(&self) -> (can: bool)
        ensures
            can == (self@.stats.level < HIGHEST_LEVEL && self@.stats.experience.value
                == self@.stats.experience.threshold.next),
    {
        self.stats.lvl.not_at_max() && self.stats.exp.is_at_next_threshold()
    }

    /// Applies the outcome of an attack: a hit takes its damage off the health,
    /// which stops at zero; a miss or an attack without effect changes nothing.
    pub fn defend_against(&mut self, attack: &AttackOutcome)
        ensures
            final(self)@ == (PokemonView {
                stats: StatsView {
                    health: match attack@ {
                        AttackOutcomeView::Hit(damage) => Health::remaining_after(
                            old(self)@.stats.health,
                            damage,
                        ),
                        _ => old(self)@.stats.health,
                    },
                    ..old(self)@.stats
                },
                ..old(self)@
            }),
            0 <= final(self)@.stats.health <= old(self)@.stats.health,
    {
        match attack {
            AttackOutcome::Missed => {},
            AttackOutcome::DidNotAffect => {},
            AttackOutcome::Hit(damage) => {
                self.stats.hp = self.stats.hp.reduced_by(damage);
            },
        }
    }

    /// Resolves an attack on a given accuracy roll. Changes neither combatant.
    pub fn damage_on_roll(&self, attack: &AttackMove, other: &Pokemon, roll: u8) -> (outcome:
        AttackOutcome)
        ensures
            outcome@ == outcome_of_attack(self@.typing, attack@, other@.typing, roll as int),
    {
        if let Some(accuracy) = attack.accuracy.as_ref() {
            if *accuracy <= roll {
                return AttackOutcome::Missed;
            }
        }
        let TypeMatchup::Affected(effectiveness) = self.typing.attacking_effectiveness(
            &other.typing,
        ) else {
            return AttackOutcome::DidNotAffect;
        };
        let effectiveness = if attack.is_stab_for_type(&self.typing) {
            Hundredths(SAME_TYPE_BONUS).into_percentage() * effectiveness
        } else {
            effectiveness
        };
        let damage_done = attack.power.into_damage_at(&effectiveness).calculate();
        AttackOutcome::Hit(damage_done)
    }

    /// Resolves an attack, drawing the accuracy roll where the move can miss, and
    /// only there. Changes neither combatant and uses up no move.
    pub fn damage_on_attack(&self, attack: &AttackMove, other: &Pokemon) -> (outcome: AttackOutcome)
        ensures
            exists|roll: u8|
                outcome@ == #[trigger] outcome_of_attack(
                    self@.typing,
                    attack@,
                    other@.typing,
                    roll as int,
                ),
            outcome@ is Missed || outcome@ == outcome_of_hit(self@.typing, attack@, other@.typing),
            outcome@ is Missed ==> attack@.accuracy is Some,
            attack@.accuracy == Some(0int) ==> outcome@ is Missed,
    {
        let roll: u8 = if attack.accuracy.is_some() {
            random_roll()
        } else {
            0
        };
        self.damage_on_roll(attack, other, roll)
    }
}

/// A hit leaves a health between zero and what it was.
pub proof fn lemma_health_stops_at_zero(health: int, damage: int)
    requires
        0 <= health,
        0 <= damage,
    ensures
        0 <= Health::remaining_after(health, damage) <= health,
        damage >= health ==> Health::remaining_after(health, damage) == 0,
{
}

/// Two hits in a row leave what one hit of their sum leaves.
pub proof fn lemma_hits_accumulate(health: int, first: int, second: int)
    requires
        0 <= health,
        0 <= first,
        0 <= second,
    ensures
        Health::remaining_after(Health::remaining_after(health, first), second)
            == Health::remaining_after(health, first + second),
{
}

/// At a neutral multiplier an attack takes exactly its power.
pub proof fn lemma_neutral_damage_is_power(power: int)
    requires
        0 <= power <= u8::MAX,
    ensures
        damage_dealt(100, power) == power,
{
}

/// Damage grows with the multiplier and never leaves the range of a health.
pub proof fn lemma_damage_is_monotonic(lower: int, higher: int, power: int)
    requires
        lower <= higher,
        0 <= power,
    ensures
        0 <= damage_dealt(lower, power) <= damage_dealt(higher, power) <= u16::MAX,
{
    assert(lower * power <= higher * power) by (nonlinear_arith)
        requires
            lower <= higher,
            0 <= power,
    ;
}

/// A move of accuracy zero misses on every roll.
pub proof fn lemma_zero_accuracy_always_misses(
    attacker: Typing,
    attack: AttackMoveView,
    defender: Typing,
    roll: int,
)
    requires
        attack.accuracy == Some(0int),
        0 <= roll,
    ensures
        outcome_of_attack(attacker, attack, defender, roll) is Missed,
{
}

/// A move without an accuracy never misses.
pub proof fn lemma_sure_move_never_misses(
    attacker: Typing,
    attack: AttackMoveView,
    defender: Typing,
    roll: int,
)
    requires
        attack.accuracy is None,
    ensures
        outcome_of_attack(attacker, attack, defender, roll) == outcome_of_hit(
            attacker,
            attack,
            defender,
        ),
{
}

/// Where the attacker's typing cannot affect the defender's, an attack that
/// does not miss ends without effect, whatever the move and its power.
pub proof fn lemma_no_effect_whatever_the_power(
    attacker: Typing,
    attack: AttackMoveView,
    defender: Typing,
)
    requires
        attacker.effectiveness_against(defender) is None,
    ensures
        outcome_of_hit(attacker, attack, defender) is DidNotAffect,
{
}

} // verus!

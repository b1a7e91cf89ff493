//! Character creation: classes, races, stats, and the derivation of a
//! character's stat vector from the fixed bonus tables.
//!
//! The principal type of this module is [`Character`]. Its stat vector is
//! composed from three parts: a class bonus table, a race bonus table, and two
//! `+1` bonuses chosen by the player (which may target the same stat twice,
//! stacking to `+2`).

use vstd::prelude::*;

use crate::text::str_eq;

verus! {

/// All the different stats a character has.
#[derive(Debug, Clone, Copy, PartialEq, Eq, Hash, Structural)]
pub enum Stat {
    /// Wits and guile.
    Cunning,
    /// Agility and evasiveness.
    Slipperiness,
    /// Raw size and strength.
    Bulk,
    /// Grit and resolve.
    Backbone,
    /// Attunement to the unseen.
    TheSight,
}

/// A class: the character's trade.
#[derive(Debug, Clone, Copy, PartialEq, Eq, Hash, Structural)]
pub enum Class {
    /// A seer dealing in omens.
    Soothsayer,
    /// A tracker of the swamp's game.
    Hunter,
    /// A burglar of forbidden places.
    Trespasser,
    /// A keeper of old boundaries.
    Warden,
    /// A living wall.
    Bastion,
}

/// A race: the character's folk.
#[derive(Debug, Clone, Copy, PartialEq, Eq, Hash, Structural)]
pub enum Race {
    /// Scaled folk of the waterways.
    AlligatorFolk,
    /// Chitinous fae.
    InsectoidFae,
    /// Small and crafty fae.
    GoblinoidFae,
}

/// The mathematical model of a stat vector: one unbounded integer per stat.
///
/// Contracts in this module speak of values of this type; [`StatValues`] is
/// the executable vector whose view ([`StatValues::view`]) is a `StatsModel`.
pub ghost struct StatsModel {
    pub cunning: int,
    pub slipperiness: int,
    pub bulk: int,
    pub backbone: int,
    pub the_sight: int,
}

impl StatsModel {
    /// The entry of this model named by `stat`.
    pub open spec fn stat(self, stat: Stat) -> int {
        match stat {
            Stat::Cunning => self.cunning,
            Stat::Slipperiness => self.slipperiness,
            Stat::Bulk => self.bulk,
            Stat::Backbone => self.backbone,
            Stat::TheSight => self.the_sight,
        }
    }

    /// Pointwise sum of two models.
    pub open spec fn plus(self, other: Self) -> Self {
        StatsModel {
            cunning: self.cunning + other.cunning,
            slipperiness: self.slipperiness + other.slipperiness,
            bulk: self.bulk + other.bulk,
            backbone: self.backbone + other.backbone,
            the_sight: self.the_sight + other.the_sight,
        }
    }

    /// This model with `amount` added to the single entry named by `stat`,
    /// all other entries unchanged.
    pub open spec fn with_bonus(self, stat: Stat, amount: int) -> Self {
        match stat {
            Stat::Cunning => StatsModel { cunning: self.cunning + amount, ..self },
            Stat::Slipperiness => StatsModel { slipperiness: self.slipperiness + amount, ..self },
            Stat::Bulk => StatsModel { bulk: self.bulk + amount, ..self },
            Stat::Backbone => StatsModel { backbone: self.backbone + amount, ..self },
            Stat::TheSight => StatsModel { the_sight: self.the_sight + amount, ..self },
        }
    }

    /// Every entry of this model fits in an `isize`.
    pub open spec fn fits_isize(self) -> bool {
        &&& isize::MIN <= self.cunning <= isize::MAX
        &&& isize::MIN <= self.slipperiness <= isize::MAX
        &&& isize::MIN <= self.bulk <= isize::MAX
        &&& isize::MIN <= self.backbone <= isize::MAX
        &&& isize::MIN <= self.the_sight <= isize::MAX
    }
}

/// The all-zero stat model.
pub open spec fn stats_zero() -> StatsModel {
    StatsModel { cunning: 0, slipperiness: 0, bulk: 0, backbone: 0, the_sight: 0 }
}

/// The fixed bonus table of each class.
pub open spec fn class_bonus(class: Class) -> StatsModel {
    match class {
        Class::Soothsayer => StatsModel {
            cunning: 3,
            slipperiness: 3,
            bulk: 0,
            backbone: 1,
            the_sight: 5,
        },
        Class::Hunter => StatsModel {
            cunning: 3,
            slipperiness: 1,
            bulk: 3,
            backbone: 5,
            the_sight: 0,
        },
        Class::Trespasser => StatsModel {
            cunning: 3,
            slipperiness: 5,
            bulk: 0,
            backbone: 3,
            the_sight: 1,
        },
        Class::Warden => StatsModel {
            cunning: 5,
            slipperiness: 1,
            bulk: 0,
            backbone: 3,
            the_sight: 3,
        },
        Class::Bastion => StatsModel {
            cunning: 3,
            slipperiness: 1,
            bulk: 5,
            backbone: 3,
            the_sight: 0,
        },
    }
}

/// The fixed bonus table of each race.
pub open spec fn race_bonus(race: Race) -> StatsModel {
    match race {
        Race::AlligatorFolk => StatsModel {
            cunning: 0,
            slipperiness: 0,
            bulk: 1,
            backbone: 1,
            the_sight: 0,
        },
        Race::InsectoidFae => StatsModel {
            cunning: 1,
            slipperiness: 0,
            bulk: 0,
            backbone: 0,
            the_sight: 1,
        },
        Race::GoblinoidFae => StatsModel {
            cunning: 1,
            slipperiness: 1,
            bulk: 0,
            backbone: 0,
            the_sight: 0,
        },
    }
}

/// The base stat vector of a class/race pair: the pointwise sum of the two
/// bonus tables.
pub open spec fn base_stats(class: Class, race: Race) -> StatsModel {
    class_bonus(class).plus(race_bonus(race))
}

/// The stat values of a given [`Character`].
#[derive(Debug, Clone, PartialEq, Eq, Hash, Structural)]
pub struct StatValues {
    pub cunning: isize,
    pub slipperiness: isize,
    pub bulk: isize,
    pub backbone: isize,
    pub the_sight: isize,
}

impl View for StatValues {
    type V = StatsModel;

    open spec fn view(&self) -> StatsModel {
        StatsModel {
            cunning: self.cunning as int,
            slipperiness: self.slipperiness as int,
            bulk: self.bulk as int,
            backbone: self.backbone as int,
            the_sight: self.the_sight as int,
        }
    }
}

impl Default for StatValues {
    /// The all-zero stat vector.
    fn default() -> (r: Self)
        ensures
            r@ == stats_zero(),
    {
        StatValues { cunning: 0, slipperiness: 0, bulk: 0, backbone: 0, the_sight: 0 }
    }
}

impl StatValues {
    /// Create [`StatValues`] based on the chosen [`Race`] and [`Class`]: the
    /// pointwise sum of the two fixed bonus tables.
    pub fn from(chosen_class: Class, chosen_race: Race) -> (r: Self)
        ensures
            r@ == base_stats(chosen_class, chosen_race),
    {
        let mut values = Self::default();

        values.add_class_bonus(chosen_class);
        values.add_race_bonus(chosen_race);

        values
    }

    /// Pointwise sum of two stat vectors.
    pub fn plus(&self, other: &StatValues) -> (r: StatValues)
        requires
            self@.plus(other@).fits_isize(),
        ensures
            r@ == self@.plus(other@),
    {
        StatValues {
            cunning: self.cunning + other.cunning,
            slipperiness: self.slipperiness + other.slipperiness,
            bulk: self.bulk + other.bulk,
            backbone: self.backbone + other.backbone,
            the_sight: self.the_sight + other.the_sight,
        }
    }

    /// Add `value` to the single entry named by `stat`, leaving every other
    /// entry unchanged.
    pub fn add_to_stat(&mut self, stat: Stat, value: isize)
        requires
            isize::MIN <= old(self)@.stat(stat) + value <= isize::MAX,
        ensures
            final(self)@ == old(self)@.with_bonus(stat, value as int),
    {
        match stat {
            Stat::Cunning => self.cunning = self.cunning + value,
            Stat::Slipperiness => self.slipperiness = self.slipperiness + value,
            Stat::Bulk => self.bulk = self.bulk + value,
            Stat::Backbone => self.backbone = self.backbone + value,
            Stat::TheSight => self.the_sight = self.the_sight + value,
        }
    }

    /// Add the fixed bonus table of `class` to this vector.
    pub fn add_class_bonus(&mut self, class: Class)
        requires
            old(self)@.plus(class_bonus(class)).fits_isize(),
        ensures
            final(self)@ == old(self)@.plus(class_bonus(class)),
    {
        let bonus = match class {
            Class::Soothsayer => StatValues {
                cunning: 3,
                slipperiness: 3,
                bulk: 0,
                backbone: 1,
                the_sight: 5,
            },
            Class::Hunter => StatValues {
                cunning: 3,
                slipperiness: 1,
                bulk: 3,
                backbone: 5,
                the_sight: 0,
            },
            Class::Trespasser => StatValues {
                cunning: 3,
                slipperiness: 5,
                bulk: 0,
                backbone: 3,
                the_sight: 1,
            },
            Class::Warden => StatValues {
                cunning: 5,
                slipperiness: 1,
                bulk: 0,
                backbone: 3,
                the_sight: 3,
            },
            Class::Bastion => StatValues {
                cunning: 3,
                slipperiness: 1,
                bulk: 5,
                backbone: 3,
                the_sight: 0,
            },
        };
        *self = self.plus(&bonus);
    }

    /// Add the fixed bonus table of `race` to this vector.
    pub fn add_race_bonus(&mut self, race: Race)
        requires
            old(self)@.plus(race_bonus(race)).fits_isize(),
        ensures
            final(self)@ == old(self)@.plus(race_bonus(race)),
    {
        let bonus = match race {
            Race::AlligatorFolk => StatValues {
                cunning: 0,
                slipperiness: 0,
                bulk: 1,
                backbone: 1,
                the_sight: 0,
            },
            Race::InsectoidFae => StatValues {
                cunning: 1,
                slipperiness: 0,
                bulk: 0,
                backbone: 0,
                the_sight: 1,
            },
            Race::GoblinoidFae => StatValues {
                cunning: 1,
                slipperiness: 1,
                bulk: 0,
                backbone: 0,
                the_sight: 0,
            },
        };
        *self = self.plus(&bonus);
    }
}

/// Error: a label named no variant of the enum it was looked up in.
#[derive(Debug, Clone, Copy, PartialEq, Eq, Structural)]
pub struct UnrecognizedValueError;

/// The class named by a lowercase-with-underscores label, if any.
pub open spec fn class_for_label(label: Seq<char>) -> Option<Class> {
    if label == "soothsayer"@ {
        Some(Class::Soothsayer)
    } else if label == "hunter"@ {
        Some(Class::Hunter)
    } else if label == "trespasser"@ {
        Some(Class::Trespasser)
    } else if label == "warden"@ {
        Some(Class::Warden)
    } else if label == "bastion"@ {
        Some(Class::Bastion)
    } else {
        None
    }
}

/// The race named by a lowercase-with-underscores label, if any.
pub open spec fn race_for_label(label: Seq<char>) -> Option<Race> {
    if label == "alligator_folk"@ {
        Some(Race::AlligatorFolk)
    } else if label == "insectoid_fae"@ {
        Some(Race::InsectoidFae)
    } else if label == "goblinoid_fae"@ {
        Some(Race::GoblinoidFae)
    } else {
        None
    }
}

/// The stat named by a lowercase-with-underscores label, if any.
pub open spec fn stat_for_label(label: Seq<char>) -> Option<Stat> {
    if label == "cunning"@ {
        Some(Stat::Cunning)
    } else if label == "slipperiness"@ {
        Some(Stat::Slipperiness)
    } else if label == "bulk"@ {
        Some(Stat::Bulk)
    } else if label == "backbone"@ {
        Some(Stat::Backbone)
    } else if label == "the_sight"@ {
        Some(Stat::TheSight)
    } else {
        None
    }
}

/// The display name of each class.
pub open spec fn class_display_name(class: Class) -> Seq<char> {
    match class {
        Class::Soothsayer => "Soothsayer"@,
        Class::Bastion => "Bastion"@,
        Class::Trespasser => "Tresspasser"@,
        Class::Warden => "Warden"@,
        Class::Hunter => "Hunter"@,
    }
}

/// The display name of each race.
pub open spec fn race_display_name(race: Race) -> Seq<char> {
    match race {
        Race::InsectoidFae => "Insectoid Fae"@,
        Race::GoblinoidFae => "Goblinoid Fae"@,
        Race::AlligatorFolk => "Alligator Folk"@,
    }
}

/// The display name of each stat.
pub open spec fn stat_display_name(stat: Stat) -> Seq<char> {
    match stat {
        Stat::TheSight => "The Sight"@,
        Stat::Backbone => "Backbone"@,
        Stat::Bulk => "Bulk"@,
        Stat::Cunning => "Cunning"@,
        Stat::Slipperiness => "Slipperiness"@,
    }
}

impl Class {
    /// Look a class up by its fixed lowercase-with-underscores label.
    pub fn from_label(label: &str) -> (r: Result<Class, UnrecognizedValueError>)
        ensures
            r matches Ok(c) ==> class_for_label(label@) == Some(c),
            r is Err <==> class_for_label(label@) is None,
    {
        if str_eq(label, "soothsayer") {
            Ok(Class::Soothsayer)
        } else if str_eq(label, "hunter") {
            Ok(Class::Hunter)
        } else if str_eq(label, "trespasser") {
            Ok(Class::Trespasser)
        } else if str_eq(label, "warden") {
            Ok(Class::Warden)
        } else if str_eq(label, "bastion") {
            Ok(Class::Bastion)
        } else {
            Err(UnrecognizedValueError)
        }
    }

    /// The display name of this class.
    pub fn display_name(&self) -> (r: String)
        ensures
            r@ == class_display_name(*self),
    {
        match self {
            Class::Soothsayer => "Soothsayer".to_owned(),
            Class::Bastion => "Bastion".to_owned(),
            Class::Trespasser => "Tresspasser".to_owned(),
            Class::Warden => "Warden".to_owned(),
            Class::Hunter => "Hunter".to_owned(),
        }
    }
}

impl Race {
    /// Look a race up by its fixed lowercase-with-underscores label.
    pub fn from_label(label: &str) -> (r: Result<Race, UnrecognizedValueError>)
        ensures
            r matches Ok(c) ==> race_for_label(label@) == Some(c),
            r is Err <==> race_for_label(label@) is None,
    {
        if str_eq(label, "alligator_folk") {
            Ok(Race::AlligatorFolk)
        } else if str_eq(label, "insectoid_fae") {
            Ok(Race::InsectoidFae)
        } else if str_eq(label, "goblinoid_fae") {
            Ok(Race::GoblinoidFae)
        } else {
            Err(UnrecognizedValueError)
        }
    }

    /// The display name of this race.
    pub fn display_name(&self) -> (r: String)
        ensures
            r@ == race_display_name(*self),
    {
        match self {
            Race::InsectoidFae => "Insectoid Fae".to_owned(),
            Race::GoblinoidFae => "Goblinoid Fae".to_owned(),
            Race::AlligatorFolk => "Alligator Folk".to_owned(),
        }
    }
}

impl Stat {
    /// Look a stat up by its fixed lowercase-with-underscores label.
    pub fn from_label(label: &str) -> (r: Result<Stat, UnrecognizedValueError>)
        ensures
            r matches Ok(c) ==> stat_for_label(label@) == Some(c),
            r is Err <==> stat_for_label(label@) is None,
    {
        if str_eq(label, "cunning") {
            Ok(Stat::Cunning)
        } else if str_eq(label, "slipperiness") {
            Ok(Stat::Slipperiness)
        } else if str_eq(label, "bulk") {
            Ok(Stat::Bulk)
        } else if str_eq(label, "backbone") {
            Ok(Stat::Backbone)
        } else if str_eq(label, "the_sight") {
            Ok(Stat::TheSight)
        } else {
            Err(UnrecognizedValueError)
        }
    }

    /// The display name of this stat.
    pub fn display_name(&self) -> (r: String)
        ensures
            r@ == stat_display_name(*self),
    {
        match self {
            Stat::TheSight => "The Sight".to_owned(),
            Stat::Backbone => "Backbone".to_owned(),
            Stat::Bulk => "Bulk".to_owned(),
            Stat::Cunning => "Cunning".to_owned(),
            Stat::Slipperiness => "Slipperiness".to_owned(),
        }
    }
}

/// Error: the character name was empty.
#[derive(Debug, Clone, Copy, PartialEq, Eq, Structural)]
pub struct ValidationError;

/// A character.
#[derive(Debug, Clone, PartialEq, Eq)]
pub struct Character {
    pub name: String,
    pub class: Class,
    pub race: Race,
    pub stats: StatValues,
}

impl Character {
    /// Create a new character.
    ///
    /// The final stat vector is the class/race base vector with a `+1` bonus
    /// applied for each of the two chosen stats; choosing the same stat twice
    /// stacks to `+2`. An empty name is rejected with a [`ValidationError`].
    pub fn new(
        chosen_name: &str,
        chosen_class: Class,
        chosen_race: Race,
        bonus_stat_1: Stat,
        bonus_stat_2: Stat,
    ) -> (r: Result<Self, ValidationError>)
        ensures
            r is Ok <==> chosen_name@.len() > 0,
            r matches Ok(c) ==> {
                &&& c.name@ == chosen_name@
                &&& c.class == chosen_class
                &&& c.race == chosen_race
                &&& c.stats@ == base_stats(chosen_class, chosen_race)
                    .with_bonus(bonus_stat_1, 1)
                    .with_bonus(bonus_stat_2, 1)
            },
    {
        if chosen_name.unicode_len() == 0 {
            return Err(ValidationError);
        }
        let mut stats = StatValues::from(chosen_class, chosen_race);
        stats.add_to_stat(bonus_stat_1, 1);
        stats.add_to_stat(bonus_stat_2, 1);

        Ok(Self {
            name: chosen_name.to_owned(),
            class: chosen_class,
            race: chosen_race,
            stats,
        })
    }
}

/// Law: base stat derivation is a pure function of class and race — any two
/// stat vectors derived from the same pair are equal.
pub proof fn lemma_base_stats_deterministic(a: StatValues, b: StatValues, class: Class, race: Race)
    requires
        a@ == base_stats(class, race),
        b@ == base_stats(class, race),
    ensures
        a == b,
{
}

/// Law: two bonus applications commute — the order in which the player's two
/// bonus picks are applied does not change the final stat vector.
pub proof fn lemma_bonus_order_irrelevant(
    m: StatsModel,
    stat_a: Stat,
    stat_b: Stat,
    amount_a: int,
    amount_b: int,
)
    ensures
        m.with_bonus(stat_a, amount_a).with_bonus(stat_b, amount_b) == m.with_bonus(
            stat_b,
            amount_b,
        ).with_bonus(stat_a, amount_a),
{
}

/// Law: bonus application is additive — two bonuses to the same stat stack to
/// their sum.
pub proof fn lemma_bonus_additive(m: StatsModel, stat: Stat, amount_1: int, amount_2: int)
    ensures
        m.with_bonus(stat, amount_1).with_bonus(stat, amount_2) == m.with_bonus(
            stat,
            amount_1 + amount_2,
        ),
{
}

} // verus!

use swampqueen_core::character::Character;
use swampqueen_core::character::Class;
use swampqueen_core::character::Race;
use swampqueen_core::character::Stat;
use swampqueen_core::character::StatValues;
use swampqueen_core::character::UnrecognizedValueError;
use swampqueen_core::character::ValidationError;

#[test]
fn add_class_race_stats() {
    let stats = StatValues::from(Class::Bastion, Race::InsectoidFae);
    assert_eq!(
        stats,
        StatValues {
            cunning: 4,
            slipperiness: 1,
            backbone: 3,
            bulk: 5,
            the_sight: 1,
        }
    );
}

#[test]
fn zero_in_stat() {
    let stats = StatValues::from(Class::Soothsayer, Race::GoblinoidFae);
    assert_eq!(
        stats,
        StatValues {
            cunning: 4,
            slipperiness: 4,
            backbone: 1,
            bulk: 0,
            the_sight: 5,
        }
    );
}

#[test]
fn add_to_stats() {
    let character = Character::new(
        "Mr. Test",
        Class::Bastion,
        Race::InsectoidFae,
        Stat::Slipperiness,
        Stat::Bulk,
    )
    .unwrap();
    let expected = StatValues {
        cunning: 4,
        slipperiness: 2,
        backbone: 3,
        bulk: 6,
        the_sight: 1,
    };

    assert_eq!(character.stats, expected);
}

#[test]
fn add_to_same_stat_twice() {
    let character = Character::new(
        "Mistah Beefcake",
        Class::Bastion,
        Race::InsectoidFae,
        Stat::Bulk,
        Stat::Bulk,
    )
    .unwrap();
    let expected = StatValues {
        cunning: 4,
        slipperiness: 1,
        backbone: 3,
        bulk: 7,
        the_sight: 1,
    };

    assert_eq!(character.stats, expected);
}

#[test]
fn empty_name_is_rejected() {
    let r = Character::new(
        "",
        Class::Hunter,
        Race::AlligatorFolk,
        Stat::Cunning,
        Stat::Backbone,
    );
    assert_eq!(r.unwrap_err(), ValidationError);
}

#[test]
fn derive_base_stats_is_pure() {
    let classes = [
        Class::Soothsayer,
        Class::Hunter,
        Class::Trespasser,
        Class::Warden,
        Class::Bastion,
    ];
    let races = [Race::AlligatorFolk, Race::InsectoidFae, Race::GoblinoidFae];
    for class in classes {
        for race in races {
            let a = StatValues::from(class, race);
            let b = StatValues::from(class, race);
            assert_eq!(a, b);
        }
    }
}

#[test]
fn bonus_order_is_irrelevant() {
    let mut one_way = StatValues::from(Class::Warden, Race::GoblinoidFae);
    one_way.add_to_stat(Stat::Cunning, 1);
    one_way.add_to_stat(Stat::TheSight, 1);

    let mut other_way = StatValues::from(Class::Warden, Race::GoblinoidFae);
    other_way.add_to_stat(Stat::TheSight, 1);
    other_way.add_to_stat(Stat::Cunning, 1);

    assert_eq!(one_way, other_way);
}

#[test]
fn bonuses_stack_additively() {
    let mut twice = StatValues::from(Class::Hunter, Race::InsectoidFae);
    twice.add_to_stat(Stat::Bulk, 1);
    twice.add_to_stat(Stat::Bulk, 1);

    let mut once = StatValues::from(Class::Hunter, Race::InsectoidFae);
    once.add_to_stat(Stat::Bulk, 2);

    assert_eq!(twice, once);
}

#[test]
fn pointwise_sum() {
    let a = StatValues {
        cunning: 1,
        slipperiness: 2,
        bulk: 3,
        backbone: 4,
        the_sight: 5,
    };
    let b = StatValues {
        cunning: 10,
        slipperiness: 20,
        bulk: -3,
        backbone: 0,
        the_sight: 1,
    };
    let expected = StatValues {
        cunning: 11,
        slipperiness: 22,
        bulk: 0,
        backbone: 4,
        the_sight: 6,
    };
    assert_eq!(a.plus(&b), expected);
}

#[test]
fn class_labels() {
    assert_eq!(Class::from_label("soothsayer").unwrap(), Class::Soothsayer);
    assert_eq!(Class::from_label("hunter").unwrap(), Class::Hunter);
    assert_eq!(Class::from_label("trespasser").unwrap(), Class::Trespasser);
    assert_eq!(Class::from_label("warden").unwrap(), Class::Warden);
    assert_eq!(Class::from_label("bastion").unwrap(), Class::Bastion);
    assert_eq!(Class::from_label("Bastion").unwrap_err(), UnrecognizedValueError);
    assert_eq!(Class::from_label("paladin").unwrap_err(), UnrecognizedValueError);
}

#[test]
fn race_labels() {
    assert_eq!(Race::from_label("alligator_folk").unwrap(), Race::AlligatorFolk);
    assert_eq!(Race::from_label("insectoid_fae").unwrap(), Race::InsectoidFae);
    assert_eq!(Race::from_label("goblinoid_fae").unwrap(), Race::GoblinoidFae);
    assert_eq!(Race::from_label("alligator folk").unwrap_err(), UnrecognizedValueError);
    assert_eq!(Race::from_label("").unwrap_err(), UnrecognizedValueError);
}

#[test]
fn stat_labels() {
    assert_eq!(Stat::from_label("cunning").unwrap(), Stat::Cunning);
    assert_eq!(Stat::from_label("slipperiness").unwrap(), Stat::Slipperiness);
    assert_eq!(Stat::from_label("bulk").unwrap(), Stat::Bulk);
    assert_eq!(Stat::from_label("backbone").unwrap(), Stat::Backbone);
    assert_eq!(Stat::from_label("the_sight").unwrap(), Stat::TheSight);
    assert_eq!(Stat::from_label("the sight").unwrap_err(), UnrecognizedValueError);
}

#[test]
fn display_names() {
    assert_eq!(Class::Trespasser.display_name(), "Tresspasser");
    assert_eq!(Class::Soothsayer.display_name(), "Soothsayer");
    assert_eq!(Race::InsectoidFae.display_name(), "Insectoid Fae");
    assert_eq!(Race::AlligatorFolk.display_name(), "Alligator Folk");
    assert_eq!(Stat::TheSight.display_name(), "The Sight");
    assert_eq!(Stat::Bulk.display_name(), "Bulk");
}

#[test]
fn character_keeps_choices() {
    let character = Character::new(
        "Grix",
        Class::Trespasser,
        Race::GoblinoidFae,
        Stat::Slipperiness,
        Stat::Cunning,
    )
    .unwrap();
    assert_eq!(character.name, "Grix");
    assert_eq!(character.class, Class::Trespasser);
    assert_eq!(character.race, Race::GoblinoidFae);
    assert_eq!(
        character.stats,
        StatValues {
            cunning: 5,
            slipperiness: 7,
            bulk: 0,
            backbone: 3,
            the_sight: 1,
        }
    );
}

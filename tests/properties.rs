use vitalis::weaver::properties::{Stat, ThreadProperties};

#[test]
fn thread_properties_default_sets_all_to_10() {
    let props = ThreadProperties::default();
    assert_eq!(props.strength, 10);
    assert_eq!(props.luck, 10);
}

#[test]
fn get_stat_returns_correct_value() {
    let props = ThreadProperties {
        strength: 15,
        dexterity: 12,
        ..Default::default()
    };
    assert_eq!(props.get_stat(Stat::Strength), 15);
    assert_eq!(props.get_stat(Stat::Dexterity), 12);
}

#[test]
fn new_sets_every_stat() {
    let props = ThreadProperties::new(7);
    for stat in [
        Stat::Strength,
        Stat::Dexterity,
        Stat::Constitution,
        Stat::Intelligence,
        Stat::Wisdom,
        Stat::Charisma,
        Stat::Connections,
        Stat::Resources,
        Stat::Reputation,
        Stat::Luck,
    ] {
        assert_eq!(props.get_stat(stat), 7);
    }
}

#[test]
fn get_stat_reads_each_field() {
    let props = ThreadProperties {
        strength: 1,
        dexterity: 2,
        constitution: 3,
        intelligence: 4,
        wisdom: 5,
        charisma: 6,
        connections: 7,
        resources: 8,
        reputation: 9,
        luck: 20,
    };
    assert_eq!(props.get_stat(Stat::Constitution), 3);
    assert_eq!(props.get_stat(Stat::Intelligence), 4);
    assert_eq!(props.get_stat(Stat::Wisdom), 5);
    assert_eq!(props.get_stat(Stat::Charisma), 6);
    assert_eq!(props.get_stat(Stat::Connections), 7);
    assert_eq!(props.get_stat(Stat::Resources), 8);
    assert_eq!(props.get_stat(Stat::Reputation), 9);
    assert_eq!(props.get_stat(Stat::Luck), 20);
}

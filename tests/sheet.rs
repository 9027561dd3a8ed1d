use character_sheet::character::{Character, Skill, Stat};
use character_sheet::config::{Config, ConfigError};
use character_sheet::sheet::MainApp;

fn skills() -> [Skill; 17] {
    std::array::from_fn(|i| Skill {
        has_proficiency: i % 5 == 2,
        stat: Stat::Wisdom,
        name: format!("Skill {}", i),
        bonus: i as i16 - 3,
    })
}

fn dandelion(current_hitpoints: i16) -> Character {
    Character::new(
        "Dandelion".to_string(),
        "Rock Gnome".to_string(),
        "Wizard".to_string(),
        3,
        current_hitpoints,
        17,
        vec![(Stat::Strength, 11), (Stat::Dexterity, 13)],
        14,
        3,
        0,
        25,
        skills(),
    )
}

#[test]
fn character_getters() {
    let c = dandelion(14);
    assert_eq!(c.get_name(), "Dandelion");
    assert_eq!(c.get_race(), "Rock Gnome");
    assert_eq!(c.get_class(), "Wizard");
    assert_eq!(*c.get_level(), 3);
    assert_eq!(*c.get_current_hitpoints(), 14);
    assert_eq!(*c.get_max_hitpoints(), 17);
    assert_eq!(*c.get_armor_class(), 14);
    assert_eq!(*c.get_initiative(), 3);
    assert_eq!(*c.get_proficiency_bonus(), 0);
    assert_eq!(*c.get_walking_speed_in_ft(), 25);
    assert_eq!(c.get_stats(), &[(Stat::Strength, 11), (Stat::Dexterity, 13)]);
    assert_eq!(c.get_skills().len(), 17);
    assert_eq!(c.get_skills()[4].name, "Skill 4");
    assert_eq!(c.get_skills()[16].bonus, 13);
}

#[test]
fn header_text_shows_identity() {
    let c = dandelion(14);
    let app = MainApp::new(&c).unwrap();
    let t = app.header_text();
    assert_eq!(t.name, "\nDandelion\n");
    assert_eq!(t.details, "Rock Gnome Wizard Lvl 3\n");
}

#[test]
fn stats_text_shows_numbers() {
    let c = dandelion(14);
    let app = MainApp::new(&c).unwrap();
    let t = app.stats_text();
    assert_eq!(t.armor_class, "14 | ");
    assert_eq!(t.initiative, "+3 | ");
    assert_eq!(t.proficiency_bonus, "+0 | ");
    assert_eq!(t.walking_speed, "25 ft");
}

#[test]
fn hitpoints_text_shows_current_and_max() {
    let c = dandelion(14);
    let app = MainApp::new(&c).unwrap();
    let t = app.hitpoints_text();
    assert_eq!(t.current, "14 ");
    assert_eq!(t.max, "17 \n");
    let down = dandelion(-5);
    let t = MainApp::new(&down).unwrap().hitpoints_text();
    assert_eq!(t.current, "-5 ");
    let worst = dandelion(i16::MIN);
    let t = MainApp::new(&worst).unwrap().hitpoints_text();
    assert_eq!(t.current, "-32768 ");
}

#[test]
fn large_numbers_keep_every_digit() {
    let c = Character::new(
        "A".to_string(),
        "B".to_string(),
        "C".to_string(),
        65535,
        0,
        10200,
        vec![],
        100,
        9,
        10,
        65535,
        skills(),
    );
    let app = MainApp::new(&c).unwrap();
    assert_eq!(app.header_text().details, "B C Lvl 65535\n");
    assert_eq!(app.hitpoints_text().current, "0 ");
    assert_eq!(app.hitpoints_text().max, "10200 \n");
    let s = app.stats_text();
    assert_eq!(s.armor_class, "100 | ");
    assert_eq!(s.initiative, "+9 | ");
    assert_eq!(s.proficiency_bonus, "+10 | ");
    assert_eq!(s.walking_speed, "65535 ft");
}

#[test]
fn config_takes_the_path_argument() {
    let args = vec!["sheet".to_string(), "Dandelion.json".to_string()];
    let config = Config::new(&args).unwrap();
    assert_eq!(config.character_filename, "Dandelion.json");
    let extra = vec!["sheet".to_string(), "a.json".to_string(), "b.json".to_string()];
    assert_eq!(Config::new(&extra).unwrap().character_filename, "a.json");
}

#[test]
fn config_without_path_is_refused() {
    let none: Vec<String> = vec![];
    assert_eq!(Config::new(&none).err(), Some(ConfigError::MissingCharacterFile));
    let only_program = vec!["sheet".to_string()];
    let err = Config::new(&only_program).err().unwrap();
    assert_eq!(err, ConfigError::MissingCharacterFile);
    assert_eq!(err.message(), "usage: character_sheet <character file>");
}

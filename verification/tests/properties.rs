use dnd_character_generator::CharacterGenerator;
use dnd_character_generator::Config;
use dnd_character_generator::ConfigError;
use dnd_character_generator::GenerationError;
use dnd_character_generator::SeededRng;

fn sample_config() -> Config {
    Config {
        races: vec!["Human".to_string(), "Elf".to_string()],
        classes: vec!["Fighter".to_string(), "Wizard".to_string()],
        wizard_archetypes: vec!["Necromancer".to_string(), "Pyromancer".to_string()],
    }
}

#[test]
fn validate_empty_races_fails_first() {
    let config = Config {
        races: vec![],
        classes: vec!["Fighter".to_string()],
        wizard_archetypes: vec!["Necromancer".to_string()],
    };
    assert_eq!(
        CharacterGenerator::validate_config(&config),
        Err(ConfigError::EmptyRaces)
    );
}

#[test]
fn validate_empty_classes() {
    let config = Config {
        races: vec!["Human".to_string()],
        classes: vec![],
        wizard_archetypes: vec!["Necromancer".to_string()],
    };
    assert_eq!(
        CharacterGenerator::validate_config(&config),
        Err(ConfigError::EmptyClasses)
    );
}

#[test]
fn validate_empty_archetypes() {
    let config = Config {
        races: vec!["Human".to_string()],
        classes: vec!["Fighter".to_string()],
        wizard_archetypes: vec![],
    };
    assert_eq!(
        CharacterGenerator::validate_config(&config),
        Err(ConfigError::EmptyArchetypes)
    );
}

#[test]
fn validate_accepts_non_empty_lists() {
    let config = sample_config();
    assert_eq!(CharacterGenerator::validate_config(&config), Ok(()));
}

#[test]
fn batch_count_bounds() {
    let generator = CharacterGenerator::from_config(sample_config());
    assert_eq!(
        generator.generate_characters(5, 0).unwrap_err(),
        GenerationError::CountTooLow
    );
    assert_eq!(
        generator.generate_characters(5, 101).unwrap_err(),
        GenerationError::CountTooHigh
    );
    assert_eq!(generator.generate_characters(5, 100).unwrap().len(), 100);
    assert_eq!(generator.generate_characters(5, 1).unwrap().len(), 1);
}

#[test]
fn batch_level_bounds() {
    let generator = CharacterGenerator::from_config(sample_config());
    assert_eq!(
        generator.generate_characters(0, 5).unwrap_err(),
        GenerationError::LevelOutOfRange
    );
    assert_eq!(
        generator.generate_characters(21, 5).unwrap_err(),
        GenerationError::LevelOutOfRange
    );
    assert_eq!(
        generator.generate_characters(11, 5).unwrap_err(),
        GenerationError::LevelOutOfRange
    );
}

#[test]
fn batch_of_five_matches_configuration() {
    let generator = CharacterGenerator::from_config(sample_config());
    let characters = generator.generate_characters(3, 5).unwrap();
    assert_eq!(characters.len(), 5);
    for character in &characters {
        assert_eq!(character.level, 3);
        assert!(character.race == "Human" || character.race == "Elf");
        assert!(
            character.class == "Fighter"
                || character.class == "Wizard (Necromancer)"
                || character.class == "Wizard (Pyromancer)"
        );
    }
}

#[test]
fn seeded_generation_is_deterministic() {
    let g1 = CharacterGenerator::from_config(sample_config());
    let g2 = CharacterGenerator::from_config(sample_config());
    let mut rng1 = SeededRng::new(123456789);
    let mut rng2 = SeededRng::new(123456789);
    let a = g1.generate_character_seeded(5, &mut rng1).unwrap();
    let b = g2.generate_character_seeded(5, &mut rng2).unwrap();
    assert_eq!(a.level, b.level);
    assert_eq!(a.race, b.race);
    assert_eq!(a.class, b.class);
    assert_eq!(a.ability_scores.strength, b.ability_scores.strength);
    assert_eq!(a.ability_scores.dexterity, b.ability_scores.dexterity);
    assert_eq!(a.ability_scores.constitution, b.ability_scores.constitution);
    assert_eq!(a.ability_scores.intelligence, b.ability_scores.intelligence);
    assert_eq!(a.ability_scores.wisdom, b.ability_scores.wisdom);
    assert_eq!(a.ability_scores.charisma, b.ability_scores.charisma);
}

#[test]
fn seeded_generation_reproduces_known_fixture() {
    // The seeded source is a pure function of its state, so a fixed seed
    // pins the whole character, computed here by hand from the linear
    // congruential recurrence.
    let generator = CharacterGenerator::from_config(sample_config());
    let mut rng = SeededRng::new(123456789);
    let c = generator.generate_character_seeded(5, &mut rng).unwrap();
    assert_eq!(c.level, 5);
    assert_eq!(c.race, "Human");
    assert_eq!(c.class, "Wizard (Necromancer)");
    assert_eq!(c.ability_scores.strength, 11);
    assert_eq!(c.ability_scores.dexterity, 14);
    assert_eq!(c.ability_scores.constitution, 13);
    assert_eq!(c.ability_scores.intelligence, 10);
    assert_eq!(c.ability_scores.wisdom, 13);
    assert_eq!(c.ability_scores.charisma, 8);
}

#[test]
fn seeded_batch_is_deterministic() {
    let generator = CharacterGenerator::from_config(sample_config());
    let mut rng1 = SeededRng::new(42);
    let mut rng2 = SeededRng::new(42);
    let first = generator.generate_characters_seeded(4, 10, &mut rng1).unwrap();
    let second = generator.generate_characters_seeded(4, 10, &mut rng2).unwrap();
    assert_eq!(first.len(), second.len());
    for (a, b) in first.iter().zip(second.iter()) {
        assert_eq!(a.race, b.race);
        assert_eq!(a.class, b.class);
        assert_eq!(a.ability_scores.strength, b.ability_scores.strength);
        assert_eq!(a.ability_scores.charisma, b.ability_scores.charisma);
    }
}

#[test]
fn different_seeds_vary_output() {
    // Not a contract, but a sanity check that the source actually moves:
    // across many seeds at least two characters must differ somewhere.
    let generator = CharacterGenerator::from_config(sample_config());
    let mut distinct = false;
    let mut rng0 = SeededRng::new(0);
    let base = generator.generate_character_seeded(5, &mut rng0).unwrap();
    for seed in 1..50u64 {
        let mut rng = SeededRng::new(seed);
        let other = generator.generate_character_seeded(5, &mut rng).unwrap();
        if other.race != base.race
            || other.class != base.class
            || other.ability_scores.strength != base.ability_scores.strength
        {
            distinct = true;
            break;
        }
    }
    assert!(distinct);
}

#[test]
fn ability_scores_bounded_and_extremes_reached() {
    // Roll a large number of scores from the seeded source: every score
    // stays within [3, 18], both bounds are reached, and the empirical mean
    // stays near the 3d6 expectation of 10.5.
    let mut rng = SeededRng::new(2024);
    let trials: u64 = 10000;
    let mut total: u64 = 0;
    let mut seen_min = false;
    let mut seen_max = false;
    for _ in 0..trials {
        let d1 = 1 + rng.next_index(6) as u64;
        let d2 = 1 + rng.next_index(6) as u64;
        let d3 = 1 + rng.next_index(6) as u64;
        let score = d1 + d2 + d3;
        assert!((3..=18).contains(&score));
        if score == 3 {
            seen_min = true;
        }
        if score == 18 {
            seen_max = true;
        }
        total += score;
    }
    assert!(seen_min);
    assert!(seen_max);
    // mean within [10.0, 11.0], checked in integers: 10 <= total/trials <= 11
    assert!(total * 10 >= 100 * trials);
    assert!(total * 10 <= 110 * trials);
}

#[test]
fn generated_scores_all_in_range() {
    let generator = CharacterGenerator::from_config(sample_config());
    let characters = generator.generate_characters(1, 50).unwrap();
    for c in &characters {
        for score in [
            c.ability_scores.strength,
            c.ability_scores.dexterity,
            c.ability_scores.constitution,
            c.ability_scores.intelligence,
            c.ability_scores.wisdom,
            c.ability_scores.charisma,
        ] {
            assert!((3..=18).contains(&score));
        }
    }
}

#[test]
fn wizard_class_carries_archetype_label() {
    let config = Config {
        races: vec!["Human".to_string()],
        classes: vec!["Wizard".to_string()],
        wizard_archetypes: vec!["Necromancer".to_string()],
    };
    let generator = CharacterGenerator::from_config(config);
    let character = generator.generate_character(1).unwrap();
    assert_eq!(character.class, "Wizard (Necromancer)");
}

#[test]
fn plain_class_passes_through_unchanged() {
    let config = Config {
        races: vec!["Human".to_string()],
        classes: vec!["Fighter".to_string()],
        wizard_archetypes: vec!["Necromancer".to_string()],
    };
    let generator = CharacterGenerator::from_config(config);
    let character = generator.generate_character(10).unwrap();
    assert_eq!(character.class, "Fighter");
    assert_eq!(character.race, "Human");
    assert_eq!(character.level, 10);
}

#[test]
fn get_config_returns_stored_lists() {
    let generator = CharacterGenerator::from_config(sample_config());
    let config = generator.get_config();
    assert_eq!(config.races, vec!["Human".to_string(), "Elf".to_string()]);
    assert_eq!(
        config.classes,
        vec!["Fighter".to_string(), "Wizard".to_string()]
    );
    assert_eq!(
        config.wizard_archetypes,
        vec!["Necromancer".to_string(), "Pyromancer".to_string()]
    );
}

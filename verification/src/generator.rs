use vstd::prelude::*;
use rand::Rng;

use crate::character::AbilityScores;
use crate::character::AbilityScoresView;
use crate::character::Character;
use crate::character::CharacterView;
use crate::character::GenerationError;
use crate::character::character_matches_config;
use crate::character::class_matches_config;
use crate::character::contains_name;
use crate::character::scores_in_range;
use crate::character::wizard_class_name;
use crate::character::wizard_label;
use crate::config::Config;
use crate::config::ConfigError;
use crate::config::config_is_valid;
use crate::rng::SeededRng;
use crate::rng::next_state;
use crate::rng::spec_draw;
use crate::rng::state_after;

verus! {

/// The race drawn by a generation run whose source starts at state `s0`:
/// the entry of `cfg.races` at the first drawn index.
pub open spec fn spec_race(cfg: Config, s0: u64) -> Seq<char> {
    cfg.races@[spec_draw(s0, cfg.races@.len() as int)]@
}

/// The class entry drawn by the second draw of a generation run.
pub open spec fn spec_class_entry(cfg: Config, s0: u64) -> Seq<char> {
    cfg.classes@[spec_draw(state_after(s0, 1), cfg.classes@.len() as int)]@
}

/// The drawn class entry is the reserved name `"Wizard"`, which triggers the
/// archetype draw.
pub open spec fn spec_is_wizard(cfg: Config, s0: u64) -> bool {
    spec_class_entry(cfg, s0) == "Wizard"@
}

/// The class name a generation run writes into the character: the drawn
/// entry itself, or `"Wizard (<archetype>)"` with a third draw picking the
/// archetype when the entry is `"Wizard"`.
pub open spec fn spec_class(cfg: Config, s0: u64) -> Seq<char> {
    if spec_is_wizard(cfg, s0) {
        wizard_label(
            cfg.wizard_archetypes@[spec_draw(
                state_after(s0, 2),
                cfg.wizard_archetypes@.len() as int,
            )]@,
        )
    } else {
        spec_class_entry(cfg, s0)
    }
}

/// The source state from which the eighteen dice draws of a run begin: two
/// draws precede them, plus the archetype draw when the class is `"Wizard"`.
pub open spec fn spec_dice_start(cfg: Config, s0: u64) -> u64 {
    if spec_is_wizard(cfg, s0) {
        state_after(s0, 3)
    } else {
        state_after(s0, 2)
    }
}

/// The ability-score value produced by three die faces: their plain sum.
pub open spec fn dice_total(d1: int, d2: int, d3: int) -> int {
    d1 + d2 + d3
}

/// The ability score rolled by three consecutive die draws starting at
/// source state `s`.
pub open spec fn spec_score(s: u64) -> int {
    dice_total(
        1 + spec_draw(s, 6),
        1 + spec_draw(state_after(s, 1), 6),
        1 + spec_draw(state_after(s, 2), 6),
    )
}

/// The six ability scores rolled from source state `s`, in the fixed order
/// strength, dexterity, constitution, intelligence, wisdom, charisma.
pub open spec fn spec_ability_scores(s: u64) -> AbilityScoresView {
    AbilityScoresView {
        strength: spec_score(s),
        dexterity: spec_score(state_after(s, 3)),
        constitution: spec_score(state_after(s, 6)),
        intelligence: spec_score(state_after(s, 9)),
        wisdom: spec_score(state_after(s, 12)),
        charisma: spec_score(state_after(s, 15)),
    }
}

/// The character generated for `level` from configuration `cfg` when the
/// seeded source starts at state `s0`.
pub open spec fn spec_generate(cfg: Config, level: u32, s0: u64) -> CharacterView {
    CharacterView {
        level,
        class: spec_class(cfg, s0),
        race: spec_race(cfg, s0),
        ability_scores: spec_ability_scores(spec_dice_start(cfg, s0)),
    }
}

/// How many draws one generation run consumes: race, class, eighteen dice,
/// and one archetype draw when the drawn class is `"Wizard"`.
pub open spec fn spec_run_steps(cfg: Config, s0: u64) -> nat {
    if spec_is_wizard(cfg, s0) {
        21nat
    } else {
        20nat
    }
}

/// The source state left behind by one generation run starting at `s0`.
pub open spec fn spec_end_state(cfg: Config, s0: u64) -> u64 {
    state_after(s0, spec_run_steps(cfg, s0))
}

/// The source state after `k` complete generation runs starting at `s0`.
pub open spec fn state_after_runs(cfg: Config, s0: u64, k: nat) -> u64
    decreases k,
{
    if k == 0 {
        s0
    } else {
        spec_end_state(cfg, state_after_runs(cfg, s0, (k - 1) as nat))
    }
}

/// Stepping the source `a + b` times is stepping it `a` times, then `b`.
pub proof fn lemma_state_after_add(s: u64, a: nat, b: nat)
    ensures
        state_after(s, a + b) == state_after(state_after(s, a), b),
    decreases b,
{
    if b > 0 {
        lemma_state_after_add(s, a, (b - 1) as nat);
    }
}

/// Law: three six-sided dice always total within `[3, 18]`, and the bounds
/// are reached: three ones total exactly 3 and three sixes exactly 18.
pub proof fn lemma_dice_total_bounds(d1: int, d2: int, d3: int)
    requires
        1 <= d1 <= 6,
        1 <= d2 <= 6,
        1 <= d3 <= 6,
    ensures
        3 <= dice_total(d1, d2, d3) <= 18,
        dice_total(1, 1, 1) == 3,
        dice_total(6, 6, 6) == 18,
{
}

/// Law: generation from the seeded source is deterministic — from equal
/// configurations, equal levels and equal source states, two runs produce
/// equal characters and leave the source in equal states.
pub proof fn lemma_seeded_generation_deterministic(
    c1: Config,
    c2: Config,
    level: u32,
    s1: u64,
    s2: u64,
)
    requires
        c1 == c2,
        s1 == s2,
    ensures
        spec_generate(c1, level, s1) == spec_generate(c2, level, s2),
        spec_end_state(c1, s1) == spec_end_state(c2, s2),
{
}

/// Law: for every valid configuration, every level in `[1, 10]` and every
/// source state, the generated character carries the requested level, a race
/// drawn from the configuration, a class of one of the two permitted shapes,
/// and six ability scores in `[3, 18]`.
pub proof fn lemma_generate_well_formed(cfg: Config, level: u32, s0: u64)
    requires
        config_is_valid(cfg),
        1 <= level <= 10,
    ensures
        character_matches_config(cfg, spec_generate(cfg, level, s0), level),
{
    let ch = spec_generate(cfg, level, s0);
    let ri = spec_draw(s0, cfg.races@.len() as int);
    assert(0 <= ri < cfg.races@.len());
    assert(cfg.races@[ri]@ == ch.race);
    assert(contains_name(cfg.races@, ch.race));
    if spec_is_wizard(cfg, s0) {
        let ai = spec_draw(state_after(s0, 2), cfg.wizard_archetypes@.len() as int);
        assert(0 <= ai < cfg.wizard_archetypes@.len());
        assert(ch.class == wizard_label(cfg.wizard_archetypes@[ai]@));
        assert(class_matches_config(cfg, ch.class));
    } else {
        let ci = spec_draw(state_after(s0, 1), cfg.classes@.len() as int);
        assert(0 <= ci < cfg.classes@.len());
        assert(cfg.classes@[ci]@ == ch.class);
        assert(class_matches_config(cfg, ch.class));
    }
}

/// Every character in the sequence is exactly what a seeded run from some
/// source state would generate for `cfg` and `level`.
pub open spec fn all_seed_generated(cfg: Config, level: u32, chs: Seq<Character>) -> bool {
    forall|i: int|
        #![trigger chs[i]]
        0 <= i < chs.len() ==> exists|s: u64|
            chs[i]@ == #[trigger] spec_generate(cfg, level, s)
}

/// Produces randomized characters by sampling from a validated, immutable
/// configuration.
pub struct CharacterGenerator {
    config: Config,
}

impl CharacterGenerator {
    #[verifier::type_invariant]
    spec fn wf(self) -> bool {
        config_is_valid(self.config)
    }

    /// The configuration this generator samples from.
    pub closed spec fn spec_config(&self) -> Config {
        self.config
    }

    /// A generator over an already validated configuration.
    pub fn from_config(config: Config) -> (r: Self)
        requires
            config_is_valid(config),
        ensures
            r.spec_config() == config,
            config_is_valid(r.spec_config()),
    {
        CharacterGenerator { config }
    }

    /// Read access to the stored configuration.
    pub fn get_config(&self) -> (r: &Config)
        ensures
            *r == self.spec_config(),
            config_is_valid(*r),
    {
        proof {
            use_type_invariant(&*self);
        }
        &self.config
    }

    /// Check that every one of the three name lists is non-empty; the first
    /// empty list — races, then classes, then wizard archetypes — names the
    /// error.
    pub fn validate_config(config: &Config) -> (r: Result<(), ConfigError>)
        ensures
            r is Ok <==> config_is_valid(*config),
            config.races@.len() == 0 ==> r == Err::<(), ConfigError>(ConfigError::EmptyRaces),
            config.races@.len() > 0 && config.classes@.len() == 0 ==> r == Err::<(),
                ConfigError,
            >(ConfigError::EmptyClasses),
            config.races@.len() > 0 && config.classes@.len() > 0
                && config.wizard_archetypes@.len() == 0 ==> r == Err::<(), ConfigError>(
                ConfigError::EmptyArchetypes,
            ),
    {
        if config.races.len() == 0 {
            return Err(ConfigError::EmptyRaces);
        }
        if config.classes.len() == 0 {
            return Err(ConfigError::EmptyClasses);
        }
        if config.wizard_archetypes.len() == 0 {
            return Err(ConfigError::EmptyArchetypes);
        }
        Ok(())
    }

    /// Roll one ability score: three die draws from the source, summed.
    fn roll_ability_score(rng: &mut SeededRng) -> (r: u8)
        ensures
            r as int == spec_score(old(rng).spec_state()),
            3 <= r <= 18,
            final(rng).spec_state() == state_after(old(rng).spec_state(), 3),
    {
        let ghost s0 = rng.spec_state();
        let d1: u8 = 1 + rng.next_index(6) as u8;
        proof {
            assert(state_after(s0, 0) == s0);
            assert(state_after(s0, 1) == next_state(s0));
        }
        let d2: u8 = 1 + rng.next_index(6) as u8;
        proof {
            assert(state_after(s0, 2) == next_state(state_after(s0, 1)));
        }
        let d3: u8 = 1 + rng.next_index(6) as u8;
        proof {
            assert(state_after(s0, 3) == next_state(state_after(s0, 2)));
        }
        d1 + d2 + d3
    }

    /// Roll the six ability scores in the fixed order strength, dexterity,
    /// constitution, intelligence, wisdom, charisma.
    fn generate_ability_scores(rng: &mut SeededRng) -> (r: AbilityScores)
        ensures
            r@ == spec_ability_scores(old(rng).spec_state()),
            scores_in_range(r@),
            final(rng).spec_state() == state_after(old(rng).spec_state(), 18),
    {
        let ghost s0 = rng.spec_state();
        let strength = Self::roll_ability_score(rng);
        let dexterity = Self::roll_ability_score(rng);
        proof {
            lemma_state_after_add(s0, 3, 3);
        }
        let constitution = Self::roll_ability_score(rng);
        proof {
            lemma_state_after_add(s0, 6, 3);
        }
        let intelligence = Self::roll_ability_score(rng);
        proof {
            lemma_state_after_add(s0, 9, 3);
        }
        let wisdom = Self::roll_ability_score(rng);
        proof {
            lemma_state_after_add(s0, 12, 3);
        }
        let charisma = Self::roll_ability_score(rng);
        proof {
            lemma_state_after_add(s0, 15, 3);
        }
        let r = AbilityScores { strength, dexterity, constitution, intelligence, wisdom, charisma };
        proof {
            assert(r@ =~= spec_ability_scores(s0));
        }
        r
    }

    /// Generate one character for `level`, drawing every choice from the
    /// given seeded source. The result is a pure function of the
    /// configuration, the level and the source state: equal inputs always
    /// reproduce the same character.
    pub fn generate_character_seeded(&self, level: u32, rng: &mut SeededRng) -> (r: Result<
        Character,
        GenerationError,
    >)
        ensures
            r is Ok <==> 1 <= level <= 10,
            !(1 <= level <= 10) ==> r == Err::<Character, GenerationError>(
                GenerationError::LevelOutOfRange,
            ) && final(rng).spec_state() == old(rng).spec_state(),
            r is Ok ==> r->Ok_0@ == spec_generate(
                self.spec_config(),
                level,
                old(rng).spec_state(),
            ) && final(rng).spec_state() == spec_end_state(
                self.spec_config(),
                old(rng).spec_state(),
            ),
    {
        if level < 1 || level > 10 {
            return Err(GenerationError::LevelOutOfRange);
        }
        proof {
            use_type_invariant(&*self);
        }
        let ghost s0 = rng.spec_state();
        let ghost cfg = self.config;
        let race_idx = rng.next_index(self.config.races.len());
        let race = self.config.races[race_idx].clone();
        proof {
            assert(state_after(s0, 0) == s0);
            assert(state_after(s0, 1) == next_state(s0));
            assert(race@ == spec_race(cfg, s0));
        }
        let class_idx = rng.next_index(self.config.classes.len());
        proof {
            assert(state_after(s0, 2) == next_state(state_after(s0, 1)));
        }
        let entry = self.config.classes[class_idx].clone();
        proof {
            assert(entry@ == spec_class_entry(cfg, s0));
        }
        let wizard: String = "Wizard".to_owned();
        let class: String;
        if entry == wizard {
            let arch_idx = rng.next_index(self.config.wizard_archetypes.len());
            proof {
                assert(state_after(s0, 3) == next_state(state_after(s0, 2)));
            }
            class = wizard_class_name(&self.config.wizard_archetypes[arch_idx]);
            proof {
                lemma_state_after_add(s0, 3, 18);
            }
        } else {
            class = entry;
            proof {
                lemma_state_after_add(s0, 2, 18);
            }
        }
        proof {
            assert(class@ == spec_class(cfg, s0));
            assert(rng.spec_state() == spec_dice_start(cfg, s0));
        }
        let ability_scores = Self::generate_ability_scores(rng);
        let ch = Character { level, class, race, ability_scores };
        proof {
            assert(ch@ =~= spec_generate(cfg, level, s0));
        }
        Ok(ch)
    }

    /// Generate `count` characters for `level` from the given seeded source,
    /// in generation order. The batch fails fast: a count outside `[1, 100]`
    /// or a level outside `[1, 10]` yields the matching error, zero
    /// characters, and an untouched source.
    pub fn generate_characters_seeded(&self, level: u32, count: u32, rng: &mut SeededRng) -> (r:
        Result<Vec<Character>, GenerationError>)
        ensures
            r is Ok <==> (1 <= count <= 100 && 1 <= level <= 10),
            count < 1 ==> r == Err::<Vec<Character>, GenerationError>(GenerationError::CountTooLow)
                && final(rng).spec_state() == old(rng).spec_state(),
            count > 100 ==> r == Err::<Vec<Character>, GenerationError>(
                GenerationError::CountTooHigh,
            ) && final(rng).spec_state() == old(rng).spec_state(),
            1 <= count <= 100 && !(1 <= level <= 10) ==> r == Err::<Vec<Character>,
                GenerationError,
            >(GenerationError::LevelOutOfRange) && final(rng).spec_state() == old(
                rng,
            ).spec_state(),
            r is Ok ==> r->Ok_0@.len() == count && (forall|i: int|
                0 <= i < count ==> r->Ok_0@[i]@ == spec_generate(
                    self.spec_config(),
                    level,
                    state_after_runs(self.spec_config(), old(rng).spec_state(), i as nat),
                )) && final(rng).spec_state() == state_after_runs(
                self.spec_config(),
                old(rng).spec_state(),
                count as nat,
            ),
    {
        if count < 1 {
            return Err(GenerationError::CountTooLow);
        }
        if count > 100 {
            return Err(GenerationError::CountTooHigh);
        }
        let ghost s0 = rng.spec_state();
        let ghost cfg = self.config;
        proof {
            use_type_invariant(&*self);
        }
        let mut characters: Vec<Character> = Vec::new();
        let mut i: u32 = 0;
        while i < count
            invariant
                i <= count,
                1 <= count <= 100,
                s0 == old(rng).spec_state(),
                cfg == self.spec_config(),
                characters@.len() == i,
                i > 0 ==> 1 <= level <= 10,
                rng.spec_state() == state_after_runs(cfg, s0, i as nat),
                forall|j: int|
                    0 <= j < i ==> characters@[j]@ == spec_generate(
                        cfg,
                        level,
                        state_after_runs(cfg, s0, j as nat),
                    ),
            decreases count - i,
        {
            match self.generate_character_seeded(level, rng) {
                Ok(ch) => {
                    proof {
                        assert(state_after_runs(cfg, s0, (i + 1) as nat) == spec_end_state(
                            cfg,
                            state_after_runs(cfg, s0, i as nat),
                        ));
                    }
                    characters.push(ch);
                },
                Err(e) => {
                    proof {
                        assert(i == 0);
                        assert(state_after_runs(cfg, s0, 0nat) == s0);
                    }
                    return Err(e);
                },
            }
            i = i + 1;
        }
        Ok(characters)
    }

    /// Relies on `rand::thread_rng` and `rand::Rng::gen::<u64>`: a fresh
    /// 64-bit seed from the thread-local entropy source. Nothing is promised
    /// of the value.
    #[verifier::external_body]
    fn random_seed() -> u64 {
        rand::thread_rng().gen()
    }

    /// Generate one character for `level`, seeding a fresh source from the
    /// thread-local entropy source. Whatever seed comes back, the character
    /// is well formed for the stored configuration, and is exactly what a
    /// seeded run from some source state would produce.
    pub fn generate_character(&self, level: u32) -> (r: Result<Character, GenerationError>)
        ensures
            r is Ok <==> 1 <= level <= 10,
            !(1 <= level <= 10) ==> r == Err::<Character, GenerationError>(
                GenerationError::LevelOutOfRange,
            ),
            r is Ok ==> character_matches_config(self.spec_config(), r->Ok_0@, level),
            r is Ok ==> exists|s: u64| r->Ok_0@ == spec_generate(self.spec_config(), level, s),
    {
        let seed = Self::random_seed();
        let mut rng = SeededRng::new(seed);
        let r = self.generate_character_seeded(level, &mut rng);
        proof {
            use_type_invariant(&*self);
            if 1 <= level <= 10 {
                lemma_generate_well_formed(self.spec_config(), level, seed);
                assert(r->Ok_0@ == spec_generate(self.spec_config(), level, seed));
            }
        }
        r
    }

    /// Generate `count` characters for `level`, each drawn independently
    /// from a freshly seeded source, in generation order. A count outside
    /// `[1, 100]` or a level outside `[1, 10]` fails the whole batch with
    /// the matching error and zero characters.
    pub fn generate_characters(&self, level: u32, count: u32) -> (r: Result<
        Vec<Character>,
        GenerationError,
    >)
        ensures
            r is Ok <==> (1 <= count <= 100 && 1 <= level <= 10),
            count < 1 ==> r == Err::<Vec<Character>, GenerationError>(
                GenerationError::CountTooLow,
            ),
            count > 100 ==> r == Err::<Vec<Character>, GenerationError>(
                GenerationError::CountTooHigh,
            ),
            1 <= count <= 100 && !(1 <= level <= 10) ==> r == Err::<Vec<Character>,
                GenerationError,
            >(GenerationError::LevelOutOfRange),
            r is Ok ==> r->Ok_0@.len() == count && (forall|i: int|
                0 <= i < count ==> character_matches_config(
                    self.spec_config(),
                    r->Ok_0@[i]@,
                    level,
                )) && all_seed_generated(self.spec_config(), level, r->Ok_0@),
    {
        if count < 1 {
            return Err(GenerationError::CountTooLow);
        }
        if count > 100 {
            return Err(GenerationError::CountTooHigh);
        }
        let mut characters: Vec<Character> = Vec::new();
        let mut i: u32 = 0;
        while i < count
            invariant
                i <= count,
                1 <= count <= 100,
                characters@.len() == i,
                i > 0 ==> 1 <= level <= 10,
                forall|j: int|
                    0 <= j < i ==> character_matches_config(
                        self.spec_config(),
                        characters@[j]@,
                        level,
                    ),
                all_seed_generated(self.spec_config(), level, characters@),
            decreases count - i,
        {
            match self.generate_character(level) {
                Ok(ch) => {
                    characters.push(ch);
                },
                Err(e) => {
                    return Err(e);
                },
            }
            i = i + 1;
        }
        Ok(characters)
    }
}

} // verus!

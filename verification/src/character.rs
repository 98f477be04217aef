use vstd::prelude::*;
use vstd::string::StringExecFns;

use crate::config::Config;

verus! {

/// The six ability scores of a character, each the sum of three six-sided
/// dice, so each lies in `[3, 18]`.
#[derive(Debug, Clone)]
pub struct AbilityScores {
    pub strength: u8,
    pub dexterity: u8,
    pub constitution: u8,
    pub intelligence: u8,
    pub wisdom: u8,
    pub charisma: u8,
}

/// The mathematical value of an [`AbilityScores`] record.
#[verifier::ext_equal]
pub struct AbilityScoresView {
    pub strength: int,
    pub dexterity: int,
    pub constitution: int,
    pub intelligence: int,
    pub wisdom: int,
    pub charisma: int,
}

impl View for AbilityScores {
    type V = AbilityScoresView;

    open spec fn view(&self) -> AbilityScoresView {
        AbilityScoresView {
            strength: self.strength as int,
            dexterity: self.dexterity as int,
            constitution: self.constitution as int,
            intelligence: self.intelligence as int,
            wisdom: self.wisdom as int,
            charisma: self.charisma as int,
        }
    }
}

/// A fully populated character: a pure data snapshot, never mutated after
/// the generation call that built it.
#[derive(Debug, Clone)]
pub struct Character {
    pub level: u32,
    pub class: String,
    pub race: String,
    pub ability_scores: AbilityScores,
}

/// The mathematical value of a [`Character`]: its level, the character
/// sequences of its class and race names, and its ability scores.
#[verifier::ext_equal]
pub struct CharacterView {
    pub level: u32,
    pub class: Seq<char>,
    pub race: Seq<char>,
    pub ability_scores: AbilityScoresView,
}

impl View for Character {
    type V = CharacterView;

    open spec fn view(&self) -> CharacterView {
        CharacterView {
            level: self.level,
            class: self.class@,
            race: self.race@,
            ability_scores: self.ability_scores@,
        }
    }
}

/// Why a generation call failed: the requested level lies outside `[1, 10]`,
/// or the requested batch count lies outside `[1, 100]`.
#[derive(Debug, Clone, Copy, PartialEq, Eq, Structural)]
pub enum GenerationError {
    LevelOutOfRange,
    CountTooLow,
    CountTooHigh,
}

/// `names` holds an entry whose characters are exactly `s`.
pub open spec fn contains_name(names: Seq<String>, s: Seq<char>) -> bool {
    exists|i: int| 0 <= i < names.len() && names[i]@ == s
}

/// The class name written for a wizard of the given archetype:
/// `"Wizard (<archetype>)"`.
pub open spec fn wizard_label(archetype: Seq<char>) -> Seq<char> {
    "Wizard ("@ + archetype + ")"@
}

/// An ability score lies in the range that three six-sided dice can reach.
pub open spec fn score_in_range(s: int) -> bool {
    3 <= s <= 18
}

/// All six ability scores lie in `[3, 18]`.
pub open spec fn scores_in_range(a: AbilityScoresView) -> bool {
    score_in_range(a.strength) && score_in_range(a.dexterity) && score_in_range(a.constitution)
        && score_in_range(a.intelligence) && score_in_range(a.wisdom) && score_in_range(a.charisma)
}

/// The class of a generated character takes one of exactly two shapes: an
/// entry of `classes` other than the reserved name `"Wizard"`, or the label
/// `"Wizard (<archetype>)"` for an entry of `wizard_archetypes`.
pub open spec fn class_matches_config(cfg: Config, class: Seq<char>) -> bool {
    (contains_name(cfg.classes@, class) && class != "Wizard"@) || (exists|j: int|
        0 <= j < cfg.wizard_archetypes@.len() && class == wizard_label(
            cfg.wizard_archetypes@[j]@,
        ))
}

/// A character is well formed for `cfg` and `level`: it carries the requested
/// level unchanged, a race drawn from `cfg.races`, a class of one of the two
/// permitted shapes, and six ability scores in `[3, 18]`.
pub open spec fn character_matches_config(cfg: Config, ch: CharacterView, level: u32) -> bool {
    ch.level == level && contains_name(cfg.races@, ch.race) && class_matches_config(cfg, ch.class)
        && scores_in_range(ch.ability_scores)
}

/// Render the class name of a wizard of the given archetype as the literal
/// pattern `"Wizard (<archetype>)"`.
pub fn wizard_class_name(archetype: &String) -> (r: String)
    ensures
        r@ == wizard_label(archetype@),
{
    let mut s: String = "Wizard (".to_owned();
    s.append(archetype.as_str());
    s.append(")");
    proof {
        assert(s@ =~= wizard_label(archetype@));
    }
    s
}

} // verus!

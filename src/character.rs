//! The character record that a sheet displays: read-only once built.
use vstd::prelude::*;

verus! {

/// One of the six abilities.
#[derive(Clone, Copy, Debug, PartialEq, Eq, Hash, Structural)]
pub enum Stat {
    Strength,
    Dexterity,
    Constitution,
    Intellect,
    Wisdom,
    Charisma,
}

/// A skill: whether the character is proficient in it, the ability it draws
/// on, its display name and its bonus.
#[derive(Debug)]
pub struct Skill {
    pub has_proficiency: bool,
    pub stat: Stat,
    pub name: String,
    pub bonus: i16,
}

/// No ability occurs twice among `stats`.
pub open spec fn distinct_stats(stats: Seq<(Stat, i16)>) -> bool {
    forall|i: int, j: int| 0 <= i < j < stats.len() ==> stats[i].0 != stats[j].0
}

/// What a character holds, as plain values.
pub struct CharacterView {
    pub name: Seq<char>,
    pub race: Seq<char>,
    pub class: Seq<char>,
    pub level: u16,
    pub current_hitpoints: i16,
    pub max_hitpoints: u16,
    pub stats: Seq<(Stat, i16)>,
    pub armor_class: u16,
    pub initiative: u16,
    pub proficiency_bonus: u16,
    pub walking_speed_in_ft: u16,
    pub skills: Seq<Skill>,
}

/// A character: identity, hit points, ability scores, derived numbers and
/// skills.
pub struct Character {
    name: String,
    race: String,
    class: String,
    level: u16,
    current_hitpoints: i16,
    max_hitpoints: u16,
    stats: Vec<(Stat, i16)>,
    armor_class: u16,
    initiative: u16,
    proficiency_bonus: u16,
    walking_speed_in_ft: u16,
    skills: [Skill; 17],
}

impl View for Character {
    type V = CharacterView;

    closed spec fn view(&self) -> CharacterView {
        CharacterView {
            name: self.name@,
            race: self.race@,
            class: self.class@,
            level: self.level,
            current_hitpoints: self.current_hitpoints,
            max_hitpoints: self.max_hitpoints,
            stats: self.stats@,
            armor_class: self.armor_class,
            initiative: self.initiative,
            proficiency_bonus: self.proficiency_bonus,
            walking_speed_in_ft: self.walking_speed_in_ft,
            skills: self.skills@,
        }
    }
}

impl Character {
    /// Builds a character; each ability may have one score at most.
    pub fn new(
        name: String,
        race: String,
        class: String,
        level: u16,
        current_hitpoints: i16,
        max_hitpoints: u16,
        stats: Vec<(Stat, i16)>,
        armor_class: u16,
        initiative: u16,
        proficiency_bonus: u16,
        walking_speed_in_ft: u16,
        skills: [Skill; 17],
    ) -> (r: Character)
        requires
            distinct_stats(stats@),
        ensures
            r@ == (CharacterView {
                name: name@,
                race: race@,
                class: class@,
                level,
                current_hitpoints,
                max_hitpoints,
                stats: stats@,
                armor_class,
                initiative,
                proficiency_bonus,
                walking_speed_in_ft,
                skills: skills@,
            }),
    {
        Character {
            name,
            race,
            class,
            level,
            current_hitpoints,
            max_hitpoints,
            stats,
            armor_class,
            initiative,
            proficiency_bonus,
            walking_speed_in_ft,
            skills,
        }
    }

    pub fn get_name(&self) -> (r: &str)
        ensures
            r@ == self@.name,
    {
        self.name.as_str()
    }

    pub fn get_race(&self) -> (r: &str)
        ensures
            r@ == self@.race,
    {
        self.race.as_str()
    }

    pub fn get_class(&self) -> (r: &str)
        ensures
            r@ == self@.class,
    {
        self.class.as_str()
    }

    pub fn get_level(&self) -> (r: &u16)
        ensures
            *r == self@.level,
    {
        &self.level
    }

    pub fn get_current_hitpoints(&self) -> (r: &i16)
        ensures
            *r == self@.current_hitpoints,
    {
        &self.current_hitpoints
    }

    pub fn get_max_hitpoints(&self) -> (r: &u16)
        ensures
            *r == self@.max_hitpoints,
    {
        &self.max_hitpoints
    }

    pub fn get_armor_class(&self) -> (r: &u16)
        ensures
            *r == self@.armor_class,
    {
        &self.armor_class
    }

    pub fn get_initiative(&self) -> (r: &u16)
        ensures
            *r == self@.initiative,
    {
        &self.initiative
    }

    pub fn get_proficiency_bonus(&self) -> (r: &u16)
        ensures
            *r == self@.proficiency_bonus,
    {
        &self.proficiency_bonus
    }

    pub fn get_walking_speed_in_ft(&self) -> (r: &u16)
        ensures
            *r == self@.walking_speed_in_ft,
    {
        &self.walking_speed_in_ft
    }

    /// The ability scores, each ability at most once.
    pub fn get_stats(&self) -> (r: &[(Stat, i16)])
        ensures
            r@ == self@.stats,
    {
        self.stats.as_slice()
    }

    /// The skills, in their fixed order.
    pub fn get_skills(&self) -> (r: &[Skill])
        ensures
            r@ == self@.skills,
    {
        self.skills.as_slice()
    }
}

} // verus!

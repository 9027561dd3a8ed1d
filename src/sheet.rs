//! A character sheet for one character: the text it shows that comes from
//! the character record.
use crate::character::{Character, CharacterView};
use crate::text::{decimal, push_decimal, push_signed_decimal, signed_decimal};
use vstd::prelude::*;

verus! {

/// `std::io::Error`, the error type of [`MainApp::new`]; it is only carried,
/// and nothing is assumed of its values.
#[verifier::external_type_specification]
#[verifier::external_body]
pub struct ExIoError(std::io::Error);

/// The name line and the race, class and level line of the header.
pub struct HeaderText {
    pub name: String,
    pub details: String,
}

/// The values of the stat strip, each with the separator that follows it.
pub struct StatsText {
    pub armor_class: String,
    pub initiative: String,
    pub proficiency_bonus: String,
    pub walking_speed: String,
}

/// The current and maximum hit points, each with the text that follows it.
pub struct HitPointsText {
    pub current: String,
    pub max: String,
}

/// The sheet of one character.
pub struct MainApp<'a> {
    character: &'a Character,
}

impl<'a> MainApp<'a> {
    /// The character the sheet shows.
    pub closed spec fn shown(&self) -> CharacterView {
        self.character@
    }

    /// A sheet for `character`.
    pub fn new(character: &'a Character) -> (r: Result<MainApp<'a>, std::io::Error>)
        ensures
            r matches Ok(app) && app.shown() == character@,
    {
        Ok(MainApp { character })
    }

    /// The header's text: the name on a line of its own, then race, class and
    /// level.
    pub fn header_text(&self) -> (r: HeaderText)
        ensures
            r.name@ == "\n"@ + self.shown().name + "\n"@,
            r.details@ == self.shown().race + " "@ + self.shown().class + " Lvl "@ + decimal(
                self.shown().level as nat,
            ) + "\n"@,
    {
        let c = self.character;
        let mut name = String::new();
        name.append("\n");
        name.append(c.get_name());
        name.append("\n");
        let mut details = String::new();
        details.append(c.get_race());
        details.append(" ");
        details.append(c.get_class());
        details.append(" Lvl ");
        push_decimal(&mut details, *c.get_level() as u64);
        details.append("\n");
        proof {
            assert(name@ =~= "\n"@ + self.shown().name + "\n"@);
            assert(details@ =~= self.shown().race + " "@ + self.shown().class + " Lvl "@ + decimal(
                self.shown().level as nat,
            ) + "\n"@);
        }
        HeaderText { name, details }
    }

    /// The stat strip's values: armor class, initiative and proficiency bonus
    /// (the last two with a `+`), each followed by ` | `, and the walking
    /// speed in feet.
    pub fn stats_text(&self) -> (r: StatsText)
        ensures
            r.armor_class@ == decimal(self.shown().armor_class as nat) + " | "@,
            r.initiative@ == "+"@ + decimal(self.shown().initiative as nat) + " | "@,
            r.proficiency_bonus@ == "+"@ + decimal(self.shown().proficiency_bonus as nat) + " | "@,
            r.walking_speed@ == decimal(self.shown().walking_speed_in_ft as nat) + " ft"@,
    {
        let c = self.character;
        let mut armor_class = String::new();
        push_decimal(&mut armor_class, *c.get_armor_class() as u64);
        armor_class.append(" | ");
        let mut initiative = String::new();
        initiative.append("+");
        push_decimal(&mut initiative, *c.get_initiative() as u64);
        initiative.append(" | ");
        let mut proficiency_bonus = String::new();
        proficiency_bonus.append("+");
        push_decimal(&mut proficiency_bonus, *c.get_proficiency_bonus() as u64);
        proficiency_bonus.append(" | ");
        let mut walking_speed = String::new();
        push_decimal(&mut walking_speed, *c.get_walking_speed_in_ft() as u64);
        walking_speed.append(" ft");
        proof {
            assert(armor_class@ =~= decimal(self.shown().armor_class as nat) + " | "@);
            assert(initiative@ =~= "+"@ + decimal(self.shown().initiative as nat) + " | "@);
            assert(proficiency_bonus@ =~= "+"@ + decimal(self.shown().proficiency_bonus as nat)
                + " | "@);
            assert(walking_speed@ =~= decimal(self.shown().walking_speed_in_ft as nat) + " ft"@);
        }
        StatsText { armor_class, initiative, proficiency_bonus, walking_speed }
    }

    /// The hit points: the current value followed by a space, the maximum
    /// followed by a space and a line break.
    pub fn hitpoints_text(&self) -> (r: HitPointsText)
        ensures
            r.current@ == signed_decimal(self.shown().current_hitpoints as int) + " "@,
            r.max@ == decimal(self.shown().max_hitpoints as nat) + " \n"@,
    {
        let c = self.character;
        let mut current = String::new();
        push_signed_decimal(&mut current, *c.get_current_hitpoints() as i64);
        current.append(" ");
        let mut max = String::new();
        push_decimal(&mut max, *c.get_max_hitpoints() as u64);
        max.append(" \n");
        proof {
            assert(current@ =~= signed_decimal(self.shown().current_hitpoints as int) + " "@);
            assert(max@ =~= decimal(self.shown().max_hitpoints as nat) + " \n"@);
        }
        HitPointsText { current, max }
    }
}

} // verus!

//! Command-line configuration.
use vstd::prelude::*;

verus! {

/// Why the command line could not be used.
#[derive(Clone, Copy, Debug, PartialEq, Eq, Structural)]
pub enum ConfigError {
    /// No character file path was given.
    MissingCharacterFile,
}

impl ConfigError {
    /// A line for the user saying what went wrong.
    pub fn message(&self) -> (r: &'static str)
        ensures
            r@ == "usage: character_sheet <character file>"@,
    {
        match self {
            ConfigError::MissingCharacterFile => "usage: character_sheet <character file>",
        }
    }
}

/// What the program was asked to show.
pub struct Config {
    /// The path of the JSON file that holds the character.
    pub character_filename: String,
}

impl Config {
    /// Reads the command line: `args[0]` is the program, `args[1]` the path of
    /// the character file. Without a path the command line is refused.
    pub fn new(args: &[String]) -> (r: Result<Config, ConfigError>)
        ensures
            r is Ok <==> args@.len() >= 2,
            r matches Ok(c) ==> c.character_filename@ == args@[1]@,
            r matches Err(e) ==> e == ConfigError::MissingCharacterFile,
    {
        if args.len() < 2 {
            return Err(ConfigError::MissingCharacterFile);
        }
        let character_filename = args[1].clone();
        Ok(Config { character_filename })
    }
}

} // verus!

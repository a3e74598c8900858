//! The configuration: the chat token and the program catalogue.
//!
//! Only the defaults live here — the built-in catalogue of wash programs as
//! the configuration lists them, and an empty token slot. Reading a real
//! token from the process environment is the surrounding program's business;
//! it fills the slot after construction.

use vstd::prelude::*;

verus! {

/// The mathematical value of a catalogue entry.
pub ghost struct CatalogEntryView {
    pub name: Seq<char>,
    pub temp: int,
    pub duration: int,
}

/// One entry of the program catalogue: a program name, its temperature in
/// degrees and its duration in minutes, as the configuration lists them.
#[derive(Debug, Clone, PartialEq)]
pub struct Program {
    pub name: String,
    pub temp: u32,
    pub duration: u32,
}

impl View for Program {
    type V = CatalogEntryView;

    open spec fn view(&self) -> CatalogEntryView {
        CatalogEntryView {
            name: self.name@,
            temp: self.temp as int,
            duration: self.duration as int,
        }
    }
}

/// Why loading a configuration can fail. The built-in defaults never do; the
/// variant is for the surrounding program, which reports an absent token
/// through it.
#[derive(Debug, Clone, Copy, PartialEq, Eq, Structural)]
pub enum ConfigError {
    MissingToken,
}

/// The bot's configuration: the chat token and the catalogue of programs.
#[derive(Debug)]
pub struct Config {
    pub api_token: String,
    pub programs: Vec<Program>,
}

/// The built-in catalogue: three cotton programs and one for delicates.
pub open spec fn spec_catalog() -> Seq<CatalogEntryView> {
    seq![
        CatalogEntryView { name: "Baumwolle"@, temp: 30, duration: 200 },
        CatalogEntryView { name: "Baumwolle"@, temp: 40, duration: 210 },
        CatalogEntryView { name: "Baumwolle"@, temp: 60, duration: 250 },
        CatalogEntryView { name: "Plegeleicht"@, temp: 30, duration: 150 },
    ]
}

fn default_programs() -> (v: Vec<Program>)
    ensures
        v@.map_values(|p: Program| p@) =~= spec_catalog(),
{
    let mut programs: Vec<Program> = Vec::new();
    programs.push(Program { name: "Baumwolle".to_owned(), temp: 30, duration: 200 });
    programs.push(Program { name: "Baumwolle".to_owned(), temp: 40, duration: 210 });
    programs.push(Program { name: "Baumwolle".to_owned(), temp: 60, duration: 250 });
    programs.push(Program { name: "Plegeleicht".to_owned(), temp: 30, duration: 150 });
    programs
}

impl Config {
    /// The default configuration: an empty token slot and the built-in
    /// catalogue. Constructing it never fails.
    pub fn new() -> (r: Result<Config, ConfigError>)
        ensures
            r matches Ok(c) && c.api_token@ == Seq::<char>::empty() && c.programs@.map_values(
                |p: Program| p@,
            ) =~= spec_catalog(),
    {
        Ok(Config { api_token: String::new(), programs: default_programs() })
    }

    /// A configuration with the given token and the built-in catalogue. An
    /// empty token is rejected: that is how the surrounding program reports
    /// that its environment held none.
    pub fn with_token(api_token: String) -> (r: Result<Config, ConfigError>)
        ensures
            api_token@.len() == 0 ==> r == Err::<Config, ConfigError>(ConfigError::MissingToken),
            api_token@.len() > 0 ==> (r matches Ok(c) && c.api_token == api_token
                && c.programs@.map_values(|p: Program| p@) =~= spec_catalog()),
    {
        if api_token.as_str().is_empty() {
            Err(ConfigError::MissingToken)
        } else {
            Ok(Config { api_token, programs: default_programs() })
        }
    }
}

} // verus!

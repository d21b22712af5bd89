//! What is taken on trust of the `configparser` crate, which reads configuration texts.

use crate::text::{lowercase_of, parse_u64_spec};
use configparser::ini::Ini;
use vstd::prelude::*;

verus! {

/// `configparser`'s `Ini`: a configuration in INI form, parsed into sections of keys and
/// values. Nothing inside it is visible here.
#[verifier::external_type_specification]
#[verifier::external_body]
pub struct ExIni(configparser::ini::Ini);

/// The values that an `Ini` holds: for each section and key under which a value is stored,
/// that value. Sections and keys are as the `Ini` stores them.
pub uninterp spec fn ini_values(ini: Ini) -> Map<(Seq<char>, Seq<char>), Seq<char>>;

/// Whether an `Ini` has the settings that `Ini::new` gives: names are matched without
/// regard to case, and a key that a section lacks is not looked up in any other section.
pub uninterp spec fn ini_is_plain(ini: Ini) -> bool;

/// What `Ini::read` makes of a text on an `Ini` with the settings of `Ini::new`: the values
/// that the `Ini` holds afterwards, or `None` where it turns the text down.
pub uninterp spec fn ini_parsed(text: Seq<char>) -> Option<Map<(Seq<char>, Seq<char>), Seq<char>>>;

/// The value stored under a section and a key, both given as they are stored.
pub open spec fn stored(
    values: Map<(Seq<char>, Seq<char>), Seq<char>>,
    section: Seq<char>,
    key: Seq<char>,
) -> Option<Seq<char>> {
    if values.contains_key((section, key)) {
        Some(values[(section, key)])
    } else {
        None
    }
}

/// The value that a lookup finds: names are brought to lower case first, which is how an
/// `Ini` that matches without regard to case stores them.
pub open spec fn looked_up(
    values: Map<(Seq<char>, Seq<char>), Seq<char>>,
    section: Seq<char>,
    key: Seq<char>,
) -> Option<Seq<char>> {
    stored(values, lowercase_of(section), lowercase_of(key))
}

/// `Ini::new`: an `Ini` with the crate's default settings that holds no value yet.
#[verifier::external_body]
pub(crate) fn new_ini() -> (made: Ini)
    ensures
        ini_is_plain(made),
        ini_values(made) =~= Map::empty(),
{
    Ini::new()
}

/// `Ini::get`: the value stored under the section and the key, both matched without regard
/// to case; `None` where there is none.
pub assume_specification[ Ini::get ](ini: &Ini, section: &str, key: &str) -> (value: Option<
    String,
>)
    requires
        ini_is_plain(*ini),
    ensures
        match value {
            Some(text) => looked_up(ini_values(*ini), section@, key@) == Some(text@),
            None => looked_up(ini_values(*ini), section@, key@) is None,
        },
;

/// `Ini::getuint`: the value stored under the section and the key, read as an unsigned
/// decimal number. Where no value is stored the result is `Ok(None)`; where the value is
/// no such number it is an error.
pub assume_specification[ Ini::getuint ](ini: &Ini, section: &str, key: &str) -> (number:
    Result<Option<u64>, String>)
    requires
        ini_is_plain(*ini),
    ensures
        match looked_up(ini_values(*ini), section@, key@) {
            Some(text) => match parse_u64_spec(text) {
                Some(n) => number matches Ok(Some(read)) && read == n,
                None => number is Err,
            },
            None => number matches Ok(None),
        },
;

/// The greatest number of characters of a text that is read. The parser numbers the
/// lines of a text with a 32-bit signed number, and counts two beyond the last line; a
/// text has no more lines than characters.
pub const TEXT_LIMIT: usize = 0x7fff_fffd;

/// `Ini::read`: parses `text` and, where that succeeds, replaces what the `Ini` holds by
/// what the text says. Where it fails the `Ini` holds what it held. The text must be
/// within `TEXT_LIMIT`: the parser's count of lines fails beyond it.
#[verifier::external_body]
pub(crate) fn read_into(ini: &mut Ini, text: &str) -> (outcome: Result<(), String>)
    requires
        ini_is_plain(*old(ini)),
        text@.len() <= TEXT_LIMIT,
    ensures
        ini_is_plain(*final(ini)),
        match outcome {
            Ok(_) => ini_parsed(text@) == Some(ini_values(*final(ini))),
            Err(_) => ini_parsed(text@) is None && ini_values(*final(ini)) == ini_values(
                *old(ini),
            ),
        },
{
    match ini.read(text.to_string()) {
        Ok(_) => Ok(()),
        Err(reason) => Err(reason),
    }
}

} // verus!

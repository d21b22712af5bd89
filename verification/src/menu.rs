//! What the lines that the operator types at the menu lead to.

use crate::models::{filter_games, referents, Game};
use crate::text::{
    chars_of, decimal, extend_chars, parse_u64, parse_u64_spec, push_decimal, string_of, trim,
    trimmed,
};
use vstd::prelude::*;

verus! {

/// The seconds that a choice outside the list is shown for before the menu asks again.
pub const OUT_OF_RANGE_SECONDS: u64 = 2;

/// What a line typed at the search prompt leads to.
#[derive(Debug)]
pub enum SearchOutcome<'a> {
    /// The line is blank: the menu ends.
    Exit,
    /// The search finds no entry.
    NothingFound,
    /// The search finds these entries, in the catalog's order.
    Found { games: Vec<&'a Game> },
}

/// What a line typed at the prompt for a number leads to.
#[derive(Clone, Copy, Debug, PartialEq, Eq)]
pub enum Choice {
    /// The entry with this index in the list that was shown.
    Chosen { index: usize },
    /// The number names no entry of the list.
    OutOfRange,
    /// The line is no number: the menu asks for a search again.
    Unreadable,
}

/// The choice that a line stands for among `count` entries numbered from one: the line
/// without the white space around it is read as an unsigned decimal number.
pub open spec fn choice_of(line: Seq<char>, count: usize) -> Choice {
    match parse_u64_spec(trimmed(line)) {
        Some(n) => if n > usize::MAX {
            Choice::Unreadable
        } else if 1 <= n <= count {
            Choice::Chosen { index: (n - 1) as usize }
        } else {
            Choice::OutOfRange
        },
        None => Choice::Unreadable,
    }
}

/// The line that shows the entry at `index` of a list: its number, counted from one, its
/// title, and its size in brackets.
pub open spec fn listing_line(index: usize, title: Seq<char>, size: Seq<char>) -> Seq<char> {
    decimal((index + 1) as nat) + ". "@ + title + " ("@ + size + ")"@
}

/// What a line typed at the search prompt leads to. A line that is blank but for white
/// space ends the menu; any other line is a search for its words.
pub fn search<'a>(games: &'a [Game], line: &str) -> (outcome: SearchOutcome<'a>)
    ensures
        match outcome {
            SearchOutcome::Exit => trimmed(line@).len() == 0,
            SearchOutcome::NothingFound => trimmed(line@).len() > 0 && games@.filter(
                |g: Game| g.found_by(trimmed(line@)),
            ).len() == 0,
            SearchOutcome::Found { games: found } => trimmed(line@).len() > 0 && found@.len() > 0
                && referents(found@) == games@.filter(|g: Game| g.found_by(trimmed(line@))),
        },
{
    let chars = chars_of(line);
    let kept = trim(chars.as_slice());
    if kept.len() == 0 {
        return SearchOutcome::Exit;
    }
    let wanted = string_of(kept);
    let found = filter_games(games, wanted.as_str());
    if found.len() == 0 {
        SearchOutcome::NothingFound
    } else {
        SearchOutcome::Found { games: found }
    }
}

/// The choice that a line stands for among `count` entries.
pub fn pick(line: &str, count: usize) -> (choice: Choice)
    ensures
        choice == choice_of(line@, count),
{
    let chars = chars_of(line);
    match parse_u64(trim(chars.as_slice())) {
        Some(n) => {
            if n > usize::MAX as u64 {
                Choice::Unreadable
            } else if 1 <= n && n <= count as u64 {
                Choice::Chosen { index: (n - 1) as usize }
            } else {
                Choice::OutOfRange
            }
        },
        None => Choice::Unreadable,
    }
}

/// The lines that show a list of entries, one for each entry in order.
pub fn listing(found: &Vec<&Game>) -> (lines: Vec<String>)
    ensures
        lines@.len() == found@.len(),
        forall|i: int|
            0 <= i < found@.len() ==> (#[trigger] lines@[i])@ == listing_line(
                i as usize,
                found@[i].title@,
                found@[i].size@,
            ),
{
    let mut lines: Vec<String> = Vec::new();
    let mut i: usize = 0;
    while i < found.len()
        invariant
            i <= found.len(),
            lines@.len() == i,
            forall|j: int|
                0 <= j < i ==> (#[trigger] lines@[j])@ == listing_line(
                    j as usize,
                    found@[j].title@,
                    found@[j].size@,
                ),
        decreases found.len() - i,
    {
        let game = found[i];
        let mut out: Vec<char> = Vec::new();
        push_decimal((i + 1) as u64, &mut out);
        let dot = chars_of(". ");
        extend_chars(&mut out, dot.as_slice());
        let title = chars_of(game.title.as_str());
        extend_chars(&mut out, title.as_slice());
        let open = chars_of(" (");
        extend_chars(&mut out, open.as_slice());
        let size = chars_of(game.size.as_str());
        extend_chars(&mut out, size.as_slice());
        let close = chars_of(")");
        extend_chars(&mut out, close.as_slice());
        assert(out@ =~= listing_line(i, game.title@, game.size@));
        lines.push(string_of(out.as_slice()));
        i += 1;
    }
    lines
}

} // verus!

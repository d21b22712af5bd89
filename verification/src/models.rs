//! The entries of the catalog and the search among them.

use crate::text::{
    chars_of, contains, contains_seq, lowercase_of, remove_all, split_words, string_of, without,
    word_views, words,
};
use vstd::prelude::*;

verus! {

/// One entry of the catalog: a title, the link to its archive relative to the catalog's
/// address, a label for its size, and the title in lower case for searching.
#[derive(Debug)]
pub struct Game {
    /// The title as the catalog shows it; it may end in the archive's extension.
    pub title: String,
    /// The link to the archive, relative to the catalog's address.
    pub link: String,
    /// The size as the catalog words it.
    pub size: String,
    /// The title in lower case, for searches that ignore case.
    pub lowercased_title: String,
}

/// An entry with its texts taken as sequences of characters.
pub struct GameModel {
    pub title: Seq<char>,
    pub link: Seq<char>,
    pub size: Seq<char>,
    pub lowercased_title: Seq<char>,
}

impl View for Game {
    type V = GameModel;

    open spec fn view(&self) -> GameModel {
        GameModel {
            title: self.title@,
            link: self.link@,
            size: self.size@,
            lowercased_title: self.lowercased_title@,
        }
    }
}

/// The extension of the archives that the catalog offers.
pub open spec fn archive_extension() -> Seq<char> {
    ".zip"@
}

/// The words of a search: the words of its lower-case form.
pub open spec fn search_terms(search: Seq<char>) -> Seq<Seq<char>> {
    words(lowercase_of(search))
}

/// Whether a title in lower case holds every one of the terms.
pub open spec fn title_matches(lowercased_title: Seq<char>, terms: Seq<Seq<char>>) -> bool {
    forall|k: int| 0 <= k < terms.len() ==> contains_seq(lowercased_title, #[trigger] terms[k])
}

/// The entries behind a list of references, in order.
pub open spec fn referents(found: Seq<&Game>) -> Seq<Game> {
    Seq::new(found.len(), |i: int| *found[i])
}

impl Clone for Game {
    fn clone(&self) -> (copy: Self)
        ensures
            copy == *self,
    {
        Game {
            title: self.title.clone(),
            link: self.link.clone(),
            size: self.size.clone(),
            lowercased_title: self.lowercased_title.clone(),
        }
    }
}

impl Game {
    /// The title without the archive's extension, wherever it stands in the title.
    pub open spec fn spec_clean_title(&self) -> Seq<char> {
        without(self.title@, archive_extension())
    }

    /// Whether a search finds this entry: its lower-case title holds every word of the
    /// search.
    pub open spec fn found_by(&self, search: Seq<char>) -> bool {
        title_matches(self.lowercased_title@, search_terms(search))
    }

    /// The title without the archive's extension.
    pub fn clean_title(&self) -> (cleaned: String)
        ensures
            cleaned@ == self.spec_clean_title(),
    {
        let title = chars_of(self.title.as_str());
        let extension = chars_of(".zip");
        let kept = remove_all(title.as_slice(), extension.as_slice());
        string_of(kept.as_slice())
    }

    /// The same entry with its lower-case title set from its title.
    pub fn with_lowercased(self) -> (game: Self)
        ensures
            game.title == self.title,
            game.link == self.link,
            game.size == self.size,
            game.lowercased_title@ == lowercase_of(self.title@),
    {
        let lowercased_title = self.title.as_str().to_lowercase();
        Game { title: self.title, link: self.link, size: self.size, lowercased_title }
    }
}

/// Whether `title` holds every one of `terms`.
pub fn holds_all(title: &[char], terms: &Vec<Vec<char>>) -> (r: bool)
    ensures
        r == title_matches(title@, word_views(terms@)),
{
    let mut k: usize = 0;
    while k < terms.len()
        invariant
            k <= terms.len(),
            forall|j: int| 0 <= j < k ==> contains_seq(title@, #[trigger] word_views(terms@)[j]),
        decreases terms.len() - k,
    {
        if !contains(title, terms[k].as_slice()) {
            assert(!contains_seq(title@, word_views(terms@)[k as int]));
            return false;
        }
        k += 1;
    }
    true
}

/// The entries that a search finds, in the catalog's order: those whose lower-case title
/// holds every word of the search, the search being taken in lower case too.
pub fn filter_games<'a>(games: &'a [Game], search: &str) -> (found: Vec<&'a Game>)
    ensures
        referents(found@) == games@.filter(|g: Game| g.found_by(search@)),
{
    let lowered = search.to_lowercase();
    let lowered_chars = chars_of(lowered.as_str());
    let terms = split_words(lowered_chars.as_slice());
    let ghost wanted = |g: Game| g.found_by(search@);
    let mut found: Vec<&'a Game> = Vec::new();
    let mut i: usize = 0;
    proof {
        reveal(Seq::filter);
        assert(games@.take(0) =~= Seq::<Game>::empty());
        assert(referents(found@) =~= games@.take(0).filter(wanted));
    }
    while i < games.len()
        invariant
            i <= games.len(),
            word_views(terms@) == search_terms(search@),
            wanted == (|g: Game| g.found_by(search@)),
            referents(found@) == games@.take(i as int).filter(wanted),
        decreases games.len() - i,
    {
        let game = &games[i];
        let title = chars_of(game.lowercased_title.as_str());
        let ghost before = referents(found@);
        proof {
            reveal(Seq::filter);
            assert(games@.take(i + 1).drop_last() =~= games@.take(i as int));
        }
        if holds_all(title.as_slice(), &terms) {
            found.push(game);
            assert(referents(found@) =~= before.push(*game));
        }
        i += 1;
    }
    assert(games@.take(i as int) =~= games@);
    found
}

} // verus!

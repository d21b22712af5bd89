//! Making the catalog from the rows of a listing, or from what was kept of it.

use crate::models::{Game, GameModel};
use crate::text::{chars_of, lowercase_of, string_of, trim, trimmed};
use scraper::{Html, Selector};
use vstd::prelude::*;

verus! {

/// The link of a row of the catalog's listing.
#[derive(Debug, PartialEq, Eq)]
pub struct ListingLink {
    /// The text that the link shows.
    pub text: String,
    /// The address that the link leads to, where it has one.
    pub href: Option<String>,
}

/// A row of the catalog's listing: its link and the text of its size, each where the row
/// has one.
#[derive(Debug, PartialEq, Eq)]
pub struct ListingRow {
    pub link: Option<ListingLink>,
    pub size: Option<String>,
}

/// A link with its texts taken as sequences of characters.
pub struct LinkModel {
    pub text: Seq<char>,
    pub href: Option<Seq<char>>,
}

/// A row with its texts taken as sequences of characters.
pub struct RowModel {
    pub link: Option<LinkModel>,
    pub size: Option<Seq<char>>,
}

impl View for ListingLink {
    type V = LinkModel;

    open spec fn view(&self) -> LinkModel {
        LinkModel {
            text: self.text@,
            href: match self.href {
                Some(address) => Some(address@),
                None => None,
            },
        }
    }
}

impl View for ListingRow {
    type V = RowModel;

    open spec fn view(&self) -> RowModel {
        RowModel {
            link: match self.link {
                Some(link) => Some(link@),
                None => None,
            },
            size: match self.size {
                Some(text) => Some(text@),
                None => None,
            },
        }
    }
}

/// The selector of the rows of the listing in a page of the catalog.
pub const ROW_SELECTOR: &'static str = "table#list tbody tr";

/// The selector of the link in a row.
pub const LINK_SELECTOR: &'static str = "td.link a";

/// The selector of the size in a row.
pub const SIZE_SELECTOR: &'static str = "td.size";

/// The attribute of a link that holds its address.
pub const ADDRESS_ATTRIBUTE: &'static str = "href";

/// The greatest number of characters of a page that is searched. The parser keeps its
/// texts in buffers whose lengths are 32-bit numbers and which it grows to the next power
/// of two; a page within this limit fits them even where every character takes four
/// bytes.
pub const PAGE_LIMIT: usize = 0x1000_0000;

/// Why a page gave no catalog.
#[derive(Clone, Copy, Debug, PartialEq, Eq)]
pub enum CatalogError {
    /// The page has more characters than `PAGE_LIMIT`.
    PageTooLong,
    /// One of the selectors of the listing was turned down.
    BadSelector,
}

/// What the `scraper` crate finds in a page: the elements that match `rows`, in the order
/// of the page, each with the first element inside it that matches `link` (the text inside
/// that element and its attribute called `address`) and the text inside the first element
/// inside it that matches `size`. `None` where one of the three is no selector.
pub uninterp spec fn page_rows(
    html: Seq<char>,
    rows: Seq<char>,
    link: Seq<char>,
    size: Seq<char>,
    address: Seq<char>,
) -> Option<Seq<RowModel>>;

/// `scraper`'s `Html::parse_document`, `Selector::parse`, `select`, `text` and `attr`: the
/// rows that the selectors find in a page, as `page_rows` names them. The page must be
/// within `PAGE_LIMIT`: the parser fails on a text that its buffers cannot hold.
#[verifier::external_body]
pub(crate) fn select_rows(html: &str, rows: &str, link: &str, size: &str, address: &str) -> (found:
    Option<Vec<ListingRow>>)
    requires
        html@.len() <= PAGE_LIMIT,
    ensures
        match found {
            Some(list) => page_rows(html@, rows@, link@, size@, address@) == Some(row_views(list@)),
            None => page_rows(html@, rows@, link@, size@, address@) is None,
        },
{
    let rows = Selector::parse(rows).ok()?;
    let link = Selector::parse(link).ok()?;
    let size = Selector::parse(size).ok()?;
    let mut found = Vec::new();
    for row in Html::parse_document(html).select(&rows) {
        let link = row.select(&link).next().map(
            |a| ListingLink { text: a.text().collect(), href: a.attr(address).map(String::from) },
        );
        let size = row.select(&size).next().map(|cell| cell.text().collect());
        found.push(ListingRow { link, size });
    }
    Some(found)
}

/// The views of a list of rows.
pub open spec fn row_views(rows: Seq<ListingRow>) -> Seq<RowModel> {
    Seq::new(rows.len(), |i: int| rows[i]@)
}

/// The views of a list of entries.
pub open spec fn game_views(games: Seq<Game>) -> Seq<GameModel> {
    Seq::new(games.len(), |i: int| games[i]@)
}

/// The entry that a row stands for. A row that lacks its link or its size stands for none.
/// The title is the text of the link and the size is the text of the size, both without
/// the white space around them; the link is the address, or empty where there is none.
pub open spec fn row_entry(row: RowModel) -> Option<GameModel> {
    match (row.link, row.size) {
        (Some(link), Some(size)) => Some(
            GameModel {
                title: trimmed(link.text),
                link: match link.href {
                    Some(address) => address,
                    None => Seq::empty(),
                },
                size: trimmed(size),
                lowercased_title: lowercase_of(trimmed(link.text)),
            },
        ),
        _ => None,
    }
}

/// The entries that rows stand for, in order, the rows that stand for none left out.
pub open spec fn row_entries(rows: Seq<RowModel>) -> Seq<GameModel>
    decreases rows.len(),
{
    if rows.len() == 0 {
        Seq::empty()
    } else {
        match row_entry(rows.last()) {
            Some(game) => row_entries(rows.drop_last()).push(game),
            None => row_entries(rows.drop_last()),
        }
    }
}

/// The entries of a listing: those of its rows but the first, which is the way back to
/// the listing above.
pub open spec fn listed(rows: Seq<RowModel>) -> Seq<GameModel> {
    if rows.len() == 0 {
        Seq::empty()
    } else {
        row_entries(rows.skip(1))
    }
}

/// An entry as a cached catalog is brought back to use: with its lower-case title set from
/// its title.
pub open spec fn refreshed(game: GameModel) -> GameModel {
    GameModel { lowercased_title: lowercase_of(game.title), ..game }
}

fn trimmed_text(text: &str) -> (kept: String)
    ensures
        kept@ == trimmed(text@),
{
    let chars = chars_of(text);
    string_of(trim(chars.as_slice()))
}

/// The entry that a row stands for.
pub fn game_from_row(row: &ListingRow) -> (entry: Option<Game>)
    ensures
        match entry {
            Some(game) => row_entry(row@) == Some(game@),
            None => row_entry(row@) is None,
        },
{
    match (&row.link, &row.size) {
        (Some(link), Some(size)) => {
            let title = trimmed_text(link.text.as_str());
            let address = match &link.href {
                Some(address) => address.clone(),
                None => String::new(),
            };
            let size = trimmed_text(size.as_str());
            let game = Game { title, link: address, size, lowercased_title: String::new() };
            Some(game.with_lowercased())
        },
        _ => None,
    }
}

/// The entries of a listing.
pub fn games_from_rows(rows: &Vec<ListingRow>) -> (games: Vec<Game>)
    ensures
        game_views(games@) == listed(row_views(rows@)),
{
    let mut games: Vec<Game> = Vec::new();
    if rows.len() == 0 {
        assert(game_views(games@) =~= Seq::<GameModel>::empty());
        return games;
    }
    let ghost all = row_views(rows@).skip(1);
    let mut i: usize = 1;
    assert(all.take(0) =~= Seq::<RowModel>::empty());
    assert(game_views(games@) =~= row_entries(all.take(0)));
    while i < rows.len()
        invariant
            1 <= i <= rows.len(),
            all == row_views(rows@).skip(1),
            game_views(games@) == row_entries(all.take(i - 1)),
        decreases rows.len() - i,
    {
        let ghost before = game_views(games@);
        assert(all.take(i as int).drop_last() =~= all.take(i - 1));
        assert(all.take(i as int).last() == rows@[i as int]@);
        match game_from_row(&rows[i]) {
            Some(game) => {
                games.push(game);
                assert(game_views(games@) =~= before.push(game@));
            },
            None => {},
        }
        i += 1;
    }
    assert(all.take(i - 1) =~= all);
    games
}

/// What the listing of a page holds, as far as `scraper` finds it.
pub open spec fn listing_rows(html: Seq<char>) -> Option<Seq<RowModel>> {
    page_rows(html, ROW_SELECTOR@, LINK_SELECTOR@, SIZE_SELECTOR@, ADDRESS_ATTRIBUTE@)
}

/// Whether `outcome` is what a page leads to: an error for a page beyond `PAGE_LIMIT`,
/// which is not searched; else the entries of the rows of its listing, which may be none;
/// or an error where the selectors of the listing are turned down.
pub open spec fn read_from_page(outcome: Result<Vec<Game>, CatalogError>, html: Seq<char>) -> bool {
    if html.len() > PAGE_LIMIT {
        outcome == Err::<Vec<Game>, CatalogError>(CatalogError::PageTooLong)
    } else {
        match listing_rows(html) {
            Some(rows) => outcome matches Ok(list) && game_views(list@) == listed(rows),
            None => outcome == Err::<Vec<Game>, CatalogError>(CatalogError::BadSelector),
        }
    }
}

/// The entries of a page of the catalog.
pub fn games_from_page(html: &str) -> (outcome: Result<Vec<Game>, CatalogError>)
    ensures
        read_from_page(outcome, html@),
{
    if html.unicode_len() > PAGE_LIMIT {
        return Err(CatalogError::PageTooLong);
    }
    match select_rows(html, ROW_SELECTOR, LINK_SELECTOR, SIZE_SELECTOR, ADDRESS_ATTRIBUTE) {
        Some(rows) => Ok(games_from_rows(&rows)),
        None => Err(CatalogError::BadSelector),
    }
}

/// The entries of a cached catalog, each with its lower-case title set from its title.
pub fn with_lowercased_titles(cached: Vec<Game>) -> (games: Vec<Game>)
    ensures
        games@.len() == cached@.len(),
        forall|i: int| 0 <= i < cached@.len() ==> (#[trigger] games@[i])@ == refreshed(cached@[i]@),
{
    let mut games: Vec<Game> = Vec::new();
    let ghost wanted = cached@;
    for game in it: cached
        invariant
            it.seq() == wanted,
            games@.len() == it.index(),
            forall|j: int| 0 <= j < games@.len() ==> (#[trigger] games@[j])@ == refreshed(wanted[j]@),
    {
        games.push(game.with_lowercased());
    }
    games
}

} // verus!

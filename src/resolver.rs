//! Reading a character's frame-data document: its section tables are found with CSS
//! selectors, their rows read into moves.
//!
//! This reader serves the layout in which every row of a section table is one move. Documents
//! laid out as move-name headers each followed by a sub-table go through
//! `ResolverChain::resolve_document` instead, where overrides and quirks apply.
use vstd::prelude::*;

use crate::CharacterId;
use crate::Move;
use crate::MoveView;
use crate::PatternError;
use crate::row::Extractor;
use crate::row::TableRow;
use crate::row::all_compile;
use crate::row::all_read_as_written;
use crate::pattern::reads_as_written;
use crate::row::lemma_resolution_deterministic;
use crate::row::load_section;
use crate::row::move_views;
use crate::row::resolved_as;
use crate::row::section_moves;

verus! {

#[verifier::external_type_specification]
#[verifier::external_body]
pub struct ExHtml(scraper::Html);

#[verifier::external_type_specification]
#[verifier::external_body]
pub struct ExSelector(scraper::Selector);

/// The document that `Html::parse_document` builds from a text.
pub uninterp spec fn parsed_html(text: Seq<char>) -> scraper::Html;

/// Whether `Selector::parse` accepts a selector text.
pub uninterp spec fn selector_parses(text: Seq<char>) -> bool;

/// The selector that `Selector::parse` builds from a text it accepts.
pub uninterp spec fn parsed_selector(text: Seq<char>) -> scraper::Selector;

/// The rows under the first element of `document` that `table` selects, where there is one:
/// for each element that `row` selects under it, in document order, its serialized markup and
/// the inner markup of each element that `cell` selects under that row.
pub uninterp spec fn scraped_table(
    document: scraper::Html,
    table: scraper::Selector,
    row: scraper::Selector,
    cell: scraper::Selector,
) -> Option<Vec<(String, Vec<String>)>>;

/// Relies on `scraper::Html::parse_document`, which parses any text into a document and
/// depends on the text alone: with scraper's `deterministic` feature, which this crate turns
/// on, element attributes keep their source order instead of a per-process hash order.
#[verifier::external_body]
pub(crate) fn parse_html(document: &str) -> (r: scraper::Html)
    ensures
        r == parsed_html(document@),
{
    scraper::Html::parse_document(document)
}

/// Relies on `scraper::Selector::parse`; `None` where it refuses the selector text.
#[verifier::external_body]
pub(crate) fn parse_selector(text: &str) -> (r: Option<scraper::Selector>)
    ensures
        r is Some <==> selector_parses(text@),
        r is Some ==> r->Some_0 == parsed_selector(text@),
{
    scraper::Selector::parse(text).ok()
}

/// Relies on scraper's element selection (`Html::select`, `ElementRef::select`) and
/// serialization (`ElementRef::html`, `ElementRef::inner_html`): the rows of the first table
/// that `table` selects, as `scraped_table` names them.
#[verifier::external_body]
fn scrape_table(
    document: &scraper::Html,
    table: &scraper::Selector,
    row: &scraper::Selector,
    cell: &scraper::Selector,
) -> (r: Option<Vec<(String, Vec<String>)>>)
    ensures
        r == scraped_table(*document, *table, *row, *cell),
{
    let found = document.select(table).next()?;
    Some(found.select(row).map(|tr| (tr.html(), tr.select(cell).map(|td| td.inner_html()).collect())).collect())
}

/// The inner markup of every element of `document` that `selector` selects, in document
/// order.
pub uninterp spec fn scraped_texts(document: scraper::Html, selector: scraper::Selector) -> Vec<String>;

/// For every element of `document` that `table` selects, in document order, its rows as
/// `scraped_table` gives them.
pub uninterp spec fn scraped_tables(
    document: scraper::Html,
    table: scraper::Selector,
    row: scraper::Selector,
    cell: scraper::Selector,
) -> Vec<Vec<(String, Vec<String>)>>;

/// Relies on `scraper::Html::select` and `ElementRef::inner_html`: the inner markup of every
/// element that the selector matches, in document order.
#[verifier::external_body]
pub(crate) fn scrape_texts(document: &scraper::Html, selector: &scraper::Selector) -> (r: Vec<String>)
    ensures
        r == scraped_texts(*document, *selector),
{
    document.select(selector).map(|e| e.inner_html()).collect()
}

/// Relies on scraper's element selection (`Html::select`, `ElementRef::select`) and
/// serialization (`ElementRef::html`, `ElementRef::inner_html`): the rows of every table
/// that `table` selects, as `scraped_tables` names them.
#[verifier::external_body]
pub(crate) fn scrape_tables(
    document: &scraper::Html,
    table: &scraper::Selector,
    row: &scraper::Selector,
    cell: &scraper::Selector,
) -> (r: Vec<Vec<(String, Vec<String>)>>)
    ensures
        r == scraped_tables(*document, *table, *row, *cell),
{
    document.select(table).map(|t| {
        t.select(row).map(|tr| (tr.html(), tr.select(cell).map(|td| td.inner_html()).collect())).collect()
    }).collect()
}

/// The table rows that scraped markup stands for; a row without data cells is a header row.
pub open spec fn table_rows_of(raw: Seq<(String, Vec<String>)>) -> Seq<TableRow> {
    raw.map_values(
        |p: (String, Vec<String>)| TableRow { markup: p.0, cells: p.1, header: p.1@.len() == 0 },
    )
}

/// The sections of a document as the extractor's selectors find them: for each section, the
/// rows of its table, or `None` where the document has no such table.
pub open spec fn document_sections(ex: Extractor, document: Seq<char>) -> Seq<Option<Seq<TableRow>>> {
    Seq::new(
        ex.section_selectors@.len(),
        |i: int|
            match scraped_table(
                parsed_html(document),
                ex.section_selectors@[i],
                ex.row_selector,
                ex.cell_selector,
            ) {
                Some(raw) => Some(table_rows_of(raw@)),
                None => None,
            },
    )
}

/// The sections as sequences.
pub open spec fn sections_view(sections: Seq<Option<Vec<TableRow>>>) -> Seq<Option<Seq<TableRow>>> {
    sections.map_values(
        |s: Option<Vec<TableRow>>|
            match s {
                Some(rows) => Some(rows@),
                None => None,
            },
    )
}

/// Turns scraped markup into table rows, keeping the strings.
pub(crate) fn table_rows(raw: Vec<(String, Vec<String>)>) -> (r: Vec<TableRow>)
    ensures
        r@ == table_rows_of(raw@),
{
    let ghost all = raw@;
    let n = raw.len();
    let mut rest = raw;
    let mut rows: Vec<TableRow> = Vec::new();
    let mut i: usize = 0;
    while i < n
        invariant
            n == all.len(),
            i <= n,
            rest@ == all.skip(i as int),
            rows@ == table_rows_of(all).take(i as int),
        decreases n - i,
    {
        let (markup, cells) = rest.remove(0);
        let header = cells.len() == 0;
        rows.push(TableRow { markup, cells, header });
        i += 1;
        assert(rest@ =~= all.skip(i as int));
        assert(rows@ =~= table_rows_of(all).take(i as int));
    }
    assert(rows@ =~= table_rows_of(all));
    rows
}

/// The rows of each section table of a document, `None` for a section that the document
/// lacks.
pub fn extract_sections(ex: &Extractor, document: &str) -> (r: Vec<Option<Vec<TableRow>>>)
    requires
        ex.wf(),
    ensures
        sections_view(r@) == document_sections(*ex, document@),
{
    let html = parse_html(document);
    let ghost expected = document_sections(*ex, document@);
    let mut sections: Vec<Option<Vec<TableRow>>> = Vec::new();
    let mut i: usize = 0;
    while i < ex.section_selectors.len()
        invariant
            html == parsed_html(document@),
            expected == document_sections(*ex, document@),
            i <= ex.section_selectors@.len(),
            sections@.len() == i,
            forall|k: int| 0 <= k < i ==> sections_view(sections@)[k] == expected[k],
        decreases ex.section_selectors@.len() - i,
    {
        let found = match scrape_table(&html, &ex.section_selectors[i], &ex.row_selector, &ex.cell_selector) {
            Some(raw) => Some(table_rows(raw)),
            None => None,
        };
        sections.push(found);
        i += 1;
    }
    assert(sections_view(sections@) =~= expected);
    sections
}

/// The moves of a document's sections in order; the first section lays its rows out without
/// a name column, the others with one.
pub open spec fn document_moves(
    aliases: Seq<(Seq<char>, Seq<char>)>,
    sections: Seq<Option<Seq<TableRow>>>,
) -> Seq<MoveView>
    decreases sections.len(),
{
    if sections.len() == 0 {
        Seq::empty()
    } else {
        let n = sections.len() - 1;
        document_moves(aliases, sections.take(n)) + match sections[n] {
            Some(rows) => section_moves(aliases, rows, n != 0),
            None => Seq::empty(),
        }
    }
}

/// The moves of the first `k` sections begin the moves of all of them.
pub proof fn lemma_document_moves_prefix(
    aliases: Seq<(Seq<char>, Seq<char>)>,
    sections: Seq<Option<Seq<TableRow>>>,
    k: int,
)
    requires
        0 <= k <= sections.len(),
    ensures
        document_moves(aliases, sections.take(k)).len() <= document_moves(aliases, sections).len(),
        forall|j: int|
            0 <= j < document_moves(aliases, sections.take(k)).len() ==> #[trigger] document_moves(
                aliases,
                sections.take(k),
            )[j] == document_moves(aliases, sections)[j],
    decreases sections.len(),
{
    if k == sections.len() {
        assert(sections.take(k) =~= sections);
    } else {
        let n = sections.len() - 1;
        lemma_document_moves_prefix(aliases, sections.take(n), k);
        assert(sections.take(n).take(k) =~= sections.take(k));
    }
}

/// Reads the rows of each section into moves, in section order; fails with the first
/// fallback pattern that the regex engine refuses.
pub fn moves_from_sections(
    ex: &Extractor,
    character: CharacterId,
    sections: &Vec<Option<Vec<TableRow>>>,
) -> (r: Result<Vec<Move>, PatternError>)
    requires
        ex.wf(),
    ensures
        resolved_as(r, document_moves(ex.aliases.bindings_of(character), sections_view(sections@))),
{
    let ghost aliases = ex.aliases.bindings_of(character);
    let mut moves: Vec<Move> = Vec::new();
    let mut i: usize = 0;
    while i < sections.len()
        invariant
            ex.wf(),
            aliases == ex.aliases.bindings_of(character),
            i <= sections@.len(),
            move_views(moves@) == document_moves(aliases, sections_view(sections@).take(i as int)),
            all_read_as_written(moves@),
            all_compile(document_moves(aliases, sections_view(sections@).take(i as int))),
        decreases sections@.len() - i,
    {
        let ghost before = document_moves(aliases, sections_view(sections@).take(i as int));
        proof {
            assert(sections_view(sections@).take(i + 1).take(i as int) =~= sections_view(sections@).take(i as int));
        }
        match &sections[i] {
            Some(rows) => {
                match load_section(ex, character, rows, i != 0) {
                    Ok(mut found) => {
                        let ghost added = move_views(found@);
                        let ghost found_before = found@;
                        let ghost prior = moves@;
                        moves.append(&mut found);
                        assert forall|k: int| 0 <= k < moves@.len() implies reads_as_written(
                            #[trigger] moves@[k].regex,
                        ) by {
                            if k >= prior.len() {
                                assert(moves@[k] == found_before[k - prior.len()]);
                            }
                        }
                        assert(move_views(moves@) =~= before + added);
                    },
                    Err(e) => {
                        proof {
                            let section = section_moves(aliases, rows@, i != 0);
                            let j = choose|j: int|
                                0 <= j < section.len() && (#[trigger] section[j]).pattern
                                    == e.pattern@;
                            let upto = document_moves(aliases, sections_view(sections@).take(i + 1));
                            assert(upto[before.len() + j] == section[j]);
                            lemma_document_moves_prefix(aliases, sections_view(sections@), i + 1);
                            assert(document_moves(aliases, sections_view(sections@))[before.len() + j]
                                == section[j]);
                        }
                        return Err(e);
                    },
                }
            },
            None => {},
        }
        proof {
            let upto = document_moves(aliases, sections_view(sections@).take(i + 1));
            assert(upto =~= move_views(moves@));
        }
        i += 1;
    }
    proof {
        assert(sections_view(sections@).take(sections@.len() as int) =~= sections_view(sections@));
    }
    Ok(moves)
}

/// The moves of a character's frame-data document: its section tables found and read in
/// order.
pub fn get_moves(ex: &Extractor, character: CharacterId, document: &str) -> (r: Result<
    Vec<Move>,
    PatternError,
>)
    requires
        ex.wf(),
    ensures
        resolved_as(
            r,
            document_moves(ex.aliases.bindings_of(character), document_sections(*ex, document@)),
        ),
{
    let sections = extract_sections(ex, document);
    moves_from_sections(ex, character, &sections)
}

/// Reading the same document twice for the same character gives the same moves, in the same
/// order, with the same fields: the moves are a function of the document text.
pub proof fn lemma_get_moves_deterministic(
    ex: Extractor,
    character: CharacterId,
    document: Seq<char>,
    first: Result<Vec<Move>, PatternError>,
    second: Result<Vec<Move>, PatternError>,
)
    requires
        resolved_as(
            first,
            document_moves(ex.aliases.bindings_of(character), document_sections(ex, document)),
        ),
        resolved_as(
            second,
            document_moves(ex.aliases.bindings_of(character), document_sections(ex, document)),
        ),
    ensures
        first is Ok <==> second is Ok,
        first is Ok ==> move_views(first->Ok_0@) == move_views(second->Ok_0@),
{
    lemma_resolution_deterministic(
        first,
        second,
        document_moves(ex.aliases.bindings_of(character), document_sections(ex, document)),
    );
}

} // verus!

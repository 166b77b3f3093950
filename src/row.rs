//! Reading one table row into a move: trimmed cell texts in a fixed column order, and the
//! hitbox images that the row's markup refers to.
use vstd::prelude::*;

use crate::CharacterId;
use crate::Move;
use crate::MoveView;
use crate::PatternError;
use crate::bindings::AliasTable;
use crate::bindings::get_all_bindings;
use crate::bindings::alias_data;
use crate::bindings::all_aliases_compile;
use crate::bindings::binding_position;
use crate::bindings::move_pattern;
use crate::pattern::fallback_source;
use crate::pattern::compile_regex;
use crate::pattern::regex_compiles;
use crate::pattern::regex_group_one;
use crate::pattern::regex_group_one_texts;
use crate::pattern::regex_group_texts;
use crate::pattern::reads_as_written;
use crate::pattern::regex_source;
use crate::resolver::parse_selector;
use crate::resolver::parsed_selector;
use crate::resolver::selector_parses;
use crate::text::trim_text;
use crate::text::trimmed;

verus! {

/// One row of a frame-data table: its serialized markup, the inner markup of each data cell
/// in order, and whether it is a header row.
#[derive(Debug, Clone)]
pub struct TableRow {
    pub markup: String,
    pub cells: Vec<String>,
    pub header: bool,
}

/// How many frame-data fields a move has, from damage to risc loss.
pub const STAT_COUNT: usize = 13;

/// The pattern that finds hitbox image paths in a row's markup.
pub open spec fn image_url_pattern() -> Seq<char> {
    "(?i)src=&quot;(\\S*(hitbox|HB)\\S*\\.png)"@
}

/// The site that image paths are relative to.
pub open spec fn site_root() -> Seq<char> {
    "https://www.dustloop.com"@
}

/// The addresses of the hitbox images referred to in a row's markup, in document order.
pub open spec fn hitbox_urls(markup: Seq<char>) -> Seq<Seq<char>> {
    regex_group_one(image_url_pattern(), markup).map_values(|p: Seq<char>| site_root() + p)
}

/// The trimmed text of cell `i`, or empty where the row has no such cell.
pub open spec fn cell_text(cells: Seq<String>, i: int) -> Seq<char> {
    if 0 <= i < cells.len() {
        trimmed(cells[i]@)
    } else {
        Seq::empty()
    }
}

/// A move with the given pattern, notation, name and hitboxes, whose frame data is read from
/// `cells` with the damage cell at `start`.
pub open spec fn move_from_cells(
    pattern: Seq<char>,
    input: Seq<char>,
    name: Seq<char>,
    cells: Seq<String>,
    start: int,
    hitboxes: Seq<Seq<char>>,
) -> MoveView {
    MoveView {
        pattern,
        input,
        name,
        damage: cell_text(cells, start),
        guard: cell_text(cells, start + 1),
        startup: cell_text(cells, start + 2),
        active: cell_text(cells, start + 3),
        recovery: cell_text(cells, start + 4),
        onblock: cell_text(cells, start + 5),
        onhit: cell_text(cells, start + 6),
        level: cell_text(cells, start + 7),
        counterhit_type: cell_text(cells, start + 8),
        invuln: cell_text(cells, start + 9),
        proration: cell_text(cells, start + 10),
        risc_gain: cell_text(cells, start + 11),
        risc_loss: cell_text(cells, start + 12),
        hitboxes,
    }
}

/// Whether every move's pattern is accepted by the regex engine.
pub open spec fn all_compile(moves: Seq<MoveView>) -> bool {
    forall|i: int| 0 <= i < moves.len() ==> regex_compiles(#[trigger] moves[i].pattern)
}

/// The views of a list of moves.
pub open spec fn move_views(moves: Seq<Move>) -> Seq<MoveView> {
    moves.map_values(|m: Move| m@)
}

/// Whether a result is the given moves, or, where the regex engine refuses one of their
/// patterns, an error naming such a pattern.
pub open spec fn resolved_as(r: Result<Vec<Move>, PatternError>, expected: Seq<MoveView>) -> bool {
    &&& r is Ok <==> all_compile(expected)
    &&& r is Ok ==> move_views(r->Ok_0@) == expected
    &&& r is Ok ==> all_read_as_written(r->Ok_0@)
    &&& r is Err ==> !regex_compiles(r->Err_0.pattern@) && exists|i: int|
        0 <= i < expected.len() && (#[trigger] expected[i]).pattern == r->Err_0.pattern@
}

/// The moves of a section table's rows, in order (see `row_move`); header rows give none.
pub open spec fn section_moves(
    aliases: Seq<(Seq<char>, Seq<char>)>,
    rows: Seq<TableRow>,
    named: bool,
) -> Seq<MoveView>
    decreases rows.len(),
{
    if rows.len() == 0 {
        Seq::empty()
    } else {
        let n = rows.len() - 1;
        section_moves(aliases, rows.take(n), named) + if rows[n].header {
            Seq::empty()
        } else {
            seq![row_move(aliases, rows[n].cells@, named, hitbox_urls(rows[n].markup@))]
        }
    }
}

/// The moves of the first `k` rows begin the moves of all of them.
pub proof fn lemma_section_moves_prefix(
    aliases: Seq<(Seq<char>, Seq<char>)>,
    rows: Seq<TableRow>,
    named: bool,
    k: int,
)
    requires
        0 <= k <= rows.len(),
    ensures
        section_moves(aliases, rows.take(k), named).len() <= section_moves(aliases, rows, named).len(),
        forall|j: int|
            0 <= j < section_moves(aliases, rows.take(k), named).len() ==> #[trigger] section_moves(
                aliases,
                rows.take(k),
                named,
            )[j] == section_moves(aliases, rows, named)[j],
    decreases rows.len(),
{
    if k == rows.len() {
        assert(rows.take(k) =~= rows);
    } else {
        let n = rows.len() - 1;
        lemma_section_moves_prefix(aliases, rows.take(n), named, k);
        assert(rows.take(n).take(k) =~= rows.take(k));
    }
}

/// A section of one header row followed by data rows gives one move per data row, in order,
/// each read from its own row and named from its own cells.
pub proof fn lemma_section_shape(
    aliases: Seq<(Seq<char>, Seq<char>)>,
    rows: Seq<TableRow>,
    named: bool,
)
    requires
        rows.len() >= 1,
        rows[0].header,
        forall|i: int| 1 <= i < rows.len() ==> !(#[trigger] rows[i]).header,
    ensures
        section_moves(aliases, rows, named).len() == rows.len() - 1,
        forall|i: int|
            0 <= i < rows.len() - 1 ==> #[trigger] section_moves(aliases, rows, named)[i]
                == row_move(aliases, rows[i + 1].cells@, named, hitbox_urls(rows[i + 1].markup@)),
    decreases rows.len(),
{
    let n = rows.len() - 1;
    if n == 0 {
        assert(rows.take(0) =~= Seq::<TableRow>::empty());
    } else {
        let prefix = rows.take(n);
        assert forall|i: int| 1 <= i < prefix.len() implies !(#[trigger] prefix[i]).header by {
            assert(prefix[i] == rows[i]);
        }
        lemma_section_shape(aliases, prefix, named);
        assert(!rows[n].header);
        let whole = section_moves(aliases, rows, named);
        let front = section_moves(aliases, prefix, named);
        assert(whole == front + seq![
            row_move(aliases, rows[n].cells@, named, hitbox_urls(rows[n].markup@)),
        ]);
        assert forall|i: int| 0 <= i < n implies #[trigger] whole[i] == row_move(
            aliases,
            rows[i + 1].cells@,
            named,
            hitbox_urls(rows[i + 1].markup@),
        ) by {
            if i < n - 1 {
                assert(whole[i] == front[i]);
                assert(prefix[i + 1] == rows[i + 1]);
            }
        }
    }
}

/// The texts of the selectors that find a document's section tables, in section order.
pub open spec fn section_locators() -> Seq<Seq<char>> {
    seq![
        "#section-collapsible-3 > table"@,
        "#section-collapsible-4 > table"@,
        "#section-collapsible-5 > table"@,
    ]
}

/// Two results that are each resolved as the same moves agree: reading identical input
/// twice gives the same moves, in the same order, with the same fields.
pub proof fn lemma_resolution_deterministic(
    first: Result<Vec<Move>, PatternError>,
    second: Result<Vec<Move>, PatternError>,
    expected: Seq<MoveView>,
)
    requires
        resolved_as(first, expected),
        resolved_as(second, expected),
    ensures
        first is Ok <==> second is Ok,
        first is Ok ==> move_views(first->Ok_0@) == move_views(second->Ok_0@),
{
}

/// A row that ends after its damage cell gives empty text for every field after damage.
pub proof fn lemma_missing_cells_are_empty(
    pattern: Seq<char>,
    input: Seq<char>,
    name: Seq<char>,
    cells: Seq<String>,
    start: int,
    hitboxes: Seq<Seq<char>>,
)
    requires
        0 <= start,
        cells.len() == start + 1,
    ensures
        ({
            let m = move_from_cells(pattern, input, name, cells, start, hitboxes);
            &&& m.damage == trimmed(cells[start]@)
            &&& m.guard.len() == 0 && m.startup.len() == 0 && m.active.len() == 0
            &&& m.recovery.len() == 0 && m.onblock.len() == 0 && m.onhit.len() == 0
            &&& m.level.len() == 0 && m.counterhit_type.len() == 0 && m.invuln.len() == 0
            &&& m.proration.len() == 0 && m.risc_gain.len() == 0 && m.risc_loss.len() == 0
        }),
{
}

/// A section row whose notation and name have no alias binding gets the fallback pattern of
/// its notation.
pub proof fn lemma_unbound_row_uses_fallback(
    aliases: Seq<(Seq<char>, Seq<char>)>,
    cells: Seq<String>,
    named: bool,
    hitboxes: Seq<Seq<char>>,
)
    requires
        binding_position(
            aliases,
            cell_text(cells, 1),
            if named { cell_text(cells, 2) } else { cell_text(cells, 1) },
        ) is None,
    ensures
        row_move(aliases, cells, named, hitboxes).pattern == fallback_source(cell_text(cells, 1)),
{
}

/// A section row whose notation or name has an alias binding gets the pattern of the first
/// such binding.
pub proof fn lemma_bound_row_uses_alias(
    aliases: Seq<(Seq<char>, Seq<char>)>,
    cells: Seq<String>,
    named: bool,
    hitboxes: Seq<Seq<char>>,
    j: int,
)
    requires
        binding_position(
            aliases,
            cell_text(cells, 1),
            if named { cell_text(cells, 2) } else { cell_text(cells, 1) },
        ) == Some(j),
    ensures
        row_move(aliases, cells, named, hitboxes).pattern == aliases[j].0,
{
}

/// What the library compiles once before any document is read: the alias table, the hitbox
/// image matcher, and the selectors of the section tables, their rows and their cells.
#[derive(Debug)]
pub struct Extractor {
    pub aliases: AliasTable,
    pub image_url_matcher: regex::Regex,
    pub section_selectors: Vec<scraper::Selector>,
    pub row_selector: scraper::Selector,
    pub cell_selector: scraper::Selector,
}

/// How many section tables a frame-data document has: normals, specials and overdrives.
pub const SECTION_COUNT: usize = 3;

impl Extractor {
    pub open spec fn wf(&self) -> bool {
        &&& self.aliases.wf()
        &&& regex_source(self.image_url_matcher) == image_url_pattern()
        &&& forall|h: Seq<char>|
            #[trigger] regex_group_texts(self.image_url_matcher, h) == regex_group_one(
                image_url_pattern(),
                h,
            )
        &&& self.section_selectors@.len() == SECTION_COUNT
        &&& forall|i: int|
            0 <= i < SECTION_COUNT ==> #[trigger] self.section_selectors@[i] == parsed_selector(
                section_locators()[i],
            )
        &&& self.row_selector == parsed_selector("tbody > tr"@)
        &&& self.cell_selector == parsed_selector("td"@)
    }

    /// Whether every pattern and selector of the configuration is accepted.
    pub open spec fn configuration_accepted() -> bool {
        &&& all_aliases_compile()
        &&& regex_compiles(image_url_pattern())
        &&& forall|i: int|
            0 <= i < SECTION_COUNT ==> selector_parses(#[trigger] section_locators()[i])
        &&& selector_parses("tbody > tr"@)
        &&& selector_parses("td"@)
    }

    /// Compiles every alias pattern, the hitbox image matcher and the selectors; fails with
    /// the first pattern or selector that is refused.
    pub fn new() -> (r: Result<Extractor, PatternError>)
        ensures
            r is Ok <==> Self::configuration_accepted(),
            r is Ok ==> r->Ok_0.wf() && forall|id: CharacterId|
                #[trigger] r->Ok_0.aliases.bindings_of(id) == alias_data(id),
    {
        let aliases = match get_all_bindings() {
            Ok(t) => t,
            Err(e) => {
                return Err(e);
            },
        };
        let source = "(?i)src=&quot;(\\S*(hitbox|HB)\\S*\\.png)";
        let image_url_matcher = match compile_regex(source) {
            Some(re) => re,
            None => {
                return Err(PatternError { pattern: String::from_str(source) });
            },
        };
        let section_texts: Vec<&str> = vec![
            "#section-collapsible-3 > table",
            "#section-collapsible-4 > table",
            "#section-collapsible-5 > table",
        ];
        assert(section_texts@.map_values(|s: &str| s@) =~= section_locators());
        let mut section_selectors: Vec<scraper::Selector> = Vec::new();
        let mut i: usize = 0;
        while i < section_texts.len()
            invariant
                section_texts@.len() == SECTION_COUNT,
                section_texts@.map_values(|s: &str| s@) == section_locators(),
                i <= section_texts@.len(),
                section_selectors@.len() == i,
                forall|k: int| 0 <= k < i ==> selector_parses(#[trigger] section_locators()[k]),
                forall|k: int|
                    0 <= k < i ==> #[trigger] section_selectors@[k] == parsed_selector(
                        section_locators()[k],
                    ),
            decreases section_texts@.len() - i,
        {
            assert(section_texts@[i as int]@ == section_locators()[i as int]);
            match parse_selector(section_texts[i]) {
                Some(s) => section_selectors.push(s),
                None => {
                    return Err(PatternError { pattern: String::from_str(section_texts[i]) });
                },
            }
            i += 1;
        }
        let row_text = "tbody > tr";
        let row_selector = match parse_selector(row_text) {
            Some(s) => s,
            None => {
                return Err(PatternError { pattern: String::from_str(row_text) });
            },
        };
        let cell_text = "td";
        let cell_selector = match parse_selector(cell_text) {
            Some(s) => s,
            None => {
                return Err(PatternError { pattern: String::from_str(cell_text) });
            },
        };
        Ok(Extractor { aliases, image_url_matcher, section_selectors, row_selector, cell_selector })
    }

    /// The addresses of the hitbox images that a row's markup refers to, in document order,
    /// duplicates kept.
    pub fn hitboxes(&self, markup: &str) -> (r: Vec<String>)
        requires
            self.wf(),
        ensures
            r@.map_values(|h: String| h@) == hitbox_urls(markup@),
    {
        let paths = regex_group_one_texts(&self.image_url_matcher, markup);
        let ghost found = paths@.map_values(|s: String| s@);
        assert(regex_group_texts(self.image_url_matcher, markup@) == regex_group_one(
            image_url_pattern(),
            markup@,
        ));
        let mut urls: Vec<String> = Vec::new();
        let mut i: usize = 0;
        while i < paths.len()
            invariant
                i <= paths@.len(),
                found == paths@.map_values(|s: String| s@),
                urls@.len() == i,
                forall|k: int|
                    0 <= k < i ==> (#[trigger] urls@[k])@ == site_root() + found[k],
            decreases paths@.len() - i,
        {
            let mut url = String::from_str("https://www.dustloop.com");
            url.append(paths[i].as_str());
            urls.push(url);
            i += 1;
        }
        assert(urls@.map_values(|h: String| h@) =~= hitbox_urls(markup@));
        urls
    }
}

/// The trimmed text of cell `i`, or empty where the row has no such cell.
pub fn cell_at(cells: &Vec<String>, i: usize) -> (r: String)
    ensures
        r@ == cell_text(cells@, i as int),
        trimmed(r@) == r@,
{
    if i < cells.len() {
        trim_text(cells[i].as_str())
    } else {
        proof {
            reveal_strlit("");
        }
        let r = trim_text("");
        assert(r@ =~= Seq::<char>::empty());
        r
    }
}

/// Whether every frame-data field of a move is its own trim.
pub open spec fn stats_trimmed(m: MoveView) -> bool {
    &&& trimmed(m.damage) == m.damage && trimmed(m.guard) == m.guard
    &&& trimmed(m.startup) == m.startup && trimmed(m.active) == m.active
    &&& trimmed(m.recovery) == m.recovery && trimmed(m.onblock) == m.onblock
    &&& trimmed(m.onhit) == m.onhit && trimmed(m.level) == m.level
    &&& trimmed(m.counterhit_type) == m.counterhit_type && trimmed(m.invuln) == m.invuln
    &&& trimmed(m.proration) == m.proration && trimmed(m.risc_gain) == m.risc_gain
    &&& trimmed(m.risc_loss) == m.risc_loss
}

/// Whether the notation, the name and every frame-data field of a move is its own trim.
pub open spec fn all_trimmed(m: MoveView) -> bool {
    trimmed(m.input) == m.input && trimmed(m.name) == m.name && stats_trimmed(m)
}

/// Whether every move's regex matches exactly what its pattern text matches.
pub open spec fn all_read_as_written(moves: Seq<Move>) -> bool {
    forall|i: int| 0 <= i < moves.len() ==> reads_as_written(#[trigger] moves[i].regex)
}

/// A move with the given pattern, notation and name, whose frame data is read from `cells`
/// with the damage cell at `start`; missing cells give empty fields.
pub fn move_with_stats(
    regex: regex::Regex,
    input: String,
    name: String,
    cells: &Vec<String>,
    start: usize,
) -> (r: Move)
    requires
        start + STAT_COUNT <= usize::MAX,
    ensures
        r@ == move_from_cells(regex_source(regex), input@, name@, cells@, start as int, seq![]),
        r.regex == regex,
        stats_trimmed(r@),
{
    let r = Move {
        regex,
        input,
        name,
        damage: cell_at(cells, start),
        guard: cell_at(cells, start + 1),
        startup: cell_at(cells, start + 2),
        active: cell_at(cells, start + 3),
        recovery: cell_at(cells, start + 4),
        onblock: cell_at(cells, start + 5),
        onhit: cell_at(cells, start + 6),
        level: cell_at(cells, start + 7),
        counterhit_type: cell_at(cells, start + 8),
        invuln: cell_at(cells, start + 9),
        proration: cell_at(cells, start + 10),
        risc_gain: cell_at(cells, start + 11),
        risc_loss: cell_at(cells, start + 12),
        hitboxes: Vec::new(),
    };
    assert(r@.hitboxes =~= seq![]);
    r
}

/// The pattern of the move that a section row describes (see `row_move`).
pub open spec fn row_pattern(
    aliases: Seq<(Seq<char>, Seq<char>)>,
    cells: Seq<String>,
    named: bool,
) -> Seq<char> {
    let input = cell_text(cells, 1);
    let name = if named { cell_text(cells, 2) } else { input };
    move_pattern(aliases, input, name)
}

/// The move that a row of a section table describes. Cell 0 is a details control; cell 1
/// holds the raw notation; in a named layout cell 2 holds the name, else the notation doubles
/// as the name; the frame data follows.
pub open spec fn row_move(
    aliases: Seq<(Seq<char>, Seq<char>)>,
    cells: Seq<String>,
    named: bool,
    hitboxes: Seq<Seq<char>>,
) -> MoveView {
    let input = cell_text(cells, 1);
    let name = if named { cell_text(cells, 2) } else { input };
    move_from_cells(
        move_pattern(aliases, input, name),
        input,
        name,
        cells,
        if named { 3 } else { 2 },
        hitboxes,
    )
}

/// Reads a section row into a move without hitboxes; fails only where the regex engine
/// refuses the move's fallback pattern.
pub fn parse_row(ex: &Extractor, cells: &Vec<String>, character_id: CharacterId, named: bool) -> (r:
    Result<Move, PatternError>)
    requires
        ex.wf(),
    ensures
        r is Ok <==> regex_compiles(row_pattern(ex.aliases.bindings_of(character_id), cells@, named)),
        r is Ok ==> r->Ok_0@ == row_move(ex.aliases.bindings_of(character_id), cells@, named, seq![]),
        r is Ok ==> reads_as_written(r->Ok_0.regex) && all_trimmed(r->Ok_0@),
        r is Err ==> r->Err_0.pattern@ == row_pattern(
            ex.aliases.bindings_of(character_id),
            cells@,
            named,
        ),
{
    let input = cell_at(cells, 1);
    let name = if named {
        cell_at(cells, 2)
    } else {
        input.clone()
    };
    let start: usize = if named {
        3
    } else {
        2
    };
    let regex = match ex.aliases.move_regex(character_id, input.as_str(), name.as_str()) {
        Ok(re) => re,
        Err(e) => {
            return Err(e);
        },
    };
    Ok(move_with_stats(regex, input, name, cells, start))
}

/// Reads every row of a section table into a move, with the hitboxes that its markup refers
/// to; fails with the first fallback pattern that the regex engine refuses.
pub fn load_section(ex: &Extractor, character: CharacterId, rows: &Vec<TableRow>, named: bool) -> (r:
    Result<Vec<Move>, PatternError>)
    requires
        ex.wf(),
    ensures
        resolved_as(r, section_moves(ex.aliases.bindings_of(character), rows@, named)),
        r is Ok ==> forall|i: int| 0 <= i < r->Ok_0@.len() ==> all_trimmed((#[trigger] r->Ok_0@[i])@),
{
    let ghost aliases = ex.aliases.bindings_of(character);
    let mut moves: Vec<Move> = Vec::new();
    let mut i: usize = 0;
    while i < rows.len()
        invariant
            ex.wf(),
            aliases == ex.aliases.bindings_of(character),
            i <= rows@.len(),
            move_views(moves@) == section_moves(aliases, rows@.take(i as int), named),
            all_read_as_written(moves@),
            forall|k: int| 0 <= k < moves@.len() ==> all_trimmed((#[trigger] moves@[k])@),
            all_compile(section_moves(aliases, rows@.take(i as int), named)),
        decreases rows@.len() - i,
    {
        let ghost before = section_moves(aliases, rows@.take(i as int), named);
        proof {
            assert(rows@.take(i + 1).take(i as int) =~= rows@.take(i as int));
        }
        let row = &rows[i];
        if !row.header {
            let mut move_found = match parse_row(ex, &row.cells, character, named) {
                Ok(m) => m,
                Err(e) => {
                    proof {
                        let upto = section_moves(aliases, rows@.take(i + 1), named);
                        assert(upto[before.len() as int].pattern == e.pattern@);
                        lemma_section_moves_prefix(aliases, rows@, named, i + 1);
                        assert(section_moves(aliases, rows@, named)[before.len() as int] == upto[before.len() as int]);
                    }
                    return Err(e);
                },
            };
            move_found.hitboxes = ex.hitboxes(row.markup.as_str());
            moves.push(move_found);
        }
        assert(move_views(moves@) =~= section_moves(aliases, rows@.take(i + 1), named));
        i += 1;
    }
    assert(rows@.take(rows@.len() as int) =~= rows@);
    Ok(moves)
}

} // verus!

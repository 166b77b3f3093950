//! Pairing the move-name headers of a section with its data sub-tables, and resolving each
//! pair through the resolver chain.
use vstd::prelude::*;

use crate::CharacterId;
use crate::Move;
use crate::MoveView;
use crate::PatternError;
use crate::chain::ResolverChain;
use crate::row::Extractor;
use crate::row::TableRow;
use crate::row::all_compile;
use crate::row::all_read_as_written;
use crate::row::move_views;
use crate::row::resolved_as;
use crate::resolver::parse_html;
use crate::resolver::parsed_html;
use crate::resolver::scrape_tables;
use crate::resolver::scrape_texts;
use crate::resolver::scraped_tables;
use crate::resolver::scraped_texts;
use crate::resolver::table_rows;
use crate::resolver::table_rows_of;
use crate::text::trim_text;
use crate::text::trimmed;

verus! {

/// A header of one character that names a sub-variant, not a move of its own, and is left
/// out before pairing.
#[derive(Debug, Clone)]
pub struct Exclusion {
    pub character: CharacterId,
    pub name: String,
}

/// A move-name header with the data sub-table that belongs to it.
#[derive(Debug, Clone)]
pub struct SectionPair {
    pub name: String,
    pub table: Vec<TableRow>,
}

/// Whether a cleaned header is excluded for the character.
pub open spec fn is_excluded(character: CharacterId, exclusions: Seq<Exclusion>, name: Seq<char>) -> bool {
    exists|i: int|
        0 <= i < exclusions.len() && (#[trigger] exclusions[i]).character == character
            && exclusions[i].name@ == name
}

/// The cleaned (trimmed) headers of a section that are not excluded, in document order.
pub open spec fn kept_headers(
    character: CharacterId,
    exclusions: Seq<Exclusion>,
    headers: Seq<String>,
) -> Seq<Seq<char>>
    decreases headers.len(),
{
    if headers.len() == 0 {
        Seq::empty()
    } else {
        let n = headers.len() - 1;
        let rest = kept_headers(character, exclusions, headers.take(n));
        let name = trimmed(headers[n]@);
        if is_excluded(character, exclusions, name) {
            rest
        } else {
            rest.push(name)
        }
    }
}

fn excluded(character: CharacterId, exclusions: &Vec<Exclusion>, name: &String) -> (r: bool)
    ensures
        r == is_excluded(character, exclusions@, name@),
{
    let mut i: usize = 0;
    while i < exclusions.len()
        invariant
            i <= exclusions@.len(),
            forall|k: int|
                0 <= k < i ==> !((#[trigger] exclusions@[k]).character == character
                    && exclusions@[k].name@ == name@),
        decreases exclusions@.len() - i,
    {
        if exclusions[i].character == character && exclusions[i].name == *name {
            return true;
        }
        i += 1;
    }
    false
}

/// Pairs the kept headers of a section with its sub-tables in document order; where the two
/// counts differ, the shorter decides how many pairs there are.
pub fn pair_sections(
    character: CharacterId,
    headers: &Vec<String>,
    tables: Vec<Vec<TableRow>>,
    exclusions: &Vec<Exclusion>,
) -> (r: Vec<SectionPair>)
    ensures
        ({
            let kept = kept_headers(character, exclusions@, headers@);
            &&& r@.len() == if kept.len() <= tables@.len() {
                kept.len()
            } else {
                tables@.len()
            }
            &&& forall|i: int|
                0 <= i < r@.len() ==> (#[trigger] r@[i]).name@ == kept[i] && r@[i].table
                    == tables@[i]
            &&& pair_views(r@) == paired(kept, tables_view(tables@))
        }),
{
    let mut kept: Vec<String> = Vec::new();
    let mut i: usize = 0;
    while i < headers.len()
        invariant
            i <= headers@.len(),
            kept@.map_values(|s: String| s@) == kept_headers(
                character,
                exclusions@,
                headers@.take(i as int),
            ),
        decreases headers@.len() - i,
    {
        proof {
            assert(headers@.take(i + 1).take(i as int) =~= headers@.take(i as int));
        }
        let name = trim_text(headers[i].as_str());
        if !excluded(character, exclusions, &name) {
            kept.push(name);
        }
        assert(kept@.map_values(|s: String| s@) =~= kept_headers(
            character,
            exclusions@,
            headers@.take(i + 1),
        ));
        i += 1;
    }
    assert(headers@.take(headers@.len() as int) =~= headers@);
    let ghost names = kept@.map_values(|s: String| s@);
    let ghost all_tables = tables@;
    let count = if kept.len() <= tables.len() {
        kept.len()
    } else {
        tables.len()
    };
    let mut rest = tables;
    let mut pairs: Vec<SectionPair> = Vec::new();
    let mut j: usize = 0;
    while j < count
        invariant
            count <= kept@.len(),
            count <= all_tables.len(),
            names == kept@.map_values(|s: String| s@),
            j <= count,
            rest@ == all_tables.skip(j as int),
            pairs@.len() == j,
            forall|k: int|
                0 <= k < j ==> (#[trigger] pairs@[k]).name@ == names[k] && pairs@[k].table
                    == all_tables[k],
        decreases count - j,
    {
        let table = rest.remove(0);
        pairs.push(SectionPair { name: kept[j].clone(), table });
        j += 1;
        assert(rest@ =~= all_tables.skip(j as int));
    }
    assert(pair_views(pairs@) =~= paired(names, tables_view(all_tables)));
    pairs
}

/// A pair as its name and rows.
pub open spec fn pair_views(pairs: Seq<SectionPair>) -> Seq<(Seq<char>, Seq<TableRow>)> {
    pairs.map_values(|p: SectionPair| (p.name@, p.table@))
}

/// The names paired with the tables in order, as many pairs as the shorter of the two has.
pub open spec fn paired(names: Seq<Seq<char>>, tables: Seq<Seq<TableRow>>) -> Seq<
    (Seq<char>, Seq<TableRow>),
> {
    Seq::new(
        if names.len() <= tables.len() {
            names.len()
        } else {
            tables.len()
        },
        |i: int| (names[i], tables[i]),
    )
}

/// The rows of each table.
pub open spec fn tables_view(tables: Seq<Vec<TableRow>>) -> Seq<Seq<TableRow>> {
    tables.map_values(|t: Vec<TableRow>| t@)
}

/// The moves that the chain gives for each pair, in order.
pub open spec fn pairs_moves(
    chain: ResolverChain,
    aliases: Seq<(Seq<char>, Seq<char>)>,
    character: CharacterId,
    pairs: Seq<(Seq<char>, Seq<TableRow>)>,
) -> Seq<MoveView>
    decreases pairs.len(),
{
    if pairs.len() == 0 {
        Seq::empty()
    } else {
        let n = pairs.len() - 1;
        pairs_moves(chain, aliases, character, pairs.take(n)) + chain.chain_moves(
            aliases,
            character,
            pairs[n].0,
            pairs[n].1,
        )
    }
}

/// The moves of the first `k` pairs begin the moves of all of them.
pub proof fn lemma_pairs_moves_prefix(
    chain: ResolverChain,
    aliases: Seq<(Seq<char>, Seq<char>)>,
    character: CharacterId,
    pairs: Seq<(Seq<char>, Seq<TableRow>)>,
    k: int,
)
    requires
        0 <= k <= pairs.len(),
    ensures
        pairs_moves(chain, aliases, character, pairs.take(k)).len() <= pairs_moves(
            chain,
            aliases,
            character,
            pairs,
        ).len(),
        forall|j: int|
            0 <= j < pairs_moves(chain, aliases, character, pairs.take(k)).len()
                ==> #[trigger] pairs_moves(chain, aliases, character, pairs.take(k))[j]
                == pairs_moves(chain, aliases, character, pairs)[j],
    decreases pairs.len(),
{
    if k == pairs.len() {
        assert(pairs.take(k) =~= pairs);
    } else {
        let n = pairs.len() - 1;
        lemma_pairs_moves_prefix(chain, aliases, character, pairs.take(n), k);
        assert(pairs.take(n).take(k) =~= pairs.take(k));
    }
}

impl ResolverChain {
    /// Resolves every (name, sub-table) pair of a section through the chain, in order, and
    /// gathers their moves; fails with the first fallback pattern that the regex engine
    /// refuses.
    pub fn resolve_pairs(&self, ex: &Extractor, character: CharacterId, pairs: &Vec<SectionPair>) -> (r:
        Result<Vec<Move>, PatternError>)
        requires
            ex.wf(),
        ensures
            resolved_as(r, pairs_moves(*self, ex.aliases.bindings_of(character), character, pair_views(pairs@))),
    {
        let ghost aliases = ex.aliases.bindings_of(character);
        let mut moves: Vec<Move> = Vec::new();
        let mut i: usize = 0;
        while i < pairs.len()
            invariant
                ex.wf(),
                aliases == ex.aliases.bindings_of(character),
                i <= pairs@.len(),
                move_views(moves@) == pairs_moves(*self, aliases, character, pair_views(pairs@).take(i as int)),
                all_read_as_written(moves@),
                all_compile(pairs_moves(*self, aliases, character, pair_views(pairs@).take(i as int))),
            decreases pairs@.len() - i,
        {
            let ghost before = pairs_moves(*self, aliases, character, pair_views(pairs@).take(i as int));
            proof {
                assert(pair_views(pairs@).take(i + 1).take(i as int) =~= pair_views(pairs@).take(i as int));
            }
            let pair = &pairs[i];
            match self.resolve(ex, character, pair.name.as_str(), &pair.table) {
                Ok(mut found) => {
                    let ghost added = move_views(found@);
                    let ghost found_before = found@;
                    moves.append(&mut found);
                    assert(move_views(moves@) =~= before + added);
                },
                Err(e) => {
                    proof {
                        let claimed = self.chain_moves(aliases, character, pair.name@, pair.table@);
                        let j = choose|j: int|
                            0 <= j < claimed.len() && (#[trigger] claimed[j]).pattern == e.pattern@;
                        let upto = pairs_moves(*self, aliases, character, pair_views(pairs@).take(i + 1));
                        assert(upto[before.len() + j] == claimed[j]);
                        lemma_pairs_moves_prefix(*self, aliases, character, pair_views(pairs@), i + 1);
                        assert(pairs_moves(*self, aliases, character, pair_views(pairs@))[before.len() + j]
                            == claimed[j]);
                    }
                    return Err(e);
                },
            }
            i += 1;
        }
        proof {
            assert(pair_views(pairs@).take(pairs@.len() as int) =~= pair_views(pairs@));
        }
        Ok(moves)
    }
}

/// The sub-tables of a document that `tables` selects, each as its rows.
pub open spec fn document_tables(ex: Extractor, document: Seq<char>, tables: scraper::Selector) -> Seq<
    Seq<TableRow>,
> {
    scraped_tables(parsed_html(document), tables, ex.row_selector, ex.cell_selector)@.map_values(
        |t: Vec<(String, Vec<String>)>| table_rows_of(t@),
    )
}

/// The (name, sub-table) pairs of a document: the kept move-name headers that `headers`
/// selects, paired in order with the sub-tables that `tables` selects.
pub open spec fn document_pairs(
    ex: Extractor,
    character: CharacterId,
    exclusions: Seq<Exclusion>,
    document: Seq<char>,
    headers: scraper::Selector,
    tables: scraper::Selector,
) -> Seq<(Seq<char>, Seq<TableRow>)> {
    paired(
        kept_headers(character, exclusions, scraped_texts(parsed_html(document), headers)@),
        document_tables(ex, document, tables),
    )
}

impl ResolverChain {
    /// The moves of a document laid out as move-name headers each followed by a sub-table:
    /// the headers and sub-tables are paired, and each pair is resolved through the chain.
    pub fn resolve_document(
        &self,
        ex: &Extractor,
        character: CharacterId,
        document: &str,
        headers: &scraper::Selector,
        tables: &scraper::Selector,
        exclusions: &Vec<Exclusion>,
    ) -> (r: Result<Vec<Move>, PatternError>)
        requires
            ex.wf(),
        ensures
            resolved_as(
                r,
                pairs_moves(
                    *self,
                    ex.aliases.bindings_of(character),
                    character,
                    document_pairs(*ex, character, exclusions@, document@, *headers, *tables),
                ),
            ),
    {
        let html = parse_html(document);
        let names = scrape_texts(&html, headers);
        let raw = scrape_tables(&html, tables, &ex.row_selector, &ex.cell_selector);
        let ghost expected = document_tables(*ex, document@, *tables);
        let ghost all = raw@;
        let n = raw.len();
        let mut rest = raw;
        let mut subtables: Vec<Vec<TableRow>> = Vec::new();
        let mut i: usize = 0;
        while i < n
            invariant
                n == all.len(),
                expected == all.map_values(|t: Vec<(String, Vec<String>)>| table_rows_of(t@)),
                i <= n,
                rest@ == all.skip(i as int),
                subtables@.len() == i,
                forall|k: int| 0 <= k < i ==> (#[trigger] subtables@[k])@ == expected[k],
            decreases n - i,
        {
            let t = rest.remove(0);
            subtables.push(table_rows(t));
            i += 1;
            assert(rest@ =~= all.skip(i as int));
        }
        assert(tables_view(subtables@) =~= expected);
        let pairs = pair_sections(character, &names, subtables, exclusions);
        self.resolve_pairs(ex, character, &pairs)
    }
}

} // verus!

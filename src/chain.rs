//! The resolver chain: strategies tried in a fixed priority order on each (move name,
//! sub-table) pair, the first that claims the pair deciding its moves.
//!
//! The order is: per-character overrides, then per-character quirks, then the generic
//! single-row resolver, then the generic versioned-rows resolver. A pair that none claims
//! gives no move.
use vstd::prelude::*;

use crate::CharacterId;
use crate::first_where;
use crate::is_first_where;
use crate::lemma_first_where_is;
use crate::lemma_first_where_none;
use crate::lemma_least_where;
use crate::Move;
use crate::MoveView;
use crate::PatternError;
use crate::bindings::move_pattern;
use crate::pattern::regex_compiles;
use crate::row::Extractor;
use crate::row::TableRow;
use crate::row::all_read_as_written;
use crate::pattern::reads_as_written;
use crate::row::move_views;
use crate::row::resolved_as;
use crate::row::cell_at;
use crate::row::cell_text;
use crate::row::hitbox_urls;
use crate::row::move_from_cells;
use crate::row::move_with_stats;
use crate::text::contains_text;
use crate::text::text_contains;

verus! {

/// What an override does with the sub-table of the move it names.
#[derive(Debug, Clone)]
pub enum OverrideAction {
    /// The first data rows become separate moves, one per given name, in order.
    Split(Vec<String>),
    /// The pair is claimed and gives no move.
    Discard,
}

/// A hand-written exception for one character and one exact move name.
#[derive(Debug, Clone)]
pub struct Override {
    pub character: CharacterId,
    pub name: String,
    pub action: OverrideAction,
}

/// A structural quirk of one character: a move name that contains `fragment` is read by the
/// single-row resolver under the name `renamed`.
#[derive(Debug, Clone)]
pub struct Quirk {
    pub character: CharacterId,
    pub fragment: String,
    pub renamed: String,
}

/// The configured exceptions, in priority order within each kind.
#[derive(Debug, Clone)]
pub struct ResolverChain {
    pub overrides: Vec<Override>,
    pub quirks: Vec<Quirk>,
}

/// Whether the sub-table is one header row followed by one data row.
pub open spec fn single_row_shape(table: Seq<TableRow>) -> bool {
    table.len() == 2 && table[0].header && !table[1].header
}

/// Whether the sub-table is one header row followed by more than one data row.
pub open spec fn versioned_shape(table: Seq<TableRow>) -> bool {
    &&& table.len() > 2
    &&& table[0].header
    &&& forall|i: int| 1 <= i < table.len() ==> !(#[trigger] table[i]).header
}

/// The move that a data row gives under a label that serves as notation and name, its frame
/// data starting at cell `start`.
pub open spec fn labelled_move(
    aliases: Seq<(Seq<char>, Seq<char>)>,
    label: Seq<char>,
    row: TableRow,
    start: int,
) -> MoveView {
    move_from_cells(
        move_pattern(aliases, label, label),
        label,
        label,
        row.cells@,
        start,
        hitbox_urls(row.markup@),
    )
}

/// The generic single-row resolver's move: the data row read under the supplied name.
pub open spec fn single_row_moves(
    aliases: Seq<(Seq<char>, Seq<char>)>,
    name: Seq<char>,
    table: Seq<TableRow>,
) -> Seq<MoveView> {
    seq![labelled_move(aliases, name, table[1], 0)]
}

/// The generic versioned-rows resolver's moves: one per data row, named by its leading cell.
pub open spec fn versioned_moves(aliases: Seq<(Seq<char>, Seq<char>)>, table: Seq<TableRow>) -> Seq<
    MoveView,
> {
    Seq::new(
        (table.len() - 1) as nat,
        |i: int| labelled_move(aliases, cell_text(table[i + 1].cells@, 0), table[i + 1], 1),
    )
}

/// Whether an override claims the pair.
pub open spec fn override_claims(
    o: Override,
    character: CharacterId,
    name: Seq<char>,
    table: Seq<TableRow>,
) -> bool {
    &&& o.character == character
    &&& o.name@ == name
    &&& match o.action {
        OverrideAction::Split(names) => table.len() >= 1 && table[0].header && names@.len() + 1
            <= table.len(),
        OverrideAction::Discard => true,
    }
}

/// The moves of an override that claims the pair.
pub open spec fn override_moves(
    aliases: Seq<(Seq<char>, Seq<char>)>,
    o: Override,
    table: Seq<TableRow>,
) -> Seq<MoveView> {
    match o.action {
        OverrideAction::Split(names) => Seq::new(
            names@.len(),
            |i: int| labelled_move(aliases, names@[i]@, table[i + 1], 0),
        ),
        OverrideAction::Discard => Seq::empty(),
    }
}

/// Whether a quirk claims the pair.
pub open spec fn quirk_claims(
    q: Quirk,
    character: CharacterId,
    name: Seq<char>,
    table: Seq<TableRow>,
) -> bool {
    q.character == character && contains_text(name, q.fragment@) && single_row_shape(table)
}

impl ResolverChain {
    /// The first override that claims the pair.
    pub open spec fn claiming_override(
        &self,
        character: CharacterId,
        name: Seq<char>,
        table: Seq<TableRow>,
    ) -> Option<int> {
        first_where(
            self.overrides@.len() as int,
            |i: int| override_claims(self.overrides@[i], character, name, table),
        )
    }

    /// The first quirk that claims the pair.
    pub open spec fn claiming_quirk(
        &self,
        character: CharacterId,
        name: Seq<char>,
        table: Seq<TableRow>,
    ) -> Option<int> {
        first_where(
            self.quirks@.len() as int,
            |i: int| quirk_claims(self.quirks@[i], character, name, table),
        )
    }

    /// The moves that the chain gives for a (name, sub-table) pair of a character.
    pub open spec fn chain_moves(
        &self,
        aliases: Seq<(Seq<char>, Seq<char>)>,
        character: CharacterId,
        name: Seq<char>,
        table: Seq<TableRow>,
    ) -> Seq<MoveView> {
        match self.claiming_override(character, name, table) {
            Some(i) => override_moves(aliases, self.overrides@[i], table),
            None => match self.claiming_quirk(character, name, table) {
                Some(j) => single_row_moves(aliases, self.quirks@[j].renamed@, table),
                None => if single_row_shape(table) {
                    single_row_moves(aliases, name, table)
                } else if versioned_shape(table) {
                    versioned_moves(aliases, table)
                } else {
                    Seq::empty()
                },
            },
        }
    }
}

/// An override that claims a pair decides its moves, whatever shape the table has: the
/// first claiming override's moves are the chain's, never a quirk's or a generic resolver's.
pub proof fn lemma_override_wins(
    chain: ResolverChain,
    aliases: Seq<(Seq<char>, Seq<char>)>,
    character: CharacterId,
    name: Seq<char>,
    table: Seq<TableRow>,
    i: int,
)
    requires
        0 <= i < chain.overrides@.len(),
        override_claims(chain.overrides@[i], character, name, table),
    ensures
        chain.claiming_override(character, name, table) is Some,
        chain.claiming_override(character, name, table)->Some_0 <= i,
        chain.chain_moves(aliases, character, name, table) == override_moves(
            aliases,
            chain.overrides@[chain.claiming_override(character, name, table)->Some_0],
            table,
        ),
{
    let p = |k: int| override_claims(chain.overrides@[k], character, name, table);
    let n = chain.overrides@.len() as int;
    if chain.claiming_override(character, name, table) is None {
        lemma_least_where(n, p, i);
    } else {
        let k = chain.claiming_override(character, name, table)->Some_0;
        assert(is_first_where(n, p, k));
        if k > i {
            assert(!p(i));
        }
    }
}

/// Where no override or quirk claims a pair, one header row and one data row give exactly one
/// move under the supplied name, and one header row and several data rows give one move per
/// data row, named by that row's leading cell.
pub proof fn lemma_generic_shapes(
    chain: ResolverChain,
    aliases: Seq<(Seq<char>, Seq<char>)>,
    character: CharacterId,
    name: Seq<char>,
    table: Seq<TableRow>,
)
    requires
        forall|k: int|
            0 <= k < chain.overrides@.len() ==> !override_claims(
                #[trigger] chain.overrides@[k],
                character,
                name,
                table,
            ),
        forall|k: int|
            0 <= k < chain.quirks@.len() ==> !quirk_claims(
                #[trigger] chain.quirks@[k],
                character,
                name,
                table,
            ),
    ensures
        single_row_shape(table) ==> {
            let moves = chain.chain_moves(aliases, character, name, table);
            moves.len() == 1 && moves[0].name == name
        },
        versioned_shape(table) ==> {
            let moves = chain.chain_moves(aliases, character, name, table);
            &&& moves.len() == table.len() - 1
            &&& forall|i: int|
                0 <= i < moves.len() ==> (#[trigger] moves[i]).name == cell_text(
                    table[i + 1].cells@,
                    0,
                )
        },
{
    lemma_first_where_none(
        chain.overrides@.len() as int,
        |k: int| override_claims(chain.overrides@[k], character, name, table),
    );
    lemma_first_where_none(
        chain.quirks@.len() as int,
        |k: int| quirk_claims(chain.quirks@[k], character, name, table),
    );
}

/// Reads a data row under a label that serves as notation and name, its frame data starting
/// at cell `start`.
fn labelled(ex: &Extractor, character: CharacterId, label: String, row: &TableRow, start: usize) -> (r:
    Result<Move, PatternError>)
    requires
        ex.wf(),
        start <= 1,
    ensures
        r is Ok <==> regex_compiles(
            move_pattern(ex.aliases.bindings_of(character), label@, label@),
        ),
        r is Ok ==> r->Ok_0@ == labelled_move(ex.aliases.bindings_of(character), label@, *row, start as int),
        r is Ok ==> reads_as_written(r->Ok_0.regex),
        r is Err ==> r->Err_0.pattern@ == move_pattern(
            ex.aliases.bindings_of(character),
            label@,
            label@,
        ),
{
    let regex = match ex.aliases.move_regex(character, label.as_str(), label.as_str()) {
        Ok(re) => re,
        Err(e) => {
            return Err(e);
        },
    };
    let input = label.clone();
    let mut m = move_with_stats(regex, input, label, &row.cells, start);
    m.hitboxes = ex.hitboxes(row.markup.as_str());
    Ok(m)
}

/// The generic single-row resolver: the data row read under the supplied name.
pub fn single_row(ex: &Extractor, character: CharacterId, name: &str, table: &Vec<TableRow>) -> (r:
    Result<Vec<Move>, PatternError>)
    requires
        ex.wf(),
        single_row_shape(table@),
    ensures
        resolved_as(r, single_row_moves(ex.aliases.bindings_of(character), name@, table@)),
{
    let ghost expected = single_row_moves(ex.aliases.bindings_of(character), name@, table@);
    match labelled(ex, character, String::from_str(name), &table[1], 0) {
        Ok(m) => {
            let moves = vec![m];
            assert(move_views(moves@) =~= expected);
            Ok(moves)
        },
        Err(e) => {
            assert(expected[0].pattern == e.pattern@);
            Err(e)
        },
    }
}

/// The generic versioned-rows resolver: one move per data row, named by its leading cell,
/// its frame data following that cell.
pub fn versioned_rows(ex: &Extractor, character: CharacterId, table: &Vec<TableRow>) -> (r: Result<
    Vec<Move>,
    PatternError,
>)
    requires
        ex.wf(),
        versioned_shape(table@),
    ensures
        resolved_as(r, versioned_moves(ex.aliases.bindings_of(character), table@)),
{
    let ghost expected = versioned_moves(ex.aliases.bindings_of(character), table@);
    let mut moves: Vec<Move> = Vec::new();
    let mut i: usize = 1;
    while i < table.len()
        invariant
            ex.wf(),
            expected == versioned_moves(ex.aliases.bindings_of(character), table@),
            1 <= i <= table@.len(),
            moves@.len() == i - 1,
            all_read_as_written(moves@),
            forall|k: int| 0 <= k < i - 1 ==> (#[trigger] moves@[k])@ == expected[k],
            forall|k: int| 0 <= k < i - 1 ==> regex_compiles(#[trigger] expected[k].pattern),
        decreases table@.len() - i,
    {
        let label = cell_at(&table[i].cells, 0);
        match labelled(ex, character, label, &table[i], 1) {
            Ok(m) => {
                moves.push(m);
            },
            Err(e) => {
                assert(expected[i - 1].pattern == e.pattern@);
                return Err(e);
            },
        }
        i += 1;
    }
    assert(move_views(moves@) =~= expected);
    Ok(moves)
}

/// The moves of an override: under `Split`, the first data rows read under the given names;
/// under `Discard`, none.
fn apply_override(ex: &Extractor, character: CharacterId, o: &Override, table: &Vec<TableRow>) -> (r:
    Result<Vec<Move>, PatternError>)
    requires
        ex.wf(),
        override_claims(*o, character, o.name@, table@),
    ensures
        resolved_as(r, override_moves(ex.aliases.bindings_of(character), *o, table@)),
{
    let ghost expected = override_moves(ex.aliases.bindings_of(character), *o, table@);
    match &o.action {
        OverrideAction::Split(names) => {
            let mut moves: Vec<Move> = Vec::new();
            let mut i: usize = 0;
            while i < names.len()
                invariant
                    ex.wf(),
                    o.action == OverrideAction::Split(*names),
                    expected == override_moves(ex.aliases.bindings_of(character), *o, table@),
                    names@.len() + 1 <= table@.len(),
                    i <= names@.len(),
                    moves@.len() == i,
                    all_read_as_written(moves@),
                    forall|k: int| 0 <= k < i ==> (#[trigger] moves@[k])@ == expected[k],
                    forall|k: int| 0 <= k < i ==> regex_compiles(#[trigger] expected[k].pattern),
                decreases names@.len() - i,
            {
                match labelled(ex, character, names[i].clone(), &table[i + 1], 0) {
                    Ok(m) => {
                        moves.push(m);
                    },
                    Err(e) => {
                        assert(expected[i as int].pattern == e.pattern@);
                        return Err(e);
                    },
                }
                i += 1;
            }
            assert(move_views(moves@) =~= expected);
            Ok(moves)
        },
        OverrideAction::Discard => {
            let moves: Vec<Move> = Vec::new();
            assert(move_views(moves@) =~= expected);
            Ok(moves)
        },
    }
}

impl ResolverChain {
    /// Resolves a (name, sub-table) pair of a character: the first override that claims it,
    /// else the first quirk, else the single-row resolver, else the versioned-rows resolver;
    /// a pair that none claims gives no move.
    pub fn resolve(&self, ex: &Extractor, character: CharacterId, name: &str, table: &Vec<TableRow>) -> (r:
        Result<Vec<Move>, PatternError>)
        requires
            ex.wf(),
        ensures
            resolved_as(r, self.chain_moves(ex.aliases.bindings_of(character), character, name@, table@)),
    {
        let ghost aliases = ex.aliases.bindings_of(character);
        let name_text = String::from_str(name);
        let headed = table.len() >= 1 && table[0].header;
        let mut i: usize = 0;
        while i < self.overrides.len()
            invariant
                ex.wf(),
                i <= self.overrides@.len(),
                name_text@ == name@,
                headed == (table@.len() >= 1 && table@[0].header),
                forall|k: int|
                    0 <= k < i ==> !override_claims(
                        #[trigger] self.overrides@[k],
                        character,
                        name@,
                        table@,
                    ),
            decreases self.overrides@.len() - i,
        {
            let o = &self.overrides[i];
            let claims = o.character == character && o.name == name_text && match &o.action {
                OverrideAction::Split(names) => headed && names.len() < table.len(),
                OverrideAction::Discard => true,
            };
            if claims {
                proof {
                    lemma_first_where_is(
                        self.overrides@.len() as int,
                        |k: int| override_claims(self.overrides@[k], character, name@, table@),
                        i as int,
                    );
                }
                return apply_override(ex, character, o, table);
            }
            i += 1;
        }
        proof {
            lemma_first_where_none(
                self.overrides@.len() as int,
                |k: int| override_claims(self.overrides@[k], character, name@, table@),
            );
        }
        let single = table.len() == 2 && table[0].header && !table[1].header;
        let mut j: usize = 0;
        while j < self.quirks.len()
            invariant
                ex.wf(),
                self.claiming_override(character, name@, table@) is None,
                j <= self.quirks@.len(),
                single == single_row_shape(table@),
                forall|k: int|
                    0 <= k < j ==> !quirk_claims(#[trigger] self.quirks@[k], character, name@, table@),
            decreases self.quirks@.len() - j,
        {
            let q = &self.quirks[j];
            if q.character == character && single && text_contains(name, q.fragment.as_str()) {
                proof {
                    lemma_first_where_is(
                        self.quirks@.len() as int,
                        |k: int| quirk_claims(self.quirks@[k], character, name@, table@),
                        j as int,
                    );
                }
                return single_row(ex, character, q.renamed.as_str(), table);
            }
            j += 1;
        }
        proof {
            lemma_first_where_none(
                self.quirks@.len() as int,
                |k: int| quirk_claims(self.quirks@[k], character, name@, table@),
            );
        }
        if single {
            return single_row(ex, character, name, table);
        }
        if self.versioned(table) {
            return versioned_rows(ex, character, table);
        }
        let moves: Vec<Move> = Vec::new();
        assert(move_views(moves@) =~= Seq::<MoveView>::empty());
        Ok(moves)
    }

    /// Whether the sub-table has the versioned-rows shape.
    fn versioned(&self, table: &Vec<TableRow>) -> (r: bool)
        ensures
            r == versioned_shape(table@),
    {
        if table.len() <= 2 || !table[0].header {
            return false;
        }
        let mut i: usize = 1;
        while i < table.len()
            invariant
                1 <= i <= table@.len(),
                forall|k: int| 1 <= k < i ==> !(#[trigger] table@[k]).header,
            decreases table@.len() - i,
        {
            if table[i].header {
                return false;
            }
            i += 1;
        }
        true
    }
}

} // verus!

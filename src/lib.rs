//! A catalog of fighting-game characters and their moves, built from frame-data tables and
//! queried with free-text aliases.
use vstd::prelude::*;

pub mod bindings;
pub mod chain;
pub mod pattern;
pub mod resolver;
pub mod row;
pub mod segment;
pub mod text;

use crate::pattern::regex_source;
use crate::pattern::reads_as_written;
use crate::pattern::regex_accepts;
use crate::pattern::regex_matches;
use crate::pattern::compile_regex;
use crate::pattern::regex_compiles;
use crate::pattern::regex_is_match;
use crate::resolver::document_moves;
use crate::resolver::document_sections;
use crate::resolver::get_moves;
use crate::row::Extractor;
use crate::row::all_compile;
use crate::row::all_read_as_written;
use crate::row::move_views;

verus! {

/// Why a query found nothing.
#[derive(Debug, Clone, Copy, PartialEq, Eq, Structural)]
pub enum GGSTDLError {
    UnknownCharacter,
    UnknownMove,
}

impl GGSTDLError {
    /// The human-readable description of the error.
    pub fn message(&self) -> (r: &'static str)
        ensures
            *self == GGSTDLError::UnknownCharacter ==> r@ == "Unknown character"@,
            *self == GGSTDLError::UnknownMove ==> r@ == "Unknown move"@,
    {
        match self {
            GGSTDLError::UnknownCharacter => "Unknown character",
            GGSTDLError::UnknownMove => "Unknown move",
        }
    }
}

/// A pattern or selector of the library's configuration that was refused; the catalog
/// cannot be built with it.
#[derive(Debug, Clone, PartialEq, Eq)]
pub struct PatternError {
    pub pattern: String,
}

/// Whether `i` is the first position below `n` where `p` holds.
pub open spec fn is_first_where(n: int, p: spec_fn(int) -> bool, i: int) -> bool {
    0 <= i < n && p(i) && forall|j: int| 0 <= j < i ==> !#[trigger] p(j)
}

/// The first position below `n` where `p` holds, if any.
pub open spec fn first_where(n: int, p: spec_fn(int) -> bool) -> Option<int> {
    if exists|i: int| is_first_where(n, p, i) {
        Some(choose|i: int| is_first_where(n, p, i))
    } else {
        None
    }
}

/// Where `p` holds at `i` and nowhere before, `i` is the first such position.
pub proof fn lemma_first_where_is(n: int, p: spec_fn(int) -> bool, i: int)
    requires
        is_first_where(n, p, i),
    ensures
        first_where(n, p) == Some(i),
{
    let k = choose|k: int| is_first_where(n, p, k);
    if k < i {
        assert(!p(k));
    } else if i < k {
        assert(!p(i));
    }
}

/// Where `p` holds nowhere below `n`, there is no first such position.
pub proof fn lemma_first_where_none(n: int, p: spec_fn(int) -> bool)
    requires
        forall|j: int| 0 <= j < n ==> !#[trigger] p(j),
    ensures
        first_where(n, p) is None,
{
}

/// Where `p` holds at `i`, some position is the first where it holds.
pub proof fn lemma_least_where(n: int, p: spec_fn(int) -> bool, i: int)
    requires
        0 <= i < n,
        p(i),
    ensures
        exists|k: int| is_first_where(n, p, k),
    decreases i,
{
    if forall|j: int| 0 <= j < i ==> !#[trigger] p(j) {
        assert(is_first_where(n, p, i));
    } else {
        let j = choose|j: int| 0 <= j < i && #[trigger] p(j);
        lemma_least_where(n, p, j);
    }
}

/// The catalog: the characters in their registration order.
#[derive(Debug)]
pub struct GGSTDLData {
    pub characters: Vec<Character>,
}

impl GGSTDLData {
    /// Whether the alias pattern of the character at `i` matches the query.
    pub open spec fn character_matches(&self, i: int, char_query: Seq<char>) -> bool {
        regex_accepts(self.characters@[i].regex, char_query)
    }

    /// The position of the character that a query resolves to: the first whose alias
    /// pattern matches it.
    pub open spec fn character_lookup(&self, char_query: Seq<char>) -> Option<int> {
        first_where(
            self.characters@.len() as int,
            |i: int| self.character_matches(i, char_query),
        )
    }

    /// The first character whose alias pattern matches the query.
    pub fn find_character(&self, char_query: &str) -> (r: Result<&Character, GGSTDLError>)
        ensures
            r is Ok <==> self.character_lookup(char_query@) is Some,
            r is Ok ==> *r->Ok_0 == self.characters@[self.character_lookup(char_query@)->Some_0],
            r is Err ==> r->Err_0 == GGSTDLError::UnknownCharacter,
    {
        let ghost p = |i: int| self.character_matches(i, char_query@);
        let mut i: usize = 0;
        while i < self.characters.len()
            invariant
                i <= self.characters@.len(),
                p == (|i: int| self.character_matches(i, char_query@)),
                forall|j: int| 0 <= j < i ==> !#[trigger] p(j),
            decreases self.characters@.len() - i,
        {
            if regex_is_match(&self.characters[i].regex, char_query) {
                proof {
                    lemma_first_where_is(self.characters@.len() as int, p, i as int);
                }
                return Ok(&self.characters[i]);
            }
            i += 1;
        }
        proof {
            lemma_first_where_none(self.characters@.len() as int, p);
        }
        Err(GGSTDLError::UnknownCharacter)
    }

    /// The first move, of the character that `char_query` resolves to, whose pattern matches
    /// `move_query`.
    pub fn find_move(&self, char_query: &str, move_query: &str) -> (r: Result<&Move, GGSTDLError>)
        ensures
            self.character_lookup(char_query@) is None ==> r == Err::<&Move, GGSTDLError>(
                GGSTDLError::UnknownCharacter,
            ),
            self.character_lookup(char_query@) is Some ==> {
                let c = self.characters@[self.character_lookup(char_query@)->Some_0];
                &&& r is Ok <==> c.move_lookup(move_query@) is Some
                &&& r is Ok ==> *r->Ok_0 == c.moves@[c.move_lookup(move_query@)->Some_0]
                &&& r is Err ==> r->Err_0 == GGSTDLError::UnknownMove
            },
    {
        let character = match self.find_character(char_query) {
            Ok(c) => c,
            Err(e) => {
                return Err(e);
            },
        };
        character.find_move(move_query)
    }
}

/// A query that matches a character's alias pattern, and no earlier character's, finds that
/// character.
pub proof fn lemma_alias_finds_character(data: GGSTDLData, i: int, alias: Seq<char>)
    requires
        0 <= i < data.characters@.len(),
        regex_accepts(data.characters@[i].regex, alias),
        forall|j: int| 0 <= j < i ==> !regex_accepts(#[trigger] data.characters@[j].regex, alias),
    ensures
        data.character_lookup(alias) == Some(i),
{
    let p = |k: int| data.character_matches(k, alias);
    assert forall|j: int| 0 <= j < i implies !#[trigger] p(j) by {
        assert(!regex_accepts(data.characters@[j].regex, alias));
    }
    lemma_first_where_is(data.characters@.len() as int, p, i);
}

/// A query that matches no character's alias pattern is an unknown character.
pub proof fn lemma_unknown_character(data: GGSTDLData, query: Seq<char>)
    requires
        forall|j: int|
            0 <= j < data.characters@.len() ==> !regex_accepts(
                #[trigger] data.characters@[j].regex,
                query,
            ),
    ensures
        data.character_lookup(query) is None,
{
    let p = |k: int| data.character_matches(k, query);
    assert forall|j: int| 0 <= j < data.characters@.len() implies !#[trigger] p(j) by {
        assert(!regex_accepts(data.characters@[j].regex, query));
    }
    lemma_first_where_none(data.characters@.len() as int, p);
}

/// Within the character that a query resolves to, a move query that matches a move's pattern,
/// and no earlier move's, finds that move.
pub proof fn lemma_alias_finds_move(
    data: GGSTDLData,
    char_query: Seq<char>,
    i: int,
    m: int,
    move_query: Seq<char>,
)
    requires
        data.character_lookup(char_query) == Some(i),
        0 <= m < data.characters@[i].moves@.len(),
        regex_accepts(data.characters@[i].moves@[m].regex, move_query),
        forall|j: int|
            0 <= j < m ==> !regex_accepts(
                #[trigger] data.characters@[i].moves@[j].regex,
                move_query,
            ),
    ensures
        data.characters@[i].move_lookup(move_query) == Some(m),
{
    let c = data.characters@[i];
    let p = |k: int| c.move_matches(k, move_query);
    assert forall|j: int| 0 <= j < m implies !#[trigger] p(j) by {
        assert(!regex_accepts(c.moves@[j].regex, move_query));
    }
    lemma_first_where_is(c.moves@.len() as int, p, m);
}

/// Where every move of the resolved character reads as written, a move query that matches a
/// move's pattern text, and no earlier move's, finds that move: an alias bound to a move's
/// notation or name, or its own fallback pattern, resolves to it.
pub proof fn lemma_pattern_finds_move(
    data: GGSTDLData,
    char_query: Seq<char>,
    i: int,
    m: int,
    move_query: Seq<char>,
)
    requires
        data.character_lookup(char_query) == Some(i),
        all_read_as_written(data.characters@[i].moves@),
        0 <= m < data.characters@[i].moves@.len(),
        regex_matches(regex_source(data.characters@[i].moves@[m].regex), move_query),
        forall|j: int|
            0 <= j < m ==> !regex_matches(
                regex_source(#[trigger] data.characters@[i].moves@[j].regex),
                move_query,
            ),
    ensures
        data.characters@[i].move_lookup(move_query) == Some(m),
{
    let moves = data.characters@[i].moves@;
    assert(reads_as_written(moves[m].regex));
    assert forall|j: int| 0 <= j < m implies !regex_accepts(#[trigger] moves[j].regex, move_query) by {
        assert(reads_as_written(moves[j].regex));
        assert(!regex_matches(regex_source(moves[j].regex), move_query));
    }
    lemma_alias_finds_move(data, char_query, i, m, move_query);
}

/// A character: its identity, the pattern that queries for it must match, where its frame
/// data lives, and its moves in document order.
#[derive(Debug)]
pub struct Character {
    pub id: CharacterId,
    pub regex: regex::Regex,
    pub frame_data_url: String,
    pub moves: Vec<Move>,
}

impl Character {
    /// Whether the matching pattern of the move at `i` matches the query.
    pub open spec fn move_matches(&self, i: int, move_query: Seq<char>) -> bool {
        regex_accepts(self.moves@[i].regex, move_query)
    }

    /// The position of the move that a query resolves to: the first whose pattern matches it.
    pub open spec fn move_lookup(&self, move_query: Seq<char>) -> Option<int> {
        first_where(self.moves@.len() as int, |i: int| self.move_matches(i, move_query))
    }

    /// The first move whose pattern matches the query.
    pub fn find_move(&self, move_query: &str) -> (r: Result<&Move, GGSTDLError>)
        ensures
            r is Ok <==> self.move_lookup(move_query@) is Some,
            r is Ok ==> *r->Ok_0 == self.moves@[self.move_lookup(move_query@)->Some_0],
            r is Err ==> r->Err_0 == GGSTDLError::UnknownMove,
    {
        let ghost p = |i: int| self.move_matches(i, move_query@);
        let mut i: usize = 0;
        while i < self.moves.len()
            invariant
                i <= self.moves@.len(),
                p == (|i: int| self.move_matches(i, move_query@)),
                forall|j: int| 0 <= j < i ==> !#[trigger] p(j),
            decreases self.moves@.len() - i,
        {
            if regex_is_match(&self.moves[i].regex, move_query) {
                proof {
                    lemma_first_where_is(self.moves@.len() as int, p, i as int);
                }
                return Ok(&self.moves[i]);
            }
            i += 1;
        }
        proof {
            lemma_first_where_none(self.moves@.len() as int, p);
        }
        Err(GGSTDLError::UnknownMove)
    }

    /// A character with its alias pattern compiled and, where its frame-data document was
    /// obtained, the moves read from it; without a document it has no moves. Fails with the
    /// character's pattern, or a move's fallback pattern, where the regex engine refuses it.
    pub fn create(
        ex: &Extractor,
        id: CharacterId,
        regex: &str,
        frame_data_url: &str,
        document: Option<&str>,
    ) -> (r: Result<Character, PatternError>)
        requires
            ex.wf(),
        ensures
            r is Ok <==> regex_compiles(regex@) && (document is Some ==> all_compile(
                page_moves(*ex, id, document->Some_0@),
            )),
            r is Ok ==> {
                let c = r->Ok_0;
                &&& c.id == id
                &&& regex_source(c.regex) == regex@
                &&& reads_as_written(c.regex)
                &&& all_read_as_written(c.moves@)
                &&& c.frame_data_url@ == frame_data_url@
                &&& document is None ==> c.moves@.len() == 0
                &&& document is Some ==> move_views(c.moves@) == page_moves(
                    *ex,
                    id,
                    document->Some_0@,
                )
            },
            r is Err ==> !regex_compiles(r->Err_0.pattern@),
    {
        let compiled = match compile_regex(regex) {
            Some(re) => re,
            None => {
                return Err(PatternError { pattern: String::from_str(regex) });
            },
        };
        let moves = match document {
            Some(text) => match get_moves(ex, id, text) {
                Ok(found) => found,
                Err(e) => {
                    return Err(e);
                },
            },
            None => Vec::new(),
        };
        Ok(Character { id, regex: compiled, frame_data_url: String::from_str(frame_data_url), moves })
    }
}

/// The moves that a character's frame-data document gives.
pub open spec fn page_moves(ex: Extractor, id: CharacterId, document: Seq<char>) -> Seq<MoveView> {
    document_moves(ex.aliases.bindings_of(id), document_sections(ex, document))
}

/// A character as the registry lists it: identity, alias pattern and frame-data address.
#[derive(Debug, Clone)]
pub struct CharacterEntry {
    pub id: CharacterId,
    pub pattern: String,
    pub frame_data_url: String,
}

fn entry(id: CharacterId, pattern: &str, frame_data_url: &str) -> (r: CharacterEntry)
    ensures
        r.id == id,
        r.pattern@ == pattern@,
        r.frame_data_url@ == frame_data_url@,
{
    CharacterEntry {
        id,
        pattern: String::from_str(pattern),
        frame_data_url: String::from_str(frame_data_url),
    }
}

/// The alias pattern and frame-data address of each character, in registration order.
pub open spec fn registry_data() -> Seq<(Seq<char>, Seq<char>)> {
    seq![
        ("(?i)(test)"@, "https://www.dustloop.com/w/GGST/Testament/Frame_Data"@),
        ("(?i)(jack)"@, "https://www.dustloop.com/w/GGST/Jack-O/Frame_Data"@),
        ("(?i)(nago)"@, "https://www.dustloop.com/w/GGST/Nagoriyuki/Frame_Data"@),
        ("(?i)(millia|milia)"@, "https://www.dustloop.com/w/GGST/Millia_Rage/Frame_Data"@),
        ("(?i)(chip)"@, "https://www.dustloop.com/w/GGST/Chipp_Zanuff/Frame_Data"@),
        ("(?i)(sol)"@, "https://www.dustloop.com/w/GGST/Sol_Badguy/Frame_Data"@),
        ("(?i)(ky)"@, "https://www.dustloop.com/w/GGST/Ky_Kiske/Frame_Data"@),
        ("(?i)(may)"@, "https://www.dustloop.com/w/GGST/May/Frame_Data"@),
        ("(?i)(zato)"@, "https://www.dustloop.com/w/GGST/Zato-1/Frame_Data"@),
        ("(?i)(ino|i-no)"@, "https://www.dustloop.com/w/GGST/I-No/Frame_Data"@),
        ("(?i)(hc|chaos|happy)"@, "https://www.dustloop.com/w/GGST/Happy_Chaos/Frame_Data"@),
        ("(?i)(sin)"@, "https://www.dustloop.com/w/GGST/Sin_Kiske/Frame_Data"@),
        ("(?i)(baiken)"@, "https://www.dustloop.com/w/GGST/Baiken/Frame_Data"@),
        ("(?i)(anji)"@, "https://www.dustloop.com/w/GGST/Anji_Mito/Frame_Data"@),
        ("(?i)(leo)"@, "https://www.dustloop.com/w/GGST/Leo_Whitefang/Frame_Data"@),
        ("(?i)(faust)"@, "https://www.dustloop.com/w/GGST/Faust/Frame_Data"@),
        ("(?i)(axl)"@, "https://www.dustloop.com/w/GGST/Axl_Low/Frame_Data"@),
        ("(?i)(pot)"@, "https://www.dustloop.com/w/GGST/Potemkin/Frame_Data"@),
        ("(?i)(ram)"@, "https://www.dustloop.com/w/GGST/Ramlethal_Valentine/Frame_Data"@),
        ("(?i)(gio)"@, "https://www.dustloop.com/w/GGST/Giovanna/Frame_Data"@),
        ("(?i)(lewis|gold|goldlewis|gl|dick)"@, "https://www.dustloop.com/w/GGST/Goldlewis_Dickinson/Frame_Data"@),
        ("(?i)(bridget)"@, "https://www.dustloop.com/w/GGST/Bridget/Frame_Data"@),
        ("(?i)(bed)"@, "https://www.dustloop.com/w/GGST/Bedman/Frame_Data"@),
        ("(?i)(asuka)"@, "https://www.dustloop.com/w/GGST/Asuka_R/Frame_Data"@),
        ("(?i)(joh?nn?y)"@, "https://www.dustloop.com/w/GGST/Johnny/Frame_Data"@),
        ("(?i)(el)"@, "https://www.dustloop.com/w/GGST/Elphelt_Valentine/Frame_Data"@),
        ("(?i)(a.?b.?a.?)"@, "https://www.dustloop.com/w/GGST/A.B.A"@),
    ]
}

/// Every character with its alias pattern and frame-data address, in registration order.
pub fn registry() -> (r: Vec<CharacterEntry>)
    ensures
        r@.len() == CHARACTER_COUNT,
        forall|i: int|
            0 <= i < r@.len() ==> (#[trigger] r@[i]).id.spec_index() == i && r@[i].pattern@
                == registry_data()[i].0 && r@[i].frame_data_url@ == registry_data()[i].1,
{
    vec![
        entry(CharacterId::TESTAMENT, "(?i)(test)", "https://www.dustloop.com/w/GGST/Testament/Frame_Data"),
        entry(CharacterId::JACKO, "(?i)(jack)", "https://www.dustloop.com/w/GGST/Jack-O/Frame_Data"),
        entry(CharacterId::NAGORIYUKI, "(?i)(nago)", "https://www.dustloop.com/w/GGST/Nagoriyuki/Frame_Data"),
        entry(CharacterId::MILLIA, "(?i)(millia|milia)", "https://www.dustloop.com/w/GGST/Millia_Rage/Frame_Data"),
        entry(CharacterId::CHIPP, "(?i)(chip)", "https://www.dustloop.com/w/GGST/Chipp_Zanuff/Frame_Data"),
        entry(CharacterId::SOL, "(?i)(sol)", "https://www.dustloop.com/w/GGST/Sol_Badguy/Frame_Data"),
        entry(CharacterId::KY, "(?i)(ky)", "https://www.dustloop.com/w/GGST/Ky_Kiske/Frame_Data"),
        entry(CharacterId::MAY, "(?i)(may)", "https://www.dustloop.com/w/GGST/May/Frame_Data"),
        entry(CharacterId::ZATO, "(?i)(zato)", "https://www.dustloop.com/w/GGST/Zato-1/Frame_Data"),
        entry(CharacterId::INO, "(?i)(ino|i-no)", "https://www.dustloop.com/w/GGST/I-No/Frame_Data"),
        entry(CharacterId::HAPPYCHAOS, "(?i)(hc|chaos|happy)", "https://www.dustloop.com/w/GGST/Happy_Chaos/Frame_Data"),
        entry(CharacterId::SIN, "(?i)(sin)", "https://www.dustloop.com/w/GGST/Sin_Kiske/Frame_Data"),
        entry(CharacterId::BAIKEN, "(?i)(baiken)", "https://www.dustloop.com/w/GGST/Baiken/Frame_Data"),
        entry(CharacterId::ANJI, "(?i)(anji)", "https://www.dustloop.com/w/GGST/Anji_Mito/Frame_Data"),
        entry(CharacterId::LEO, "(?i)(leo)", "https://www.dustloop.com/w/GGST/Leo_Whitefang/Frame_Data"),
        entry(CharacterId::FAUST, "(?i)(faust)", "https://www.dustloop.com/w/GGST/Faust/Frame_Data"),
        entry(CharacterId::AXL, "(?i)(axl)", "https://www.dustloop.com/w/GGST/Axl_Low/Frame_Data"),
        entry(CharacterId::POTEMKIN, "(?i)(pot)", "https://www.dustloop.com/w/GGST/Potemkin/Frame_Data"),
        entry(CharacterId::RAMLETHAL, "(?i)(ram)", "https://www.dustloop.com/w/GGST/Ramlethal_Valentine/Frame_Data"),
        entry(CharacterId::GIO, "(?i)(gio)", "https://www.dustloop.com/w/GGST/Giovanna/Frame_Data"),
        entry(CharacterId::GOLDLEWIS, "(?i)(lewis|gold|goldlewis|gl|dick)", "https://www.dustloop.com/w/GGST/Goldlewis_Dickinson/Frame_Data"),
        entry(CharacterId::BRIDGET, "(?i)(bridget)", "https://www.dustloop.com/w/GGST/Bridget/Frame_Data"),
        entry(CharacterId::BEDMAN, "(?i)(bed)", "https://www.dustloop.com/w/GGST/Bedman/Frame_Data"),
        entry(CharacterId::ASUKA, "(?i)(asuka)", "https://www.dustloop.com/w/GGST/Asuka_R/Frame_Data"),
        entry(CharacterId::JOHNNY, "(?i)(joh?nn?y)", "https://www.dustloop.com/w/GGST/Johnny/Frame_Data"),
        entry(CharacterId::ELPHELT, "(?i)(el)", "https://www.dustloop.com/w/GGST/Elphelt_Valentine/Frame_Data"),
        entry(CharacterId::ABA, "(?i)(a.?b.?a.?)", "https://www.dustloop.com/w/GGST/A.B.A"),
    ]
}

/// A registered character with its frame-data document, where it could be obtained.
#[derive(Debug, Clone)]
pub struct CharacterPage {
    pub entry: CharacterEntry,
    pub document: Option<String>,
}

/// Whether a page's moves can all be given a pattern: it has no document, or the regex
/// engine accepts every fallback pattern that its document needs.
pub open spec fn page_loads(ex: Extractor, p: CharacterPage) -> bool {
    match p.document {
        Some(d) => all_compile(page_moves(ex, p.entry.id, d@)),
        None => true,
    }
}

/// The pages whose characters enter the catalog, in order.
pub open spec fn loaded_pages(ex: Extractor, pages: Seq<CharacterPage>) -> Seq<CharacterPage>
    decreases pages.len(),
{
    if pages.len() == 0 {
        Seq::empty()
    } else {
        let n = pages.len() - 1;
        let rest = loaded_pages(ex, pages.take(n));
        if page_loads(ex, pages[n]) {
            rest.push(pages[n])
        } else {
            rest
        }
    }
}

/// Whether a character is the one built from a page.
pub open spec fn built_from(ex: Extractor, c: Character, p: CharacterPage) -> bool {
    &&& c.id == p.entry.id
    &&& regex_source(c.regex) == p.entry.pattern@
    &&& reads_as_written(c.regex)
    &&& all_read_as_written(c.moves@)
    &&& c.frame_data_url@ == p.entry.frame_data_url@
    &&& move_views(c.moves@) == match p.document {
        Some(d) => page_moves(ex, p.entry.id, d@),
        None => Seq::empty(),
    }
}

/// Builds the catalog: one character per page, in the order given, each with the moves read
/// from its document. A character whose document needs a fallback pattern that the regex
/// engine refuses is left out; a refused character pattern fails the whole catalog.
pub fn load(ex: &Extractor, pages: &Vec<CharacterPage>) -> (r: Result<GGSTDLData, PatternError>)
    requires
        ex.wf(),
    ensures
        r is Ok <==> forall|i: int|
            0 <= i < pages@.len() ==> regex_compiles((#[trigger] pages@[i]).entry.pattern@),
        r is Ok ==> {
            let chars = r->Ok_0.characters@;
            let kept = loaded_pages(*ex, pages@);
            &&& chars.len() == kept.len()
            &&& forall|k: int| 0 <= k < chars.len() ==> built_from(*ex, #[trigger] chars[k], kept[k])
        },
        r is Err ==> !regex_compiles(r->Err_0.pattern@),
{
    let mut characters: Vec<Character> = Vec::new();
    let mut i: usize = 0;
    while i < pages.len()
        invariant
            ex.wf(),
            i <= pages@.len(),
            forall|k: int| 0 <= k < i ==> regex_compiles((#[trigger] pages@[k]).entry.pattern@),
            characters@.len() == loaded_pages(*ex, pages@.take(i as int)).len(),
            forall|k: int|
                0 <= k < characters@.len() ==> built_from(
                    *ex,
                    #[trigger] characters@[k],
                    loaded_pages(*ex, pages@.take(i as int))[k],
                ),
        decreases pages@.len() - i,
    {
        proof {
            assert(pages@.take(i + 1).take(i as int) =~= pages@.take(i as int));
        }
        let page = &pages[i];
        let regex = match compile_regex(page.entry.pattern.as_str()) {
            Some(re) => re,
            None => {
                return Err(PatternError { pattern: page.entry.pattern.clone() });
            },
        };
        match &page.document {
            Some(text) => {
                match get_moves(ex, page.entry.id, text.as_str()) {
                    Ok(moves) => {
                        characters.push(
                            Character {
                                id: page.entry.id,
                                regex,
                                frame_data_url: page.entry.frame_data_url.clone(),
                                moves,
                            },
                        );
                    },
                    Err(_) => {},
                }
            },
            None => {
                let moves: Vec<Move> = Vec::new();
                assert(move_views(moves@) =~= Seq::<MoveView>::empty());
                characters.push(
                    Character {
                        id: page.entry.id,
                        regex,
                        frame_data_url: page.entry.frame_data_url.clone(),
                        moves,
                    },
                );
            },
        }
        i += 1;
    }
    proof {
        assert(pages@.take(pages@.len() as int) =~= pages@);
    }
    Ok(GGSTDLData { characters })
}

/// The closed set of characters.
#[derive(Debug, Clone, Copy, PartialEq, Eq, Structural, Hash, Ord, PartialOrd)]
pub enum CharacterId {
    TESTAMENT,
    JACKO,
    NAGORIYUKI,
    MILLIA,
    CHIPP,
    SOL,
    KY,
    MAY,
    ZATO,
    INO,
    HAPPYCHAOS,
    SIN,
    BAIKEN,
    ANJI,
    LEO,
    FAUST,
    AXL,
    POTEMKIN,
    RAMLETHAL,
    GIO,
    GOLDLEWIS,
    BRIDGET,
    BEDMAN,
    ASUKA,
    JOHNNY,
    ELPHELT,
    ABA,
}

impl CharacterId {
    /// The position of the character in registration order.
    pub open spec fn spec_index(self) -> nat {
        match self {
            CharacterId::TESTAMENT => 0,
            CharacterId::JACKO => 1,
            CharacterId::NAGORIYUKI => 2,
            CharacterId::MILLIA => 3,
            CharacterId::CHIPP => 4,
            CharacterId::SOL => 5,
            CharacterId::KY => 6,
            CharacterId::MAY => 7,
            CharacterId::ZATO => 8,
            CharacterId::INO => 9,
            CharacterId::HAPPYCHAOS => 10,
            CharacterId::SIN => 11,
            CharacterId::BAIKEN => 12,
            CharacterId::ANJI => 13,
            CharacterId::LEO => 14,
            CharacterId::FAUST => 15,
            CharacterId::AXL => 16,
            CharacterId::POTEMKIN => 17,
            CharacterId::RAMLETHAL => 18,
            CharacterId::GIO => 19,
            CharacterId::GOLDLEWIS => 20,
            CharacterId::BRIDGET => 21,
            CharacterId::BEDMAN => 22,
            CharacterId::ASUKA => 23,
            CharacterId::JOHNNY => 24,
            CharacterId::ELPHELT => 25,
            CharacterId::ABA => 26,
        }
    }

    /// The position of the character in registration order.
    pub fn index(self) -> (r: usize)
        ensures
            r == self.spec_index(),
            r < CHARACTER_COUNT,
    {
        match self {
            CharacterId::TESTAMENT => 0,
            CharacterId::JACKO => 1,
            CharacterId::NAGORIYUKI => 2,
            CharacterId::MILLIA => 3,
            CharacterId::CHIPP => 4,
            CharacterId::SOL => 5,
            CharacterId::KY => 6,
            CharacterId::MAY => 7,
            CharacterId::ZATO => 8,
            CharacterId::INO => 9,
            CharacterId::HAPPYCHAOS => 10,
            CharacterId::SIN => 11,
            CharacterId::BAIKEN => 12,
            CharacterId::ANJI => 13,
            CharacterId::LEO => 14,
            CharacterId::FAUST => 15,
            CharacterId::AXL => 16,
            CharacterId::POTEMKIN => 17,
            CharacterId::RAMLETHAL => 18,
            CharacterId::GIO => 19,
            CharacterId::GOLDLEWIS => 20,
            CharacterId::BRIDGET => 21,
            CharacterId::BEDMAN => 22,
            CharacterId::ASUKA => 23,
            CharacterId::JOHNNY => 24,
            CharacterId::ELPHELT => 25,
            CharacterId::ABA => 26,
        }
    }

    /// Every character, in registration order.
    pub fn all() -> (r: Vec<CharacterId>)
        ensures
            r@.len() == CHARACTER_COUNT,
            forall|i: int| 0 <= i < r@.len() ==> (#[trigger] r@[i]).spec_index() == i,
            forall|c: CharacterId| #[trigger] r@[c.spec_index() as int] == c,
    {
        vec![
            CharacterId::TESTAMENT,
            CharacterId::JACKO,
            CharacterId::NAGORIYUKI,
            CharacterId::MILLIA,
            CharacterId::CHIPP,
            CharacterId::SOL,
            CharacterId::KY,
            CharacterId::MAY,
            CharacterId::ZATO,
            CharacterId::INO,
            CharacterId::HAPPYCHAOS,
            CharacterId::SIN,
            CharacterId::BAIKEN,
            CharacterId::ANJI,
            CharacterId::LEO,
            CharacterId::FAUST,
            CharacterId::AXL,
            CharacterId::POTEMKIN,
            CharacterId::RAMLETHAL,
            CharacterId::GIO,
            CharacterId::GOLDLEWIS,
            CharacterId::BRIDGET,
            CharacterId::BEDMAN,
            CharacterId::ASUKA,
            CharacterId::JOHNNY,
            CharacterId::ELPHELT,
            CharacterId::ABA,
        ]
    }
}

/// How many characters there are.
pub const CHARACTER_COUNT: usize = 27;

/// A move: its matching pattern, its raw notation and canonical name, its frame data as the
/// source formats it, and the addresses of its hitbox images in document order.
#[derive(Debug, Clone)]
pub struct Move {
    pub regex: regex::Regex,
    pub input: String,
    pub name: String,
    pub damage: String,
    pub guard: String,
    pub startup: String,
    pub active: String,
    pub recovery: String,
    pub onblock: String,
    pub onhit: String,
    pub level: String,
    pub counterhit_type: String,
    pub invuln: String,
    pub proration: String,
    pub risc_gain: String,
    pub risc_loss: String,
    pub hitboxes: Vec<String>,
}

/// A move as plain values: the pattern text in place of the compiled regex.
pub struct MoveView {
    pub pattern: Seq<char>,
    pub input: Seq<char>,
    pub name: Seq<char>,
    pub damage: Seq<char>,
    pub guard: Seq<char>,
    pub startup: Seq<char>,
    pub active: Seq<char>,
    pub recovery: Seq<char>,
    pub onblock: Seq<char>,
    pub onhit: Seq<char>,
    pub level: Seq<char>,
    pub counterhit_type: Seq<char>,
    pub invuln: Seq<char>,
    pub proration: Seq<char>,
    pub risc_gain: Seq<char>,
    pub risc_loss: Seq<char>,
    pub hitboxes: Seq<Seq<char>>,
}

impl View for Move {
    type V = MoveView;

    open spec fn view(&self) -> MoveView {
        MoveView {
            pattern: regex_source(self.regex),
            input: self.input@,
            name: self.name@,
            damage: self.damage@,
            guard: self.guard@,
            startup: self.startup@,
            active: self.active@,
            recovery: self.recovery@,
            onblock: self.onblock@,
            onhit: self.onhit@,
            level: self.level@,
            counterhit_type: self.counterhit_type@,
            invuln: self.invuln@,
            proration: self.proration@,
            risc_loss: self.risc_loss@,
            risc_gain: self.risc_gain@,
            hitboxes: self.hitboxes@.map_values(|h: String| h@),
        }
    }
}

/// The one-line summary of a move: its name, startup, active, recovery and on-block frames;
/// the verbose form adds damage and guard after the name and invulnerability at the end.
pub open spec fn summary_text(m: MoveView, verbose: bool) -> Seq<char> {
    let head = if verbose {
        m.name + " | Damage: "@ + m.damage + " | Guard: "@ + m.guard
    } else {
        m.name
    };
    let frames = head + " | Startup: "@ + m.startup + " | Active: "@ + m.active
        + " | Recovery: "@ + m.recovery + " | On block: "@ + m.onblock;
    if verbose {
        frames + " | Invuln: "@ + m.invuln
    } else {
        frames
    }
}

impl Move {
    /// The text of the move's matching pattern.
    pub fn pattern(&self) -> (r: &str)
        ensures
            r@ == self@.pattern,
    {
        self.regex.as_str()
    }

    /// The one-line human-readable summary of the move (see `summary_text`).
    pub fn summary(&self, verbose: bool) -> (r: String)
        ensures
            r@ == summary_text(self@, verbose),
    {
        let mut line = self.name.clone();
        if verbose {
            line.append(" | Damage: ");
            line.append(self.damage.as_str());
            line.append(" | Guard: ");
            line.append(self.guard.as_str());
        }
        line.append(" | Startup: ");
        line.append(self.startup.as_str());
        line.append(" | Active: ");
        line.append(self.active.as_str());
        line.append(" | Recovery: ");
        line.append(self.recovery.as_str());
        line.append(" | On block: ");
        line.append(self.onblock.as_str());
        if verbose {
            line.append(" | Invuln: ");
            line.append(self.invuln.as_str());
        }
        line
    }
}

} // verus!

use ggstdl::chain::ResolverChain;
use ggstdl::row::Extractor;
use ggstdl::row::TableRow;
use ggstdl::segment::pair_sections;
use ggstdl::segment::Exclusion;
use ggstdl::CharacterId;

fn table(first_cell: &str, data_rows: usize) -> Vec<TableRow> {
    let mut rows = vec![TableRow {
        markup: String::from("<tr><th></th></tr>"),
        cells: vec![],
        header: true,
    }];
    for k in 0..data_rows {
        rows.push(TableRow {
            markup: String::from("<tr></tr>"),
            cells: vec![format!("{}{}", first_cell, k), String::from("Mid")],
            header: false,
        });
    }
    rows
}

fn headers(names: &[&str]) -> Vec<String> {
    names.iter().map(|n| n.to_string()).collect()
}

#[test]
fn pairs_truncate_to_fewer_tables() {
    let pairs = pair_sections(
        CharacterId::SOL,
        &headers(&[" 5P ", "5K", "c.S"]),
        vec![table("a", 1), table("b", 1)],
        &vec![],
    );
    assert_eq!(pairs.len(), 2);
    assert_eq!(pairs[0].name, "5P");
    assert_eq!(pairs[1].name, "5K");
    assert_eq!(pairs[1].table[1].cells[0], "b0");
}

#[test]
fn pairs_truncate_to_fewer_headers() {
    let pairs = pair_sections(
        CharacterId::SOL,
        &headers(&["5P"]),
        vec![table("a", 1), table("b", 1), table("c", 1)],
        &vec![],
    );
    assert_eq!(pairs.len(), 1);
    assert_eq!(pairs[0].table[1].cells[0], "a0");
}

#[test]
fn excluded_headers_are_dropped_before_pairing() {
    let exclusions = vec![Exclusion { character: CharacterId::LEO, name: String::from("Brynhildr Stance") }];
    let pairs = pair_sections(
        CharacterId::LEO,
        &headers(&["5P", "Brynhildr Stance", "5K"]),
        vec![table("a", 1), table("b", 1)],
        &exclusions,
    );
    let names: Vec<&str> = pairs.iter().map(|p| p.name.as_str()).collect();
    assert_eq!(names, vec!["5P", "5K"]);
    assert_eq!(pairs[1].table[1].cells[0], "b0");
    let other = pair_sections(
        CharacterId::SOL,
        &headers(&["5P", "Brynhildr Stance"]),
        vec![table("a", 1), table("b", 1)],
        &exclusions,
    );
    assert_eq!(other.len(), 2);
}

#[test]
fn resolved_pairs_concatenate_in_order() {
    let ex = Extractor::new().unwrap();
    let chain = ResolverChain { overrides: vec![], quirks: vec![] };
    let pairs = pair_sections(
        CharacterId::BEDMAN,
        &headers(&["5P", "214S", "Taunt"]),
        vec![table("x", 1), table("Level ", 2), vec![]],
        &vec![],
    );
    let moves = chain.resolve_pairs(&ex, CharacterId::BEDMAN, &pairs).unwrap();
    let names: Vec<&str> = moves.iter().map(|m| m.name.as_str()).collect();
    assert_eq!(names, vec!["5P", "Level 0", "Level 1"]);
    assert_eq!(moves[0].damage, "x0");
    assert_eq!(moves[1].damage, "Mid");
    assert_eq!(moves[0].pattern(), "(?i)^(5P)$");
}

const SECTIONED: &str = "<html><body><div id=\"specials\">\
<h3 class=\"move\"> 236K </h3><table class=\"data\"><tbody><tr><th>Damage</th><th>Guard</th></tr>\
<tr><td>5</td><td>All</td><td>10</td><td>3</td><td>12</td><td>-2</td></tr></tbody></table>\
<h3 class=\"move\">214S</h3><table class=\"data\"><tbody><tr><th>Version</th><th>Damage</th></tr>\
<tr><td>Lv1</td><td>30</td></tr><tr><td>Lv2</td><td>40</td></tr><tr><td>Lv3</td><td>50</td></tr></tbody></table>\
<h3 class=\"move\">Stance</h3>\
</div></body></html>";

#[test]
fn document_headers_and_tables_resolve_through_chain() {
    let ex = Extractor::new().unwrap();
    let headers = scraper::Selector::parse("h3.move").unwrap();
    let tables = scraper::Selector::parse("table.data").unwrap();
    let chain = ResolverChain { overrides: vec![], quirks: vec![] };
    let moves = chain
        .resolve_document(&ex, CharacterId::BEDMAN, SECTIONED, &headers, &tables, &vec![])
        .unwrap();
    let names: Vec<&str> = moves.iter().map(|m| m.name.as_str()).collect();
    assert_eq!(names, vec!["236K", "Lv1", "Lv2", "Lv3"]);
    assert_eq!(moves[0].damage, "5");
    assert_eq!(moves[0].onblock, "-2");
    assert_eq!(moves[0].pattern(), "(?i)^(236K)$");
    assert_eq!(moves[3].damage, "50");
}

#[test]
fn document_override_claims_before_generic_resolver() {
    let ex = Extractor::new().unwrap();
    let headers = scraper::Selector::parse("h3.move").unwrap();
    let tables = scraper::Selector::parse("table.data").unwrap();
    let chain = ResolverChain {
        overrides: vec![ggstdl::chain::Override {
            character: CharacterId::BEDMAN,
            name: String::from("236K"),
            action: ggstdl::chain::OverrideAction::Discard,
        }],
        quirks: vec![],
    };
    let moves = chain
        .resolve_document(&ex, CharacterId::BEDMAN, SECTIONED, &headers, &tables, &vec![])
        .unwrap();
    let names: Vec<&str> = moves.iter().map(|m| m.name.as_str()).collect();
    assert_eq!(names, vec!["Lv1", "Lv2", "Lv3"]);
}

use ggstdl::chain::Override;
use ggstdl::chain::OverrideAction;
use ggstdl::chain::Quirk;
use ggstdl::chain::ResolverChain;
use ggstdl::row::Extractor;
use ggstdl::row::TableRow;
use ggstdl::CharacterId;
use ggstdl::Move;

fn extractor() -> Extractor {
    Extractor::new().unwrap()
}

fn header(n: usize) -> TableRow {
    TableRow {
        markup: String::from("<tr><th></th></tr>"),
        cells: vec![String::from("th"); n],
        header: true,
    }
}

fn data(cells: &[&str]) -> TableRow {
    TableRow {
        markup: String::from("<tr></tr>"),
        cells: cells.iter().map(|c| c.to_string()).collect(),
        header: false,
    }
}

fn no_exceptions() -> ResolverChain {
    ResolverChain { overrides: vec![], quirks: vec![] }
}

fn stats(m: &Move) -> Vec<&str> {
    vec![
        m.damage.as_str(),
        m.guard.as_str(),
        m.startup.as_str(),
        m.active.as_str(),
        m.recovery.as_str(),
        m.onblock.as_str(),
        m.onhit.as_str(),
        m.level.as_str(),
        m.counterhit_type.as_str(),
        m.invuln.as_str(),
        m.proration.as_str(),
        m.risc_gain.as_str(),
        m.risc_loss.as_str(),
    ]
}

#[test]
fn single_row_fixture_236k() {
    let ex = extractor();
    let table = vec![header(2), data(&["5", "All", "10", "3", "12", "-2"])];
    let moves = no_exceptions().resolve(&ex, CharacterId::BEDMAN, "236K", &table).unwrap();
    assert_eq!(moves.len(), 1);
    let m = &moves[0];
    assert_eq!(m.name, "236K");
    assert_eq!(m.input, "236K");
    assert_eq!(m.damage, "5");
    assert_eq!(m.guard, "All");
    assert_eq!(m.startup, "10");
    assert_eq!(m.active, "3");
    assert_eq!(m.recovery, "12");
    assert_eq!(m.onblock, "-2");
    assert_eq!(m.onhit, "");
    assert_eq!(m.regex.as_str(), "(?i)^(236K)$");
    assert!(m.regex.is_match("236K"));
    assert!(m.regex.is_match("236k"));
    assert!(!m.regex.is_match("236KK"));
    assert!(!m.regex.is_match("j.236K"));
}

#[test]
fn one_header_one_data_row_gives_one_move() {
    let ex = extractor();
    let table = vec![header(3), data(&["20", "Mid"])];
    let moves = no_exceptions().resolve(&ex, CharacterId::ASUKA, "5P", &table).unwrap();
    assert_eq!(moves.len(), 1);
    assert_eq!(moves[0].name, "5P");
    assert_eq!(moves[0].damage, "20");
}

#[test]
fn one_header_three_data_rows_give_three_named_moves() {
    let ex = extractor();
    let table = vec![
        header(3),
        data(&["Level 1", "30", "Mid"]),
        data(&["Level 2", "40", "High"]),
        data(&["Level 3", "50", "Low"]),
    ];
    let moves = no_exceptions().resolve(&ex, CharacterId::ASUKA, "214S", &table).unwrap();
    assert_eq!(moves.len(), 3);
    let names: Vec<&str> = moves.iter().map(|m| m.name.as_str()).collect();
    assert_eq!(names, vec!["Level 1", "Level 2", "Level 3"]);
    assert_eq!(moves[1].damage, "40");
    assert_eq!(moves[2].guard, "Low");
    assert!(moves[0].regex.is_match("level 1"));
}

#[test]
fn override_wins_over_single_row_shape() {
    let ex = extractor();
    let table = vec![header(2), data(&["5", "All"])];
    let chain = ResolverChain {
        overrides: vec![Override {
            character: CharacterId::BEDMAN,
            name: String::from("236K"),
            action: OverrideAction::Split(vec![String::from("Task A")]),
        }],
        quirks: vec![],
    };
    let moves = chain.resolve(&ex, CharacterId::BEDMAN, "236K", &table).unwrap();
    assert_eq!(moves.len(), 1);
    assert_eq!(moves[0].name, "Task A");
    assert_eq!(moves[0].damage, "5");
}

#[test]
fn override_split_makes_two_moves_from_first_rows() {
    let ex = extractor();
    let table = vec![header(2), data(&["10", "Mid"]), data(&["20", "High"]), data(&["30", "Low"])];
    let chain = ResolverChain {
        overrides: vec![Override {
            character: CharacterId::JOHNNY,
            name: String::from("Mist Finer"),
            action: OverrideAction::Split(vec![String::from("Lv1"), String::from("Lv2")]),
        }],
        quirks: vec![],
    };
    let moves = chain.resolve(&ex, CharacterId::JOHNNY, "Mist Finer", &table).unwrap();
    assert_eq!(moves.len(), 2);
    assert_eq!(moves[0].name, "Lv1");
    assert_eq!(moves[1].name, "Lv2");
    assert_eq!(moves[1].guard, "High");
}

#[test]
fn override_of_other_character_does_not_claim() {
    let ex = extractor();
    let table = vec![header(2), data(&["5", "All"])];
    let chain = ResolverChain {
        overrides: vec![Override {
            character: CharacterId::ABA,
            name: String::from("236K"),
            action: OverrideAction::Discard,
        }],
        quirks: vec![],
    };
    let moves = chain.resolve(&ex, CharacterId::BEDMAN, "236K", &table).unwrap();
    assert_eq!(moves.len(), 1);
    assert_eq!(moves[0].name, "236K");
}

#[test]
fn discard_override_claims_with_no_moves() {
    let ex = extractor();
    let table = vec![header(2), data(&["5", "All"])];
    let chain = ResolverChain {
        overrides: vec![Override {
            character: CharacterId::BEDMAN,
            name: String::from("236K"),
            action: OverrideAction::Discard,
        }],
        quirks: vec![],
    };
    let moves = chain.resolve(&ex, CharacterId::BEDMAN, "236K", &table).unwrap();
    assert!(moves.is_empty());
}

#[test]
fn quirk_renames_by_substring() {
    let ex = extractor();
    let table = vec![header(2), data(&["44", "Mid"])];
    let chain = ResolverChain {
        overrides: vec![],
        quirks: vec![Quirk {
            character: CharacterId::ELPHELT,
            fragment: String::from("Ms. Confille"),
            renamed: String::from("Rifle Stance"),
        }],
    };
    let moves = chain
        .resolve(&ex, CharacterId::ELPHELT, "Aim Ms. Confille (stance)", &table)
        .unwrap();
    assert_eq!(moves.len(), 1);
    assert_eq!(moves[0].name, "Rifle Stance");
    let other = chain.resolve(&ex, CharacterId::ELPHELT, "Bouquet", &table).unwrap();
    assert_eq!(other[0].name, "Bouquet");
}

#[test]
fn unclaimed_table_gives_no_moves() {
    let ex = extractor();
    let table = vec![data(&["5", "All"]), data(&["6", "Mid"])];
    let moves = no_exceptions().resolve(&ex, CharacterId::BEDMAN, "5K", &table).unwrap();
    assert!(moves.is_empty());
    let empty: Vec<TableRow> = vec![];
    assert!(no_exceptions().resolve(&ex, CharacterId::BEDMAN, "5K", &empty).unwrap().is_empty());
}

#[test]
fn damage_only_row_leaves_later_fields_empty() {
    let ex = extractor();
    let table = vec![header(2), data(&[" 12 "])];
    let moves = no_exceptions().resolve(&ex, CharacterId::BEDMAN, "2D", &table).unwrap();
    assert_eq!(moves.len(), 1);
    let fields = stats(&moves[0]);
    assert_eq!(fields[0], "12");
    assert!(fields[1..].iter().all(|f| f.is_empty()));
}

#[test]
fn resolving_twice_gives_identical_moves() {
    let ex = extractor();
    let table = vec![header(3), data(&["A", "1", "2"]), data(&["B", "3", "4"])];
    let first = no_exceptions().resolve(&ex, CharacterId::SOL, "x", &table).unwrap();
    let second = no_exceptions().resolve(&ex, CharacterId::SOL, "x", &table).unwrap();
    assert_eq!(first.len(), second.len());
    for (a, b) in first.iter().zip(second.iter()) {
        assert_eq!(a.name, b.name);
        assert_eq!(a.input, b.input);
        assert_eq!(stats(a), stats(b));
        assert_eq!(a.regex.as_str(), b.regex.as_str());
        assert_eq!(a.hitboxes, b.hitboxes);
    }
}

use ggstdl::bindings::get_all_bindings;
use ggstdl::bindings::get_bindings;
use ggstdl::pattern::fallback_regex;
use ggstdl::resolver::get_moves;
use ggstdl::row::load_section;
use ggstdl::row::parse_row;
use ggstdl::row::Extractor;
use ggstdl::row::TableRow;
use ggstdl::load;
use ggstdl::registry;
use ggstdl::CharacterId;
use ggstdl::CharacterPage;
use ggstdl::GGSTDLError;
use ggstdl::CHARACTER_COUNT;

const NORMALS: &str = "<html><body>\
<div id=\"section-collapsible-3\"><table><thead><tr><th>x</th></tr></thead><tbody>\
<tr><td>ctl</td><td> 5P </td><td>22</td><td>All</td><td>4</td><td>3</td><td>9</td><td>-1</td></tr>\
<tr><td>ctl</td><td>f.S</td><td>28</td><td>All</td><td>10</td></tr>\
</tbody></table></div>\
<div id=\"section-collapsible-4\"><table><tbody>\
<tr><td>ctl</td><td>236P</td><td>Servant Summon</td><td>--</td><td>--</td><td>22</td></tr>\
</tbody></table></div>\
</body></html>";

fn cells(items: &[&str]) -> Vec<String> {
    items.iter().map(|c| c.to_string()).collect()
}

#[test]
fn error_messages() {
    assert_eq!(GGSTDLError::UnknownCharacter.message(), "Unknown character");
    assert_eq!(GGSTDLError::UnknownMove.message(), "Unknown move");
}

#[test]
fn registry_lists_every_character_in_order() {
    let entries = registry();
    assert_eq!(entries.len(), CHARACTER_COUNT);
    assert_eq!(entries[0].id, CharacterId::TESTAMENT);
    assert_eq!(entries[26].id, CharacterId::ABA);
    for (i, e) in entries.iter().enumerate() {
        assert_eq!(e.id.index(), i);
    }
    assert_eq!(CharacterId::all().len(), 27);
}

#[test]
fn every_alias_pattern_is_case_insensitive() {
    let table = get_all_bindings().unwrap();
    assert_eq!(table.entries.len(), CHARACTER_COUNT);
    for list in &table.entries {
        for (re, _) in list {
            assert!(re.as_str().starts_with("(?i)"));
        }
    }
    assert_eq!(get_bindings(CharacterId::TESTAMENT).len(), 12);
    assert_eq!(get_bindings(CharacterId::NAGORIYUKI).len(), 49);
    assert!(get_bindings(CharacterId::ABA).is_empty());
    let (pattern, name) = &get_bindings(CharacterId::JACKO)[0];
    assert_eq!(pattern, "(?i)(2D)");
    assert_eq!(name, "Sweep");
}

#[test]
fn binding_lookup_ignores_ascii_case() {
    let table = get_all_bindings().unwrap();
    let re = table.get_regex_binding(CharacterId::JACKO, "2d", "Sweep").unwrap();
    assert_eq!(re.as_str(), "(?i)(2D)");
    let by_name = table.get_regex_binding(CharacterId::JACKO, "xx", "sweep").unwrap();
    assert_eq!(by_name.as_str(), "(?i)(2D)");
    assert!(table.get_regex_binding(CharacterId::JACKO, "5P", "5P").is_none());
    assert!(table.get_regex_binding(CharacterId::BEDMAN, "2D", "Sweep").is_none());
}

#[test]
fn fallback_pattern_escapes_and_loosens_dots() {
    let re = fallback_regex("f.S").unwrap();
    assert_eq!(re.as_str(), "(?i)^(f.?S)$");
    assert!(re.is_match("f.S"));
    assert!(re.is_match("fs"));
    assert!(re.is_match("f S"));
    assert!(!re.is_match("f.S2"));
    let bracket = fallback_regex("236[H]").unwrap();
    assert_eq!(bracket.as_str(), "(?i)^(236\\[H\\])$");
    assert!(bracket.is_match("236[h]"));
}

#[test]
fn parse_row_unnamed_layout() {
    let ex = Extractor::new().unwrap();
    let row = cells(&["ctl", " 5K ", "30", "Low", "7", "3", "12", "-4", "+1"]);
    let m = parse_row(&ex, &row, CharacterId::BEDMAN, false).unwrap();
    assert_eq!(m.input, "5K");
    assert_eq!(m.name, "5K");
    assert_eq!(m.damage, "30");
    assert_eq!(m.guard, "Low");
    assert_eq!(m.onblock, "-4");
    assert_eq!(m.onhit, "+1");
    assert_eq!(m.level, "");
    assert!(m.hitboxes.is_empty());
    assert!(m.regex.is_match("5k"));
}

#[test]
fn parse_row_named_layout_uses_alias() {
    let ex = Extractor::new().unwrap();
    let row = cells(&["ctl", "236P", "Servant Summon", "--", "All"]);
    let m = parse_row(&ex, &row, CharacterId::JACKO, true).unwrap();
    assert_eq!(m.input, "236P");
    assert_eq!(m.name, "Servant Summon");
    assert_eq!(m.damage, "--");
    assert_eq!(m.guard, "All");
    assert_eq!(m.regex.as_str(), "(?i)((236P|summon|pull))");
}

#[test]
fn short_row_degrades_to_empty_fields() {
    let ex = Extractor::new().unwrap();
    let row = cells(&["ctl", "6H", "40"]);
    let m = parse_row(&ex, &row, CharacterId::BEDMAN, false).unwrap();
    assert_eq!(m.damage, "40");
    assert_eq!(m.guard, "");
    assert_eq!(m.risc_loss, "");
    let none = parse_row(&ex, &vec![], CharacterId::BEDMAN, false).unwrap();
    assert_eq!(none.input, "");
    assert!(none.regex.is_match(""));
}

#[test]
fn hitboxes_are_made_absolute_in_order() {
    let ex = Extractor::new().unwrap();
    let markup = "<tr data-x=\"&lt;img src=&quot;/images/a_Hitbox.png&quot;&gt;\
&lt;img src=&quot;/images/b.png&quot;&gt;&lt;img src=&quot;/images/c_HB.png&quot;&gt;\"></tr>";
    let urls = ex.hitboxes(markup);
    assert_eq!(
        urls,
        vec![
            String::from("https://www.dustloop.com/images/a_Hitbox.png"),
            String::from("https://www.dustloop.com/images/c_HB.png"),
        ]
    );
    let row = TableRow {
        markup: String::from(markup),
        cells: cells(&["ctl", "5P", "22"]),
        header: false,
    };
    let moves = load_section(&ex, CharacterId::BEDMAN, &vec![row], false).unwrap();
    assert_eq!(moves[0].hitboxes.len(), 2);
}

#[test]
fn document_sections_become_moves() {
    let ex = Extractor::new().unwrap();
    let moves = get_moves(&ex, CharacterId::JACKO, NORMALS).unwrap();
    let names: Vec<&str> = moves.iter().map(|m| m.name.as_str()).collect();
    assert_eq!(names, vec!["5P", "f.S", "Servant Summon"]);
    assert_eq!(moves[0].damage, "22");
    assert_eq!(moves[0].onblock, "-1");
    assert_eq!(moves[1].startup, "10");
    assert_eq!(moves[1].active, "");
    assert_eq!(moves[2].input, "236P");
    assert_eq!(moves[2].startup, "22");
    assert!(get_moves(&ex, CharacterId::JACKO, "<p>nothing</p>").unwrap().is_empty());
}

#[test]
fn ingesting_a_document_twice_is_identical() {
    let ex = Extractor::new().unwrap();
    let a = get_moves(&ex, CharacterId::SOL, NORMALS).unwrap();
    let b = get_moves(&ex, CharacterId::SOL, NORMALS).unwrap();
    assert_eq!(a.len(), b.len());
    for (x, y) in a.iter().zip(b.iter()) {
        assert_eq!(x.name, y.name);
        assert_eq!(x.input, y.input);
        assert_eq!(x.damage, y.damage);
        assert_eq!(x.startup, y.startup);
        assert_eq!(x.regex.as_str(), y.regex.as_str());
        assert_eq!(x.hitboxes, y.hitboxes);
    }
}

fn catalog() -> ggstdl::GGSTDLData {
    let ex = Extractor::new().unwrap();
    let pages: Vec<CharacterPage> = registry()
        .into_iter()
        .map(|entry| {
            let document = if entry.id == CharacterId::JACKO {
                Some(String::from(NORMALS))
            } else {
                None
            };
            CharacterPage { entry, document }
        })
        .collect();
    load(&ex, &pages).unwrap()
}

#[test]
fn find_character_by_alias() {
    let data = catalog();
    assert_eq!(data.characters.len(), 27);
    assert_eq!(data.find_character("chaos").unwrap().id, CharacterId::HAPPYCHAOS);
    assert_eq!(data.find_character("Jack-O").unwrap().id, CharacterId::JACKO);
    assert_eq!(data.find_character("MILIA").unwrap().id, CharacterId::MILLIA);
    assert_eq!(data.find_character("sin kiske").unwrap().id, CharacterId::SIN);
    assert_eq!(data.find_character("sin or sol").unwrap().id, CharacterId::SOL);
    assert_eq!(data.find_character("zzz").unwrap_err(), GGSTDLError::UnknownCharacter);
}

#[test]
fn find_move_by_alias_and_notation() {
    let data = catalog();
    let m = data.find_move("jack", "summon").unwrap();
    assert_eq!(m.name, "Servant Summon");
    let fs = data.find_move("jacko", "fs").unwrap();
    assert_eq!(fs.name, "f.S");
    let five = data.find_move("jack", "5p").unwrap();
    assert_eq!(five.name, "5P");
    assert_eq!(data.find_move("jack", "nothing").unwrap_err(), GGSTDLError::UnknownMove);
    assert_eq!(data.find_move("sol", "5P").unwrap_err(), GGSTDLError::UnknownMove);
    assert_eq!(data.find_move("zzz", "5P").unwrap_err(), GGSTDLError::UnknownCharacter);
}

#[test]
fn first_matching_move_wins() {
    let data = catalog();
    let jack = data.find_character("jack").unwrap();
    let found = jack.find_move("5P").unwrap();
    assert_eq!(found.name, jack.moves[0].name);
}

#[test]
fn move_summary_terse_and_verbose() {
    let ex = Extractor::new().unwrap();
    let row = cells(&["ctl", "5K", "30", "Low", "7", "3", "12", "-4", "+1", "1", "Small", "1-5 Strike"]);
    let m = parse_row(&ex, &row, CharacterId::BEDMAN, false).unwrap();
    assert_eq!(
        m.summary(false),
        "5K | Startup: 7 | Active: 3 | Recovery: 12 | On block: -4"
    );
    assert_eq!(
        m.summary(true),
        "5K | Damage: 30 | Guard: Low | Startup: 7 | Active: 3 | Recovery: 12 | On block: -4 | Invuln: 1-5 Strike"
    );
}

#[test]
fn header_rows_give_no_moves() {
    let ex = Extractor::new().unwrap();
    let header = TableRow { markup: String::from("<tr><th>a</th></tr>"), cells: vec![], header: true };
    let data = |label: &str| TableRow {
        markup: String::from("<tr></tr>"),
        cells: cells(&["ctl", label, "10"]),
        header: false,
    };
    let one = load_section(&ex, CharacterId::BEDMAN, &vec![header.clone(), data("5P")], false).unwrap();
    assert_eq!(one.len(), 1);
    assert_eq!(one[0].name, "5P");
    let three = load_section(
        &ex,
        CharacterId::BEDMAN,
        &vec![header, data("5P"), data("5K"), data("5S")],
        false,
    )
    .unwrap();
    let names: Vec<&str> = three.iter().map(|m| m.name.as_str()).collect();
    assert_eq!(names, vec!["5P", "5K", "5S"]);
}

#[test]
fn jacko_236k_uses_its_alias() {
    let ex = Extractor::new().unwrap();
    let m = parse_row(&ex, &cells(&["", "236K", "20"]), CharacterId::JACKO, false).unwrap();
    assert_eq!(m.pattern(), "(?i)((236K|shoot|kick))");
    assert!(m.regex.is_match("shoot"));
}

#[test]
fn extraction_keeps_attribute_order() {
    let ex = Extractor::new().unwrap();
    let page = "<div id=\"section-collapsible-3\"><table><tbody>\
<tr class=\"a\" data-z=\"1\" data-y=\"2\" data-x=\"3\" title=\"t\" lang=\"en\"><td id=\"c\" data-b=\"1\" data-a=\"2\">5P</td></tr>\
</tbody></table></div>";
    let first = ggstdl::resolver::extract_sections(&ex, page);
    let second = ggstdl::resolver::extract_sections(&ex, page);
    let a = first[0].as_ref().unwrap();
    let b = second[0].as_ref().unwrap();
    assert_eq!(a[0].markup, b[0].markup);
    assert!(a[0].markup.starts_with("<tr class=\"a\" data-z=\"1\" data-y=\"2\" data-x=\"3\""));
    assert_eq!(a[0].cells, vec![String::from("5P")]);
    assert!(first[1].is_none());
}

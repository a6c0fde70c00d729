use reapers_wf::filters::Tier;
use reapers_wf::mission_type::MissionType;
use reapers_wf::text::{decimal_string, join, push_repeated};
use reapers_wf::ui::calculate_table_widths;
use reapers_wf::util::{
    capital_letters, column_widths, comma_separated_string, insert_spaces, push_padded,
    separate_camel_case, table,
};

fn strings(cells: &[&str]) -> Vec<String> {
    cells.iter().map(|c| c.to_string()).collect()
}

#[test]
fn decimal_string_writes_numerals() {
    assert_eq!(decimal_string(0), "0");
    assert_eq!(decimal_string(7), "7");
    assert_eq!(decimal_string(10), "10");
    assert_eq!(decimal_string(1234567890), "1234567890");
    assert_eq!(decimal_string(u64::MAX), "18446744073709551615");
}

#[test]
fn push_repeated_appends_copies() {
    let mut text = "ab".to_string();
    push_repeated(&mut text, '-', 3);
    assert_eq!(text, "ab---");
    push_repeated(&mut text, '!', 0);
    assert_eq!(text, "ab---");
}

#[test]
fn join_puts_the_separator_between_parts() {
    assert_eq!(join(&strings(&[]), ", "), "");
    assert_eq!(join(&strings(&["a"]), ", "), "a");
    assert_eq!(join(&strings(&["a", "b", "c"]), ", "), "a, b, c");
    assert_eq!(join(&strings(&["", ""]), "\n"), "\n");
}

#[test]
fn separate_camel_case_spaces_capitals_but_the_first() {
    assert_eq!(separate_camel_case("MobileDefense"), "Mobile Defense");
    assert_eq!(separate_camel_case("SanctuaryOnslaught"), "Sanctuary Onslaught");
    assert_eq!(separate_camel_case("Capture"), "Capture");
    assert_eq!(separate_camel_case(""), "");
    assert_eq!(separate_camel_case("ABC"), "A B C");
    assert_eq!(separate_camel_case("aB"), "a B");
    assert_eq!(separate_camel_case("lower case"), "lower case");
}

#[test]
fn separate_camel_case_knows_capitals_beyond_ascii() {
    assert_eq!(separate_camel_case("xÉcole"), "x École");
    assert_eq!(separate_camel_case("a1B2"), "a1 B2");
}

#[test]
fn insert_spaces_goes_by_the_marks() {
    assert_eq!(insert_spaces("abc", &vec![true, true, false]), "a bc");
    assert_eq!(insert_spaces("abc", &vec![false, false, true]), "ab c");
    assert_eq!(insert_spaces("abc", &vec![true]), "abc");
    assert_eq!(insert_spaces("abc", &Vec::new()), "abc");
    assert_eq!(insert_spaces("ab", &vec![false, true, true, true]), "a b");
    assert_eq!(insert_spaces("", &vec![true]), "");
}

#[test]
fn capital_letters_marks_uppercase() {
    assert_eq!(capital_letters("aBcD"), vec![false, true, false, true]);
    assert_eq!(capital_letters("É1 z"), vec![true, false, false, false]);
    assert_eq!(capital_letters(""), Vec::<bool>::new());
}

#[test]
fn comma_separated_string_joins_names() {
    assert_eq!(comma_separated_string(&vec![Tier::Lith, Tier::Axi]), "Lith, Axi");
    assert_eq!(comma_separated_string(&vec![MissionType::FreeRoam]), "FreeRoam");
    assert_eq!(comma_separated_string(&Vec::<Tier>::new()), "");
}

#[test]
fn table_aligns_columns() {
    let data = vec![strings(&["a", "bb"]), strings(&["ccc", "d"])];
    assert_eq!(table(data), "a   | bb | \nccc | d  | \n");
}

#[test]
fn table_of_one_row() {
    assert_eq!(table(vec![strings(&["x", "", "yz"])]), "x |  | yz | \n");
}

#[test]
fn table_takes_shorter_rows() {
    let data = vec![strings(&["head", "second"]), strings(&["longer cell"]), Vec::new()];
    assert_eq!(table(data), "head        | second | \nlonger cell | \n\n");
}

#[test]
fn table_measures_in_bytes_and_pads_in_characters() {
    // "é" takes two bytes and one character
    let data = vec![strings(&["é"]), strings(&["a"])];
    assert_eq!(table(data), "é  | \na  | \n");
}

#[test]
fn column_widths_are_the_longest_cells() {
    let data = vec![strings(&["a", "bb", ""]), strings(&["ccc", "d"])];
    assert_eq!(column_widths(&data), vec![3, 2, 0]);
}

#[test]
fn push_padded_fills_to_the_width() {
    let mut text = String::new();
    push_padded(&mut text, "ab", 4);
    assert_eq!(text, "ab   | ");
    push_padded(&mut text, "toolong", 3);
    assert_eq!(text, "ab   | toolong | ");
}

#[test]
fn table_widths_count_characters_with_the_header() {
    let header = strings(&["SP", "Tier", "Node"]);
    let rows = vec![strings(&["", "Requiem", "é"]), strings(&["SP", "Axi", "Hydron (Sedna)"])];
    assert_eq!(calculate_table_widths(&header, &rows), vec![2, 7, 14]);
}

#[test]
fn table_widths_without_rows_are_the_header_widths() {
    let header = strings(&["Mission Type", "é"]);
    assert_eq!(calculate_table_widths(&header, &Vec::new()), vec![12, 1]);
    assert_eq!(calculate_table_widths(&Vec::new(), &Vec::new()), Vec::<u16>::new());
}

#[test]
fn table_widths_wrap_at_sixteen_bits() {
    let header = strings(&["h"]);
    let rows = vec![vec!["x".repeat(65_536 + 5)]];
    assert_eq!(calculate_table_widths(&header, &rows), vec![5]);
}

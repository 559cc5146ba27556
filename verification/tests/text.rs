use flaq::dates::split_ranges;
use flaq::grammar::{char_in_class, read_token, scan_run, CharClass, Rule};
use flaq::query::{lists_contain, lists_share, BinaryOperator, Expr, Value};
use flaq::tags::{has_char, same_text, FlacTags};
use flaq::text::{contains_text, copy_strings, is_digit_char, parse_decimal, to_chars};

fn chars(s: &str) -> Vec<char> {
    s.chars().collect()
}

fn owned(values: Vec<&str>) -> Vec<String> {
    values.into_iter().map(|s| s.to_string()).collect()
}

#[test]
fn characters_of_a_string() {
    assert_eq!(to_chars(""), Vec::<char>::new());
    assert_eq!(to_chars("aé→b"), vec!['a', 'é', '→', 'b']);
    assert!(has_char(&chars("a:b"), ':'));
    assert!(!has_char(&chars("ab"), ':'));
    assert!(same_text("ab", "ab"));
    assert!(!same_text("ab", "aB"));
    assert_eq!(copy_strings(&owned(vec!["x", "", "y"])), owned(vec!["x", "", "y"]));
}

#[test]
fn unsigned_decimal_numbers() {
    assert_eq!(parse_decimal(&chars("0"), u32::MAX), Some(0));
    assert_eq!(parse_decimal(&chars("0042"), u32::MAX), Some(42));
    assert_eq!(parse_decimal(&chars("+7"), u32::MAX), Some(7));
    assert_eq!(parse_decimal(&chars("4294967295"), u32::MAX), Some(4294967295));
    assert_eq!(parse_decimal(&chars("4294967296"), u32::MAX), None);
    assert_eq!(parse_decimal(&chars("99999999999999999999999"), u32::MAX), None);
    assert_eq!(parse_decimal(&chars("255"), 255), Some(255));
    assert_eq!(parse_decimal(&chars("256"), 255), None);
    assert_eq!(parse_decimal(&chars(""), u32::MAX), None);
    assert_eq!(parse_decimal(&chars("+"), u32::MAX), None);
    assert_eq!(parse_decimal(&chars("-1"), u32::MAX), None);
    assert_eq!(parse_decimal(&chars("++1"), u32::MAX), None);
    assert_eq!(parse_decimal(&chars("1 "), u32::MAX), None);
    assert_eq!(parse_decimal(&chars("١٢"), u32::MAX), None);
    assert_eq!("+7".parse::<u32>().ok(), parse_decimal(&chars("+7"), u32::MAX));
    assert_eq!("-0".parse::<u32>().ok(), parse_decimal(&chars("-0"), u32::MAX));
    assert!(is_digit_char('0') && is_digit_char('9'));
    assert!(!is_digit_char('a') && !is_digit_char('/') && !is_digit_char(':'));
}

#[test]
fn substring_search() {
    assert!(contains_text(&chars("nujabes"), &chars("jabe")));
    assert!(contains_text(&chars("nujabes"), &chars("nujabes")));
    assert!(contains_text(&chars("nujabes"), &chars("s")));
    assert!(contains_text(&chars("nujabes"), &chars("")));
    assert!(contains_text(&chars(""), &chars("")));
    assert!(contains_text(&chars("aab"), &chars("ab")));
    assert!(!contains_text(&chars("nujabes"), &chars("naba")));
    assert!(!contains_text(&chars("nujabes"), &chars("nujabess")));
    assert!(!contains_text(&chars(""), &chars("a")));
    assert!(!contains_text(&chars("abab"), &chars("bb")));
}

#[test]
fn lists_of_strings_compared() {
    assert!(lists_share(&owned(vec!["a", "b"]), &owned(vec!["c", "b"])));
    assert!(!lists_share(&owned(vec!["a", "b"]), &owned(vec!["A"])));
    assert!(!lists_share(&owned(vec![]), &owned(vec!["a"])));
    assert!(lists_contain(&owned(vec!["Nujabes"]), &owned(vec!["UJA"])));
    assert!(lists_contain(&owned(vec!["STRASSE"]), &owned(vec!["strasse"])));
    assert!(lists_contain(&owned(vec!["ÉCOLE"]), &owned(vec!["école"])));
    assert!(!lists_contain(&owned(vec!["Nujabes"]), &owned(vec!["x"])));
}

#[test]
fn parts_between_separators() {
    assert_eq!(split_ranges(&chars(""), '-'), vec![(0, 0)]);
    assert_eq!(split_ranges(&chars("2005"), '-'), vec![(0, 4)]);
    assert_eq!(split_ranges(&chars("2005-06-21"), '-'), vec![(0, 4), (5, 7), (8, 10)]);
    assert_eq!(split_ranges(&chars("-a--"), '-'), vec![(0, 0), (1, 2), (3, 3), (4, 4)]);
}

#[test]
fn runs_and_tokens() {
    let text = chars("  title>=\"a b\" 12-3 2005 !x");
    assert_eq!(scan_run(&text, 0, CharClass::Blank), 2);
    assert_eq!(scan_run(&text, 2, CharClass::Blank), 2);
    assert_eq!(scan_run(&text, 2, CharClass::Letter), 7);
    assert_eq!(scan_run(&text, 10, CharClass::Quoted), 13);
    assert_eq!(scan_run(&text, text.len(), CharClass::Word), text.len());
    assert_eq!(read_token(&text, 2), Some((Rule::Tag, 7)));
    assert_eq!(read_token(&text, 7), Some((Rule::GreaterEq, 9)));
    assert_eq!(read_token(&text, 8), None);
    assert_eq!(read_token(&text, 9), Some((Rule::String, 14)));
    assert_eq!(read_token(&text, 15), Some((Rule::Date, 19)));
    assert_eq!(read_token(&text, 16), Some((Rule::Date, 19)));
    assert_eq!(read_token(&text, 20), Some((Rule::Date, 24)));
    assert_eq!(read_token(&text, 21), Some((Rule::Integer, 24)));
    assert_eq!(read_token(&text, 25), Some((Rule::Not, 26)));
    assert_eq!(read_token(&text, 0), None);
    assert!(char_in_class(CharClass::Word, ':') && char_in_class(CharClass::Word, '-'));
    assert!(!char_in_class(CharClass::Word, ',') && !char_in_class(CharClass::Word, ' '));
    assert!(!char_in_class(CharClass::Letter, 'é') && !char_in_class(CharClass::Number, 'a'));
}

#[test]
fn copies_are_equal() {
    let e = Expr::BinOp {
        lhs: Box::new(Expr::Not(Box::new(Expr::Value(Value::Tag(FlacTags::Other(
            "MOOD".to_string(),
        )))))),
        op: BinaryOperator::Or,
        rhs: Box::new(Expr::Value(Value::String(owned(vec!["a", "b"])))),
    };
    assert_eq!(e.clone(), e);
    assert_eq!(FlacTags::Genre.duplicate(), FlacTags::Genre);
    assert_eq!(Value::Integer(3).duplicate(), Value::Integer(3));
    assert_eq!(BinaryOperator::GreaterEq.name(), "GreaterEq");
    assert_eq!(Value::Boolean(true).kind(), "Boolean");
}

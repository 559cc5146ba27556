use flaq::parsers::{ParserError, TagParser};
use flaq::tags::FlacTags;
use flaq::tags::FlacTags::Title;
use std::collections::HashMap;

fn owned(values: Vec<&str>) -> Vec<String> {
    values.into_iter().map(|s| s.to_string()).collect()
}

fn parsed(input: &str) -> HashMap<FlacTags, Vec<String>> {
    TagParser::eval(input).unwrap().into_iter().collect()
}

#[test]
fn test_parse_string() {
    let valid = vec![
        ("title:bar", HashMap::from([(Title, vec!["bar"])])),
        ("title:\"bar\"", HashMap::from([(Title, vec!["bar"])])),
        (" title : bar   ", HashMap::from([(Title, vec!["bar"])])),
        ("title:(bar,foo)", HashMap::from([(Title, vec!["bar", "foo"])])),
        ("title:(bar, foo)", HashMap::from([(Title, vec!["bar", "foo"])])),
        ("title:(bar, foo, Bam,)", HashMap::from([(Title, vec!["bar", "foo", "Bam"])])),
        ("title : ( bar , foo )", HashMap::from([(Title, vec!["bar", "foo"])])),
        ("title:(bar, foo,)", HashMap::from([(Title, vec!["bar", "foo"])])),
        ("title:bar artisit:bar", HashMap::from([(Title, vec!["bar"]),  (Title, vec!["bar"])])),
    ];
    let invalid: Vec<&str> = vec![
        // "invalid"
    ];

    valid
        .into_iter()
        .for_each(|(input, map)| {
            let map: HashMap<FlacTags, Vec<String>> =
                map.into_iter().map(|(k, v)| (k, owned(v))).collect();
            assert_eq!(parsed(input), map)
        });
    invalid
        .into_iter()
        .for_each(|i| assert!(TagParser::eval(i).is_err()));
}

#[test]
fn tag_assignment_with_unknown_field_names_it_in_capitals() {
    assert_eq!(
        TagParser::eval("artisit:bar"),
        Err(ParserError::TagError("ARTISIT".to_string()))
    );
}

#[test]
fn tag_assignment_that_is_malformed_gives_the_text_back() {
    for text in ["", "title", "title:", "title:(bar", "title:(bar foo)", ":bar", "title:\"bar"] {
        assert_eq!(
            TagParser::eval(text),
            Err(ParserError::TagError(text.to_string()))
        );
    }
}

#[test]
fn tag_assignment_keeps_quoted_blanks_and_empty_lists() {
    assert_eq!(
        TagParser::eval("Artist:(\"Cise Starr\", Nujabes)"),
        Ok(vec![(
            FlacTags::Artist,
            vec!["Cise Starr".to_string(), "Nujabes".to_string()]
        )])
    );
    assert_eq!(TagParser::eval("genre:()"), Ok(vec![(FlacTags::Genre, vec![])]));
}

#[test]
fn tag_assignment_gives_one_edit() {
    assert_eq!(TagParser::eval("title:a title:b").unwrap().len(), 1);
    assert_eq!(TagParser::eval("date:(1, 2, 3)").unwrap().len(), 1);
}

use flaq::tags::{Fields, FlacTags};

fn catalogue() -> Vec<(FlacTags, &'static str)> {
    vec![
        (FlacTags::Title, "TITLE"),
        (FlacTags::Version, "VERSION"),
        (FlacTags::Album, "ALBUM"),
        (FlacTags::Tracknumber, "TRACKNUMBER"),
        (FlacTags::Artist, "ARTIST"),
        (FlacTags::Performer, "PERFORMER"),
        (FlacTags::Copyright, "COPYRIGHT"),
        (FlacTags::License, "LICENSE"),
        (FlacTags::Organization, "ORGANIZATION"),
        (FlacTags::Description, "DESCRIPTION"),
        (FlacTags::Genre, "GENRE"),
        (FlacTags::Date, "DATE"),
        (FlacTags::Location, "LOCATION"),
        (FlacTags::Contact, "CONTACT"),
        (FlacTags::Isrc, "ISRC"),
    ]
}

fn no_fields() -> Fields {
    Fields {
        title: None,
        version: None,
        album: None,
        tracknumber: None,
        artist: None,
        performer: None,
        copyright: None,
        license: None,
        organization: None,
        description: None,
        genre: None,
        date: None,
        location: None,
        contact: None,
        isrc: None,
    }
}

#[test]
fn canonical_names_and_back() {
    for (tag, name) in catalogue() {
        assert_eq!(tag.as_str(), name);
        assert_eq!(FlacTags::from_str(name), Ok(tag.clone()));
        assert_eq!(FlacTags::from_str(&name.to_lowercase()), Ok(tag.clone()));
        assert_eq!(FlacTags::from_canonical(name.to_string()), Ok(tag.clone()));
        assert_eq!(FlacTags::known(name), Some(tag.clone()));
        assert!(tag.is_standard());
        assert!(FlacTags::standard_name(name));
    }
}

#[test]
fn names_outside_the_catalogue() {
    assert_eq!(FlacTags::from_str("Mood"), Ok(FlacTags::Other("MOOD".to_string())));
    assert_eq!(FlacTags::from_str(""), Ok(FlacTags::Other("".to_string())));
    assert_eq!(FlacTags::from_str("straße"), Ok(FlacTags::Other("STRASSE".to_string())));
    assert_eq!(FlacTags::from_str("Mood").unwrap().as_str(), "MOOD");
    assert_eq!(FlacTags::from_canonical("title".to_string()), Ok(FlacTags::Other("title".to_string())));
    assert_eq!(FlacTags::known("title"), None);
    assert!(!FlacTags::Other("MOOD".to_string()).is_standard());
    assert!(!FlacTags::standard_name("mood"));
    assert!(FlacTags::standard_name("tItLe"));
}

#[test]
fn names_with_a_colon_are_refused() {
    assert_eq!(
        FlacTags::from_str("ti:tle"),
        Err("Attempted to use tag `TI:TLE` that contained illegal character `:`".to_string())
    );
    assert_eq!(
        FlacTags::from_str(":"),
        Err("Attempted to use tag `:` that contained illegal character `:`".to_string())
    );
    assert!(!FlacTags::standard_name("title:"));
}

#[test]
fn fields_parse_from_text() {
    assert_eq!("Artist".parse::<FlacTags>(), Ok(FlacTags::Artist));
    assert_eq!("mood".parse::<FlacTags>(), Ok(FlacTags::Other("MOOD".to_string())));
    assert!("a:b".parse::<FlacTags>().is_err());
}

#[test]
fn edits_come_in_the_order_of_the_catalogue() {
    assert_eq!(FlacTags::from_args(no_fields()), vec![]);
    let mut fields = no_fields();
    fields.isrc = Some(vec!["X".to_string()]);
    fields.title = Some(vec!["A".to_string(), "B".to_string()]);
    fields.date = Some(vec![]);
    assert_eq!(
        FlacTags::from_args(fields),
        vec![
            (FlacTags::Title, vec!["A".to_string(), "B".to_string()]),
            (FlacTags::Date, vec![]),
            (FlacTags::Isrc, vec!["X".to_string()]),
        ]
    );
}

#[test]
fn every_field_given_gives_every_edit() {
    let value = |s: &str| Some(vec![s.to_string()]);
    let fields = Fields {
        title: value("TITLE"),
        version: value("VERSION"),
        album: value("ALBUM"),
        tracknumber: value("TRACKNUMBER"),
        artist: value("ARTIST"),
        performer: value("PERFORMER"),
        copyright: value("COPYRIGHT"),
        license: value("LICENSE"),
        organization: value("ORGANIZATION"),
        description: value("DESCRIPTION"),
        genre: value("GENRE"),
        date: value("DATE"),
        location: value("LOCATION"),
        contact: value("CONTACT"),
        isrc: value("ISRC"),
    };
    let expected: Vec<(FlacTags, Vec<String>)> = catalogue()
        .into_iter()
        .map(|(tag, name)| (tag, vec![name.to_string()]))
        .collect();
    assert_eq!(FlacTags::from_args(fields), expected);
}

#[test]
fn fields_written_by_hand_may_break_the_invariant() {
    assert!(FlacTags::Title.is_well_formed());
    assert!(FlacTags::Other("MOOD".to_string()).is_well_formed());
    assert!(FlacTags::Other("mood".to_string()).is_well_formed());
    assert!(FlacTags::Other("".to_string()).is_well_formed());
    assert!(!FlacTags::Other("TITLE".to_string()).is_well_formed());
    assert!(!FlacTags::Other("a:b".to_string()).is_well_formed());
    assert!(FlacTags::from_str("title").unwrap().is_well_formed());
    assert!(FlacTags::from_str("Rating").unwrap().is_well_formed());
    assert_eq!(FlacTags::Other("TITLE".to_string()).as_str(), "TITLE");
    assert!(!FlacTags::Other("TITLE".to_string()).is_standard());
}

use flaq::operations::{append_tags, clean_non_standard_tags, clean_tags, delete_tags, set_tags};
use flaq::tags::FlacTags;
use metaflac::block::VorbisComment;

#[test]
fn test_set_tags() {
    let mut actual = VorbisComment::new();
    let mut expected = VorbisComment::new();

    actual.set("TITLE", vec!["Foo", "Bar"]);
    actual.set("ARTIST", vec!["Eksheke"]);
    set_tags(&mut actual, FlacTags::Title, vec!["Boo".to_string()]);

    expected.set("TITLE", vec!["Boo"]);
    expected.set("ARTIST", vec!["Eksheke"]);

    assert_eq!(actual, expected)
}

#[test]
fn test_append_tags_1() {
    let mut actual = VorbisComment::new();
    let mut expected = VorbisComment::new();

    actual.set("TITLE", vec!["Foo", "Bar"]);
    actual.set("ARTIST", vec!["Eksheke"]);
    append_tags(&mut actual, FlacTags::Title, vec!["Boo".to_string()]);

    expected.set("TITLE", vec!["Foo", "Bar", "Boo"]);
    expected.set("ARTIST", vec!["Eksheke"]);

    assert_eq!(actual, expected)
}

#[test]
fn test_append_tags_2() {
    let mut actual = VorbisComment::new();
    let mut expected = VorbisComment::new();

    actual.set("ARTIST", vec!["Eksheke"]);
    append_tags(&mut actual, FlacTags::Title, vec!["Boo".to_string()]);

    expected.set("TITLE", vec!["Boo"]);
    expected.set("ARTIST", vec!["Eksheke"]);

    assert_eq!(actual, expected)
}

#[test]
fn test_clean_tags() {
    let mut actual = VorbisComment::new();
    let mut expected = VorbisComment::new();

    actual.set("TITLE", vec!["Foo", "Foo"]);
    actual.set("ARTIST", vec!["Eksheke"]);
    clean_tags(&mut actual);

    expected.set("TITLE", vec!["Foo"]);
    expected.set("ARTIST", vec!["Eksheke"]);

    assert_eq!(actual, expected)
}

#[test]
fn test_clean_non_standard_tags() {
    let mut actual = VorbisComment::new();
    let mut expected = VorbisComment::new();

    actual.set("TITLE", vec!["Foo"]);
    actual.set("EKSHEKE", vec!["Foo", "Foo"]);
    actual.set("ARTIST", vec!["Eksheke"]);
    clean_non_standard_tags(&mut actual);

    expected.set("TITLE", vec!["Foo"]);
    expected.set("ARTIST", vec!["Eksheke"]);

    assert_eq!(actual, expected)
}

#[test]
fn test_delete_tags() {
    let mut actual = VorbisComment::new();
    let mut expected = VorbisComment::new();

    actual.set("TITLE", vec!["Foo", "Foo"]);
    actual.set("ARTIST", vec!["Eksheke"]);
    delete_tags(&mut actual, FlacTags::Title);

    expected.set("ARTIST", vec!["Eksheke"]);

    assert_eq!(actual, expected)
}

#[test]
fn clean_tags_keeps_first_occurrences_in_order() {
    let mut actual = VorbisComment::new();
    actual.set("ARTIST", vec!["b", "a", "b", "c", "a"]);
    actual.set("GENRE", Vec::<String>::new());
    clean_tags(&mut actual);
    assert_eq!(
        actual.get("ARTIST"),
        Some(&vec!["b".to_string(), "a".to_string(), "c".to_string()])
    );
    assert_eq!(actual.get("GENRE"), Some(&Vec::<String>::new()));
    assert_eq!(actual.comments.len(), 2);
}

#[test]
fn clean_non_standard_tags_goes_by_name_whatever_the_case() {
    let mut actual = VorbisComment::new();
    actual.set("title", vec!["kept"]);
    actual.set("Mood", vec!["gone"]);
    actual.set("RATING:MAX", vec!["gone"]);
    clean_non_standard_tags(&mut actual);
    assert_eq!(actual.get("title"), Some(&vec!["kept".to_string()]));
    assert_eq!(actual.get("Mood"), None);
    assert_eq!(actual.get("RATING:MAX"), None);
}

#[test]
fn set_tags_on_other_field_uses_its_name() {
    let mut actual = VorbisComment::new();
    set_tags(
        &mut actual,
        FlacTags::Other("MOOD".to_string()),
        vec!["calm".to_string()],
    );
    assert_eq!(actual.get("MOOD"), Some(&vec!["calm".to_string()]));
    delete_tags(&mut actual, FlacTags::Other("MOOD".to_string()));
    assert_eq!(actual.get("MOOD"), None);
}

#[test]
fn other_fields_are_taken_by_the_name_they_hold() {
    let mut actual = VorbisComment::new();
    actual.set("TITLE", vec!["Foo"]);
    append_tags(
        &mut actual,
        FlacTags::Other("TITLE".to_string()),
        vec!["Bar".to_string()],
    );
    assert_eq!(actual.get("TITLE"), Some(&vec!["Foo".to_string(), "Bar".to_string()]));
    set_tags(&mut actual, FlacTags::Other("a:b".to_string()), vec!["x".to_string()]);
    assert_eq!(actual.get("a:b"), Some(&vec!["x".to_string()]));
    delete_tags(&mut actual, FlacTags::Other("TITLE".to_string()));
    assert_eq!(actual.get("TITLE"), None);
    assert_eq!(actual.comments.len(), 1);
}

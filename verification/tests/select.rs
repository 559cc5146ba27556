use flaq::builder::compile;
use flaq::query::{Expr, QueryEvalError};
use flaq::select::{select, Candidate};
use metaflac::block::VorbisComment;

fn chosen(query: &Expr, files: &Vec<Candidate<String>>) -> Result<Vec<String>, QueryEvalError> {
    select(query, files).map(|paths| paths.into_iter().cloned().collect())
}

fn file(path: &str, tags: Vec<(&str, Vec<&str>)>) -> Candidate<String> {
    let mut block = VorbisComment::new();
    for (key, values) in tags {
        block.set(key, values);
    }
    Candidate { path: path.to_string(), tags: block }
}

#[test]
fn selection_keeps_the_files_that_match() {
    let files = vec![
        file("a", vec![("TITLE", vec!["Feather"])]),
        file("b", vec![("TITLE", vec!["Other"])]),
    ];
    let query = compile("title == \"Feather\"").unwrap();
    assert_eq!(chosen(&query, &files), Ok(vec!["a".to_string()]));
}

#[test]
fn selection_keeps_the_order_of_the_files() {
    let files = vec![
        file("z", vec![("TRACKNUMBER", vec!["3"])]),
        file("m", vec![("TRACKNUMBER", vec!["9"])]),
        file("a", vec![("TRACKNUMBER", vec!["1"])]),
        file("z", vec![("TRACKNUMBER", vec!["2"])]),
    ];
    let query = compile("tracknumber <= 3").unwrap();
    assert_eq!(
        chosen(&query, &files),
        Ok(vec!["z".to_string(), "a".to_string(), "z".to_string()])
    );
    assert_eq!(chosen(&query, &vec![]), Ok(vec![]));
}

#[test]
fn selection_fails_as_a_whole_on_the_first_error() {
    let files = vec![
        file("a", vec![("TITLE", vec!["Feather"]), ("DATE", vec!["2005"])]),
        file("b", vec![("TITLE", vec!["Other"])]),
        file("c", vec![("TITLE", vec!["x"]), ("DATE", vec!["soon"])]),
    ];
    let query = compile("date == 2005").unwrap();
    assert_eq!(
        chosen(&query, &files),
        Err(QueryEvalError::TagNotSet("DATE".to_string()))
    );
    let query = compile("title == \"Feather\"").unwrap();
    assert_eq!(chosen(&query, &files), Ok(vec!["a".to_string()]));
}

#[test]
fn selection_needs_a_boolean() {
    let files = vec![file("a", vec![("TITLE", vec!["Feather"])])];
    for text in ["title", "12", "2005-01", "\"x\""] {
        let query = compile(text).unwrap();
        assert_eq!(chosen(&query, &files), Err(QueryEvalError::BadEvaluation));
        assert_eq!(query.matches(&files[0].tags), Err(QueryEvalError::BadEvaluation));
    }
    assert_eq!(chosen(&compile("12").unwrap(), &vec![]), Ok(vec![]));
    assert_eq!(compile("!(title == \"x\")").unwrap().matches(&files[0].tags), Ok(true));
}

#[test]
fn selection_gives_back_the_paths_it_was_given() {
    let mut first = VorbisComment::new();
    first.set("GENRE", vec!["Jazz", "Hip hop"]);
    let mut second = VorbisComment::new();
    second.set("GENRE", vec!["Rock"]);
    let files = vec![
        Candidate { path: std::path::PathBuf::from("music/a.flac"), tags: first },
        Candidate { path: std::path::PathBuf::from("music/b.flac"), tags: second },
    ];
    let query = compile("genre =~ \"hip\" || genre == \"Rock\"").unwrap();
    assert_eq!(select(&query, &files), Ok(vec![&files[0].path, &files[1].path]));
    let query = compile("genre != \"Rock\"").unwrap();
    let picked = select(&query, &files).unwrap();
    assert_eq!(picked.len(), 1);
    assert!(std::ptr::eq(picked[0], &files[0].path));
}

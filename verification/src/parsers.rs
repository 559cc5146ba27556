//! Reading one tag assignment from text: a field's name, a colon, and one
//! value or a list of values in round brackets.
//!
//! ```text
//! assignment = field ":" ( item | "(" [ item { "," item } [ "," ] ] ")" )
//! item       = '"' { any character but '"' } '"' | word
//! ```
//!
//! A field is a run of ASCII letters; a word is a run of characters other
//! than blanks, commas, round brackets and double quotes. Blanks may stand
//! around every part. What follows the assignment is not read.

use vstd::prelude::*;
use vstd::string::*;
use crate::grammar::{CharClass, run_end, scan_run};
use crate::tags::{FlacTags, TagView, Task, canonical_of, tag_of_canonical, tasks_view};
use crate::text::{strs, to_chars};

verus! {

/// Why a tag assignment was refused: the text that is no assignment, or the
/// name, in capitals, that names no field of the catalogue.
#[derive(Debug, Clone, PartialEq, Eq)]
pub enum ParserError {
    TagError(String),
}

/// The item that starts at `pos`, a position inside the text: its text,
/// without the quotes if it has them, and where it ends.
pub open spec fn item_at(s: Seq<char>, pos: int) -> Option<(Seq<char>, int)> {
    if s[pos] == '"' {
        let close = run_end(s, pos + 1, CharClass::Quoted);
        if close < s.len() {
            Some((s.subrange(pos + 1, close), close + 1))
        } else {
            None
        }
    } else {
        let end = run_end(s, pos, CharClass::Word);
        if end > pos {
            Some((s.subrange(pos, end), end))
        } else {
            None
        }
    }
}

/// The items of a list in brackets, from `pos` on, up to the closing
/// bracket.
pub open spec fn items_from(s: Seq<char>, pos: int) -> Option<Seq<Seq<char>>>
    decreases s.len() - pos,
{
    let p = run_end(s, pos, CharClass::Blank);
    if p < pos || p >= s.len() {
        None
    } else if s[p] == ')' {
        Some(Seq::empty())
    } else {
        match item_at(s, p) {
            None => None,
            Some((text, end)) => {
                let q = run_end(s, end, CharClass::Blank);
                if !(p < end <= q < s.len()) {
                    None
                } else if s[q] == ')' {
                    Some(seq![text])
                } else if s[q] == ',' {
                    match items_from(s, q + 1) {
                        Some(rest) => Some(seq![text] + rest),
                        None => None,
                    }
                } else {
                    None
                }
            },
        }
    }
}

/// The name and the values of the assignment that a text starts with.
pub open spec fn assignment_of(s: Seq<char>) -> Option<(Seq<char>, Seq<Seq<char>>)> {
    let start = run_end(s, 0, CharClass::Blank);
    let end = run_end(s, start, CharClass::Letter);
    let colon = run_end(s, end, CharClass::Blank);
    if !(0 <= start < end <= colon < s.len()) || s[colon] != ':' {
        None
    } else {
        let key = s.subrange(start, end);
        let v = run_end(s, colon + 1, CharClass::Blank);
        if !(colon < v < s.len()) {
            None
        } else if s[v] == '(' {
            match items_from(s, v + 1) {
                Some(values) => Some((key, values)),
                None => None,
            }
        } else {
            match item_at(s, v) {
                Some((text, _)) => Some((key, seq![text])),
                None => None,
            }
        }
    }
}

/// The edit that a tag assignment asks for.
pub open spec fn tag_assignment(s: Seq<char>) -> Result<
    Seq<(TagView, Seq<Seq<char>>)>,
    Seq<char>,
> {
    match assignment_of(s) {
        None => Err(s),
        Some((key, values)) => match tag_of_canonical(canonical_of(key)) {
            Ok(TagView::Other(name)) => Err(name),
            Ok(t) => Ok(seq![(t, values)]),
            Err(message) => Err(message),
        },
    }
}

pub open spec fn assignment_view(r: Result<Vec<Task>, ParserError>) -> Result<
    Seq<(TagView, Seq<Seq<char>>)>,
    Seq<char>,
> {
    match r {
        Ok(tasks) => Ok(tasks_view(tasks@)),
        Err(ParserError::TagError(text)) => Err(text@),
    }
}

/// Reads the item that starts at `pos`.
fn read_item(src: &str, chars: &Vec<char>, pos: usize) -> (r: Option<(String, usize)>)
    requires
        chars@ == src@,
        pos < chars@.len(),
    ensures
        match r {
            Some((text, end)) => item_at(src@, pos as int) == Some((text@, end as int)) && pos
                < end <= chars@.len(),
            None => item_at(src@, pos as int) is None,
        },
{
    let len = chars.len();
    if chars[pos] == '"' {
        let close = scan_run(chars, pos + 1, CharClass::Quoted);
        if close < len {
            Some((String::from_str(src.substring_char(pos + 1, close)), close + 1))
        } else {
            None
        }
    } else {
        let end = scan_run(chars, pos, CharClass::Word);
        if end > pos {
            Some((String::from_str(src.substring_char(pos, end)), end))
        } else {
            None
        }
    }
}

/// Reads the items of a list in brackets, from `pos` on.
fn read_items(src: &str, chars: &Vec<char>, pos: usize) -> (r: Option<Vec<String>>)
    requires
        chars@ == src@,
        pos <= chars@.len(),
    ensures
        match r {
            Some(items) => items_from(src@, pos as int) == Some(strs(items@)),
            None => items_from(src@, pos as int) is None,
        },
{
    let len = chars.len();
    let mut items: Vec<String> = Vec::new();
    let mut at: usize = pos;
    assert(strs(items@) =~= Seq::empty());
    loop
        invariant
            at <= len,
            len == chars@.len(),
            chars@ == src@,
            items_from(src@, pos as int) == match items_from(src@, at as int) {
                Some(rest) => Some(strs(items@) + rest),
                None => None,
            },
        decreases len - at,
    {
        let p = scan_run(chars, at, CharClass::Blank);
        if p >= len {
            return None;
        }
        if chars[p] == ')' {
            assert(strs(items@) + Seq::empty() =~= strs(items@));
            return Some(items);
        }
        let (text, end) = match read_item(src, chars, p) {
            Some(found) => found,
            None => {
                return None;
            },
        };
        let q = scan_run(chars, end, CharClass::Blank);
        if q >= len {
            return None;
        }
        let ghost before = strs(items@);
        let ghost item = text@;
        items.push(text);
        assert(strs(items@) =~= before.push(item));
        assert(before + seq![item] =~= before.push(item));
        if chars[q] == ')' {
            return Some(items);
        }
        if chars[q] != ',' {
            return None;
        }
        assert forall|rest: Seq<Seq<char>>|
            before + (seq![item] + rest) == #[trigger] (before.push(item) + rest) by {
            assert(before + (seq![item] + rest) =~= before.push(item) + rest);
        }
        at = q + 1;
    }
}

/// Reads the name and the values of the assignment that a text starts with.
pub fn read_assignment(src: &str) -> (r: Option<(String, Vec<String>)>)
    ensures
        match r {
            Some((key, values)) => assignment_of(src@) == Some((key@, strs(values@))),
            None => assignment_of(src@) is None,
        },
{
    let chars = to_chars(src);
    let len = chars.len();
    let start = scan_run(&chars, 0, CharClass::Blank);
    let end = scan_run(&chars, start, CharClass::Letter);
    let colon = scan_run(&chars, end, CharClass::Blank);
    if !(start < end && colon < len) || chars[colon] != ':' {
        return None;
    }
    let key = String::from_str(src.substring_char(start, end));
    let v = scan_run(&chars, colon + 1, CharClass::Blank);
    if v >= len {
        return None;
    }
    if chars[v] == '(' {
        match read_items(src, &chars, v + 1) {
            Some(values) => Some((key, values)),
            None => None,
        }
    } else {
        match read_item(src, &chars, v) {
            Some((text, _)) => {
                let mut values: Vec<String> = Vec::new();
                values.push(text);
                assert(strs(values@) =~= seq![text@]);
                Some((key, values))
            },
            None => None,
        }
    }
}

/// The grammar of tag assignments.
pub struct TagParser;

impl TagParser {
    /// Reads the tag assignment that a text starts with: the field of the
    /// catalogue that it names, whatever the case of the name, and the values
    /// given for it. The result is a list of one edit, which stands for a map
    /// from fields to values with one entry.
    pub fn eval(tag_string: &str) -> (r: Result<Vec<Task>, ParserError>)
        ensures
            assignment_view(r) == tag_assignment(tag_string@),
            r matches Ok(tasks) ==> tasks@.len() == 1,
    {
        let (key, values) = match read_assignment(tag_string) {
            Some(found) => found,
            None => {
                return Err(ParserError::TagError(String::from_str(tag_string)));
            },
        };
        match FlacTags::from_str(key.as_str()) {
            Ok(FlacTags::Other(name)) => Err(ParserError::TagError(name)),
            Ok(tag) => {
                let mut tasks: Vec<Task> = Vec::new();
                let ghost entry = (tag@, strs(values@));
                tasks.push((tag, values));
                assert(tasks_view(tasks@) =~= seq![entry]);
                Ok(tasks)
            },
            Err(message) => Err(ParserError::TagError(message)),
        }
    }
}

} // verus!

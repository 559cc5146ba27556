//! The tokens of the query language, and the splitting of a query text into
//! tokens.
//!
//! ```text
//! query       = conjunction { "||" conjunction }
//! conjunction = comparison { "&&" comparison }
//! comparison  = unary { ( "==" | "!=" | "=~" | ">" | ">=" | "<" | "<=" ) unary }
//! unary       = "!" unary | primary
//! primary     = date | string | integer | field | "(" query ")"
//! ```
//!
//! A string stands between double quotes and holds no double quote. A number
//! is a run of digits and hyphens that starts with a digit: with a hyphen in
//! it, or with exactly four characters, it is a date, otherwise an integer.
//! A field is a run of ASCII letters. Blanks separate tokens and mean
//! nothing else.
//!
//! The grammar stage is all or nothing: a text is accepted, and its tokens
//! handed on, only if the whole of it is one `query`. Whether a field belongs
//! to the catalogue, and whether a number or date can be read, is no matter
//! of the grammar: that is found when the expression is built.

use vstd::prelude::*;
use vstd::string::*;
use crate::query::{BinaryOperator, ParseErrorView, QueryParseError};
use crate::text::to_chars;

verus! {

/// The kinds of token.
#[derive(Debug, Clone, Copy, PartialEq, Eq, Structural)]
pub enum Rule {
    Date,
    String,
    Integer,
    Tag,
    Open,
    Close,
    Not,
    Equals,
    NotEquals,
    Contains,
    Greater,
    GreaterEq,
    Less,
    LessEq,
    And,
    Or,
}

/// A token: its kind and the text that it spans.
#[derive(Debug, Clone, PartialEq, Eq)]
pub struct Pair {
    pub rule: Rule,
    pub text: String,
}

/// The mathematical value of a token.
pub struct PairView {
    pub rule: Rule,
    pub text: Seq<char>,
}

impl View for Pair {
    type V = PairView;

    open spec fn view(&self) -> PairView {
        PairView { rule: self.rule, text: self.text@ }
    }
}

/// The tokens of a list, each as its mathematical value.
pub open spec fn pairs_view(v: Seq<Pair>) -> Seq<PairView> {
    Seq::new(v.len(), |i: int| v[i]@)
}

pub open spec fn is_blank(c: char) -> bool {
    c == ' ' || c == '\t' || c == '\n' || c == '\r'
}

pub open spec fn is_letter(c: char) -> bool {
    ('a' as u32 <= c as u32 && c as u32 <= 'z' as u32) || ('A' as u32 <= c as u32 && c as u32
        <= 'Z' as u32)
}

pub open spec fn is_number_char(c: char) -> bool {
    ('0' as u32 <= c as u32 && c as u32 <= '9' as u32) || c == '-'
}

/// The classes of character of which a token can be a run.
#[derive(Debug, Clone, Copy, PartialEq, Eq, Structural)]
pub enum CharClass {
    Blank,
    Letter,
    Number,
    /// Everything but a double quote.
    Quoted,
    /// Everything but a blank, a comma, a round bracket and a double quote.
    Word,
}

pub open spec fn in_class(class: CharClass, c: char) -> bool {
    match class {
        CharClass::Blank => is_blank(c),
        CharClass::Letter => is_letter(c),
        CharClass::Number => is_number_char(c),
        CharClass::Quoted => c != '"',
        CharClass::Word => !is_blank(c) && c != ',' && c != '(' && c != ')' && c != '"',
    }
}

/// Where the longest run of characters of a class that starts at `pos` ends.
pub open spec fn run_end(s: Seq<char>, pos: int, class: CharClass) -> int
    decreases s.len() - pos,
{
    if 0 <= pos < s.len() && in_class(class, s[pos]) {
        run_end(s, pos + 1, class)
    } else {
        pos
    }
}

/// Whether the character after `pos` is `c`.
pub open spec fn followed_by(s: Seq<char>, pos: int, c: char) -> bool {
    pos + 1 < s.len() && s[pos + 1] == c
}

/// The kind of a number token with the given text.
pub open spec fn number_rule(text: Seq<char>) -> Rule {
    if text.contains('-') || text.len() == 4 {
        Rule::Date
    } else {
        Rule::Integer
    }
}

/// The token that starts at `pos`, a position inside the text that holds no
/// blank: its kind and where it ends. `None` where no token starts there.
pub open spec fn token_at(s: Seq<char>, pos: int) -> Option<(Rule, int)> {
    let c = s[pos];
    if c == '(' {
        Some((Rule::Open, pos + 1))
    } else if c == ')' {
        Some((Rule::Close, pos + 1))
    } else if c == '!' {
        if followed_by(s, pos, '=') {
            Some((Rule::NotEquals, pos + 2))
        } else {
            Some((Rule::Not, pos + 1))
        }
    } else if c == '=' {
        if followed_by(s, pos, '=') {
            Some((Rule::Equals, pos + 2))
        } else if followed_by(s, pos, '~') {
            Some((Rule::Contains, pos + 2))
        } else {
            None
        }
    } else if c == '>' {
        if followed_by(s, pos, '=') {
            Some((Rule::GreaterEq, pos + 2))
        } else {
            Some((Rule::Greater, pos + 1))
        }
    } else if c == '<' {
        if followed_by(s, pos, '=') {
            Some((Rule::LessEq, pos + 2))
        } else {
            Some((Rule::Less, pos + 1))
        }
    } else if c == '&' {
        if followed_by(s, pos, '&') {
            Some((Rule::And, pos + 2))
        } else {
            None
        }
    } else if c == '|' {
        if followed_by(s, pos, '|') {
            Some((Rule::Or, pos + 2))
        } else {
            None
        }
    } else if c == '"' {
        let close = run_end(s, pos + 1, CharClass::Quoted);
        if close < s.len() {
            Some((Rule::String, close + 1))
        } else {
            None
        }
    } else if is_number_char(c) && c != '-' {
        let end = run_end(s, pos, CharClass::Number);
        Some((number_rule(s.subrange(pos, end)), end))
    } else if is_letter(c) {
        Some((Rule::Tag, run_end(s, pos, CharClass::Letter)))
    } else {
        None
    }
}

/// The tokens of the text from `pos` on, or `None` where some character
/// starts no token.
pub open spec fn tokens_from(s: Seq<char>, pos: int) -> Option<Seq<PairView>>
    decreases s.len() - pos,
{
    let start = run_end(s, pos, CharClass::Blank);
    if start < pos || start >= s.len() {
        Some(Seq::empty())
    } else {
        match token_at(s, start) {
            None => None,
            Some((rule, end)) => if start < end <= s.len() {
                match tokens_from(s, end) {
                    None => None,
                    Some(rest) => Some(
                        seq![PairView { rule, text: s.subrange(start, end) }] + rest,
                    ),
                }
            } else {
                None
            },
        }
    }
}

/// The tokens of a query text.
pub open spec fn tokens_of(s: Seq<char>) -> Option<Seq<PairView>> {
    tokens_from(s, 0)
}

/// The kinds of the tokens of a list.
pub open spec fn rules_of(t: Seq<PairView>) -> Seq<Rule> {
    Seq::new(t.len(), |i: int| t[i].rule)
}

/// Whether a token is a literal or a field.
pub open spec fn is_operand(rule: Rule) -> bool {
    rule == Rule::Date || rule == Rule::String || rule == Rule::Integer || rule == Rule::Tag
}

/// The tier and the operator of an infix token: 0 for `||`, 1 for `&&`, 2 for
/// the comparisons.
pub open spec fn infix_op(rule: Rule) -> Option<(int, BinaryOperator)> {
    match rule {
        Rule::Or => Some((0, BinaryOperator::Or)),
        Rule::And => Some((1, BinaryOperator::And)),
        Rule::Equals => Some((2, BinaryOperator::Equals)),
        Rule::NotEquals => Some((2, BinaryOperator::NotEquals)),
        Rule::Contains => Some((2, BinaryOperator::Contains)),
        Rule::Greater => Some((2, BinaryOperator::Greater)),
        Rule::GreaterEq => Some((2, BinaryOperator::GreaterEq)),
        Rule::Less => Some((2, BinaryOperator::Less)),
        Rule::LessEq => Some((2, BinaryOperator::LessEq)),
        _ => None,
    }
}

/// Where the phrase of the given tier that starts at `pos` ends, if one
/// starts there: tier 0 is a query, 1 a conjunction, 2 a comparison and 3 a
/// unary of the grammar.
pub open spec fn span_level(t: Seq<Rule>, pos: int, level: int) -> Option<int>
    decreases t.len() - pos, 3 - level, 0int,
{
    if 0 <= level < 3 {
        match span_level(t, pos, level + 1) {
            None => None,
            Some(next) => if pos < next <= t.len() {
                span_rest(t, next, level)
            } else {
                None
            },
        }
    } else if pos < 0 || pos >= t.len() {
        None
    } else if t[pos] == Rule::Not {
        span_level(t, pos + 1, 3)
    } else if t[pos] == Rule::Open {
        match span_level(t, pos + 1, 0) {
            None => None,
            Some(next) => if 0 <= next < t.len() && t[next] == Rule::Close {
                Some(next + 1)
            } else {
                None
            },
        }
    } else if is_operand(t[pos]) {
        Some(pos + 1)
    } else {
        None
    }
}

/// Where the operators of the given tier that follow an operand ending at
/// `pos` end, each with its right operand.
pub open spec fn span_rest(t: Seq<Rule>, pos: int, level: int) -> Option<int>
    decreases t.len() - pos, 3 - level, 1int,
{
    if 0 <= pos < t.len() && 0 <= level < 3 {
        match infix_op(t[pos]) {
            Some((tier, _)) => if tier == level {
                match span_level(t, pos + 1, level + 1) {
                    None => None,
                    Some(next) => if pos < next <= t.len() {
                        span_rest(t, next, level)
                    } else {
                        None
                    },
                }
            } else {
                Some(pos)
            },
            None => Some(pos),
        }
    } else {
        Some(pos)
    }
}

/// Whether a list of tokens is one query of the grammar, no more and no
/// less: operands and operators in turn, every bracket closed.
pub open spec fn is_expression(t: Seq<Rule>) -> bool {
    span_level(t, 0, 0) == Some(t.len() as int)
}

/// The tokens of a query text that is a sentence of the grammar; `None` for
/// every other text.
pub open spec fn sentence_of(s: Seq<char>) -> Option<Seq<PairView>> {
    match tokens_of(s) {
        Some(t) => if is_expression(rules_of(t)) {
            Some(t)
        } else {
            None
        },
        None => None,
    }
}

pub fn char_in_class(class: CharClass, c: char) -> (r: bool)
    ensures
        r == in_class(class, c),
{
    let u: u32 = c as u32;
    match class {
        CharClass::Blank => c == ' ' || c == '\t' || c == '\n' || c == '\r',
        CharClass::Letter => ('a' as u32 <= u && u <= 'z' as u32) || ('A' as u32 <= u && u
            <= 'Z' as u32),
        CharClass::Number => ('0' as u32 <= u && u <= '9' as u32) || c == '-',
        CharClass::Quoted => c != '"',
        CharClass::Word => !(c == ' ' || c == '\t' || c == '\n' || c == '\r') && c != ',' && c != '('
            && c != ')' && c != '"',
    }
}

/// Finds where the longest run of characters of a class that starts at `pos`
/// ends.
pub fn scan_run(chars: &Vec<char>, pos: usize, class: CharClass) -> (end: usize)
    requires
        pos <= chars@.len(),
    ensures
        end == run_end(chars@, pos as int, class),
        pos <= end <= chars@.len(),
        pos < chars@.len() && in_class(class, chars@[pos as int]) ==> pos < end,
        forall|j: int| pos <= j < end ==> in_class(class, #[trigger] chars@[j]),
{
    let mut i: usize = pos;
    while i < chars.len() && char_in_class(class, chars[i])
        invariant
            pos <= i <= chars@.len(),
            run_end(chars@, pos as int, class) == run_end(chars@, i as int, class),
            forall|j: int| pos <= j < i ==> in_class(class, #[trigger] chars@[j]),
        decreases chars@.len() - i,
    {
        i += 1;
    }
    i
}

/// Whether a hyphen stands in the given range of the text.
fn has_hyphen(chars: &Vec<char>, from: usize, to: usize) -> (r: bool)
    requires
        from <= to <= chars@.len(),
    ensures
        r == chars@.subrange(from as int, to as int).contains('-'),
{
    let ghost part = chars@.subrange(from as int, to as int);
    let mut i: usize = from;
    while i < to
        invariant
            from <= i <= to <= chars@.len(),
            part == chars@.subrange(from as int, to as int),
            forall|j: int| 0 <= j < i - from ==> part[j] != '-',
        decreases to - i,
    {
        if chars[i] == '-' {
            assert(part[i - from] == '-');
            return true;
        }
        i += 1;
    }
    false
}

fn next_is(chars: &Vec<char>, pos: usize, c: char) -> (r: bool)
    requires
        pos < chars@.len(),
    ensures
        r == followed_by(chars@, pos as int, c),
{
    let len = chars.len();
    pos + 1 < len && chars[pos + 1] == c
}

/// The token that starts at `pos`.
pub fn read_token(chars: &Vec<char>, pos: usize) -> (r: Option<(Rule, usize)>)
    requires
        pos < chars@.len(),
    ensures
        match r {
            Some((rule, end)) => token_at(chars@, pos as int) == Some((rule, end as int)) && pos
                < end <= chars@.len(),
            None => token_at(chars@, pos as int) is None,
        },
{
    let len = chars.len();
    let c = chars[pos];
    if c == '(' {
        Some((Rule::Open, pos + 1))
    } else if c == ')' {
        Some((Rule::Close, pos + 1))
    } else if c == '!' {
        if next_is(chars, pos, '=') {
            Some((Rule::NotEquals, pos + 2))
        } else {
            Some((Rule::Not, pos + 1))
        }
    } else if c == '=' {
        if next_is(chars, pos, '=') {
            Some((Rule::Equals, pos + 2))
        } else if next_is(chars, pos, '~') {
            Some((Rule::Contains, pos + 2))
        } else {
            None
        }
    } else if c == '>' {
        if next_is(chars, pos, '=') {
            Some((Rule::GreaterEq, pos + 2))
        } else {
            Some((Rule::Greater, pos + 1))
        }
    } else if c == '<' {
        if next_is(chars, pos, '=') {
            Some((Rule::LessEq, pos + 2))
        } else {
            Some((Rule::Less, pos + 1))
        }
    } else if c == '&' {
        if next_is(chars, pos, '&') {
            Some((Rule::And, pos + 2))
        } else {
            None
        }
    } else if c == '|' {
        if next_is(chars, pos, '|') {
            Some((Rule::Or, pos + 2))
        } else {
            None
        }
    } else if c == '"' {
        let close = scan_run(chars, pos + 1, CharClass::Quoted);
        if close < chars.len() {
            Some((Rule::String, close + 1))
        } else {
            None
        }
    } else if char_in_class(CharClass::Number, c) && c != '-' {
        let end = scan_run(chars, pos, CharClass::Number);
        let rule = if has_hyphen(chars, pos, end) || end - pos == 4 {
            Rule::Date
        } else {
            Rule::Integer
        };
        Some((rule, end))
    } else if char_in_class(CharClass::Letter, c) {
        let end = scan_run(chars, pos, CharClass::Letter);
        Some((Rule::Tag, end))
    } else {
        None
    }
}

/// The view of a reading of a query text: the tokens, or nothing where the
/// text is refused.
pub open spec fn pairs_result_view(r: Result<Vec<Pair>, QueryParseError>) -> Option<
    Seq<PairView>,
> {
    match r {
        Ok(v) => Some(pairs_view(v@)),
        Err(_) => None,
    }
}

/// The operator of an infix token and its tier.
pub fn infix_of(rule: Rule) -> (r: Option<(u8, BinaryOperator)>)
    ensures
        match r {
            Some((tier, op)) => infix_op(rule) == Some((tier as int, op)),
            None => infix_op(rule) is None,
        },
{
    match rule {
        Rule::Or => Some((0, BinaryOperator::Or)),
        Rule::And => Some((1, BinaryOperator::And)),
        Rule::Equals => Some((2, BinaryOperator::Equals)),
        Rule::NotEquals => Some((2, BinaryOperator::NotEquals)),
        Rule::Contains => Some((2, BinaryOperator::Contains)),
        Rule::Greater => Some((2, BinaryOperator::Greater)),
        Rule::GreaterEq => Some((2, BinaryOperator::GreaterEq)),
        Rule::Less => Some((2, BinaryOperator::Less)),
        Rule::LessEq => Some((2, BinaryOperator::LessEq)),
        _ => None,
    }
}

/// Splits a text into its tokens, or gives nothing where some character
/// starts no token: an unknown operator, a string that is never closed, a
/// character of no use.
pub fn split_tokens(s: &str) -> (r: Option<Vec<Pair>>)
    ensures
        match r {
            Some(v) => tokens_of(s@) == Some(pairs_view(v@)),
            None => tokens_of(s@) is None,
        },
{
    let chars = to_chars(s);
    let len = chars.len();
    let mut pairs: Vec<Pair> = Vec::new();
    let mut pos: usize = 0;
    assert(pairs_view(pairs@) =~= Seq::empty());
    loop
        invariant
            pos <= len,
            len == chars@.len(),
            chars@ == s@,
            tokens_of(s@) == match tokens_from(s@, pos as int) {
                Some(rest) => Some(pairs_view(pairs@) + rest),
                None => None,
            },
        decreases len - pos,
    {
        let start = scan_run(&chars, pos, CharClass::Blank);
        if start >= len {
            assert(pairs_view(pairs@) + Seq::empty() =~= pairs_view(pairs@));
            return Some(pairs);
        }
        match read_token(&chars, start) {
            None => {
                return None;
            },
            Some((rule, end)) => {
                let text = String::from_str(s.substring_char(start, end));
                let ghost before = pairs_view(pairs@);
                let ghost token = PairView { rule, text: s@.subrange(start as int, end as int) };
                pairs.push(Pair { rule, text });
                assert(pairs_view(pairs@) =~= before.push(token));
                assert forall|rest: Seq<PairView>|
                    before + (seq![token] + rest) == #[trigger] (before.push(token) + rest) by {
                    assert(before + (seq![token] + rest) =~= before.push(token) + rest);
                }
                pos = end;
            },
        }
    }
}

/// Where the phrase of the given tier that starts at `pos` ends.
fn check_level(tokens: &Vec<Pair>, pos: usize, level: u8) -> (r: Option<usize>)
    requires
        pos <= tokens@.len(),
        level <= 3,
    ensures
        match r {
            Some(next) => span_level(rules_of(pairs_view(tokens@)), pos as int, level as int)
                == Some(next as int) && pos < next <= tokens@.len(),
            None => span_level(rules_of(pairs_view(tokens@)), pos as int, level as int) is None,
        },
    decreases tokens@.len() - pos, 3 - level, 0int,
{
    let len = tokens.len();
    if level < 3 {
        match check_level(tokens, pos, level + 1) {
            None => None,
            Some(next) => check_rest(tokens, next, level),
        }
    } else if pos >= len {
        None
    } else {
        assert(rules_of(pairs_view(tokens@))[pos as int] == tokens@[pos as int].rule);
        match tokens[pos].rule {
            Rule::Not => check_level(tokens, pos + 1, 3),
            Rule::Open => match check_level(tokens, pos + 1, 0) {
                None => None,
                Some(next) => {
                    if next < len {
                        assert(rules_of(pairs_view(tokens@))[next as int]
                            == tokens@[next as int].rule);
                    }
                    if next < len && tokens[next].rule == Rule::Close {
                        Some(next + 1)
                    } else {
                        None
                    }
                },
            },
            Rule::Date | Rule::String | Rule::Integer | Rule::Tag => Some(pos + 1),
            _ => None,
        }
    }
}

/// Where the operators of the given tier that follow an operand ending at
/// `pos` end.
fn check_rest(tokens: &Vec<Pair>, pos: usize, level: u8) -> (r: Option<usize>)
    requires
        pos <= tokens@.len(),
        level < 3,
    ensures
        match r {
            Some(next) => span_rest(rules_of(pairs_view(tokens@)), pos as int, level as int)
                == Some(next as int) && pos <= next <= tokens@.len(),
            None => span_rest(rules_of(pairs_view(tokens@)), pos as int, level as int) is None,
        },
    decreases tokens@.len() - pos, 3 - level, 1int,
{
    let len = tokens.len();
    if pos >= len {
        return Some(pos);
    }
    assert(rules_of(pairs_view(tokens@))[pos as int] == tokens@[pos as int].rule);
    match infix_of(tokens[pos].rule) {
        Some((tier, _)) => if tier == level {
            match check_level(tokens, pos + 1, level + 1) {
                None => None,
                Some(next) => check_rest(tokens, next, level),
            }
        } else {
            Some(pos)
        },
        None => Some(pos),
    }
}

/// Whether a list of tokens is one query of the grammar, no more and no less.
pub fn is_sentence(tokens: &Vec<Pair>) -> (r: bool)
    ensures
        r == is_expression(rules_of(pairs_view(tokens@))),
{
    match check_level(tokens, 0, 0) {
        Some(next) => next == tokens.len(),
        None => false,
    }
}

/// The grammar of the query language.
pub struct QueryParser;

impl QueryParser {
    /// Checks a query text against the grammar and gives its tokens. The
    /// text is refused as a whole, with `SyntaxError`, unless it is one query
    /// of the grammar: where some character starts no token, where an
    /// operand or an operator is missing, where a bracket is not closed or
    /// closes nothing, where the text is empty.
    pub fn parse_grammer(s: &str) -> (r: Result<Vec<Pair>, QueryParseError>)
        ensures
            pairs_result_view(r) == sentence_of(s@),
            r matches Err(e) ==> e@ == ParseErrorView::SyntaxError,
    {
        match split_tokens(s) {
            Some(pairs) => if is_sentence(&pairs) {
                Ok(pairs)
            } else {
                Err(QueryParseError::SyntaxError)
            },
            None => Err(QueryParseError::SyntaxError),
        }
    }
}

} // verus!

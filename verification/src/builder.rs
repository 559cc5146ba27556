//! Folding the tokens of a query into an expression tree by operator
//! precedence: `||` binds least, then `&&`, then the comparisons, then `!`.
//! Operators of one tier associate to the left.

use vstd::prelude::*;
use vstd::string::*;
use crate::dates::parse_date;
use crate::grammar::{
    Pair,
    PairView,
    QueryParser,
    Rule,
    infix_of,
    infix_op,
    pairs_view,
    sentence_of,
};
use crate::query::{
    BinaryOperator,
    Date,
    Expr,
    ExprView,
    ParseErrorView,
    QueryParseError,
    Value,
    ValueView,
};
use crate::tags::{FlacTags, TagView, canonical_of, tag_of_canonical};
use crate::text::{decimal, parse_decimal, strs, to_chars};

verus! {

/// The text between the quotes of a string token.
pub open spec fn unquoted(text: Seq<char>) -> Option<Seq<char>> {
    if text.len() >= 2 && text[0] == '"' && text.last() == '"' {
        Some(text.subrange(1, text.len() - 1))
    } else {
        None
    }
}

/// The catalogue field that a field token names, if it names one.
pub open spec fn tag_literal(text: Seq<char>) -> Option<TagView> {
    match tag_of_canonical(canonical_of(text)) {
        Ok(t) => if t is Other {
            None
        } else {
            Some(t)
        },
        Err(_) => None,
    }
}

/// The value that a token stands for where a primary is expected.
pub open spec fn literal_of(t: PairView) -> Result<ValueView, ParseErrorView> {
    match t.rule {
        Rule::Date => match parse_date(t.text) {
            Ok(d) => Ok(ValueView::Date(d)),
            Err(e) => Err(e),
        },
        Rule::String => match unquoted(t.text) {
            Some(s) => Ok(ValueView::StringSet(seq![s])),
            None => Err(ParseErrorView::AtomError(t.text)),
        },
        Rule::Integer => match decimal(t.text, u32::MAX as nat) {
            Some(n) => Ok(ValueView::Integer(n as u32)),
            None => Err(ParseErrorView::IntegerError(t.text)),
        },
        Rule::Tag => match tag_literal(t.text) {
            Some(tag) => Ok(ValueView::Tag(tag)),
            None => Err(ParseErrorView::AtomError(t.text)),
        },
        Rule::Open | Rule::Close | Rule::Not => Err(ParseErrorView::AtomError(t.text)),
        _ => Err(ParseErrorView::PrefixError),
    }
}

/// The expression of the given tier that starts at `pos`, and where it ends.
/// Tier 3 is a primary with its `!` prefixes.
pub open spec fn parse_level(t: Seq<PairView>, pos: int, level: int) -> Result<
    (ExprView, int),
    ParseErrorView,
>
    decreases t.len() - pos, 3 - level, 0int,
{
    if 0 <= level < 3 {
        match parse_level(t, pos, level + 1) {
            Err(e) => Err(e),
            Ok((lhs, next)) => if pos < next <= t.len() {
                parse_rest(t, next, level, lhs)
            } else {
                Err(ParseErrorView::SyntaxError)
            },
        }
    } else if pos < 0 || pos >= t.len() {
        Err(ParseErrorView::SyntaxError)
    } else {
        match t[pos].rule {
            Rule::Not => match parse_level(t, pos + 1, 3) {
                Err(e) => Err(e),
                Ok((inner, next)) => Ok((ExprView::Not(Box::new(inner)), next)),
            },
            Rule::Open => match parse_level(t, pos + 1, 0) {
                Err(e) => Err(e),
                Ok((inner, next)) => if !(0 <= next < t.len()) {
                    Err(ParseErrorView::SyntaxError)
                } else if t[next].rule == Rule::Close {
                    Ok((inner, next + 1))
                } else {
                    Err(ParseErrorView::InfixError(t[next].text))
                },
            },
            _ => match literal_of(t[pos]) {
                Ok(v) => Ok((ExprView::Value(v), pos + 1)),
                Err(e) => Err(e),
            },
        }
    }
}

/// The expression of the given tier whose first operand `lhs` ends at `pos`:
/// each operator of that tier that follows takes one more operand.
pub open spec fn parse_rest(t: Seq<PairView>, pos: int, level: int, lhs: ExprView) -> Result<
    (ExprView, int),
    ParseErrorView,
>
    decreases t.len() - pos, 3 - level, 1int,
{
    if 0 <= pos < t.len() && 0 <= level < 3 {
        match infix_op(t[pos].rule) {
            Some((tier, op)) => if tier == level {
                match parse_level(t, pos + 1, level + 1) {
                    Err(e) => Err(e),
                    Ok((rhs, next)) => if pos < next <= t.len() {
                        parse_rest(
                            t,
                            next,
                            level,
                            ExprView::BinOp { lhs: Box::new(lhs), op, rhs: Box::new(rhs) },
                        )
                    } else {
                        Err(ParseErrorView::SyntaxError)
                    },
                }
            } else {
                Ok((lhs, pos))
            },
            None => Ok((lhs, pos)),
        }
    } else {
        Ok((lhs, pos))
    }
}

/// The expression that a list of tokens writes. The whole list must be one
/// expression: a token left over is reported as a missing operator.
pub open spec fn build_tokens(t: Seq<PairView>) -> Result<ExprView, ParseErrorView> {
    match parse_level(t, 0, 0) {
        Err(e) => Err(e),
        Ok((e, next)) => if 0 <= next < t.len() {
            Err(ParseErrorView::InfixError(t[next].text))
        } else {
            Ok(e)
        },
    }
}

/// The expression that a query text writes: a text that is no sentence of the
/// grammar is a syntax error as a whole, and a sentence can fail only on the
/// value of one of its literals.
pub open spec fn compile_text(s: Seq<char>) -> Result<ExprView, ParseErrorView> {
    match sentence_of(s) {
        Some(t) => build_tokens(t),
        None => Err(ParseErrorView::SyntaxError),
    }
}

pub open spec fn literal_result_view(r: Result<Value, QueryParseError>) -> Result<
    ValueView,
    ParseErrorView,
> {
    match r {
        Ok(v) => Ok(v@),
        Err(e) => Err(e@),
    }
}

pub open spec fn parsed_view(r: Result<(Expr, usize), QueryParseError>) -> Result<
    (ExprView, int),
    ParseErrorView,
> {
    match r {
        Ok((e, next)) => Ok((e@, next as int)),
        Err(e) => Err(e@),
    }
}

pub open spec fn build_result_view(r: Result<Expr, QueryParseError>) -> Result<
    ExprView,
    ParseErrorView,
> {
    match r {
        Ok(e) => Ok(e@),
        Err(e) => Err(e@),
    }
}

/// The text between the quotes of a string token.
pub fn strip_quotes(text: &str) -> (r: Option<String>)
    ensures
        match r {
            Some(s) => unquoted(text@) == Some(s@),
            None => unquoted(text@) is None,
        },
{
    let chars = to_chars(text);
    let len = chars.len();
    if len >= 2 && chars[0] == '"' && chars[len - 1] == '"' {
        Some(String::from_str(text.substring_char(1, len - 1)))
    } else {
        None
    }
}

/// The value that a token stands for where a primary is expected.
pub fn literal(token: &Pair) -> (r: Result<Value, QueryParseError>)
    ensures
        literal_result_view(r) == literal_of(token@),
{
    let text = token.text.as_str();
    match token.rule {
        Rule::Date => match Date::from_str(text) {
            Ok(d) => Ok(Value::Date(d)),
            Err(e) => Err(e),
        },
        Rule::String => match strip_quotes(text) {
            Some(s) => {
                let mut list: Vec<String> = Vec::new();
                list.push(s);
                assert(strs(list@) =~= seq![s@]);
                Ok(Value::String(list))
            },
            None => Err(QueryParseError::AtomError(String::from_str(text))),
        },
        Rule::Integer => {
            let chars = to_chars(text);
            match parse_decimal(&chars, u32::MAX) {
                Some(n) => Ok(Value::Integer(n)),
                None => Err(QueryParseError::IntegerError(String::from_str(text))),
            }
        },
        Rule::Tag => match FlacTags::from_str(text) {
            Ok(tag) => if tag.is_standard() {
                Ok(Value::Tag(tag))
            } else {
                Err(QueryParseError::AtomError(String::from_str(text)))
            },
            Err(_) => Err(QueryParseError::AtomError(String::from_str(text))),
        },
        Rule::Open | Rule::Close | Rule::Not => Err(
            QueryParseError::AtomError(String::from_str(text)),
        ),
        _ => Err(QueryParseError::PrefixError),
    }
}

/// Reads the expression of the given tier that starts at `pos`.
fn read_level(tokens: &Vec<Pair>, pos: usize, level: u8) -> (r: Result<
    (Expr, usize),
    QueryParseError,
>)
    requires
        pos <= tokens@.len(),
        level <= 3,
    ensures
        parsed_view(r) == parse_level(pairs_view(tokens@), pos as int, level as int),
        r matches Ok((_, next)) ==> pos < next <= tokens@.len(),
    decreases tokens@.len() - pos, 3 - level, 0int,
{
    let len = tokens.len();
    if level < 3 {
        match read_level(tokens, pos, level + 1) {
            Err(e) => Err(e),
            Ok((lhs, next)) => read_rest(tokens, next, level, lhs),
        }
    } else if pos >= len {
        Err(QueryParseError::SyntaxError)
    } else {
        assert(pairs_view(tokens@)[pos as int] == tokens@[pos as int]@);
        match tokens[pos].rule {
            Rule::Not => match read_level(tokens, pos + 1, 3) {
                Err(e) => Err(e),
                Ok((inner, next)) => Ok((Expr::Not(Box::new(inner)), next)),
            },
            Rule::Open => match read_level(tokens, pos + 1, 0) {
                Err(e) => Err(e),
                Ok((inner, next)) => {
                    if next < len {
                        assert(pairs_view(tokens@)[next as int] == tokens@[next as int]@);
                    }
                    if next >= len {
                        Err(QueryParseError::SyntaxError)
                    } else if tokens[next].rule == Rule::Close {
                        Ok((inner, next + 1))
                    } else {
                        Err(QueryParseError::InfixError(tokens[next].text.clone()))
                    }
                },
            },
            _ => match literal(&tokens[pos]) {
                Ok(v) => Ok((Expr::Value(v), pos + 1)),
                Err(e) => Err(e),
            },
        }
    }
}

/// Reads the operators of the given tier that follow the operand `lhs`, which
/// ends at `pos`, each with its right operand.
fn read_rest(tokens: &Vec<Pair>, pos: usize, level: u8, lhs: Expr) -> (r: Result<
    (Expr, usize),
    QueryParseError,
>)
    requires
        pos <= tokens@.len(),
        level < 3,
    ensures
        parsed_view(r) == parse_rest(pairs_view(tokens@), pos as int, level as int, lhs@),
        r matches Ok((_, next)) ==> pos <= next <= tokens@.len(),
    decreases tokens@.len() - pos, 3 - level, 1int,
{
    let len = tokens.len();
    if pos >= len {
        return Ok((lhs, pos));
    }
    assert(pairs_view(tokens@)[pos as int] == tokens@[pos as int]@);
    match infix_of(tokens[pos].rule) {
        Some((tier, op)) => if tier == level {
            match read_level(tokens, pos + 1, level + 1) {
                Err(e) => Err(e),
                Ok((rhs, next)) => read_rest(
                    tokens,
                    next,
                    level,
                    Expr::BinOp { lhs: Box::new(lhs), op, rhs: Box::new(rhs) },
                ),
            }
        } else {
            Ok((lhs, pos))
        },
        None => Ok((lhs, pos)),
    }
}

/// Builds the expression that a list of tokens writes.
///
/// On the tokens of a sentence of the grammar, as `parse_grammer` gives them,
/// building can fail only on the value of a literal or field: with
/// `IntegerError` or `InvalidDate` for a number or date that cannot be read,
/// with `AtomError` for a field outside the catalogue.
///
/// Tokens that are no sentence never build. They fail with `SyntaxError`
/// where the tokens end before the expression does (an operand is missing, a
/// `(` is not closed); with `AtomError` where a token that starts no primary
/// stands in the place of one; with `PrefixError` where a binary operator
/// stands there; and with `InfixError` where a token that is no binary
/// operator follows an operand.
pub fn build(pairs: Vec<Pair>) -> (r: Result<Expr, QueryParseError>)
    ensures
        build_result_view(r) == build_tokens(pairs_view(pairs@)),
{
    match read_level(&pairs, 0, 0) {
        Err(e) => Err(e),
        Ok((e, next)) => if next < pairs.len() {
            assert(pairs_view(pairs@)[next as int] == pairs@[next as int]@);
            Err(QueryParseError::InfixError(pairs[next].text.clone()))
        } else {
            Ok(e)
        },
    }
}

/// Compiles a query text: checks it against the grammar and builds the
/// expression of its tokens.
pub fn compile(query: &str) -> (r: Result<Expr, QueryParseError>)
    ensures
        build_result_view(r) == compile_text(query@),
{
    match QueryParser::parse_grammer(query) {
        Ok(pairs) => build(pairs),
        Err(e) => Err(e),
    }
}

} // verus!

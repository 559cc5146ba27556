//! What holds of the library as a whole, proved from the definitions that
//! the contracts of its functions use.

use vstd::prelude::*;
use crate::builder::{
    build_result_view,
    build_tokens,
    compile_text,
    literal_of,
    parse_level,
    parse_rest,
};
use crate::eval::{Comments, eval_of};
use crate::grammar::{
    in_class,
    infix_op,
    is_expression,
    is_operand,
    is_letter,
    rules_of,
    run_end,
    sentence_of,
    span_level,
    span_rest,
    token_at,
    tokens_from,
    CharClass,
    PairView,
    Rule,
};
use crate::operations::first_occurrences;
use crate::query::{
    ParseErrorView,
    any_equal,
    apply_op,
    date_lt,
    holds_text,
    BinaryOperator,
    Date,
    EvalErrorView,
    Expr,
    ExprView,
    QueryParseError,
    ValueView,
};
use crate::select::{selection_of, verdict_of, CandidateView};
use crate::tags::{
    canonical_of,
    in_catalogue_order,
    is_standard_name,
    known_tag,
    tag_name,
    tag_of_canonical,
    well_formed,
    TagView,
};
use crate::text::{all_ascii, ascii_lower, ascii_upper, folded, is_substring};

verus! {

/// Compiling is a function of the text: two compilations of one text fail
/// alike, or give trees that are equal node by node.
pub proof fn lemma_compile_deterministic(
    query: Seq<char>,
    first: Result<Expr, QueryParseError>,
    second: Result<Expr, QueryParseError>,
)
    requires
        build_result_view(first) == compile_text(query),
        build_result_view(second) == compile_text(query),
    ensures
        first is Ok <==> second is Ok,
        first matches Ok(a) ==> second matches Ok(b) && a@ == b@,
        first matches Err(a) ==> second matches Err(b) && a@ == b@,
{
}

/// A run ends at or after its start and inside the text, and every
/// character of it belongs to the class.
pub proof fn lemma_run_in_class(s: Seq<char>, pos: int, class: CharClass)
    requires
        0 <= pos <= s.len(),
    ensures
        pos <= run_end(s, pos, class) <= s.len(),
        forall|j: int| pos <= j < run_end(s, pos, class) ==> in_class(class, #[trigger] s[j]),
    decreases s.len() - pos,
{
    if pos < s.len() && in_class(class, s[pos]) {
        lemma_run_in_class(s, pos + 1, class);
    }
}

/// A token is not empty and ends inside the text.
pub proof fn lemma_token_advances(s: Seq<char>, pos: int)
    requires
        0 <= pos < s.len(),
    ensures
        token_at(s, pos) matches Some((_, end)) ==> pos < end <= s.len(),
{
    lemma_run_in_class(s, pos + 1, CharClass::Quoted);
    lemma_run_in_class(s, pos + 1, CharClass::Number);
    lemma_run_in_class(s, pos + 1, CharClass::Letter);
}

/// An expression spans at least one token and ends inside the list.
pub proof fn lemma_expression_advances(t: Seq<PairView>, pos: int, level: int)
    requires
        0 <= pos <= t.len(),
        0 <= level <= 3,
    ensures
        parse_level(t, pos, level) matches Ok((_, next)) ==> pos < next <= t.len(),
    decreases t.len() - pos, 3 - level, 0int,
{
    if level < 3 {
        lemma_expression_advances(t, pos, level + 1);
        match parse_level(t, pos, level + 1) {
            Ok((lhs, next)) => {
                lemma_operators_advance(t, next, level, lhs);
            },
            Err(_) => {},
        }
    } else if pos < t.len() {
        match t[pos].rule {
            Rule::Not => {
                lemma_expression_advances(t, pos + 1, 3);
            },
            Rule::Open => {
                lemma_expression_advances(t, pos + 1, 0);
            },
            _ => {},
        }
    }
}

/// The operators that follow an operand end inside the list, at or after the
/// operand's end.
pub proof fn lemma_operators_advance(t: Seq<PairView>, pos: int, level: int, lhs: ExprView)
    requires
        0 <= pos <= t.len(),
        0 <= level < 3,
    ensures
        parse_rest(t, pos, level, lhs) matches Ok((_, next)) ==> pos <= next <= t.len(),
    decreases t.len() - pos, 3 - level, 1int,
{
    if pos < t.len() {
        match infix_op(t[pos].rule) {
            Some((tier, op)) => {
                if tier == level {
                    lemma_expression_advances(t, pos + 1, level + 1);
                    match parse_level(t, pos + 1, level + 1) {
                        Ok((rhs, next)) => {
                            lemma_operators_advance(
                                t,
                                next,
                                level,
                                ExprView::BinOp { lhs: Box::new(lhs), op, rhs: Box::new(rhs) },
                            );
                        },
                        Err(_) => {},
                    }
                }
            },
            None => {},
        }
    }
}

/// The error is that of reading the value of a literal or field of the list.
pub open spec fn literal_error(t: Seq<PairView>, e: ParseErrorView) -> bool {
    exists|k: int|
        0 <= k < t.len() && is_operand(t[k].rule) && #[trigger] literal_of(t[k]) == Err::<
            ValueView,
            ParseErrorView,
        >(e)
}

/// Building follows the grammar: where an expression of a tier is built, a
/// phrase of that tier stands and ends at the same place; and where a phrase
/// stands and building fails, it fails on the value of a literal.
pub proof fn lemma_phrase_builds(t: Seq<PairView>, pos: int, level: int)
    requires
        0 <= pos <= t.len(),
        0 <= level <= 3,
    ensures
        match parse_level(t, pos, level) {
            Ok((_, next)) => span_level(rules_of(t), pos, level) == Some(next),
            Err(e) => span_level(rules_of(t), pos, level) is Some ==> literal_error(t, e),
        },
    decreases t.len() - pos, 3 - level, 0int,
{
    if level < 3 {
        lemma_phrase_builds(t, pos, level + 1);
        lemma_expression_advances(t, pos, level + 1);
        match parse_level(t, pos, level + 1) {
            Ok((lhs, next)) => {
                lemma_operators_build(t, next, level, lhs);
            },
            Err(_) => {},
        }
    } else if pos < t.len() {
        assert(rules_of(t)[pos] == t[pos].rule);
        match t[pos].rule {
            Rule::Not => {
                lemma_phrase_builds(t, pos + 1, 3);
            },
            Rule::Open => {
                lemma_phrase_builds(t, pos + 1, 0);
                lemma_expression_advances(t, pos + 1, 0);
                match parse_level(t, pos + 1, 0) {
                    Ok((_, next)) => {
                        if next < t.len() {
                            assert(rules_of(t)[next] == t[next].rule);
                        }
                    },
                    Err(_) => {},
                }
            },
            _ => {
                if is_operand(t[pos].rule) {
                    match literal_of(t[pos]) {
                        Ok(_) => {},
                        Err(e) => {
                            assert(literal_of(t[pos]) == Err::<ValueView, ParseErrorView>(e));
                        },
                    }
                }
            },
        }
    }
}

/// The same of the operators that follow an operand.
pub proof fn lemma_operators_build(t: Seq<PairView>, pos: int, level: int, lhs: ExprView)
    requires
        0 <= pos <= t.len(),
        0 <= level < 3,
    ensures
        match parse_rest(t, pos, level, lhs) {
            Ok((_, next)) => span_rest(rules_of(t), pos, level) == Some(next),
            Err(e) => span_rest(rules_of(t), pos, level) is Some ==> literal_error(t, e),
        },
    decreases t.len() - pos, 3 - level, 1int,
{
    if pos < t.len() {
        assert(rules_of(t)[pos] == t[pos].rule);
        match infix_op(t[pos].rule) {
            Some((tier, op)) => {
                if tier == level {
                    lemma_phrase_builds(t, pos + 1, level + 1);
                    lemma_expression_advances(t, pos + 1, level + 1);
                    match parse_level(t, pos + 1, level + 1) {
                        Ok((rhs, next)) => {
                            lemma_operators_build(
                                t,
                                next,
                                level,
                                ExprView::BinOp { lhs: Box::new(lhs), op, rhs: Box::new(rhs) },
                            );
                        },
                        Err(_) => {},
                    }
                }
            },
            None => {},
        }
    }
}

/// The tokens of a sentence of the grammar build an expression, or fail on
/// the value of a literal or field: on a number or date that cannot be read,
/// or on a field outside the catalogue. Tokens that are no sentence never
/// build.
pub proof fn lemma_sentence_builds(t: Seq<PairView>)
    ensures
        is_expression(rules_of(t)) ==> match build_tokens(t) {
            Ok(_) => true,
            Err(e) => literal_error(t, e) && (e is IntegerError || e is InvalidDate
                || e is AtomError),
        },
        !is_expression(rules_of(t)) ==> build_tokens(t) is Err,
{
    lemma_phrase_builds(t, 0, 0);
    lemma_expression_advances(t, 0, 0);
}

/// A query text fails to compile in one of two ways: it is no sentence of
/// the grammar, which is a syntax error; or it is one, and the value of one
/// of its literals or fields cannot be read.
pub proof fn lemma_compile_errors(s: Seq<char>)
    ensures
        sentence_of(s) is None ==> compile_text(s) == Err::<ExprView, ParseErrorView>(
            ParseErrorView::SyntaxError,
        ),
        sentence_of(s) matches Some(t) ==> match compile_text(s) {
            Ok(_) => true,
            Err(e) => literal_error(t, e) && !(e is SyntaxError),
        },
{
    match sentence_of(s) {
        Some(t) => {
            lemma_sentence_builds(t);
        },
        None => {},
    }
}

/// The name of every field token that a query text gives is a run of ASCII
/// letters, so its canonical form is its ASCII capitals: what a query text
/// compiles to does not rest on the uppercase forms of other alphabets.
pub proof fn lemma_field_tokens_are_letters(s: Seq<char>, pos: int, k: int)
    requires
        0 <= pos <= s.len(),
        tokens_from(s, pos) matches Some(tokens) && 0 <= k < tokens.len() && tokens[k].rule
            == Rule::Tag,
    ensures
        forall|i: int|
            0 <= i < tokens_from(s, pos)->Some_0[k].text.len() ==> is_letter(
                #[trigger] tokens_from(s, pos)->Some_0[k].text[i],
            ),
        canonical_of(tokens_from(s, pos)->Some_0[k].text) == ascii_upper(
            tokens_from(s, pos)->Some_0[k].text,
        ),
    decreases s.len() - pos,
{
    let start = run_end(s, pos, CharClass::Blank);
    lemma_run_in_class(s, pos, CharClass::Blank);
    let tokens = tokens_from(s, pos)->Some_0;
    let (rule, end) = token_at(s, start)->Some_0;
    let rest = tokens_from(s, end)->Some_0;
    let text = tokens[k].text;
    if k == 0 {
        lemma_run_in_class(s, start, CharClass::Letter);
        assert(text == s.subrange(start, end));
        assert forall|i: int| 0 <= i < text.len() implies is_letter(#[trigger] text[i]) by {
            assert(in_class(CharClass::Letter, s[start + i]));
        }
    } else {
        assert(tokens[k] == rest[k - 1]);
        lemma_field_tokens_are_letters(s, end, k - 1);
    }
    assert(all_ascii(text)) by {
        assert forall|i: int| 0 <= i < text.len() implies (#[trigger] text[i] as u32) < 128 by {
            assert(is_letter(text[i]));
        }
    }
}

/// Every character is one of `A..=Z`.
pub open spec fn all_capitals(s: Seq<char>) -> bool {
    forall|i: int| 0 <= i < s.len() ==> 'A' as u32 <= (#[trigger] s[i]) as u32 <= 'Z' as u32
}

/// A name in capital letters is its own canonical form and holds no colon.
pub proof fn lemma_capitals_are_canonical(s: Seq<char>)
    requires
        all_capitals(s),
    ensures
        canonical_of(s) == s,
        !s.contains(':'),
{
    assert(all_ascii(s)) by {
        assert forall|i: int| 0 <= i < s.len() implies (#[trigger] s[i] as u32) < 128 by {
            assert('A' as u32 <= s[i] as u32 <= 'Z' as u32);
        }
    }
    assert(ascii_upper(s) =~= s) by {
        assert forall|i: int| 0 <= i < s.len() implies ascii_upper(s)[i] == s[i] by {
            assert('A' as u32 <= s[i] as u32 <= 'Z' as u32);
        }
    }
    if s.contains(':') {
        let i = choose|i: int| 0 <= i < s.len() && s[i] == ':';
        assert('A' as u32 <= s[i] as u32 <= 'Z' as u32);
    }
}

/// The canonical name of a catalogue field is written in capital letters.
pub proof fn lemma_catalogue_names_are_capitals(t: TagView)
    requires
        !(t is Other),
    ensures
        all_capitals(tag_name(t)),
{
    reveal_strlit("TITLE");
    reveal_strlit("VERSION");
    reveal_strlit("ALBUM");
    reveal_strlit("TRACKNUMBER");
    reveal_strlit("ARTIST");
    reveal_strlit("PERFORMER");
    reveal_strlit("COPYRIGHT");
    reveal_strlit("LICENSE");
    reveal_strlit("ORGANIZATION");
    reveal_strlit("DESCRIPTION");
    reveal_strlit("GENRE");
    reveal_strlit("DATE");
    reveal_strlit("LOCATION");
    reveal_strlit("CONTACT");
    reveal_strlit("ISRC");
}

/// Looking a catalogue field up by its canonical name gives the field back:
/// the name of a field and the field of a name are inverse to each other on
/// the catalogue.
pub proof fn lemma_catalogue_round_trip(t: TagView)
    requires
        !(t is Other),
    ensures
        tag_of_canonical(tag_name(t)) == Ok::<TagView, Seq<char>>(t),
        tag_of_canonical(canonical_of(tag_name(t))) == Ok::<TagView, Seq<char>>(t),
        is_standard_name(tag_name(t)),
{
    lemma_catalogue_names_are_capitals(t);
    lemma_capitals_are_canonical(tag_name(t));
    reveal_strlit("TITLE");
    reveal_strlit("VERSION");
    reveal_strlit("ALBUM");
    reveal_strlit("TRACKNUMBER");
    reveal_strlit("ARTIST");
    reveal_strlit("PERFORMER");
    reveal_strlit("COPYRIGHT");
    reveal_strlit("LICENSE");
    reveal_strlit("ORGANIZATION");
    reveal_strlit("DESCRIPTION");
    reveal_strlit("GENRE");
    reveal_strlit("DATE");
    reveal_strlit("LOCATION");
    reveal_strlit("CONTACT");
    reveal_strlit("ISRC");
    assert("TITLE"@.len() == 5 && "TITLE"@[0] == 'T');
    assert("VERSION"@.len() == 7 && "VERSION"@[0] == 'V');
    assert("ALBUM"@.len() == 5 && "ALBUM"@[0] == 'A');
    assert("TRACKNUMBER"@.len() == 11 && "TRACKNUMBER"@[0] == 'T');
    assert("ARTIST"@.len() == 6 && "ARTIST"@[0] == 'A');
    assert("PERFORMER"@.len() == 9 && "PERFORMER"@[0] == 'P');
    assert("COPYRIGHT"@.len() == 9 && "COPYRIGHT"@[0] == 'C');
    assert("LICENSE"@.len() == 7 && "LICENSE"@[0] == 'L');
    assert("ORGANIZATION"@.len() == 12 && "ORGANIZATION"@[0] == 'O');
    assert("DESCRIPTION"@.len() == 11 && "DESCRIPTION"@[0] == 'D');
    assert("GENRE"@.len() == 5 && "GENRE"@[0] == 'G');
    assert("DATE"@.len() == 4 && "DATE"@[0] == 'D');
    assert("LOCATION"@.len() == 8 && "LOCATION"@[0] == 'L');
    assert("CONTACT"@.len() == 7 && "CONTACT"@[0] == 'C');
    assert("ISRC"@.len() == 4 && "ISRC"@[0] == 'I');
}

/// A field that a lookup by name gives has that name and keeps the
/// invariant of fields.
pub proof fn lemma_lookup_keeps_the_name(upper: Seq<char>)
    requires
        !upper.contains(':'),
    ensures
        tag_of_canonical(upper) matches Ok(t) && tag_name(t) == upper && well_formed(t),
{
}

/// Two fields are equal exactly when their canonical names are equal.
pub proof fn lemma_fields_equal_by_name(a: TagView, b: TagView)
    requires
        well_formed(a),
        well_formed(b),
    ensures
        a == b <==> tag_name(a) == tag_name(b),
{
    if !(a is Other) {
        lemma_catalogue_round_trip(a);
        assert(known_tag(tag_name(a)) == Some(a));
    }
    if !(b is Other) {
        lemma_catalogue_round_trip(b);
        assert(known_tag(tag_name(b)) == Some(b));
    }
}

/// Of two dates exactly one holds: the first is below the second, they are
/// equal, or the second is below the first.
pub proof fn lemma_date_order_total(a: Date, b: Date)
    ensures
        date_lt(a, b) || a == b || date_lt(b, a),
        !(date_lt(a, b) && a == b),
        !(date_lt(a, b) && date_lt(b, a)),
{
}

/// The order of dates is transitive.
pub proof fn lemma_date_order_transitive(a: Date, b: Date, c: Date)
    requires
        date_lt(a, b),
        date_lt(b, c),
    ensures
        date_lt(a, c),
{
}

/// Every bare year is below every year-month, and every year-month below
/// every full date, whatever the years.
pub proof fn lemma_date_order_by_precision(y1: u32, y2: u32, m2: u8, y3: u32, m3: u8, d3: u8)
    ensures
        date_lt(Date::Year(y1), Date::YearMonth(y2, m2)),
        date_lt(Date::YearMonth(y2, m2), Date::YearMonthDay(y3, m3, d3)),
        date_lt(Date::Year(y1), Date::YearMonthDay(y3, m3, d3)),
{
}

/// On booleans, dates and integers `!=` answers the opposite of `==`, and
/// where `==` fails `!=` fails alike, whatever the kinds.
pub proof fn lemma_not_equals_negates_equals(a: ValueView, b: ValueView)
    ensures
        !(a is StringSet) ==> (apply_op(BinaryOperator::Equals, a, b) matches Ok(x) ==> apply_op(
            BinaryOperator::NotEquals,
            a,
            b,
        ) == Ok::<bool, EvalErrorView>(!x)),
        apply_op(BinaryOperator::Equals, a, b) is Err ==> apply_op(BinaryOperator::NotEquals, a, b)
            == apply_op(BinaryOperator::Equals, a, b),
{
}

/// On string lists `!=` is not the opposite of `==`: it holds exactly when
/// the lists differ as lists. A list is never unequal to itself, though it
/// equals itself only if it holds an element; and two lists that differ only
/// in the order of their elements are unequal while they are also equal.
pub proof fn lemma_string_lists_compare_as_lists(x: Seq<Seq<char>>, y: Seq<Seq<char>>)
    ensures
        apply_op(BinaryOperator::NotEquals, ValueView::StringSet(x), ValueView::StringSet(y))
            == Ok::<bool, EvalErrorView>(x != y),
        apply_op(BinaryOperator::NotEquals, ValueView::StringSet(x), ValueView::StringSet(x))
            == Ok::<bool, EvalErrorView>(false),
        apply_op(BinaryOperator::Equals, ValueView::StringSet(x), ValueView::StringSet(x))
            == Ok::<bool, EvalErrorView>(x.len() > 0),
{
    if x.len() > 0 {
        assert(x[0] == x[0]);
        assert(any_equal(x, x));
    }
}

/// The ordering operators agree with each other: `>=` is the opposite of
/// `<`, `<=` the opposite of `>`, wherever they answer.
pub proof fn lemma_ordering_operators_agree(a: ValueView, b: ValueView)
    ensures
        apply_op(BinaryOperator::Less, a, b) matches Ok(x) ==> apply_op(
            BinaryOperator::GreaterEq,
            a,
            b,
        ) == Ok::<bool, EvalErrorView>(!x),
        apply_op(BinaryOperator::Greater, a, b) matches Ok(x) ==> apply_op(
            BinaryOperator::LessEq,
            a,
            b,
        ) == Ok::<bool, EvalErrorView>(!x),
        apply_op(BinaryOperator::Less, a, b) matches Ok(x) ==> apply_op(
            BinaryOperator::Greater,
            b,
            a,
        ) == Ok::<bool, EvalErrorView>(x),
{
    match (a, b) {
        (ValueView::Date(x), ValueView::Date(y)) => {
            lemma_date_order_total(x, y);
        },
        _ => {},
    }
}

/// A list of strings that holds a text equals, in every file, a list that
/// holds the same text.
pub proof fn lemma_shared_text_is_equal(
    left: Seq<Seq<char>>,
    right: Seq<Seq<char>>,
    i: int,
    j: int,
    env: Comments,
)
    requires
        0 <= i < left.len(),
        0 <= j < right.len(),
        left[i] == right[j],
    ensures
        eval_of(
            ExprView::BinOp {
                lhs: Box::new(ExprView::Value(ValueView::StringSet(left))),
                op: BinaryOperator::Equals,
                rhs: Box::new(ExprView::Value(ValueView::StringSet(right))),
            },
            env,
        ) == Ok::<ValueView, EvalErrorView>(ValueView::Boolean(true)),
{
    reveal_with_fuel(eval_of, 2);
    assert(any_equal(left, right));
}

/// `=~` ignores case: texts with the same small letters hold the same texts
/// and are held by the same texts.
pub proof fn lemma_contains_ignores_case(a: Seq<char>, b: Seq<char>, other: Seq<char>)
    requires
        folded(a) == folded(b),
    ensures
        holds_text(a, other) == holds_text(b, other),
        holds_text(other, a) == holds_text(other, b),
{
}

/// On ASCII texts `=~` looks for the small letters of the one text among the
/// small letters of the other.
pub proof fn lemma_contains_on_ascii(hay: Seq<char>, needle: Seq<char>)
    requires
        all_ascii(hay),
        all_ascii(needle),
    ensures
        holds_text(hay, needle) == is_substring(ascii_lower(needle), ascii_lower(hay)),
{
}

/// Every text holds itself.
pub proof fn lemma_contains_is_reflexive(a: Seq<char>)
    ensures
        holds_text(a, a),
{
    let low = folded(a);
    assert(low.subrange(0, 0int + low.len()) =~= low);
}

/// Whether an expression refers to a field.
pub open spec fn refers_to(e: ExprView, t: TagView) -> bool
    decreases e,
{
    match e {
        ExprView::BinOp { lhs, op, rhs } => refers_to(*lhs, t) || refers_to(*rhs, t),
        ExprView::Not(inner) => refers_to(*inner, t),
        ExprView::Value(ValueView::Tag(other)) => other == t,
        ExprView::Value(_) => false,
    }
}

/// An expression that refers to a field cannot be evaluated in a file where
/// the field is not set.
pub proof fn lemma_unset_tag_fails(e: ExprView, t: TagView, env: Comments)
    requires
        refers_to(e, t),
        !env.contains_key(tag_name(t)),
    ensures
        eval_of(e, env) is Err,
    decreases e,
{
    match e {
        ExprView::BinOp { lhs, op, rhs } => {
            if refers_to(*lhs, t) {
                lemma_unset_tag_fails(*lhs, t, env);
            } else {
                lemma_unset_tag_fails(*rhs, t, env);
            }
        },
        ExprView::Not(inner) => {
            lemma_unset_tag_fails(*inner, t, env);
        },
        ExprView::Value(_) => {},
    }
}

/// A comparison whose left side is a field that is not set fails with
/// `TagNotSet` and the field's name, whatever stands on the right.
pub proof fn lemma_unset_tag_is_reported(
    t: TagView,
    op: BinaryOperator,
    rhs: ExprView,
    env: Comments,
)
    requires
        !env.contains_key(tag_name(t)),
    ensures
        eval_of(ExprView::Value(ValueView::Tag(t)), env) == Err::<ValueView, EvalErrorView>(
            EvalErrorView::TagNotSet(tag_name(t)),
        ),
        eval_of(
            ExprView::BinOp {
                lhs: Box::new(ExprView::Value(ValueView::Tag(t))),
                op,
                rhs: Box::new(rhs),
            },
            env,
        ) == Err::<ValueView, EvalErrorView>(EvalErrorView::TagNotSet(tag_name(t))),
{
}

/// An operator gives a boolean or fails: the value of a binary expression
/// is never of another kind.
pub proof fn lemma_binary_expression_is_boolean(
    lhs: ExprView,
    op: BinaryOperator,
    rhs: ExprView,
    env: Comments,
)
    ensures
        eval_of(ExprView::BinOp { lhs: Box::new(lhs), op, rhs: Box::new(rhs) }, env) matches Ok(v)
            ==> v is Boolean,
{
}

/// No value of an expression is a field that was not looked up.
pub proof fn lemma_value_is_resolved(e: ExprView, env: Comments)
    ensures
        eval_of(e, env) matches Ok(v) ==> !(v is Tag),
    decreases e,
{
    match e {
        ExprView::BinOp { lhs, op, rhs } => {},
        ExprView::Not(inner) => {
            lemma_value_is_resolved(*inner, env);
        },
        ExprView::Value(_) => {},
    }
}

/// A selection that succeeds has judged every file, and keeps no more paths
/// than there are files.
pub proof fn lemma_selection_judges_every_file<P>(
    e: ExprView,
    files: Seq<CandidateView<P>>,
    k: int,
)
    requires
        selection_of(e, files) is Ok,
        0 <= k < files.len(),
    ensures
        verdict_of(e, files[k].comments) is Ok,
        selection_of(e, files)->Ok_0.len() <= files.len(),
    decreases files.len(),
{
    let front = files.drop_last();
    if k < files.len() - 1 {
        lemma_selection_judges_every_file(e, front, k);
        assert(front[k] == files[k]);
    } else if front.len() > 0 {
        lemma_selection_judges_every_file(e, front, 0);
    }
}

/// Whether a file satisfies a query.
pub open spec fn satisfies<P>(e: ExprView) -> spec_fn(CandidateView<P>) -> bool {
    |file: CandidateView<P>| verdict_of(e, file.comments) == Ok::<bool, EvalErrorView>(true)
}

/// A selection that succeeds is the list of files without the files that do
/// not satisfy the query, each file given by its path.
pub proof fn lemma_selection_is_filter<P>(e: ExprView, files: Seq<CandidateView<P>>)
    requires
        selection_of(e, files) is Ok,
    ensures
        selection_of(e, files)->Ok_0 == files.filter(satisfies(e)).map_values(
            |file: CandidateView<P>| file.path,
        ),
    decreases files.len(),
{
    reveal(Seq::filter);
    let path = |file: CandidateView<P>| file.path;
    if files.len() > 0 {
        let front = files.drop_last();
        lemma_selection_is_filter(e, front);
        let kept = front.filter(satisfies(e));
        if satisfies(e)(files.last()) {
            assert(kept.push(files.last()).map_values(path) =~= kept.map_values(path).push(
                files.last().path,
            ));
        }
    } else {
        assert(files.filter(satisfies(e)).map_values(path) =~= Seq::<P>::empty());
    }
}

/// A list without its repetitions holds every element of the list, once.
pub proof fn lemma_first_occurrences(s: Seq<Seq<char>>)
    ensures
        first_occurrences(s).no_duplicates(),
        first_occurrences(s).len() <= s.len(),
        forall|x: Seq<char>| first_occurrences(s).contains(x) <==> s.contains(x),
    decreases s.len(),
{
    if s.len() > 0 {
        let front = s.drop_last();
        let head = first_occurrences(front);
        lemma_first_occurrences(front);
        assert forall|x: Seq<char>| first_occurrences(s).contains(x) <==> s.contains(x) by {
            if s.contains(x) {
                let i = choose|i: int| 0 <= i < s.len() && s[i] == x;
                if i < s.len() - 1 {
                    assert(front[i] == x);
                    assert(front.contains(x));
                    assert(head.contains(x));
                    let j = choose|j: int| 0 <= j < head.len() && head[j] == x;
                    assert(first_occurrences(s)[j] == x);
                } else if !head.contains(x) {
                    assert(first_occurrences(s)[head.len() as int] == x);
                }
            }
            if first_occurrences(s).contains(x) {
                let j = choose|j: int|
                    0 <= j < first_occurrences(s).len() && first_occurrences(s)[j] == x;
                if j < head.len() {
                    assert(head[j] == x);
                    assert(head.contains(x));
                    assert(front.contains(x));
                    let i = choose|i: int| 0 <= i < front.len() && front[i] == x;
                    assert(s[i] == x);
                } else {
                    assert(s[s.len() - 1] == x);
                }
            }
        }
    }
}

/// A list without repetitions is left as it is.
pub proof fn lemma_first_occurrences_of_distinct(s: Seq<Seq<char>>)
    requires
        s.no_duplicates(),
    ensures
        first_occurrences(s) == s,
    decreases s.len(),
{
    if s.len() > 0 {
        let front = s.drop_last();
        lemma_first_occurrences_of_distinct(front);
        if front.contains(s.last()) {
            let i = choose|i: int| 0 <= i < front.len() && front[i] == s.last();
            assert(s[i] == s[s.len() - 1]);
        }
        assert(front.push(s.last()) =~= s);
    } else {
        assert(s =~= Seq::empty());
    }
}

/// Edits that stand in the order of the catalogue are for different fields:
/// the list is a map from fields to values.
pub proof fn lemma_catalogue_order_is_distinct(s: Seq<(TagView, Seq<Seq<char>>)>, i: int, j: int)
    requires
        in_catalogue_order(s),
        0 <= i < s.len(),
        0 <= j < s.len(),
        i != j,
    ensures
        s[i].0 != s[j].0,
{
    if i < j {
        assert(crate::tags::catalogue_rank(s[i].0) < crate::tags::catalogue_rank(s[j].0));
    } else {
        assert(crate::tags::catalogue_rank(s[j].0) < crate::tags::catalogue_rank(s[i].0));
    }
}

} // verus!

//! The typed values of a query, its expression tree, and the rules by which
//! a binary operator combines two values.
//!
//! Two points of policy:
//!
//! * Dates of different precision are ordered by precision first: every bare
//!   year is below every year-month, which is below every full date. Dates of
//!   the same precision are ordered by year, then month, then day.
//! * On string lists `==` goes by matching elements and `!=` by the lists as
//!   wholes: `==` holds when some element of the left list equals some
//!   element of the right list; `!=` holds when the two lists are not the
//!   same list, element for element and in the same order. So `!=` is not the
//!   opposite of `==`: two different lists that share an element satisfy
//!   both, and two empty lists satisfy neither.

use vstd::prelude::*;
use vstd::string::*;
use crate::tags::{FlacTags, TagView};
use crate::text::{contains_text, copy_strings, folded, is_substring, strs, to_chars, to_lower};

verus! {

/// A date of year, year-month or full precision.
#[derive(Debug, PartialEq, Eq, PartialOrd, Ord, Clone, Copy, Structural)]
pub enum Date {
    Year(u32),
    YearMonth(u32, u8),
    YearMonthDay(u32, u8, u8),
}

/// The precision of a date and its fields, missing ones as zero.
pub open spec fn date_key(d: Date) -> (int, int, int, int) {
    match d {
        Date::Year(y) => (0, y as int, 0, 0),
        Date::YearMonth(y, m) => (1, y as int, m as int, 0),
        Date::YearMonthDay(y, m, d) => (2, y as int, m as int, d as int),
    }
}

/// The order of dates: by precision, then year, then month, then day.
pub open spec fn date_lt(a: Date, b: Date) -> bool {
    let x = date_key(a);
    let y = date_key(b);
    x.0 < y.0 || (x.0 == y.0 && (x.1 < y.1 || (x.1 == y.1 && (x.2 < y.2 || (x.2 == y.2 && x.3
        < y.3)))))
}

/// A year alone is the date of year precision.
impl From<u32> for Date {
    fn from(value: u32) -> (r: Date) {
        Date::Year(value)
    }
}

impl vstd::std_specs::convert::FromSpecImpl<u32> for Date {
    open spec fn obeys_from_spec() -> bool {
        true
    }

    open spec fn from_spec(v: u32) -> Date {
        Date::Year(v)
    }
}

/// The year of a date, whatever its precision.
impl From<Date> for u32 {
    fn from(value: Date) -> (r: u32) {
        value.year()
    }
}

impl vstd::std_specs::convert::FromSpecImpl<Date> for u32 {
    open spec fn obeys_from_spec() -> bool {
        true
    }

    open spec fn from_spec(v: Date) -> u32 {
        date_key(v).1 as u32
    }
}

impl Date {
    /// The year of the date.
    pub fn year(self) -> (r: u32)
        ensures
            r == date_key(self).1,
    {
        match self {
            Date::Year(year) => year,
            Date::YearMonth(year, _) => year,
            Date::YearMonthDay(year, _, _) => year,
        }
    }

    fn rank(self) -> (r: u8)
        ensures
            r == date_key(self).0,
    {
        match self {
            Date::Year(_) => 0,
            Date::YearMonth(_, _) => 1,
            Date::YearMonthDay(_, _, _) => 2,
        }
    }

    fn month(self) -> (r: u8)
        ensures
            r == date_key(self).2,
    {
        match self {
            Date::Year(_) => 0,
            Date::YearMonth(_, m) => m,
            Date::YearMonthDay(_, m, _) => m,
        }
    }

    fn day(self) -> (r: u8)
        ensures
            r == date_key(self).3,
    {
        match self {
            Date::YearMonthDay(_, _, d) => d,
            _ => 0,
        }
    }

    /// Whether this date comes before the other in the order of dates.
    pub fn before(self, other: Date) -> (r: bool)
        ensures
            r == date_lt(self, other),
    {
        let (a0, b0) = (self.rank(), other.rank());
        let (a1, b1) = (self.year(), other.year());
        let (a2, b2) = (self.month(), other.month());
        let (a3, b3) = (self.day(), other.day());
        a0 < b0 || (a0 == b0 && (a1 < b1 || (a1 == b1 && (a2 < b2 || (a2 == b2 && a3 < b3)))))
    }
}

/// The binary operators of the query language.
#[derive(Debug, Clone, Copy, PartialEq, Eq, Structural)]
pub enum BinaryOperator {
    Equals,
    NotEquals,
    Contains,
    Greater,
    GreaterEq,
    Less,
    LessEq,
    And,
    Or,
}

/// A value of the query language.
#[derive(Debug, Clone, PartialEq, Eq, PartialOrd, Ord)]
pub enum Value {
    Boolean(bool),
    Date(Date),
    Integer(u32),
    /// The values of a field, in the order in which they are stored.
    String(Vec<String>),
    /// A field that has not been looked up yet.
    Tag(FlacTags),
}

/// The mathematical value of a [`Value`].
pub enum ValueView {
    Boolean(bool),
    Date(Date),
    Integer(u32),
    StringSet(Seq<Seq<char>>),
    Tag(TagView),
}

impl View for Value {
    type V = ValueView;

    open spec fn view(&self) -> ValueView {
        match self {
            Value::Boolean(b) => ValueView::Boolean(*b),
            Value::Date(d) => ValueView::Date(*d),
            Value::Integer(n) => ValueView::Integer(*n),
            Value::String(v) => ValueView::StringSet(strs(v@)),
            Value::Tag(t) => ValueView::Tag(t@),
        }
    }
}

/// An expression of the query language.
#[derive(Debug, PartialEq)]
pub enum Expr {
    BinOp { lhs: Box<Expr>, op: BinaryOperator, rhs: Box<Expr> },
    Not(Box<Expr>),
    Value(Value),
}

/// The mathematical value of an [`Expr`].
pub enum ExprView {
    BinOp { lhs: Box<ExprView>, op: BinaryOperator, rhs: Box<ExprView> },
    Not(Box<ExprView>),
    Value(ValueView),
}

/// The tree of an expression, each literal as its mathematical value.
pub open spec fn expr_view(e: Expr) -> ExprView
    decreases e,
{
    match e {
        Expr::BinOp { lhs, op, rhs } => ExprView::BinOp {
            lhs: Box::new(expr_view(*lhs)),
            op: op,
            rhs: Box::new(expr_view(*rhs)),
        },
        Expr::Not(inner) => ExprView::Not(Box::new(expr_view(*inner))),
        Expr::Value(v) => ExprView::Value(v@),
    }
}

impl View for Expr {
    type V = ExprView;

    open spec fn view(&self) -> ExprView {
        expr_view(*self)
    }
}

impl Value {
    /// A copy of the value.
    pub fn duplicate(&self) -> (r: Value)
        ensures
            r@ == self@,
    {
        match self {
            Value::Boolean(b) => Value::Boolean(*b),
            Value::Date(d) => Value::Date(*d),
            Value::Integer(n) => Value::Integer(*n),
            Value::String(list) => Value::String(copy_strings(list)),
            Value::Tag(t) => Value::Tag(t.duplicate()),
        }
    }
}

impl Clone for Expr {
    /// A copy of the expression, node by node.
    fn clone(&self) -> (r: Expr)
        ensures
            r@ == self@,
        decreases self,
    {
        match self {
            Expr::BinOp { lhs, op, rhs } => {
                let left: &Expr = lhs;
                let right: &Expr = rhs;
                Expr::BinOp { lhs: Box::new(left.clone()), op: *op, rhs: Box::new(right.clone()) }
            },
            Expr::Not(inner) => {
                let operand: &Expr = inner;
                Expr::Not(Box::new(operand.clone()))
            },
            Expr::Value(v) => Expr::Value(v.duplicate()),
        }
    }
}

/// Why a query text could not be compiled. A text that is no sentence of the
/// grammar gives `SyntaxError`; a sentence can only give the error of one of
/// its literals or fields. The other errors come from building tokens that
/// are no sentence.
#[derive(Debug, Clone, PartialEq, Eq)]
pub enum QueryParseError {
    /// The text of a token that is no literal, field or `(` and stands in
    /// the place of one; among them a field outside the catalogue.
    AtomError(String),
    /// The text of a token that is no binary operator and follows an
    /// operand.
    InfixError(String),
    /// A binary operator stands where only `!` may.
    PrefixError,
    /// The text is not an unsigned number of the size asked for.
    IntegerError(String),
    /// The text is no sentence of the grammar; or, in building, the tokens
    /// end before the expression does.
    SyntaxError,
    /// The text has more parts than a date can have.
    InvalidDate(String),
}

pub enum ParseErrorView {
    AtomError(Seq<char>),
    InfixError(Seq<char>),
    PrefixError,
    IntegerError(Seq<char>),
    SyntaxError,
    InvalidDate(Seq<char>),
}

impl View for QueryParseError {
    type V = ParseErrorView;

    open spec fn view(&self) -> ParseErrorView {
        match self {
            QueryParseError::AtomError(s) => ParseErrorView::AtomError(s@),
            QueryParseError::InfixError(s) => ParseErrorView::InfixError(s@),
            QueryParseError::PrefixError => ParseErrorView::PrefixError,
            QueryParseError::IntegerError(s) => ParseErrorView::IntegerError(s@),
            QueryParseError::SyntaxError => ParseErrorView::SyntaxError,
            QueryParseError::InvalidDate(s) => ParseErrorView::InvalidDate(s@),
        }
    }
}

/// Why an expression could not be evaluated. An operation error names the
/// operator, or the field whose stored value could not be read; the errors
/// about kinds name the kinds of the values.
#[derive(Debug, Clone, PartialEq, Eq)]
pub enum QueryEvalError {
    InvalidNot(String),
    MismatchingTypes(String, String),
    StringOperation(String),
    IntegerOperation(String),
    DateOperation(String),
    BooleanOperation(String),
    BadEvaluation,
    TagNotSet(String),
}

pub enum EvalErrorView {
    InvalidNot(Seq<char>),
    MismatchingTypes(Seq<char>, Seq<char>),
    StringOperation(Seq<char>),
    IntegerOperation(Seq<char>),
    DateOperation(Seq<char>),
    BooleanOperation(Seq<char>),
    BadEvaluation,
    TagNotSet(Seq<char>),
}

impl View for QueryEvalError {
    type V = EvalErrorView;

    open spec fn view(&self) -> EvalErrorView {
        match self {
            QueryEvalError::InvalidNot(s) => EvalErrorView::InvalidNot(s@),
            QueryEvalError::MismatchingTypes(a, b) => EvalErrorView::MismatchingTypes(a@, b@),
            QueryEvalError::StringOperation(s) => EvalErrorView::StringOperation(s@),
            QueryEvalError::IntegerOperation(s) => EvalErrorView::IntegerOperation(s@),
            QueryEvalError::DateOperation(s) => EvalErrorView::DateOperation(s@),
            QueryEvalError::BooleanOperation(s) => EvalErrorView::BooleanOperation(s@),
            QueryEvalError::BadEvaluation => EvalErrorView::BadEvaluation,
            QueryEvalError::TagNotSet(s) => EvalErrorView::TagNotSet(s@),
        }
    }
}

/// The name of an operator, as errors give it.
pub open spec fn op_name(op: BinaryOperator) -> Seq<char> {
    match op {
        BinaryOperator::Equals => "Equals"@,
        BinaryOperator::NotEquals => "NotEquals"@,
        BinaryOperator::Contains => "Contains"@,
        BinaryOperator::Greater => "Greater"@,
        BinaryOperator::GreaterEq => "GreaterEq"@,
        BinaryOperator::Less => "Less"@,
        BinaryOperator::LessEq => "LessEq"@,
        BinaryOperator::And => "And"@,
        BinaryOperator::Or => "Or"@,
    }
}

/// The name of a value's kind, as errors give it.
pub open spec fn kind_name(v: ValueView) -> Seq<char> {
    match v {
        ValueView::Boolean(_) => "Boolean"@,
        ValueView::Date(_) => "Date"@,
        ValueView::Integer(_) => "Integer"@,
        ValueView::StringSet(_) => "String"@,
        ValueView::Tag(_) => "Tag"@,
    }
}

/// Some element of the one list equals some element of the other.
pub open spec fn any_equal(a: Seq<Seq<char>>, b: Seq<Seq<char>>) -> bool {
    exists|i: int, j: int| 0 <= i < a.len() && 0 <= j < b.len() && #[trigger] a[i] == #[trigger] b[j]
}

/// A text holds another, whatever the case of either.
pub open spec fn holds_text(hay: Seq<char>, needle: Seq<char>) -> bool {
    is_substring(folded(needle), folded(hay))
}

/// Some element of the first list holds some element of the second.
pub open spec fn any_contains(a: Seq<Seq<char>>, b: Seq<Seq<char>>) -> bool {
    exists|i: int, j: int|
        0 <= i < a.len() && 0 <= j < b.len() && holds_text(#[trigger] a[i], #[trigger] b[j])
}

/// What an ordering operator gives on two values of which it is known
/// whether the first is below the second and whether they are equal.
pub open spec fn ordered(op: BinaryOperator, lt: bool, eq: bool) -> Option<bool> {
    match op {
        BinaryOperator::Equals => Some(eq),
        BinaryOperator::NotEquals => Some(!eq),
        BinaryOperator::Greater => Some(!lt && !eq),
        BinaryOperator::GreaterEq => Some(!lt),
        BinaryOperator::Less => Some(lt),
        BinaryOperator::LessEq => Some(lt || eq),
        _ => None,
    }
}

/// What a binary operator gives on two values.
pub open spec fn apply_op(op: BinaryOperator, a: ValueView, b: ValueView) -> Result<
    bool,
    EvalErrorView,
> {
    match (a, b) {
        (ValueView::StringSet(x), ValueView::StringSet(y)) => match op {
            BinaryOperator::Equals => Ok(any_equal(x, y)),
            BinaryOperator::NotEquals => Ok(x != y),
            BinaryOperator::Contains => Ok(any_contains(x, y)),
            _ => Err(EvalErrorView::StringOperation(op_name(op))),
        },
        (ValueView::Boolean(x), ValueView::Boolean(y)) => match op {
            BinaryOperator::Equals => Ok(x == y),
            BinaryOperator::NotEquals => Ok(x != y),
            BinaryOperator::And => Ok(x && y),
            BinaryOperator::Or => Ok(x || y),
            _ => Err(EvalErrorView::BooleanOperation(op_name(op))),
        },
        (ValueView::Date(x), ValueView::Date(y)) => match ordered(op, date_lt(x, y), x == y) {
            Some(r) => Ok(r),
            None => Err(EvalErrorView::DateOperation(op_name(op))),
        },
        (ValueView::Integer(x), ValueView::Integer(y)) => match ordered(op, x < y, x == y) {
            Some(r) => Ok(r),
            None => Err(EvalErrorView::IntegerOperation(op_name(op))),
        },
        _ => Err(EvalErrorView::MismatchingTypes(kind_name(a), kind_name(b))),
    }
}

/// The view of an operator's result.
pub open spec fn op_result_view(r: Result<bool, QueryEvalError>) -> Result<bool, EvalErrorView> {
    match r {
        Ok(b) => Ok(b),
        Err(e) => Err(e@),
    }
}

/// Whether some element of the one list equals some element of the other.
pub fn lists_share(a: &Vec<String>, b: &Vec<String>) -> (r: bool)
    ensures
        r == any_equal(strs(a@), strs(b@)),
{
    let mut i: usize = 0;
    while i < a.len()
        invariant
            i <= a.len(),
            forall|p: int, q: int|
                0 <= p < i && 0 <= q < b.len() ==> #[trigger] strs(a@)[p] != #[trigger] strs(b@)[q],
        decreases a.len() - i,
    {
        let mut j: usize = 0;
        while j < b.len()
            invariant
                i < a.len(),
                j <= b.len(),
                forall|p: int, q: int|
                    0 <= p < i && 0 <= q < b.len() ==> #[trigger] strs(a@)[p] != #[trigger] strs(
                        b@,
                    )[q],
                forall|q: int| 0 <= q < j ==> strs(a@)[i as int] != #[trigger] strs(b@)[q],
            decreases b.len() - j,
        {
            if a[i] == b[j] {
                assert(strs(a@)[i as int] == strs(b@)[j as int]);
                return true;
            }
            j += 1;
        }
        i += 1;
    }
    false
}

/// Whether two lists hold the same texts in the same order.
pub fn lists_equal(a: &Vec<String>, b: &Vec<String>) -> (r: bool)
    ensures
        r == (strs(a@) == strs(b@)),
{
    if a.len() != b.len() {
        assert(strs(a@).len() != strs(b@).len());
        return false;
    }
    let mut i: usize = 0;
    while i < a.len()
        invariant
            i <= a.len(),
            a.len() == b.len(),
            forall|k: int| 0 <= k < i ==> strs(a@)[k] == strs(b@)[k],
        decreases a.len() - i,
    {
        if a[i] != b[i] {
            assert(strs(a@)[i as int] != strs(b@)[i as int]);
            return false;
        }
        i += 1;
    }
    assert(strs(a@) =~= strs(b@));
    true
}

/// Whether some element of the first list holds some element of the second,
/// whatever the case of either.
pub fn lists_contain(a: &Vec<String>, b: &Vec<String>) -> (r: bool)
    ensures
        r == any_contains(strs(a@), strs(b@)),
{
    let mut i: usize = 0;
    while i < a.len()
        invariant
            i <= a.len(),
            forall|p: int, q: int|
                0 <= p < i && 0 <= q < b.len() ==> !holds_text(
                    #[trigger] strs(a@)[p],
                    #[trigger] strs(b@)[q],
                ),
        decreases a.len() - i,
    {
        let hay = to_chars(to_lower(a[i].as_str()).as_str());
        let mut j: usize = 0;
        while j < b.len()
            invariant
                i < a.len(),
                j <= b.len(),
                hay@ == folded(strs(a@)[i as int]),
                forall|p: int, q: int|
                    0 <= p < i && 0 <= q < b.len() ==> !holds_text(
                        #[trigger] strs(a@)[p],
                        #[trigger] strs(b@)[q],
                    ),
                forall|q: int| 0 <= q < j ==> !holds_text(strs(a@)[i as int], #[trigger] strs(b@)[q]),
            decreases b.len() - j,
        {
            let needle = to_chars(to_lower(b[j].as_str()).as_str());
            if contains_text(&hay, &needle) {
                assert(holds_text(strs(a@)[i as int], strs(b@)[j as int]));
                return true;
            }
            j += 1;
        }
        i += 1;
    }
    false
}

impl BinaryOperator {
    /// The operator's name.
    pub fn name(&self) -> (r: String)
        ensures
            r@ == op_name(*self),
    {
        String::from_str(
            match self {
                BinaryOperator::Equals => "Equals",
                BinaryOperator::NotEquals => "NotEquals",
                BinaryOperator::Contains => "Contains",
                BinaryOperator::Greater => "Greater",
                BinaryOperator::GreaterEq => "GreaterEq",
                BinaryOperator::Less => "Less",
                BinaryOperator::LessEq => "LessEq",
                BinaryOperator::And => "And",
                BinaryOperator::Or => "Or",
            },
        )
    }

    /// What an ordering operator gives, given whether the first value is
    /// below the second and whether they are equal.
    fn on_order(&self, lt: bool, eq: bool) -> (r: Option<bool>)
        ensures
            r == ordered(*self, lt, eq),
    {
        match self {
            BinaryOperator::Equals => Some(eq),
            BinaryOperator::NotEquals => Some(!eq),
            BinaryOperator::Greater => Some(!lt && !eq),
            BinaryOperator::GreaterEq => Some(!lt),
            BinaryOperator::Less => Some(lt),
            BinaryOperator::LessEq => Some(lt || eq),
            _ => None,
        }
    }

    /// Applies the operator to two values of the same kind. Values of
    /// different kinds, and fields that were not looked up, do not compare.
    pub fn eval(&self, lhs: Value, rhs: Value) -> (r: Result<bool, QueryEvalError>)
        ensures
            op_result_view(r) == apply_op(*self, lhs@, rhs@),
    {
        match (&lhs, &rhs) {
            (Value::String(a), Value::String(b)) => match self {
                BinaryOperator::Equals => Ok(lists_share(a, b)),
                BinaryOperator::NotEquals => Ok(!lists_equal(a, b)),
                BinaryOperator::Contains => Ok(lists_contain(a, b)),
                _ => Err(QueryEvalError::StringOperation(self.name())),
            },
            (Value::Boolean(a), Value::Boolean(b)) => match self {
                BinaryOperator::Equals => Ok(*a == *b),
                BinaryOperator::NotEquals => Ok(*a != *b),
                BinaryOperator::And => Ok(*a && *b),
                BinaryOperator::Or => Ok(*a || *b),
                _ => Err(QueryEvalError::BooleanOperation(self.name())),
            },
            (Value::Date(a), Value::Date(b)) => match self.on_order(a.before(*b), *a == *b) {
                Some(r) => Ok(r),
                None => Err(QueryEvalError::DateOperation(self.name())),
            },
            (Value::Integer(a), Value::Integer(b)) => match self.on_order(*a < *b, *a == *b) {
                Some(r) => Ok(r),
                None => Err(QueryEvalError::IntegerOperation(self.name())),
            },
            _ => Err(QueryEvalError::MismatchingTypes(lhs.kind(), rhs.kind())),
        }
    }
}

impl Value {
    /// The name of the value's kind.
    pub fn kind(&self) -> (r: String)
        ensures
            r@ == kind_name(self@),
    {
        String::from_str(
            match self {
                Value::Boolean(_) => "Boolean",
                Value::Date(_) => "Date",
                Value::Integer(_) => "Integer",
                Value::String(_) => "String",
                Value::Tag(_) => "Tag",
            },
        )
    }
}

} // verus!

//! Evaluating an expression against the comments of one file.

use vstd::prelude::*;
use vstd::string::*;
use metaflac::block::VorbisComment;
use crate::comments::{comments_of, stored_values};
use crate::dates::parse_date;
use crate::query::{
    apply_op,
    Date,
    EvalErrorView,
    Expr,
    ExprView,
    QueryEvalError,
    Value,
    ValueView,
    kind_name,
};
use crate::tags::{FlacTags, TagView, tag_name};
use crate::text::{decimal, parse_decimal, strs, to_chars};

verus! {

/// The comments of a file: the values stored under each field name.
pub type Comments = Map<Seq<char>, Seq<Seq<char>>>;

/// The value of a field in a file. The date field gives the date that its
/// first value writes, the track number the number that its first value
/// writes, every other field the list of its values. A field that is not
/// set, or set to no value where the first is asked for, is an error. An
/// `Other` field is looked up by the name it holds and gives the list of its
/// values, also where that name is `DATE` or `TRACKNUMBER`.
pub open spec fn resolve(t: TagView, env: Comments) -> Result<ValueView, EvalErrorView> {
    let name = tag_name(t);
    if !env.contains_key(name) {
        Err(EvalErrorView::TagNotSet(name))
    } else {
        let values = env[name];
        match t {
            TagView::Date => if values.len() == 0 {
                Err(EvalErrorView::TagNotSet(name))
            } else {
                match parse_date(values[0]) {
                    Ok(d) => Ok(ValueView::Date(d)),
                    Err(_) => Err(EvalErrorView::DateOperation(name)),
                }
            },
            TagView::Tracknumber => if values.len() == 0 {
                Err(EvalErrorView::TagNotSet(name))
            } else {
                match decimal(values[0], u32::MAX as nat) {
                    Some(n) => Ok(ValueView::Integer(n as u32)),
                    None => Err(EvalErrorView::IntegerOperation(name)),
                }
            },
            _ => Ok(ValueView::StringSet(values)),
        }
    }
}

/// The value of an expression in a file: operands first, then the operator.
/// `!` negates a boolean and refuses every other kind of value.
pub open spec fn eval_of(e: ExprView, env: Comments) -> Result<ValueView, EvalErrorView>
    decreases e,
{
    match e {
        ExprView::BinOp { lhs, op, rhs } => match eval_of(*lhs, env) {
            Err(x) => Err(x),
            Ok(a) => match eval_of(*rhs, env) {
                Err(x) => Err(x),
                Ok(b) => match apply_op(op, a, b) {
                    Ok(verdict) => Ok(ValueView::Boolean(verdict)),
                    Err(x) => Err(x),
                },
            },
        },
        ExprView::Not(inner) => match eval_of(*inner, env) {
            Err(x) => Err(x),
            Ok(v) => match v {
                ValueView::Boolean(b) => Ok(ValueView::Boolean(!b)),
                _ => Err(EvalErrorView::InvalidNot(kind_name(v))),
            },
        },
        ExprView::Value(v) => match v {
            ValueView::Tag(t) => resolve(t, env),
            _ => Ok(v),
        },
    }
}

pub open spec fn eval_result_view(r: Result<Value, QueryEvalError>) -> Result<
    ValueView,
    EvalErrorView,
> {
    match r {
        Ok(v) => Ok(v@),
        Err(e) => Err(e@),
    }
}

/// Looks a field up in the comments of a file.
pub fn lookup(tag: &FlacTags, env: &VorbisComment) -> (r: Result<Value, QueryEvalError>)
    ensures
        eval_result_view(r) == resolve(tag@, comments_of(*env)),
{
    let name = tag.as_str();
    let values = match stored_values(env, name) {
        Some(values) => values,
        None => {
            return Err(QueryEvalError::TagNotSet(String::from_str(name)));
        },
    };
    assert(values@.len() > 0 ==> strs(values@)[0] == values@[0]@);
    match tag {
        FlacTags::Date => {
            if values.len() == 0 {
                return Err(QueryEvalError::TagNotSet(String::from_str(name)));
            }
            match Date::from_str(values[0].as_str()) {
                Ok(d) => Ok(Value::Date(d)),
                Err(_) => Err(QueryEvalError::DateOperation(String::from_str(name))),
            }
        },
        FlacTags::Tracknumber => {
            if values.len() == 0 {
                return Err(QueryEvalError::TagNotSet(String::from_str(name)));
            }
            let chars = to_chars(values[0].as_str());
            match parse_decimal(&chars, u32::MAX) {
                Some(n) => Ok(Value::Integer(n)),
                None => Err(QueryEvalError::IntegerOperation(String::from_str(name))),
            }
        },
        _ => Ok(Value::String(values)),
    }
}

impl Expr {
    /// Evaluates the expression against the comments of a file.
    pub fn eval(&self, env: &VorbisComment) -> (r: Result<Value, QueryEvalError>)
        ensures
            eval_result_view(r) == eval_of(self@, comments_of(*env)),
        decreases self,
    {
        match self {
            Expr::BinOp { lhs, op, rhs } => {
                let a = match lhs.eval(env) {
                    Ok(a) => a,
                    Err(x) => {
                        return Err(x);
                    },
                };
                let b = match rhs.eval(env) {
                    Ok(b) => b,
                    Err(x) => {
                        return Err(x);
                    },
                };
                match op.eval(a, b) {
                    Ok(verdict) => Ok(Value::Boolean(verdict)),
                    Err(x) => Err(x),
                }
            },
            Expr::Not(inner) => match inner.eval(env) {
                Err(x) => Err(x),
                Ok(v) => match v {
                    Value::Boolean(b) => Ok(Value::Boolean(!b)),
                    _ => Err(QueryEvalError::InvalidNot(v.kind())),
                },
            },
            Expr::Value(v) => match v {
                Value::Tag(t) => lookup(t, env),
                _ => Ok(v.duplicate()),
            },
        }
    }
}

} // verus!

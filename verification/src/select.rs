//! Selecting the files whose comments satisfy a query.

use vstd::prelude::*;
use metaflac::block::VorbisComment;
use crate::comments::comments_of;
use crate::eval::{Comments, eval_of};
use crate::query::{EvalErrorView, Expr, ExprView, QueryEvalError, Value, ValueView};

verus! {

/// A file that a query may select: its path, of whatever type the caller
/// keeps paths in, and its comment block.
pub struct Candidate<P> {
    pub path: P,
    pub tags: VorbisComment,
}

/// The mathematical value of a candidate: its path and its comments.
pub struct CandidateView<P> {
    pub path: P,
    pub comments: Comments,
}

impl<P> View for Candidate<P> {
    type V = CandidateView<P>;

    open spec fn view(&self) -> CandidateView<P> {
        CandidateView { path: self.path, comments: comments_of(self.tags) }
    }
}

pub open spec fn candidates_view<P>(v: Seq<Candidate<P>>) -> Seq<CandidateView<P>> {
    Seq::new(v.len(), |i: int| v[i]@)
}

/// The paths that a list of references points to.
pub open spec fn paths_of<P>(v: Seq<&P>) -> Seq<P> {
    Seq::new(v.len(), |i: int| *v[i])
}

/// Whether a file satisfies a query: the query's value there, which must be
/// a boolean.
pub open spec fn verdict_of(e: ExprView, env: Comments) -> Result<bool, EvalErrorView> {
    match eval_of(e, env) {
        Ok(ValueView::Boolean(b)) => Ok(b),
        Ok(_) => Err(EvalErrorView::BadEvaluation),
        Err(x) => Err(x),
    }
}

/// The paths of the files that satisfy a query, in the order of the files.
/// The first file on which the query fails, fails the selection.
pub open spec fn selection_of<P>(e: ExprView, files: Seq<CandidateView<P>>) -> Result<
    Seq<P>,
    EvalErrorView,
>
    decreases files.len(),
{
    if files.len() == 0 {
        Ok(Seq::empty())
    } else {
        match selection_of(e, files.drop_last()) {
            Err(x) => Err(x),
            Ok(kept) => match verdict_of(e, files.last().comments) {
                Err(x) => Err(x),
                Ok(true) => Ok(kept.push(files.last().path)),
                Ok(false) => Ok(kept),
            },
        }
    }
}

pub open spec fn verdict_view(r: Result<bool, QueryEvalError>) -> Result<bool, EvalErrorView> {
    match r {
        Ok(b) => Ok(b),
        Err(x) => Err(x@),
    }
}

pub open spec fn selection_view<P>(r: Result<Vec<&P>, QueryEvalError>) -> Result<
    Seq<P>,
    EvalErrorView,
> {
    match r {
        Ok(paths) => Ok(paths_of(paths@)),
        Err(x) => Err(x@),
    }
}

impl Expr {
    /// Whether the comments of a file satisfy the query. A query whose value
    /// is no boolean fails with `BadEvaluation`.
    pub fn matches(&self, env: &VorbisComment) -> (r: Result<bool, QueryEvalError>)
        ensures
            verdict_view(r) == verdict_of(self@, comments_of(*env)),
    {
        match self.eval(env) {
            Ok(Value::Boolean(b)) => Ok(b),
            Ok(_) => Err(QueryEvalError::BadEvaluation),
            Err(x) => Err(x),
        }
    }
}

/// Selects the files that satisfy a query: their paths, in the order of the
/// files, each as a reference to the path that the caller gave. The selection
/// fails as a whole with the error of the first file on which the query
/// cannot be evaluated to a boolean.
pub fn select<'a, P>(expr: &Expr, files: &'a Vec<Candidate<P>>) -> (r: Result<
    Vec<&'a P>,
    QueryEvalError,
>)
    ensures
        selection_view(r) == selection_of(expr@, candidates_view(files@)),
{
    let ghost all = candidates_view(files@);
    let mut kept: Vec<&'a P> = Vec::new();
    let mut i: usize = 0;
    assert(all.subrange(0, 0) =~= Seq::empty());
    assert(paths_of(kept@) =~= Seq::empty());
    while i < files.len()
        invariant
            i <= files.len(),
            all == candidates_view(files@),
            selection_of(expr@, all.subrange(0, i as int)) == Ok::<Seq<P>, EvalErrorView>(
                paths_of(kept@),
            ),
        decreases files.len() - i,
    {
        let ghost prefix = all.subrange(0, i + 1);
        assert(prefix.drop_last() =~= all.subrange(0, i as int));
        assert(prefix.last() == files@[i as int]@);
        let ghost before = paths_of(kept@);
        match expr.matches(&files[i].tags) {
            Err(x) => {
                proof {
                    lemma_selection_fails(expr@, all, i + 1);
                }
                return Err(x);
            },
            Ok(true) => {
                kept.push(&files[i].path);
                assert(paths_of(kept@) =~= before.push(files@[i as int].path));
            },
            Ok(false) => {},
        }
        i += 1;
    }
    assert(all.subrange(0, i as int) =~= all);
    Ok(kept)
}

/// A selection that fails on the first files fails in the same way on the
/// whole list.
pub proof fn lemma_selection_fails<P>(e: ExprView, files: Seq<CandidateView<P>>, k: int)
    requires
        0 <= k <= files.len(),
        selection_of(e, files.subrange(0, k)) is Err,
    ensures
        selection_of(e, files) == selection_of(e, files.subrange(0, k)),
    decreases files.len() - k,
{
    if k == files.len() {
        assert(files.subrange(0, k) =~= files);
    } else {
        let next = files.subrange(0, k + 1);
        assert(next.drop_last() =~= files.subrange(0, k));
        lemma_selection_fails(e, files, k + 1);
    }
}

} // verus!

//! The analysis run over every handler that a router registers.
//!
//! Each registered handler is analysed by itself. The failing ones are
//! reported together, in the order of registration, one error each.

use vstd::prelude::*;
use crate::emitter::{analyze, verdict_of, Emission, LocalizedError, Verdict};
use crate::model::Declaration;
use crate::span::SourceSpan;
use crate::table::{TableRow, TypeTable};

verus! {

/// The error of one registered handler.
#[derive(Debug, PartialEq, Eq)]
pub struct HandlerReport {
    /// The handler's place among the registrations, counted from zero.
    pub handler: usize,
    pub error: LocalizedError,
}

/// The error of one registered handler, as a mathematical value.
pub struct HandlerFinding {
    pub handler: nat,
    pub summary: Seq<char>,
    pub span: SourceSpan,
}

impl View for HandlerReport {
    type V = HandlerFinding;

    open spec fn view(&self) -> HandlerFinding {
        HandlerFinding {
            handler: self.handler as nat,
            summary: self.error.summary@,
            span: self.error.span,
        }
    }
}

/// The reports of a batch, as mathematical values.
pub open spec fn findings(batch: Seq<HandlerReport>) -> Seq<HandlerFinding> {
    batch.map_values(|report: HandlerReport| report@)
}

/// The errors of the first `n` registrations, in the order of registration.
pub open spec fn batch_of(rows: Seq<TableRow>, registrations: Seq<Declaration>, n: int) -> Seq<
    HandlerFinding,
>
    decreases n,
{
    if n <= 0 {
        Seq::<HandlerFinding>::empty()
    } else {
        let before = batch_of(rows, registrations, n - 1);
        match verdict_of(rows, registrations[n - 1]) {
            Verdict::Rejected { summary, span } => before.push(
                HandlerFinding { handler: (n - 1) as nat, summary: summary, span: span },
            ),
            Verdict::Accepted => before,
        }
    }
}

/// Analyses every registered handler and collects the errors of those that
/// fail.
pub fn aggregate(table: &TypeTable, registrations: Vec<Declaration>) -> (batch: Vec<HandlerReport>)
    ensures
        findings(batch@) == batch_of(table@, registrations@, registrations@.len() as int),
{
    let ghost all = registrations@;
    let count: usize = registrations.len();
    let mut batch: Vec<HandlerReport> = Vec::new();
    let mut handler: usize = 0;
    assert(findings(batch@) =~= batch_of(table@, all, 0));
    for declaration in it: registrations
        invariant
            it.seq() == all,
            all.len() == count,
            handler == it.index(),
            findings(batch@) == batch_of(table@, all, it.index() as int),
    {
        let ghost before = batch@;
        match analyze(table, declaration) {
            Emission::Rejected(error) => {
                batch.push(HandlerReport { handler: handler, error: error });
                assert(findings(batch@) =~= findings(before).push(batch@[before.len() as int]@));
            },
            Emission::Accepted => {},
        }
        handler += 1;
    }
    batch
}

/// A batch holds at most one error for each registration, in the order of
/// registration: the handlers named in it grow strictly, and each is a
/// registration.
pub proof fn lemma_batch_in_order(rows: Seq<TableRow>, registrations: Seq<Declaration>, n: int)
    requires
        0 <= n <= registrations.len(),
    ensures
        batch_of(rows, registrations, n).len() <= n,
        forall|i: int|
            0 <= i < batch_of(rows, registrations, n).len() ==> (#[trigger] batch_of(
                rows,
                registrations,
                n,
            )[i]).handler < n,
        forall|i: int, j: int|
            0 <= i < j < batch_of(rows, registrations, n).len() ==> (#[trigger] batch_of(
                rows,
                registrations,
                n,
            )[i]).handler < (#[trigger] batch_of(rows, registrations, n)[j]).handler,
    decreases n,
{
    if n > 0 {
        lemma_batch_in_order(rows, registrations, n - 1);
    }
}

/// A registration has an error in the batch exactly where its own analysis
/// rejects it, and the error in the batch is the one that its own analysis
/// gives.
pub proof fn lemma_batch_holds_the_failing(
    rows: Seq<TableRow>,
    registrations: Seq<Declaration>,
    n: int,
    handler: int,
)
    requires
        0 <= handler < n <= registrations.len(),
    ensures
        match verdict_of(rows, registrations[handler]) {
            Verdict::Rejected { summary, span } => batch_of(rows, registrations, n).contains(
                HandlerFinding { handler: handler as nat, summary: summary, span: span },
            ),
            Verdict::Accepted => forall|i: int|
                0 <= i < batch_of(rows, registrations, n).len() ==> (#[trigger] batch_of(
                    rows,
                    registrations,
                    n,
                )[i]).handler != handler,
        },
        forall|i: int|
            0 <= i < batch_of(rows, registrations, n).len() && (#[trigger] batch_of(
                rows,
                registrations,
                n,
            )[i]).handler == handler ==> verdict_of(rows, registrations[handler]) == (
            Verdict::Rejected {
                summary: batch_of(rows, registrations, n)[i].summary,
                span: batch_of(rows, registrations, n)[i].span,
            }),
    decreases n,
{
    let batch = batch_of(rows, registrations, n);
    let before = batch_of(rows, registrations, n - 1);
    lemma_batch_in_order(rows, registrations, n - 1);
    if handler < n - 1 {
        lemma_batch_holds_the_failing(rows, registrations, n - 1, handler);
        match verdict_of(rows, registrations[handler]) {
            Verdict::Rejected { summary, span } => {
                let found = HandlerFinding { handler: handler as nat, summary: summary, span: span };
                let i = choose|i: int| 0 <= i < before.len() && before[i] == found;
                assert(batch[i] == found);
            },
            Verdict::Accepted => {},
        }
    } else {
        match verdict_of(rows, registrations[handler]) {
            Verdict::Rejected { summary, span } => {
                assert(batch[before.len() as int] == HandlerFinding {
                    handler: handler as nat,
                    summary: summary,
                    span: span,
                });
            },
            Verdict::Accepted => {},
        }
    }
}

} // verus!

//! From a selection to what the host toolchain is told.
//!
//! Nothing here writes anywhere. `emit` decides what is to be reported, and
//! `render_report` gives the text of a report; the caller hands both on.

use vstd::prelude::*;
use vstd::string::*;
use crate::model::{build_signature, model_of, BuildError, Declaration};
use crate::selector::{select, selection, Diagnostic};
use crate::span::SourceSpan;
use crate::table::{TableRow, TypeTable};

verus! {

/// One error, anchored at a place in the source.
#[derive(Debug, PartialEq, Eq)]
pub struct LocalizedError {
    pub summary: String,
    pub span: SourceSpan,
}

/// What the host toolchain is told of an analysed item.
#[derive(Debug, PartialEq, Eq)]
pub enum Emission {
    /// Nothing is reported, and the item stands.
    Accepted,
    /// One error is reported, and the item is invalid.
    Rejected(LocalizedError),
}

/// An emission as a mathematical value.
pub enum Verdict {
    Accepted,
    Rejected { summary: Seq<char>, span: SourceSpan },
}

impl View for Emission {
    type V = Verdict;

    open spec fn view(&self) -> Verdict {
        match self {
            Emission::Accepted => Verdict::Accepted,
            Emission::Rejected(error) => Verdict::Rejected {
                summary: error.summary@,
                span: error.span,
            },
        }
    }
}

impl Emission {
    /// Whether the analysed item may be used.
    pub fn item_is_valid(&self) -> (valid: bool)
        ensures
            valid == (self@ is Accepted),
    {
        match self {
            Emission::Accepted => true,
            Emission::Rejected(_) => false,
        }
    }
}

/// The summary that a declaration which is no function is reported with.
pub open spec fn malformed_summary() -> Seq<char> {
    "expected a function declaration"@
}

/// Turns a selection into an emission: nothing for no diagnostic, and for a
/// diagnostic one error with its message, at its span.
pub fn emit(selected: Option<Diagnostic>) -> (emission: Emission)
    ensures
        emission@ == match selected {
            Some(diagnostic) => Verdict::Rejected {
                summary: diagnostic.rendered_message@,
                span: diagnostic.span,
            },
            None => Verdict::Accepted,
        },
{
    match selected {
        Some(diagnostic) => Emission::Rejected(
            LocalizedError { summary: diagnostic.rendered_message, span: diagnostic.span },
        ),
        None => Emission::Accepted,
    }
}

/// The emission for a declaration that no signature could be built from.
pub fn emit_malformed(error: BuildError) -> (emission: Emission)
    ensures
        emission@ == (Verdict::Rejected {
            summary: malformed_summary(),
            span: error->NotAFunction_span,
        }),
{
    match error {
        BuildError::NotAFunction { span } => Emission::Rejected(
            LocalizedError { summary: String::from_str("expected a function declaration"), span: span },
        ),
    }
}

/// What is told of `declaration`: a declaration that is no function is
/// malformed; a function is reported with what the selector finds in the
/// model that `build_signature` gives of it.
pub open spec fn verdict_of(rows: Seq<TableRow>, declaration: Declaration) -> Verdict {
    match declaration {
        Declaration::Function(function) => {
            match selection(rows, model_of(function)) {
                Some(finding) => Verdict::Rejected { summary: finding.message, span: finding.span },
                None => Verdict::Accepted,
            }
        },
        Declaration::Other(span) => Verdict::Rejected { summary: malformed_summary(), span: span },
    }
}

/// Runs the whole analysis on one declaration: builds the model, selects the
/// diagnostic, and decides what is emitted.
pub fn analyze(table: &TypeTable, declaration: Declaration) -> (emission: Emission)
    ensures
        emission@ == verdict_of(table@, declaration),
{
    match build_signature(declaration) {
        Ok(model) => {
            let selected = select(table, &model);
            emit(selected)
        },
        Err(error) => emit_malformed(error),
    }
}

} // verus!

//! Choosing the one diagnostic that a signature is reported with.

use vstd::prelude::*;
use crate::model::{SignatureModel, SignatureView};
use crate::rules::{rule_order, rule_set, RuleId};
use crate::span::SourceSpan;
use crate::table::{TableRow, TypeTable};

verus! {

/// One broken rule, in words, with the place that breaks it.
#[derive(Debug, PartialEq, Eq)]
pub struct Diagnostic {
    pub rule_identifier: RuleId,
    pub rendered_message: String,
    pub span: SourceSpan,
}

/// A diagnostic as a mathematical value.
pub struct Finding {
    pub rule_identifier: RuleId,
    pub message: Seq<char>,
    pub span: SourceSpan,
}

impl View for Diagnostic {
    type V = Finding;

    open spec fn view(&self) -> Finding {
        Finding {
            rule_identifier: self.rule_identifier,
            message: self.rendered_message@,
            span: self.span,
        }
    }
}

/// What a selection reports, as a mathematical value.
pub open spec fn reported(selected: Option<Diagnostic>) -> Option<Finding> {
    match selected {
        Some(diagnostic) => Some(diagnostic@),
        None => None,
    }
}

/// The first rule of `rules` that `model` breaks, if it breaks any of them.
pub open spec fn first_violated(
    rules: Seq<RuleId>,
    rows: Seq<TableRow>,
    model: SignatureView,
) -> Option<RuleId>
    decreases rules.len(),
{
    if rules.len() == 0 {
        None
    } else if !rules[0].holds(rows, model) {
        Some(rules[0])
    } else {
        first_violated(rules.skip(1), rows, model)
    }
}

/// What is reported of `model` where it breaks `rule`.
pub open spec fn finding_of(rule: RuleId, rows: Seq<TableRow>, model: SignatureView) -> Finding {
    Finding {
        rule_identifier: rule,
        message: rule.rendered(rows, model),
        span: rule.violation_span(rows, model),
    }
}

/// What is reported of `model`: the first rule it breaks, in the order of
/// consultation, or nothing where it breaks none.
pub open spec fn selection(rows: Seq<TableRow>, model: SignatureView) -> Option<Finding> {
    match first_violated(rule_order(), rows, model) {
        Some(rule) => Some(finding_of(rule, rows, model)),
        None => None,
    }
}

/// Evaluates the rules in order on `model` and stops at the first that is
/// broken.
pub fn select(table: &TypeTable, model: &SignatureModel) -> (selected: Option<Diagnostic>)
    ensures
        reported(selected) == selection(table@, model@),
{
    let rules = rule_set();
    let mut i: usize = 0;
    assert(rules@.skip(0) =~= rules@);
    while i < rules.len()
        invariant
            i <= rules.len(),
            rules@ == rule_order(),
            first_violated(rule_order(), table@, model@) == first_violated(
                rules@.skip(i as int),
                table@,
                model@,
            ),
        decreases rules.len() - i,
    {
        let rule = rules[i];
        assert(rules@.skip(i as int)[0] == rule);
        if !rule.evaluate(table, model) {
            let rendered_message = rule.render(table, model);
            let span = rule.locate(table, model);
            return Some(
                Diagnostic { rule_identifier: rule, rendered_message: rendered_message, span: span },
            );
        }
        assert(rules@.skip(i as int).skip(1) =~= rules@.skip(i + 1));
        i += 1;
    }
    None
}

} // verus!

//! What holds of every signature and every table.

use vstd::prelude::*;
use crate::model::SignatureView;
use crate::rules::{
    consuming, first_misplaced, first_unclassified, lemma_first_misplaced,
    lemma_first_unclassified, rule_order, RuleId,
};
use crate::selector::{finding_of, first_violated, reported, selection, Diagnostic, Finding};
use crate::table::{class_of, recognized, Recognition, Role, TableRow, TypeClass};
use crate::types::Shape;

verus! {

/// The order of consultation, written out: asynchrony is looked at first,
/// then the classes of the parameters, then the place of the body
/// extractor, then the return type.
pub proof fn lemma_order_of_consultation(rows: Seq<TableRow>, model: SignatureView)
    ensures
        first_violated(rule_order(), rows, model) == if !RuleId::Asynchrony.holds(rows, model) {
            Some(RuleId::Asynchrony)
        } else if !RuleId::ParameterClassification.holds(rows, model) {
            Some(RuleId::ParameterClassification)
        } else if !RuleId::BodyExtractorOrdering.holds(rows, model) {
            Some(RuleId::BodyExtractorOrdering)
        } else if !RuleId::ReturnType.holds(rows, model) {
            Some(RuleId::ReturnType)
        } else {
            None
        },
{
    let all = rule_order();
    let from_second = seq![
        RuleId::ParameterClassification,
        RuleId::BodyExtractorOrdering,
        RuleId::ReturnType,
    ];
    let from_third = seq![RuleId::BodyExtractorOrdering, RuleId::ReturnType];
    let last = seq![RuleId::ReturnType];
    assert(all.skip(1) =~= from_second);
    assert(from_second.skip(1) =~= from_third);
    assert(from_third.skip(1) =~= last);
    assert(last.skip(1) =~= Seq::<RuleId>::empty());
    reveal_with_fuel(first_violated, 5);
}

/// The order of consultation is the order of the rules' priorities.
pub proof fn lemma_order_follows_priority(rule: RuleId)
    ensures
        rule.priority() < rule_order().len(),
        rule_order()[rule.priority() as int] == rule,
{
}

/// A rule is the one reported exactly where the signature breaks it and
/// keeps every rule that is consulted before it. So no signature is
/// reported with two rules.
pub proof fn lemma_first_failure_is_unique(
    rows: Seq<TableRow>,
    model: SignatureView,
    rule: RuleId,
)
    ensures
        first_violated(rule_order(), rows, model) == Some(rule) <==> (!rule.holds(rows, model)
            && forall|earlier: RuleId|
            earlier.priority() < rule.priority() ==> #[trigger] earlier.holds(rows, model)),
{
    lemma_order_of_consultation(rows, model);
    if !rule.holds(rows, model) && (forall|earlier: RuleId|
        earlier.priority() < rule.priority() ==> #[trigger] earlier.holds(rows, model)) {
        if rule.priority() > 0 {
            assert(RuleId::Asynchrony.holds(rows, model));
        }
        if rule.priority() > 1 {
            assert(RuleId::ParameterClassification.holds(rows, model));
        }
        if rule.priority() > 2 {
            assert(RuleId::BodyExtractorOrdering.holds(rows, model));
        }
    }
}

/// Nothing is reported exactly where the signature keeps every rule.
pub proof fn lemma_silent_iff_all_hold(rows: Seq<TableRow>, model: SignatureView)
    ensures
        selection(rows, model) is None <==> forall|rule: RuleId| #[trigger]
            rule.holds(rows, model),
{
    lemma_order_of_consultation(rows, model);
    if selection(rows, model) is None {
        assert forall|rule: RuleId| #[trigger] rule.holds(rows, model) by {
            match rule {
                RuleId::Asynchrony => {},
                RuleId::ParameterClassification => {},
                RuleId::BodyExtractorOrdering => {},
                RuleId::ReturnType => {},
            }
        }
    } else {
        let broken = first_violated(rule_order(), rows, model)->Some_0;
        assert(!broken.holds(rows, model));
    }
}

/// A signature is reported with at most one diagnostic: two diagnostics that
/// are both what the selector reports of it are the same.
pub proof fn lemma_at_most_one_diagnostic(
    rows: Seq<TableRow>,
    model: SignatureView,
    one: Diagnostic,
    other: Diagnostic,
)
    requires
        selection(rows, model) == Some(one@),
        selection(rows, model) == Some(other@),
    ensures
        one@ == other@,
{
}

/// Running the selector twice on one signature reports the same both times.
pub proof fn lemma_selection_is_deterministic(
    rows: Seq<TableRow>,
    model: SignatureView,
    first: Option<Diagnostic>,
    second: Option<Diagnostic>,
)
    requires
        reported(first) == selection(rows, model),
        reported(second) == selection(rows, model),
    ensures
        reported(first) == reported(second),
{
}

/// A handler that is not declared `async` is reported for that, at the start
/// of its signature, whatever else is wrong with it.
pub proof fn lemma_asynchrony_comes_first(rows: Seq<TableRow>, model: SignatureView)
    requires
        !model.is_async,
    ensures
        selection(rows, model) == Some(
            Finding {
                rule_identifier: RuleId::Asynchrony,
                message: "handlers must be async functions"@,
                span: model.span.head(),
            },
        ),
{
    lemma_order_of_consultation(rows, model);
    reveal_strlit("");
    assert(RuleId::Asynchrony.rendered(rows, model) =~= "handlers must be async functions"@);
}

/// An `async` handler without parameters whose written return type is a
/// recognized response type is reported with nothing.
pub proof fn lemma_plain_handler_passes(rows: Seq<TableRow>, model: SignatureView)
    requires
        model.is_async,
        model.parameters.len() == 0,
        model.return_type matches Some(written) && class_of(
            rows,
            written.shape,
            Role::Return,
        ) == TypeClass::KnownResponseType,
    ensures
        selection(rows, model) is None,
{
    lemma_order_of_consultation(rows, model);
}

/// The body-extractor rule flags a parameter that consumes the request body
/// and does not stand last, at that parameter, whatever the parameters after
/// it and the return type are. Of several such parameters it points at the
/// first.
pub proof fn lemma_misplaced_body_extractor_is_flagged(
    rows: Seq<TableRow>,
    model: SignatureView,
    i: int,
)
    requires
        0 <= i < model.parameters.len() - 1,
        consuming(rows, model.parameters[i]),
        forall|j: int| 0 <= j < i ==> !consuming(rows, #[trigger] model.parameters[j]),
    ensures
        !RuleId::BodyExtractorOrdering.holds(rows, model),
        first_misplaced(rows, model.parameters) == Some(i),
        RuleId::BodyExtractorOrdering.violation_span(rows, model) == model.parameters[i].span,
        RuleId::BodyExtractorOrdering.subject(rows, model) == model.parameters[i].shape.name,
{
    lemma_first_misplaced(rows, model.parameters);
    match first_misplaced(rows, model.parameters) {
        Some(k) => {
            if k < i {
                assert(!consuming(rows, model.parameters[k]));
            }
            if i < k {
                assert(!consuming(rows, model.parameters[i]));
            }
        },
        None => {
            assert(!consuming(rows, model.parameters[i]));
        },
    }
}

/// An `async` handler whose parameters are all classified is reported for a
/// misplaced body extractor, at that parameter, whatever the parameters
/// after it consume and whatever it returns.
pub proof fn lemma_misplaced_body_extractor_is_reported(
    rows: Seq<TableRow>,
    model: SignatureView,
    i: int,
)
    requires
        model.is_async,
        RuleId::ParameterClassification.holds(rows, model),
        0 <= i < model.parameters.len() - 1,
        consuming(rows, model.parameters[i]),
        forall|j: int| 0 <= j < i ==> !consuming(rows, #[trigger] model.parameters[j]),
    ensures
        selection(rows, model) == Some(
            finding_of(RuleId::BodyExtractorOrdering, rows, model),
        ),
        selection(rows, model)->Some_0.span == model.parameters[i].span,
{
    lemma_order_of_consultation(rows, model);
    lemma_misplaced_body_extractor_is_flagged(rows, model, i);
}

/// The parameter rule flags the first parameter that the table knows no
/// class for, at that parameter.
pub proof fn lemma_unclassified_parameter_is_flagged(
    rows: Seq<TableRow>,
    model: SignatureView,
    i: int,
)
    requires
        0 <= i < model.parameters.len(),
        class_of(rows, model.parameters[i].shape, Role::Parameter)
            == TypeClass::Unknown,
        forall|j: int|
            0 <= j < i ==> class_of(
                rows,
                (#[trigger] model.parameters[j]).shape,
                Role::Parameter,
            ) != TypeClass::Unknown,
    ensures
        !RuleId::ParameterClassification.holds(rows, model),
        first_unclassified(rows, model.parameters) == Some(i),
        RuleId::ParameterClassification.violation_span(rows, model) == model.parameters[i].span,
        model.is_async ==> selection(rows, model) == Some(
            finding_of(RuleId::ParameterClassification, rows, model),
        ),
{
    lemma_order_of_consultation(rows, model);
    lemma_first_unclassified(rows, model.parameters);
    match first_unclassified(rows, model.parameters) {
        Some(k) => {
            if k < i {
                assert(class_of(rows, model.parameters[k].shape, Role::Parameter)
                    != TypeClass::Unknown);
            }
            if i < k {
                assert(class_of(rows, model.parameters[i].shape, Role::Parameter)
                    != TypeClass::Unknown);
            }
        },
        None => {
            assert(class_of(rows, model.parameters[i].shape, Role::Parameter)
                != TypeClass::Unknown);
        },
    }
}

/// The return rule flags a written return type that the table does not
/// recognize as a response type, at that type. Where the handler keeps the
/// three rules before it, that is what is reported.
pub proof fn lemma_unrecognized_return_is_flagged(rows: Seq<TableRow>, model: SignatureView)
    requires
        model.return_type matches Some(written) && recognized(
            rows,
            written.shape,
            Role::Return,
        ) is None,
    ensures
        !RuleId::ReturnType.holds(rows, model),
        RuleId::ReturnType.violation_span(rows, model) == model.return_type->Some_0.span,
        RuleId::ReturnType.subject(rows, model) == model.return_type->Some_0.shape.name,
        model.is_async && RuleId::ParameterClassification.holds(rows, model)
            && RuleId::BodyExtractorOrdering.holds(rows, model) ==> selection(rows, model)
            == Some(finding_of(RuleId::ReturnType, rows, model)),
{
    lemma_order_of_consultation(rows, model);
}

/// A handler that writes no return type keeps the return rule. Where it
/// keeps the three rules before it too, nothing is reported: so it is for
/// the `async` handler without parameters and without a return type.
pub proof fn lemma_unwritten_return_passes(rows: Seq<TableRow>, model: SignatureView)
    requires
        model.return_type is None,
    ensures
        RuleId::ReturnType.holds(rows, model),
        model.is_async && RuleId::ParameterClassification.holds(rows, model)
            && RuleId::BodyExtractorOrdering.holds(rows, model) ==> selection(rows, model) is None,
        model.is_async && model.parameters.len() == 0 ==> selection(rows, model) is None,
{
    lemma_order_of_consultation(rows, model);
}

/// What a table says of a type fits the place where the type is written: a
/// parameter is never classed as a response type, and a return type is a
/// response type or unknown.
pub proof fn lemma_class_fits_role(rows: Seq<TableRow>, shape: Shape, role: Role)
    ensures
        recognized(rows, shape, role) matches Some(recognition) ==> recognition.fits(role),
        role == Role::Parameter ==> class_of(rows, shape, role) != TypeClass::KnownResponseType,
        role == Role::Return ==> class_of(rows, shape, role) == TypeClass::KnownResponseType
            || class_of(rows, shape, role) == TypeClass::Unknown,
    decreases rows.len(),
{
    if rows.len() > 0 && !(rows[0].shape == shape && rows[0].recognition.fits(role)) {
        lemma_class_fits_role(rows.skip(1), shape, role);
    }
}

/// The row that decides is the first that names the shape and fits the
/// place; nothing is recognized only where no row does both.
pub proof fn lemma_first_row_decides(rows: Seq<TableRow>, shape: Shape, role: Role)
    ensures
        match recognized(rows, shape, role) {
            Some(recognition) => exists|i: int|
                0 <= i < rows.len() && (#[trigger] rows[i]).shape == shape
                    && rows[i].recognition == recognition && recognition.fits(role)
                    && forall|j: int|
                    0 <= j < i ==> !((#[trigger] rows[j]).shape == shape
                        && rows[j].recognition.fits(role)),
            None => forall|i: int|
                0 <= i < rows.len() ==> !((#[trigger] rows[i]).shape == shape
                    && rows[i].recognition.fits(role)),
        },
    decreases rows.len(),
{
    if rows.len() > 0 {
        if rows[0].shape == shape && rows[0].recognition.fits(role) {
            assert(rows[0].shape == shape);
        } else {
            let rest = rows.skip(1);
            lemma_first_row_decides(rest, shape, role);
            assert forall|i: int| 0 <= i < rest.len() implies #[trigger] rest[i] == rows[i + 1] by {}
            match recognized(rest, shape, role) {
                Some(recognition) => {
                    let i = choose|i: int|
                        0 <= i < rest.len() && (#[trigger] rest[i]).shape == shape
                            && rest[i].recognition == recognition && recognition.fits(role)
                            && forall|j: int|
                            0 <= j < i ==> !((#[trigger] rest[j]).shape == shape
                                && rest[j].recognition.fits(role));
                    assert(rows[i + 1] == rest[i]);
                    assert forall|j: int| 0 <= j < i + 1 implies !((#[trigger] rows[j]).shape
                        == shape && rows[j].recognition.fits(role)) by {
                        if j > 0 {
                            assert(rows[j] == rest[j - 1]);
                        }
                    }
                },
                None => {
                    assert forall|i: int| 0 <= i < rows.len() implies !((#[trigger] rows[i]).shape
                        == shape && rows[i].recognition.fits(role)) by {
                        if i > 0 {
                            assert(rows[i] == rest[i - 1]);
                        }
                    }
                },
            }
        }
    }
}

/// Registering a row changes nothing for a type that the table recognized
/// before: earlier rows win. A type that was not recognized is recognized
/// afterwards exactly where the new row names it and fits the place.
pub proof fn lemma_register_extends(rows: Seq<TableRow>, added: TableRow, shape: Shape, role: Role)
    ensures
        recognized(rows.push(added), shape, role) == match recognized(rows, shape, role) {
            Some(recognition) => Some(recognition),
            None => if added.shape == shape && added.recognition.fits(role) {
                Some(added.recognition)
            } else {
                None
            },
        },
    decreases rows.len(),
{
    let extended = rows.push(added);
    if rows.len() == 0 {
        assert(extended.skip(1) =~= Seq::<TableRow>::empty());
        reveal_with_fuel(recognized, 2);
    } else {
        assert(extended[0] == rows[0]);
        assert(extended.skip(1) =~= rows.skip(1).push(added));
        lemma_register_extends(rows.skip(1), added, shape, role);
    }
}

/// A parameter that consumes the request body is an extractor.
pub proof fn lemma_body_extractor_is_extractor(rows: Seq<TableRow>, shape: Shape)
    requires
        recognized(rows, shape, Role::Parameter) == Some(Recognition::BodyExtractor),
    ensures
        class_of(rows, shape, Role::Parameter) == TypeClass::KnownExtractor,
{
}

} // verus!

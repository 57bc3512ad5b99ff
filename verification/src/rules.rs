//! The rules of the handler contract.
//!
//! Each rule is a total predicate over a signature model, together with the
//! place that a violation is reported at and the words it is reported in.
//! No rule assumes that another rule holds.

use vstd::prelude::*;
use vstd::string::*;
use crate::model::{ParamView, SignatureModel, SignatureView};
use crate::span::SourceSpan;
use crate::table::{class_of, takes_body, Role, TableRow, TypeClass, TypeTable};

verus! {

/// The rules, in the order in which they are consulted.
#[derive(Clone, Copy, Debug, PartialEq, Eq, Structural)]
pub enum RuleId {
    /// The handler is declared `async`.
    Asynchrony,
    /// Every parameter is a recognized extractor or special argument.
    ParameterClassification,
    /// An extractor that consumes the request body stands last.
    BodyExtractorOrdering,
    /// The return type is a recognized response type.
    ReturnType,
}

/// The words of a rule's message, around the name of the offending type.
#[derive(Clone, Copy, Debug, PartialEq, Eq)]
pub struct MessageTemplate {
    pub before: &'static str,
    pub after: &'static str,
}

/// The least `k` with `lo <= k < hi` and `p(k)`, if there is one.
pub open spec fn least(p: spec_fn(int) -> bool, lo: int, hi: int) -> Option<int>
    decreases hi - lo,
{
    if lo >= hi {
        None
    } else if p(lo) {
        Some(lo)
    } else {
        least(p, lo + 1, hi)
    }
}

/// `least` finds an index at which `p` holds and before which it does not,
/// and finds none only where `p` holds nowhere in the range.
pub proof fn lemma_least(p: spec_fn(int) -> bool, lo: int, hi: int)
    ensures
        match least(p, lo, hi) {
            Some(k) => lo <= k < hi && p(k) && forall|j: int| lo <= j < k ==> !#[trigger] p(j),
            None => forall|j: int| lo <= j < hi ==> !#[trigger] p(j),
        },
    decreases hi - lo,
{
    if lo < hi && !p(lo) {
        lemma_least(p, lo + 1, hi);
    }
}

/// Whether the table knows no class for the parameter `parameter`.
pub open spec fn unclassified(rows: Seq<TableRow>, parameter: ParamView) -> bool {
    class_of(rows, parameter.shape, Role::Parameter) == TypeClass::Unknown
}

/// Whether the parameter `parameter` consumes the entire request body.
pub open spec fn consuming(rows: Seq<TableRow>, parameter: ParamView) -> bool {
    takes_body(rows, parameter.shape)
}

/// The predicate "the parameter at this index is unclassified".
pub open spec fn unclassified_at(rows: Seq<TableRow>, parameters: Seq<ParamView>) -> spec_fn(
    int,
) -> bool {
    |i: int| unclassified(rows, parameters[i])
}

/// The predicate "the parameter at this index consumes the request body".
pub open spec fn consuming_at(rows: Seq<TableRow>, parameters: Seq<ParamView>) -> spec_fn(
    int,
) -> bool {
    |i: int| consuming(rows, parameters[i])
}

/// The index of the first parameter that the table knows no class for.
pub open spec fn first_unclassified(rows: Seq<TableRow>, parameters: Seq<ParamView>) -> Option<
    int,
> {
    least(unclassified_at(rows, parameters), 0, parameters.len() as int)
}

/// The index of the first parameter that consumes the request body and does
/// not stand last.
pub open spec fn first_misplaced(rows: Seq<TableRow>, parameters: Seq<ParamView>) -> Option<int> {
    least(consuming_at(rows, parameters), 0, parameters.len() - 1)
}

/// The first unclassified parameter is unclassified, no parameter before it
/// is, and there is none only where every parameter is classified.
pub proof fn lemma_first_unclassified(rows: Seq<TableRow>, parameters: Seq<ParamView>)
    ensures
        match first_unclassified(rows, parameters) {
            Some(k) => 0 <= k < parameters.len() && unclassified(rows, parameters[k])
                && forall|j: int| 0 <= j < k ==> !unclassified(rows, #[trigger] parameters[j]),
            None => forall|j: int|
                0 <= j < parameters.len() ==> !unclassified(rows, #[trigger] parameters[j]),
        },
{
    let p = unclassified_at(rows, parameters);
    lemma_least(p, 0, parameters.len() as int);
    assert forall|j: int| 0 <= j < parameters.len() && !p(j) implies !unclassified(
        rows,
        #[trigger] parameters[j],
    ) by {}
}

/// The first misplaced parameter consumes the request body and does not
/// stand last, no parameter before it consumes the body, and there is none
/// only where no parameter but the last consumes the body.
pub proof fn lemma_first_misplaced(rows: Seq<TableRow>, parameters: Seq<ParamView>)
    ensures
        match first_misplaced(rows, parameters) {
            Some(k) => 0 <= k < parameters.len() - 1 && consuming(rows, parameters[k])
                && forall|j: int| 0 <= j < k ==> !consuming(rows, #[trigger] parameters[j]),
            None => forall|j: int|
                0 <= j < parameters.len() - 1 ==> !consuming(rows, #[trigger] parameters[j]),
        },
{
    let p = consuming_at(rows, parameters);
    lemma_least(p, 0, parameters.len() - 1);
    assert forall|j: int| 0 <= j < parameters.len() - 1 && !p(j) implies !consuming(
        rows,
        #[trigger] parameters[j],
    ) by {}
}

/// An index found by a search, as a mathematical integer.
pub open spec fn index_of(found: Option<usize>) -> Option<int> {
    match found {
        Some(k) => Some(k as int),
        None => None,
    }
}

/// Finds the first parameter that the table knows no class for.
pub fn find_unclassified(table: &TypeTable, model: &SignatureModel) -> (found: Option<usize>)
    ensures
        index_of(found) == first_unclassified(table@, model@.parameters),
        found matches Some(k) ==> k < model@.parameters.len(),
{
    let n: usize = model.parameters.len();
    let ghost p = unclassified_at(table@, model@.parameters);
    let mut i: usize = 0;
    while i < n
        invariant
            i <= n,
            n == model@.parameters.len(),
            p == unclassified_at(table@, model@.parameters),
            least(p, 0, n as int) == least(p, i as int, n as int),
        decreases n - i,
    {
        let class = table.classify(&model.parameters[i].type_ref, Role::Parameter);
        if class == TypeClass::Unknown {
            return Some(i);
        }
        i += 1;
    }
    None
}

/// Finds the first parameter that consumes the request body and does not
/// stand last.
pub fn find_misplaced(table: &TypeTable, model: &SignatureModel) -> (found: Option<usize>)
    ensures
        index_of(found) == first_misplaced(table@, model@.parameters),
        found matches Some(k) ==> k + 1 < model@.parameters.len(),
{
    let n: usize = model.parameters.len();
    if n == 0 {
        return None;
    }
    let ghost p = consuming_at(table@, model@.parameters);
    let mut i: usize = 0;
    while i < n - 1
        invariant
            i <= n - 1,
            n == model@.parameters.len(),
            p == consuming_at(table@, model@.parameters),
            least(p, 0, n - 1) == least(p, i as int, n - 1),
        decreases n - i,
    {
        if table.consumes_body(&model.parameters[i].type_ref) {
            return Some(i);
        }
        i += 1;
    }
    None
}

/// The rules in the order in which they are consulted: a rule that stands
/// earlier is reported in preference to one that stands later.
pub open spec fn rule_order() -> Seq<RuleId> {
    seq![
        RuleId::Asynchrony,
        RuleId::ParameterClassification,
        RuleId::BodyExtractorOrdering,
        RuleId::ReturnType,
    ]
}

/// The rule set, in the order in which the rules are consulted.
pub fn rule_set() -> (rules: Vec<RuleId>)
    ensures
        rules@ == rule_order(),
{
    let mut rules: Vec<RuleId> = Vec::new();
    rules.push(RuleId::Asynchrony);
    rules.push(RuleId::ParameterClassification);
    rules.push(RuleId::BodyExtractorOrdering);
    rules.push(RuleId::ReturnType);
    assert(rules@ =~= rule_order());
    rules
}

impl RuleId {
    /// The rule's place in the order of consultation, counted from zero.
    pub open spec fn priority(self) -> nat {
        match self {
            RuleId::Asynchrony => 0,
            RuleId::ParameterClassification => 1,
            RuleId::BodyExtractorOrdering => 2,
            RuleId::ReturnType => 3,
        }
    }

    /// Whether the signature `model` satisfies this rule.
    pub open spec fn holds(self, rows: Seq<TableRow>, model: SignatureView) -> bool {
        match self {
            RuleId::Asynchrony => model.is_async,
            RuleId::ParameterClassification => forall|i: int|
                0 <= i < model.parameters.len() ==> !unclassified(
                    rows,
                    #[trigger] model.parameters[i],
                ),
            RuleId::BodyExtractorOrdering => forall|i: int|
                0 <= i < model.parameters.len() - 1 ==> !consuming(
                    rows,
                    #[trigger] model.parameters[i],
                ),
            RuleId::ReturnType => match model.return_type {
                Some(written) => class_of(rows, written.shape, Role::Return)
                    == TypeClass::KnownResponseType,
                None => true,
            },
        }
    }

    /// The place at which a violation of this rule is reported: the start of
    /// the signature for asynchrony, the first offending parameter for the
    /// two parameter rules, and the written return type for the last rule.
    /// Where a rule has no offender to point at, the parameter rules give
    /// the whole signature and the return rule gives the signature's end.
    pub open spec fn violation_span(self, rows: Seq<TableRow>, model: SignatureView) -> SourceSpan {
        match self {
            RuleId::Asynchrony => model.span.head(),
            RuleId::ParameterClassification => match first_unclassified(rows, model.parameters) {
                Some(k) => model.parameters[k].span,
                None => model.span,
            },
            RuleId::BodyExtractorOrdering => match first_misplaced(rows, model.parameters) {
                Some(k) => model.parameters[k].span,
                None => model.span,
            },
            RuleId::ReturnType => match model.return_type {
                Some(written) => written.span,
                None => model.span.tail(),
            },
        }
    }

    /// The words of this rule's message that stand before the offending
    /// type's name.
    pub open spec fn words_before(self) -> Seq<char> {
        match self {
            RuleId::Asynchrony => "handlers must be async functions"@,
            RuleId::ParameterClassification => "`"@,
            RuleId::BodyExtractorOrdering => "`"@,
            RuleId::ReturnType => "`"@,
        }
    }

    /// The words of this rule's message that stand after the offending
    /// type's name.
    pub open spec fn words_after(self) -> Seq<char> {
        match self {
            RuleId::Asynchrony => ""@,
            RuleId::ParameterClassification => "` is not a recognized extractor or special argument"@,
            RuleId::BodyExtractorOrdering => "` consumes the request body and must be the last argument"@,
            RuleId::ReturnType => "` is not a recognized response type"@,
        }
    }

    /// The name that this rule's message speaks of: none for asynchrony, the
    /// first offending parameter's type for the parameter rules, and the
    /// return type, `()` where none is written, for the last rule.
    pub open spec fn subject(self, rows: Seq<TableRow>, model: SignatureView) -> Seq<char> {
        match self {
            RuleId::Asynchrony => Seq::<char>::empty(),
            RuleId::ParameterClassification => match first_unclassified(rows, model.parameters) {
                Some(k) => model.parameters[k].shape.name,
                None => Seq::<char>::empty(),
            },
            RuleId::BodyExtractorOrdering => match first_misplaced(rows, model.parameters) {
                Some(k) => model.parameters[k].shape.name,
                None => Seq::<char>::empty(),
            },
            RuleId::ReturnType => match model.return_type {
                Some(written) => written.shape.name,
                None => "()"@,
            },
        }
    }

    /// This rule's message for `model`: the template with the subject in it.
    pub open spec fn rendered(self, rows: Seq<TableRow>, model: SignatureView) -> Seq<char> {
        self.words_before() + self.subject(rows, model) + self.words_after()
    }

    /// The rule's place in the order of consultation, counted from zero.
    pub fn rank(&self) -> (rank: u8)
        ensures
            rank == self.priority(),
    {
        match self {
            RuleId::Asynchrony => 0,
            RuleId::ParameterClassification => 1,
            RuleId::BodyExtractorOrdering => 2,
            RuleId::ReturnType => 3,
        }
    }

    /// Evaluates this rule on `model`.
    pub fn evaluate(&self, table: &TypeTable, model: &SignatureModel) -> (holds: bool)
        ensures
            holds == self.holds(table@, model@),
    {
        match self {
            RuleId::Asynchrony => model.is_async,
            RuleId::ParameterClassification => {
                let found = find_unclassified(table, model);
                proof {
                    lemma_first_unclassified(table@, model@.parameters);
                }
                found.is_none()
            },
            RuleId::BodyExtractorOrdering => {
                let found = find_misplaced(table, model);
                proof {
                    lemma_first_misplaced(table@, model@.parameters);
                }
                found.is_none()
            },
            RuleId::ReturnType => match &model.return_type {
                Some(written) => table.classify(&written.type_ref, Role::Return)
                    == TypeClass::KnownResponseType,
                None => true,
            },
        }
    }

    /// The place at which a violation of this rule is reported.
    pub fn locate(&self, table: &TypeTable, model: &SignatureModel) -> (span: SourceSpan)
        ensures
            span == self.violation_span(table@, model@),
    {
        match self {
            RuleId::Asynchrony => model.span.start_point(),
            RuleId::ParameterClassification => match find_unclassified(table, model) {
                Some(k) => model.parameters[k].span,
                None => model.span,
            },
            RuleId::BodyExtractorOrdering => match find_misplaced(table, model) {
                Some(k) => model.parameters[k].span,
                None => model.span,
            },
            RuleId::ReturnType => match &model.return_type {
                Some(written) => written.span,
                None => model.span.end_point(),
            },
        }
    }

    /// The words of this rule's message.
    pub fn message_template(&self) -> (template: MessageTemplate)
        ensures
            template.before@ == self.words_before(),
            template.after@ == self.words_after(),
    {
        match self {
            RuleId::Asynchrony => MessageTemplate {
                before: "handlers must be async functions",
                after: "",
            },
            RuleId::ParameterClassification => MessageTemplate {
                before: "`",
                after: "` is not a recognized extractor or special argument",
            },
            RuleId::BodyExtractorOrdering => MessageTemplate {
                before: "`",
                after: "` consumes the request body and must be the last argument",
            },
            RuleId::ReturnType => MessageTemplate {
                before: "`",
                after: "` is not a recognized response type",
            },
        }
    }

    /// Renders this rule's message for `model`.
    pub fn render(&self, table: &TypeTable, model: &SignatureModel) -> (message: String)
        ensures
            message@ == self.rendered(table@, model@),
    {
        let template = self.message_template();
        let mut message = String::from_str(template.before);
        match self {
            RuleId::Asynchrony => {},
            RuleId::ParameterClassification => match find_unclassified(table, model) {
                Some(k) => message.append(model.parameters[k].type_ref.name.as_str()),
                None => {},
            },
            RuleId::BodyExtractorOrdering => match find_misplaced(table, model) {
                Some(k) => message.append(model.parameters[k].type_ref.name.as_str()),
                None => {},
            },
            RuleId::ReturnType => match &model.return_type {
                Some(written) => message.append(written.type_ref.name.as_str()),
                None => message.append("()"),
            },
        }
        assert(message@ =~= self.words_before() + self.subject(table@, model@));
        message.append(template.after);
        message
    }
}

} // verus!

use axum_debug::rules::{find_misplaced, find_unclassified};
use axum_debug::{
    select, Diagnostic, ParamInfo, Position, ReturnInfo, RuleId, SignatureModel, SourceSpan,
    TypeRef, TypeTable,
};

fn span(from: usize, to: usize) -> SourceSpan {
    SourceSpan::on_line(1, from, to)
}

fn param(type_ref: TypeRef, position: usize, from: usize, to: usize) -> ParamInfo {
    ParamInfo { type_ref, position, span: span(from, to) }
}

fn returning(type_ref: TypeRef, from: usize, to: usize) -> Option<ReturnInfo> {
    Some(ReturnInfo { type_ref, span: span(from, to) })
}

fn handler(
    is_async: bool,
    parameters: Vec<ParamInfo>,
    return_type: Option<ReturnInfo>,
) -> SignatureModel {
    SignatureModel { is_async, parameters, return_type, span: span(0, 60) }
}

fn static_str() -> TypeRef {
    TypeRef::named("str").behind_shared()
}

fn path_of_u32() -> TypeRef {
    TypeRef::generic("Path", vec![TypeRef::named("u32")])
}

fn json_of_value() -> TypeRef {
    TypeRef::generic("Json", vec![TypeRef::named("Value")])
}

fn diagnostic(rule: RuleId, message: &str, span: SourceSpan) -> Option<Diagnostic> {
    Some(Diagnostic { rule_identifier: rule, rendered_message: message.to_string(), span })
}

#[test]
fn sync_handler_returning_str_is_reported_as_not_async() {
    // fn handler() -> &'static str { "Hello, world" }
    let model = handler(false, vec![], returning(static_str(), 16, 28));
    let selected = select(&TypeTable::standard(), &model);
    assert_eq!(
        selected,
        diagnostic(RuleId::Asynchrony, "handlers must be async functions", span(0, 0))
    );
}

#[test]
fn async_handler_returning_bool_passes() {
    // async fn handler() -> bool { false }
    let model = handler(true, vec![], returning(TypeRef::named("bool"), 22, 26));
    assert_eq!(select(&TypeTable::standard(), &model), None);
}

#[test]
fn async_handler_taking_string_returning_str_passes() {
    // async fn handler(a: String) -> &'static str
    let model = handler(
        true,
        vec![param(TypeRef::named("String"), 0, 17, 26)],
        returning(static_str(), 31, 43),
    );
    assert_eq!(select(&TypeTable::standard(), &model), None);
}

#[test]
fn empty_async_handler_passes() {
    // async fn empty() {}
    let model = handler(true, vec![], None);
    assert_eq!(select(&TypeTable::standard(), &model), None);
}

#[test]
fn async_handler_with_return_passes() {
    // async fn with_return() -> &'static str { "" }
    let model = handler(true, vec![], returning(static_str(), 27, 39));
    assert_eq!(select(&TypeTable::standard(), &model), None);
}

#[test]
fn async_handler_with_extractor_passes() {
    // async fn extractors(_a: String) {}
    let model = handler(true, vec![param(TypeRef::named("String"), 0, 20, 30)], None);
    assert_eq!(select(&TypeTable::standard(), &model), None);
}

#[test]
fn async_handler_with_extractor_and_return_passes() {
    // async fn extractors_return(_a: String) -> &'static str { "" }
    let model = handler(
        true,
        vec![param(TypeRef::named("String"), 0, 27, 37)],
        returning(static_str(), 42, 54),
    );
    assert_eq!(select(&TypeTable::standard(), &model), None);
}

#[test]
fn explicit_unit_return_passes() {
    let model = handler(true, vec![], returning(TypeRef::unit(), 20, 22));
    assert_eq!(select(&TypeTable::standard(), &model), None);
}

#[test]
fn asynchrony_is_reported_before_every_other_defect() {
    let model = handler(
        false,
        vec![
            param(TypeRef::named("String"), 0, 10, 19),
            param(TypeRef::named("Mystery"), 1, 21, 31),
            param(json_of_value(), 2, 33, 50),
        ],
        returning(TypeRef::named("Unheard"), 55, 62),
    );
    let table = TypeTable::standard();
    assert!(!RuleId::ParameterClassification.evaluate(&table, &model));
    assert!(!RuleId::BodyExtractorOrdering.evaluate(&table, &model));
    assert!(!RuleId::ReturnType.evaluate(&table, &model));
    assert_eq!(
        select(&table, &model),
        diagnostic(RuleId::Asynchrony, "handlers must be async functions", span(0, 0))
    );
}

#[test]
fn unknown_parameter_is_reported_at_the_first_one() {
    let model = handler(
        true,
        vec![
            param(path_of_u32(), 0, 10, 22),
            param(TypeRef::named("Mystery"), 1, 24, 34),
            param(TypeRef::named("Puzzle"), 2, 36, 45),
        ],
        None,
    );
    assert_eq!(
        select(&TypeTable::standard(), &model),
        diagnostic(
            RuleId::ParameterClassification,
            "`Mystery` is not a recognized extractor or special argument",
            span(24, 34),
        )
    );
}

#[test]
fn response_type_is_no_parameter() {
    // `bool` can be returned, but nothing extracts it from a request.
    let model = handler(true, vec![param(TypeRef::named("bool"), 0, 10, 17)], None);
    assert_eq!(
        select(&TypeTable::standard(), &model),
        diagnostic(
            RuleId::ParameterClassification,
            "`bool` is not a recognized extractor or special argument",
            span(10, 17),
        )
    );
}

#[test]
fn referenced_extractor_is_no_parameter() {
    let model =
        handler(true, vec![param(TypeRef::named("String").behind_shared(), 0, 10, 20)], None);
    let selected = select(&TypeTable::standard(), &model);
    assert_eq!(selected.map(|d| d.rule_identifier), Some(RuleId::ParameterClassification));
    let model =
        handler(true, vec![param(TypeRef::named("String").behind_exclusive(), 0, 10, 24)], None);
    let selected = select(&TypeTable::standard(), &model);
    assert_eq!(selected.map(|d| d.rule_identifier), Some(RuleId::ParameterClassification));
}

#[test]
fn body_extractor_before_the_last_parameter_is_reported() {
    let model = handler(
        true,
        vec![param(TypeRef::named("String"), 0, 10, 19), param(path_of_u32(), 1, 21, 33)],
        None,
    );
    assert_eq!(
        select(&TypeTable::standard(), &model),
        diagnostic(
            RuleId::BodyExtractorOrdering,
            "`String` consumes the request body and must be the last argument",
            span(10, 19),
        )
    );
}

#[test]
fn body_extractor_is_reported_whatever_follows_it() {
    // A second misplaced body extractor and an unrecognized return type
    // follow; the first misplaced parameter is the one reported.
    let model = handler(
        true,
        vec![
            param(path_of_u32(), 0, 10, 22),
            param(json_of_value(), 1, 24, 41),
            param(TypeRef::named("Bytes"), 2, 43, 51),
            param(TypeRef::named("String"), 3, 53, 62),
        ],
        returning(TypeRef::named("Unheard"), 67, 74),
    );
    assert_eq!(
        select(&TypeTable::standard(), &model),
        diagnostic(
            RuleId::BodyExtractorOrdering,
            "`Json` consumes the request body and must be the last argument",
            span(24, 41),
        )
    );
}

#[test]
fn body_extractor_rule_alone_flags_the_parameter_before_an_unknown_one() {
    let model = handler(
        true,
        vec![param(TypeRef::named("String"), 0, 10, 19), param(TypeRef::named("Mystery"), 1, 21, 31)],
        None,
    );
    let table = TypeTable::standard();
    let rule = RuleId::BodyExtractorOrdering;
    assert!(!rule.evaluate(&table, &model));
    assert_eq!(rule.locate(&table, &model), span(10, 19));
    // The selector consults the parameter classes first.
    assert_eq!(
        select(&table, &model),
        diagnostic(
            RuleId::ParameterClassification,
            "`Mystery` is not a recognized extractor or special argument",
            span(21, 31),
        )
    );
}

#[test]
fn body_extractor_in_last_place_passes() {
    let model = handler(
        true,
        vec![
            param(TypeRef::named("Method"), 0, 10, 19),
            param(path_of_u32(), 1, 21, 33),
            param(json_of_value(), 2, 35, 52),
        ],
        returning(TypeRef::named("String"), 57, 63),
    );
    assert_eq!(select(&TypeTable::standard(), &model), None);
}

#[test]
fn single_body_extractor_passes() {
    let model = handler(true, vec![param(TypeRef::named("Bytes"), 0, 10, 18)], None);
    let table = TypeTable::standard();
    assert!(RuleId::BodyExtractorOrdering.evaluate(&table, &model));
    assert_eq!(select(&table, &model), None);
}

#[test]
fn unrecognized_return_type_is_reported() {
    let model = handler(true, vec![], returning(TypeRef::named("Unheard"), 22, 29));
    assert_eq!(
        select(&TypeTable::standard(), &model),
        diagnostic(
            RuleId::ReturnType,
            "`Unheard` is not a recognized response type",
            span(22, 29),
        )
    );
}

#[test]
fn extractor_is_no_return_type() {
    let model = handler(true, vec![], returning(path_of_u32(), 22, 31));
    assert_eq!(
        select(&TypeTable::standard(), &model),
        diagnostic(RuleId::ReturnType, "`Path` is not a recognized response type", span(22, 31))
    );
}

#[test]
fn owned_str_is_no_return_type() {
    let model = handler(true, vec![], returning(TypeRef::named("str"), 22, 25));
    let selected = select(&TypeTable::standard(), &model);
    assert_eq!(selected.map(|d| d.rule_identifier), Some(RuleId::ReturnType));
}

#[test]
fn registered_type_is_accepted_as_return_type() {
    let model = handler(true, vec![], returning(TypeRef::named("Unheard"), 22, 29));
    let mut table = TypeTable::standard();
    table.register(
        "Unheard",
        axum_debug::Ownership::Owned,
        0,
        axum_debug::Recognition::ResponseType,
    );
    assert_eq!(select(&table, &model), None);
}

#[test]
fn selecting_twice_gives_the_same() {
    let table = TypeTable::standard();
    let models = vec![
        handler(false, vec![], None),
        handler(true, vec![param(TypeRef::named("Mystery"), 0, 10, 20)], None),
        handler(
            true,
            vec![param(TypeRef::named("String"), 0, 10, 19), param(path_of_u32(), 1, 21, 33)],
            None,
        ),
        handler(true, vec![], returning(TypeRef::named("Unheard"), 22, 29)),
        handler(true, vec![], None),
    ];
    for model in &models {
        assert_eq!(select(&table, model), select(&table, model));
    }
}

#[test]
fn each_rule_is_evaluated_by_itself() {
    let table = TypeTable::standard();
    // Only the return type is wrong, and the handler is not async.
    let model = handler(
        false,
        vec![param(path_of_u32(), 0, 10, 22)],
        returning(TypeRef::named("Unheard"), 30, 37),
    );
    assert!(!RuleId::Asynchrony.evaluate(&table, &model));
    assert!(RuleId::ParameterClassification.evaluate(&table, &model));
    assert!(RuleId::BodyExtractorOrdering.evaluate(&table, &model));
    assert!(!RuleId::ReturnType.evaluate(&table, &model));
}

#[test]
fn rules_point_where_they_say() {
    let table = TypeTable::standard();
    let model = SignatureModel {
        is_async: true,
        parameters: vec![param(path_of_u32(), 0, 10, 22)],
        return_type: None,
        span: SourceSpan {
            start: Position { line: 4, column: 2 },
            end: Position { line: 6, column: 9 },
        },
    };
    let start = SourceSpan {
        start: Position { line: 4, column: 2 },
        end: Position { line: 4, column: 2 },
    };
    let end = SourceSpan {
        start: Position { line: 6, column: 9 },
        end: Position { line: 6, column: 9 },
    };
    assert_eq!(RuleId::Asynchrony.locate(&table, &model), start);
    assert_eq!(RuleId::ParameterClassification.locate(&table, &model), model.span);
    assert_eq!(RuleId::BodyExtractorOrdering.locate(&table, &model), model.span);
    assert_eq!(RuleId::ReturnType.locate(&table, &model), end);
    assert_eq!(model.span.start_point(), start);
    assert_eq!(model.span.end_point(), end);
}

#[test]
fn rule_set_is_in_order_of_priority() {
    let rules = axum_debug::rule_set();
    assert_eq!(
        rules,
        vec![
            RuleId::Asynchrony,
            RuleId::ParameterClassification,
            RuleId::BodyExtractorOrdering,
            RuleId::ReturnType,
        ]
    );
    let ranks: Vec<u8> = rules.iter().map(|rule| rule.rank()).collect();
    assert_eq!(ranks, vec![0, 1, 2, 3]);
}

#[test]
fn message_templates_surround_the_subject() {
    let template = RuleId::Asynchrony.message_template();
    assert_eq!(template.before, "handlers must be async functions");
    assert_eq!(template.after, "");
    let template = RuleId::ReturnType.message_template();
    assert_eq!(template.before, "`");
    assert_eq!(template.after, "` is not a recognized response type");
    let table = TypeTable::new();
    let model = handler(true, vec![], None);
    assert_eq!(RuleId::ReturnType.render(&table, &model), "`()` is not a recognized response type");
    assert_eq!(RuleId::Asynchrony.render(&table, &model), "handlers must be async functions");
    assert_eq!(
        RuleId::ParameterClassification.render(&table, &model),
        "`` is not a recognized extractor or special argument"
    );
}

#[test]
fn empty_table_recognizes_no_written_type() {
    let table = TypeTable::new();
    let model = handler(true, vec![], returning(TypeRef::named("bool"), 22, 26));
    let selected = select(&table, &model);
    assert_eq!(selected.map(|d| d.rule_identifier), Some(RuleId::ReturnType));
    let model = handler(true, vec![], None);
    assert_eq!(select(&table, &model), None);
}

#[test]
fn searches_find_the_first_offender() {
    let table = TypeTable::standard();
    let model = handler(
        true,
        vec![
            param(path_of_u32(), 0, 10, 22),
            param(TypeRef::named("Bytes"), 1, 24, 32),
            param(TypeRef::named("Mystery"), 2, 34, 44),
            param(TypeRef::named("String"), 3, 46, 55),
            param(TypeRef::named("Puzzle"), 4, 57, 66),
            param(json_of_value(), 5, 68, 85),
        ],
        None,
    );
    assert_eq!(find_unclassified(&table, &model), Some(2));
    assert_eq!(find_misplaced(&table, &model), Some(1));
}

#[test]
fn searches_find_nothing_where_nothing_offends() {
    let table = TypeTable::standard();
    let model = handler(true, vec![], None);
    assert_eq!(find_unclassified(&table, &model), None);
    assert_eq!(find_misplaced(&table, &model), None);
    let model = handler(
        true,
        vec![param(path_of_u32(), 0, 10, 22), param(json_of_value(), 1, 24, 41)],
        None,
    );
    assert_eq!(find_unclassified(&table, &model), None);
    assert_eq!(find_misplaced(&table, &model), None);
}

#[test]
fn last_parameter_is_never_misplaced() {
    let table = TypeTable::standard();
    let model = handler(
        true,
        vec![param(TypeRef::named("Mystery"), 0, 10, 20), param(TypeRef::named("String"), 1, 22, 31)],
        None,
    );
    assert_eq!(find_misplaced(&table, &model), None);
    assert_eq!(find_unclassified(&table, &model), Some(0));
}

#[test]
fn span_on_one_line_holds_its_columns() {
    assert_eq!(
        SourceSpan::on_line(9, 3, 14),
        SourceSpan {
            start: Position { line: 9, column: 3 },
            end: Position { line: 9, column: 14 },
        }
    );
}

use swc_class_decorator::metadata::{class_method, string_array, symbol_for, CTOR_ARGS, CTOR_NAME};
use swc_class_decorator::syntax::{
    BindingIdent, CallExpr, Class, ClassDecl, ClassExpr, ClassMember, ClassMethod, Constructor,
    Expr, Member, MemberExpr, MethodKind, Node, Param, ParamOrTsParamProp, Pat, PropName, Stmt,
    TsEntityName, TsParamProp, TsParamPropParam, TsType, TsTypeRef,
};
use swc_class_decorator::{Config, LogLevel, Report, TransformVisitor};

fn named(name: &str) -> Option<TsType> {
    Some(TsType::TypeRef(TsTypeRef {
        name: TsEntityName::Ident(name.to_string()),
        type_params: None,
    }))
}

fn plain(sym: &str, type_ann: Option<TsType>) -> ParamOrTsParamProp {
    ParamOrTsParamProp::Param(Param {
        pat: Pat::Ident(BindingIdent { sym: sym.to_string(), type_ann }),
    })
}

fn promoted(sym: &str, type_ann: Option<TsType>) -> ParamOrTsParamProp {
    ParamOrTsParamProp::TsParamProp(TsParamProp {
        readonly: true,
        param: TsParamPropParam::Ident(BindingIdent { sym: sym.to_string(), type_ann }),
    })
}

fn constructor(params: Vec<ParamOrTsParamProp>) -> ClassMember {
    ClassMember::Constructor(Constructor { params, body: vec![] })
}

fn method(key: &str, children: Vec<Node>) -> ClassMember {
    ClassMember::Other(Member { key: key.to_string(), children })
}

fn strings(items: &[&str]) -> Vec<String> {
    items.iter().map(|item| item.to_string()).collect()
}

fn symbol_key(name: &str) -> PropName {
    PropName::Computed(Expr::Call(CallExpr {
        callee: Box::new(Expr::Member(MemberExpr {
            obj: Box::new(Expr::Ident("Symbol".to_string())),
            prop: "for".to_string(),
        })),
        args: vec![Expr::Str(name.to_string())],
    }))
}

fn static_getter(symbol: &str, returned: Expr) -> ClassMethod {
    ClassMethod {
        key: symbol_key(symbol),
        kind: MethodKind::Getter,
        is_static: true,
        body: vec![Stmt::Return(returned)],
    }
}

fn args_member(types: &[&str]) -> ClassMember {
    let literals = types.iter().map(|name| Expr::Str(name.to_string())).collect();
    ClassMember::Method(static_getter("___CTOR_ARGS___", Expr::Array(literals)))
}

fn name_member(name: &str) -> ClassMember {
    ClassMember::Method(static_getter("___CTOR_NAME___", Expr::Str(name.to_string())))
}

fn visitor(log: LogLevel) -> TransformVisitor {
    TransformVisitor { config: Config { log } }
}

/// class Sample {
///     constructor(private readonly api: SampleApi) {}
///     sayHello(name: string) { return this.api.sample(name); }
/// }
fn sample_body() -> Vec<ClassMember> {
    vec![constructor(vec![promoted("api", named("SampleApi"))]), method("sayHello", vec![])]
}

#[test]
fn symbol_keys_are_the_fixed_names() {
    assert_eq!(CTOR_ARGS, "___CTOR_ARGS___");
    assert_eq!(CTOR_NAME, "___CTOR_NAME___");
}

#[test]
fn class_method_builds_a_static_symbol_keyed_accessor() {
    let method = class_method("registry-key", vec![Stmt::Return(Expr::Str("value".to_string()))]);
    assert_eq!(method, static_getter("registry-key", Expr::Str("value".to_string())));
    assert_eq!(method.key, symbol_key("registry-key"));
    assert_eq!(method.kind, MethodKind::Getter);
    assert!(method.is_static);

    let bare = class_method(CTOR_NAME, vec![]);
    assert_eq!(bare.key, symbol_key("___CTOR_NAME___"));
    assert_eq!(bare.body, vec![]);
}

#[test]
fn string_array_keeps_items_in_order() {
    assert_eq!(
        string_array(&strings(&["A", "B", "A"])),
        Expr::Array(vec![
            Expr::Str("A".to_string()),
            Expr::Str("B".to_string()),
            Expr::Str("A".to_string()),
        ])
    );
    assert_eq!(string_array(&vec![]), Expr::Array(vec![]));
}

#[test]
fn sample_class_gains_type_list_and_name() {
    let mut class = Class { body: sample_body() };
    let found =
        visitor(LogLevel::Off).process_class(&mut class, Some("Sample".to_string()), LogLevel::Off);
    assert_eq!(found, None);
    assert_eq!(class.body.len(), 4);
    assert_eq!(class.body[0], sample_body().remove(0));
    assert_eq!(class.body[1], method("sayHello", vec![]));
    assert_eq!(class.body[2], args_member(&["SampleApi"]));
    assert_eq!(class.body[3], name_member("Sample"));
}

#[test]
fn empty_class_gains_empty_list_and_name() {
    let mut class = Class { body: vec![] };
    visitor(LogLevel::Off).process_class(&mut class, Some("Empty".to_string()), LogLevel::Off);
    assert_eq!(class.body, vec![args_member(&[]), name_member("Empty")]);
}

#[test]
fn class_without_constructor_gains_empty_list() {
    let mut class = Class { body: vec![method("run", vec![]), method("stop", vec![])] };
    visitor(LogLevel::Off).process_class(&mut class, Some("Worker".to_string()), LogLevel::Off);
    assert_eq!(
        class.body,
        vec![
            method("run", vec![]),
            method("stop", vec![]),
            args_member(&[]),
            name_member("Worker"),
        ]
    );
}

#[test]
fn members_are_appended_in_fixed_order_behind_existing_ones() {
    let mut class = Class {
        body: vec![
            method("before", vec![]),
            constructor(vec![plain("a", named("Foo")), plain("b", None), plain("c", named("Bar"))]),
            method("after", vec![]),
        ],
    };
    visitor(LogLevel::Off).process_class(&mut class, Some("Ordered".to_string()), LogLevel::Off);
    assert_eq!(class.body.len(), 5);
    assert_eq!(class.body[0], method("before", vec![]));
    assert_eq!(class.body[2], method("after", vec![]));
    assert_eq!(class.body[3], args_member(&["Foo", "Bar"]));
    assert_eq!(class.body[4], name_member("Ordered"));
}

#[test]
fn anonymous_class_is_left_untouched() {
    let mut class = Class { body: sample_body() };
    let found = visitor(LogLevel::Debug).process_class(&mut class, None, LogLevel::Debug);
    assert_eq!(found, None);
    assert_eq!(class, Class { body: sample_body() });
}

#[test]
fn processing_twice_gives_four_synthesized_members() {
    let mut class = Class { body: sample_body() };
    let pass = visitor(LogLevel::Off);
    pass.process_class(&mut class, Some("Sample".to_string()), LogLevel::Off);
    pass.process_class(&mut class, Some("Sample".to_string()), LogLevel::Off);
    let mut expected = sample_body();
    expected.push(args_member(&["SampleApi"]));
    expected.push(name_member("Sample"));
    expected.push(args_member(&["SampleApi"]));
    expected.push(name_member("Sample"));
    assert_eq!(class.body, expected);
    let synthesized =
        class.body.iter().filter(|member| matches!(member, ClassMember::Method(_))).count();
    assert_eq!(synthesized, 4);
}

#[test]
fn only_the_first_constructor_is_read() {
    let mut class = Class {
        body: vec![
            constructor(vec![plain("a", named("Foo"))]),
            constructor(vec![plain("b", named("Bar"))]),
        ],
    };
    visitor(LogLevel::Off).process_class(&mut class, Some("Twice".to_string()), LogLevel::Off);
    assert_eq!(class.body[2], args_member(&["Foo"]));
}

#[test]
fn report_follows_the_level_passed_in() {
    let pass = visitor(LogLevel::Off);
    let mut class = Class { body: sample_body() };
    let info = pass.process_class(&mut class, Some("Sample".to_string()), LogLevel::Info);
    assert_eq!(
        info,
        Some(Report {
            with_dump: false,
            class_name: "Sample".to_string(),
            ctor_args: strings(&["SampleApi"]),
        })
    );
    let mut class = Class { body: sample_body() };
    let debug = pass.process_class(&mut class, Some("Sample".to_string()), LogLevel::Debug);
    assert_eq!(
        debug,
        Some(Report {
            with_dump: true,
            class_name: "Sample".to_string(),
            ctor_args: strings(&["SampleApi"]),
        })
    );
}

#[test]
fn class_declaration_is_processed_under_its_name() {
    let mut decl = ClassDecl { ident: "Sample".to_string(), class: Class { body: sample_body() } };
    let found = visitor(LogLevel::Info).visit_mut_class_decl(&mut decl);
    assert_eq!(decl.ident, "Sample");
    assert_eq!(decl.class.body.len(), 4);
    assert_eq!(decl.class.body[2], args_member(&["SampleApi"]));
    assert_eq!(decl.class.body[3], name_member("Sample"));
    assert_eq!(found.map(|report| report.line()), Some(
        "swc-class-decorator-plugin - Processing class : Sample, found constructor arguments : [SampleApi]"
            .to_string()
    ));
}

#[test]
fn named_class_expression_is_processed_under_its_name() {
    let mut expr =
        ClassExpr { ident: Some("Inner".to_string()), class: Class { body: vec![] } };
    let found = visitor(LogLevel::Off).visit_mut_class_expr(&mut expr);
    assert_eq!(found, None);
    assert_eq!(expr.ident, Some("Inner".to_string()));
    assert_eq!(expr.class.body, vec![args_member(&[]), name_member("Inner")]);
}

#[test]
fn anonymous_class_expression_is_unchanged() {
    // const X = class { constructor(a: Foo) {} }
    let build = || ClassExpr {
        ident: None,
        class: Class { body: vec![constructor(vec![plain("a", named("Foo"))])] },
    };
    let mut expr = build();
    let found = visitor(LogLevel::Debug).visit_mut_class_expr(&mut expr);
    assert_eq!(found, None);
    assert_eq!(expr, build());
}

#[test]
fn symbol_key_is_a_lookup_in_the_global_registry() {
    assert_eq!(symbol_for("___CTOR_ARGS___"), symbol_key("___CTOR_ARGS___"));
    assert_eq!(
        symbol_for(""),
        PropName::Computed(Expr::Call(CallExpr {
            callee: Box::new(Expr::Member(MemberExpr {
                obj: Box::new(Expr::Ident("Symbol".to_string())),
                prop: "for".to_string(),
            })),
            args: vec![Expr::Str(String::new())],
        }))
    );
}

use treeshake_events::{
    default_jsxs, default_matches, process_transform, Expr, Id, ImportNamedSpecifier, Module,
    ModuleExportName, ModuleItem, Pattern, PropEntry, PropForm, PropKey, TreeshakeEventsConfig,
    TreeshakeEventsVisitor,
};

fn id(name: &str, ctxt: u32) -> Id {
    Id { sym: name.to_string(), ctxt }
}

fn ident(name: &str, ctxt: u32) -> Expr {
    Expr::Ident(id(name, ctxt))
}

fn string(s: &str) -> Expr {
    Expr::Str(s.to_string())
}

/// `() => f(n)`
fn handler(n: u64) -> Expr {
    Expr::Other(vec![Expr::Call(Box::new(ident("f", 0)), vec![Expr::Num(n)])])
}

fn kv(key: &str, value: Expr) -> PropEntry {
    PropEntry { form: PropForm::KeyValue, key: PropKey::Ident(key.to_string()), children: vec![value] }
}

fn method(key: &str, body: Expr) -> PropEntry {
    PropEntry { form: PropForm::Method, key: PropKey::Ident(key.to_string()), children: vec![body] }
}

fn call(callee: Expr, tag: Expr, props: Vec<PropEntry>) -> Expr {
    Expr::Call(Box::new(callee), vec![tag, Expr::Object(props)])
}

fn import(imported: Option<&str>, local: &str) -> ModuleItem {
    ModuleItem::Import(vec![ImportNamedSpecifier {
        local: id(local, 1),
        imported: imported.map(|s| ModuleExportName::Ident(s.to_string())),
    }])
}

fn module(body: Vec<ModuleItem>) -> Module {
    Module { body }
}

fn run(m: Module) -> Module {
    process_transform(m, TreeshakeEventsConfig::default()).ok().unwrap()
}

fn same(a: &Module, b: &Module) -> bool {
    format!("{:?}", a) == format!("{:?}", b)
}

#[test]
fn should_remove_events() {
    let input = module(vec![
        import(None, "jsx"),
        ModuleItem::Stmt(call(ident("jsx", 1), string("div"), vec![kv("onClick", handler(23333))])),
    ]);
    let expected = module(vec![
        import(None, "jsx"),
        ModuleItem::Stmt(call(ident("jsx", 1), string("div"), vec![])),
    ]);
    assert!(same(&run(input), &expected));
}

#[test]
fn should_remove_events_in_method() {
    let input = module(vec![
        import(None, "jsx"),
        ModuleItem::Stmt(call(ident("jsx", 1), string("div"), vec![method("onClick", handler(23333))])),
    ]);
    let expected = module(vec![
        import(None, "jsx"),
        ModuleItem::Stmt(call(ident("jsx", 1), string("div"), vec![])),
    ]);
    assert!(same(&run(input), &expected));
}

#[test]
fn should_remove_events_rename() {
    let input = module(vec![
        import(Some("jsx"), "_jsx"),
        ModuleItem::Stmt(call(ident("_jsx", 1), string("div"), vec![kv("onClick", handler(23333))])),
    ]);
    let expected = module(vec![
        import(Some("jsx"), "_jsx"),
        ModuleItem::Stmt(call(ident("_jsx", 1), string("div"), vec![])),
    ]);
    assert!(same(&run(input), &expected));
}

#[test]
fn should_not_effect_normal_function() {
    let input = module(vec![
        import(Some("jsx"), "_jsx"),
        ModuleItem::Stmt(call(ident("jsx", 0), string("div"), vec![kv("onClick", handler(114514))])),
        ModuleItem::Stmt(call(ident("_jsx", 1), string("div"), vec![kv("onClick", handler(1919810))])),
    ]);
    let expected = module(vec![
        import(Some("jsx"), "_jsx"),
        ModuleItem::Stmt(call(ident("jsx", 0), string("div"), vec![kv("onClick", handler(114514))])),
        ModuleItem::Stmt(call(ident("_jsx", 1), string("div"), vec![])),
    ]);
    assert!(same(&run(input), &expected));
}

#[test]
fn should_not_effect_non_intristic_elements() {
    let input = module(vec![
        import(Some("jsx"), "_jsx"),
        ModuleItem::Stmt(call(ident("_jsx", 1), string("div"), vec![kv("onClick", handler(1919810))])),
        ModuleItem::Stmt(call(ident("_jsx", 1), ident("App", 1), vec![kv("onClick", handler(114514))])),
    ]);
    let expected = module(vec![
        import(Some("jsx"), "_jsx"),
        ModuleItem::Stmt(call(ident("_jsx", 1), string("div"), vec![])),
        ModuleItem::Stmt(call(ident("_jsx", 1), ident("App", 1), vec![kv("onClick", handler(114514))])),
    ]);
    assert!(same(&run(input), &expected));
}

#[test]
fn should_not_effect_normal_properties() {
    let input = module(vec![
        import(Some("jsx"), "_jsx"),
        ModuleItem::Stmt(call(
            ident("_jsx", 1),
            string("div"),
            vec![kv("id", string("app")), kv("onClick", handler(1919810))],
        )),
    ]);
    let expected = module(vec![
        import(Some("jsx"), "_jsx"),
        ModuleItem::Stmt(call(ident("_jsx", 1), string("div"), vec![kv("id", string("app"))])),
    ]);
    assert!(same(&run(input), &expected));
}

fn nested(with_handlers: bool) -> Module {
    let inner = |tag: &str, n: u64| {
        let mut props = vec![kv("id", string(tag))];
        if with_handlers {
            props.push(kv("onClick", handler(n)));
        }
        call(ident("_jsx", 1), string(tag), props)
    };
    let mut outer = vec![kv("id", string("app"))];
    if with_handlers {
        outer.push(kv("onClick", handler(1919810)));
    }
    outer.push(kv("children", Expr::Array(vec![inner("p", 114514), inner("span", 23333)])));
    module(vec![import(Some("jsx"), "_jsx"), ModuleItem::Stmt(call(ident("_jsx", 1), string("div"), outer))])
}

#[test]
fn should_work_recursively() {
    assert!(same(&run(nested(true)), &nested(false)));
}

#[test]
fn running_twice_is_running_once() {
    let once = run(nested(true));
    let twice = run(run(nested(true)));
    assert!(same(&once, &twice));
}

#[test]
fn component_call_arguments_are_still_rewritten() {
    let inner = |props| call(ident("jsx", 1), string("p"), props);
    let input = module(vec![
        import(None, "jsx"),
        ModuleItem::Stmt(call(
            ident("jsx", 1),
            ident("App", 1),
            vec![kv("onClick", handler(1)), kv("children", inner(vec![kv("onInput", handler(2))]))],
        )),
    ]);
    let expected = module(vec![
        import(None, "jsx"),
        ModuleItem::Stmt(call(
            ident("jsx", 1),
            ident("App", 1),
            vec![kv("onClick", handler(1)), kv("children", inner(vec![]))],
        )),
    ]);
    assert!(same(&run(input), &expected));
}

#[test]
fn entries_without_a_static_identifier_key_stay() {
    let props = || {
        vec![
            PropEntry { form: PropForm::KeyValue, key: PropKey::Str("onClick".to_string()), children: vec![handler(1)] },
            PropEntry { form: PropForm::KeyValue, key: PropKey::Computed, children: vec![string("onClick"), handler(2)] },
            PropEntry { form: PropForm::Spread, key: PropKey::Absent, children: vec![ident("rest", 1)] },
            PropEntry { form: PropForm::Accessor, key: PropKey::Ident("onClick".to_string()), children: vec![] },
        ]
    };
    let input = module(vec![import(None, "jsx"), ModuleItem::Stmt(call(ident("jsx", 1), string("div"), props()))]);
    let expected = module(vec![import(None, "jsx"), ModuleItem::Stmt(call(ident("jsx", 1), string("div"), props()))]);
    assert!(same(&run(input), &expected));
}

#[test]
fn shorthand_entries_are_matched_by_key() {
    let shorthand = |k: &str| PropEntry { form: PropForm::Shorthand, key: PropKey::Ident(k.to_string()), children: vec![] };
    let input = module(vec![
        import(None, "jsxs"),
        ModuleItem::Stmt(call(ident("jsxs", 1), string("a"), vec![shorthand("onClick"), shorthand("href"), shorthand("once")])),
    ]);
    let expected = module(vec![
        import(None, "jsxs"),
        ModuleItem::Stmt(call(ident("jsxs", 1), string("a"), vec![shorthand("href"), shorthand("once")])),
    ]);
    assert!(same(&run(input), &expected));
}

#[test]
fn calls_before_the_import_are_not_recognised() {
    let stmt = || call(ident("jsx", 1), string("div"), vec![kv("onClick", handler(1))]);
    let input = module(vec![ModuleItem::Stmt(stmt()), import(None, "jsx"), ModuleItem::Stmt(stmt())]);
    let expected = module(vec![
        ModuleItem::Stmt(stmt()),
        import(None, "jsx"),
        ModuleItem::Stmt(call(ident("jsx", 1), string("div"), vec![])),
    ]);
    assert!(same(&run(input), &expected));
}

#[test]
fn same_spelling_in_another_scope_is_not_a_factory() {
    let input = module(vec![
        import(None, "jsx"),
        ModuleItem::Stmt(call(ident("jsx", 7), string("div"), vec![kv("onClick", handler(1))])),
    ]);
    let expected = module(vec![
        import(None, "jsx"),
        ModuleItem::Stmt(call(ident("jsx", 7), string("div"), vec![kv("onClick", handler(1))])),
    ]);
    assert!(same(&run(input), &expected));
}

#[test]
fn call_with_one_argument_is_left_alone() {
    let input = module(vec![
        import(None, "jsx"),
        ModuleItem::Stmt(Expr::Call(Box::new(ident("jsx", 1)), vec![string("div")])),
    ]);
    let expected = module(vec![
        import(None, "jsx"),
        ModuleItem::Stmt(Expr::Call(Box::new(ident("jsx", 1)), vec![string("div")])),
    ]);
    assert!(same(&run(input), &expected));
}

#[test]
fn string_import_name_is_the_name_tested() {
    let spec = ImportNamedSpecifier { local: id("jsxDEV", 1), imported: Some(ModuleExportName::Str("other".to_string())) };
    let mut v = TreeshakeEventsVisitor::try_default().ok().unwrap();
    v.visit_mut_import_named_specifier(&spec);
    assert!(!v.is_jsx_id(&id("jsxDEV", 1)));
    let spec1 = ImportNamedSpecifier { local: id("x", 1), imported: Some(ModuleExportName::Str("jsx".to_string())) };
    v.visit_mut_import_named_specifier(&spec1);
    assert!(v.is_jsx_id(&id("x", 1)));
    let spec2 = ImportNamedSpecifier { local: id("h", 1), imported: Some(ModuleExportName::Ident("createElement".to_string())) };
    v.visit_mut_import_named_specifier(&spec2);
    assert!(!v.is_jsx_id(&id("h", 1)));
}

#[test]
fn custom_configuration() {
    let config = TreeshakeEventsConfig { jsxs: vec!["h".to_string()], matches: vec!["^data-".to_string(), "Handler$".to_string()] };
    let input = module(vec![
        import(None, "h"),
        ModuleItem::Stmt(call(
            ident("h", 1),
            string("div"),
            vec![kv("data-x", Expr::Num(1)), kv("onClick", handler(1)), kv("clickHandler", handler(2))],
        )),
    ]);
    let expected = module(vec![
        import(None, "h"),
        ModuleItem::Stmt(call(ident("h", 1), string("div"), vec![kv("onClick", handler(1))])),
    ]);
    let out = process_transform(input, config).ok().unwrap();
    assert!(same(&out, &expected));
}

#[test]
fn invalid_pattern_is_an_error() {
    let config = TreeshakeEventsConfig { jsxs: default_jsxs(), matches: vec!["^on".to_string(), "(".to_string()] };
    let err = process_transform(module(vec![]), config).err().unwrap();
    assert_eq!(err.source, "(");
    assert!(!err.message.is_empty());
}

#[test]
fn default_configuration_values() {
    assert_eq!(default_jsxs(), vec!["jsx".to_string(), "jsxs".to_string(), "jsxDEV".to_string()]);
    assert_eq!(default_matches(), vec!["^on[A-Z]".to_string()]);
    let c = TreeshakeEventsConfig::default();
    assert_eq!(c.jsxs.len(), 3);
    assert_eq!(c.matches, default_matches());
}

#[test]
fn default_pattern_matches_event_names_only() {
    let v = TreeshakeEventsVisitor::try_default().ok().unwrap();
    assert!(v.should_remove("onClick"));
    assert!(v.should_remove("onX"));
    assert!(!v.should_remove("on"));
    assert!(!v.should_remove("once"));
    assert!(!v.should_remove("id"));
    assert!(!v.should_remove("xonClick"));
    assert!(v.is_jsx(&"jsxDEV".to_string()));
    assert!(!v.is_jsx(&"h".to_string()));
}

#[test]
fn pattern_compiles_and_matches() {
    let p = Pattern::new("^on[A-Z]").ok().unwrap();
    assert_eq!(p.as_str(), "^on[A-Z]");
    assert!(p.is_match("onClick"));
    assert!(!p.is_match("onclick"));
    assert!(Pattern::new("[").is_err());
}

#[test]
fn keeps_entry_and_intrinsic_call_decisions() {
    let mut v = TreeshakeEventsVisitor::try_default().ok().unwrap();
    v.visit_mut_import_decl(&vec![ImportNamedSpecifier { local: id("_jsx", 1), imported: Some(ModuleExportName::Ident("jsx".to_string())) }]);
    assert!(v.is_intrinsic_call(&ident("_jsx", 1), &vec![string("div"), Expr::Object(vec![])]));
    assert!(!v.is_intrinsic_call(&ident("_jsx", 1), &vec![ident("App", 1), Expr::Object(vec![])]));
    assert!(!v.is_intrinsic_call(&ident("jsx", 1), &vec![string("div"), Expr::Object(vec![])]));
    assert!(!v.keeps_entry(&kv("onClick", handler(1))));
    assert!(v.keeps_entry(&kv("id", handler(1))));
    let folded = v.fold_expr(&call(ident("_jsx", 1), string("div"), vec![kv("onClick", handler(1))]));
    assert_eq!(format!("{:?}", folded), format!("{:?}", call(ident("_jsx", 1), string("div"), vec![])));
}

fn aliased_tree(imported: Option<&str>, local: &str, with_handlers: bool) -> Module {
    let h = |n: u64| if with_handlers { vec![kv("id", Expr::Num(n)), kv("onClick", handler(n))] } else { vec![kv("id", Expr::Num(n))] };
    let inner = call(ident(local, 1), string("p"), h(2));
    let mut outer = h(1);
    outer.push(kv("children", Expr::Array(vec![inner])));
    module(vec![import(imported, local), ModuleItem::Stmt(call(ident(local, 1), string("div"), outer))])
}

#[test]
fn renamed_factory_binding_gives_the_renamed_result() {
    assert!(same(&run(aliased_tree(None, "jsx", true)), &aliased_tree(None, "jsx", false)));
    assert!(same(&run(aliased_tree(Some("jsx"), "X", true)), &aliased_tree(Some("jsx"), "X", false)));
}

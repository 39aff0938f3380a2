use pain_lsp::ast::{Class, Function, Item, Parameter, Program, Span, SrcPosition, Statement, Type};
use pain_lsp::backend::Backend;
use pain_lsp::completion::{CompletionItem, CompletionItemKind};
use pain_lsp::diagnostics::Position;
use pain_lsp::frontend::BuiltinFn;
use pain_lsp::scope::{extract_variables_from_statements, extract_variables_in_scope};

fn span(start_line: usize, end_line: usize) -> Span {
    Span {
        start: SrcPosition { line: start_line, column: 1 },
        end: SrcPosition { line: end_line, column: 1 },
    }
}

fn function(name: &str, lines: (usize, usize)) -> Function {
    Function {
        name: name.to_string(),
        params: vec![],
        return_type: None,
        body: vec![],
        attrs: vec![],
        doc: None,
        span: span(lines.0, lines.1),
    }
}

fn builtin(name: &str) -> BuiltinFn {
    BuiltinFn {
        name: name.to_string(),
        params: vec![Parameter { name: "value".to_string(), ty: Type::Dynamic }],
        return_type: Type::Dynamic,
        description: format!("the built-in {}", name),
    }
}

fn position(line: u32, character: u32) -> Position {
    Position { line, character }
}

fn labels(items: &[CompletionItem]) -> Vec<&str> {
    items.iter().map(|i| i.label.as_str()).collect()
}

#[test]
fn test_completion_keywords() {
    let backend = Backend::new(vec![]);
    let keywords = backend.get_keyword_completions();
    assert_eq!(keywords.len(), 10);
    let names = labels(&keywords);
    for kw in ["fn", "let", "var", "if", "else", "for", "while", "break", "continue", "return"] {
        assert!(names.contains(&kw), "keyword {} should be suggested", kw);
    }
    assert!(keywords.iter().all(|k| k.kind == CompletionItemKind::Keyword));
}

#[test]
fn test_basic_completions_never_empty() {
    let backend = Backend::new(vec![]);
    let items = backend.get_basic_completions();
    assert!(!items.is_empty());
    assert_eq!(items.len(), 11);
    let last = items.last().unwrap();
    assert_eq!(last.label, "print");
    assert_eq!(last.kind, CompletionItemKind::Function);
    assert_eq!(last.detail, "print(value: dynamic) -> void");
}

#[test]
fn test_completion_on_missing_line_falls_back() {
    // cursor on a line the text does not have: the fallback list comes back
    let backend = Backend::new(vec![builtin("len")]);
    let program = Program { items: vec![Item::Function(function("main", (1, 2)))] };
    let items = backend.get_completions(&program, "fn main():\n", position(7, 0));
    assert_eq!(items.len(), 11);
    assert_eq!(items.last().unwrap().label, "print");
}

#[test]
fn test_completion_functions_in_program() {
    let backend = Backend::new(vec![]);
    let program = Program {
        items: vec![
            Item::Function(function("func1", (2, 3))),
            Item::Function(function("func2", (5, 6))),
        ],
    };
    let text = "\nfn func1():\n    pass\n\nfn func2(x: int) -> int:\n    return x\n\n\n";
    let items = backend.get_completions(&program, text, position(7, 0));
    let names = labels(&items);
    assert!(names.contains(&"func1"), "Should contain func1");
    assert!(names.contains(&"func2"), "Should contain func2");
}

#[test]
fn test_completion_classes_and_methods() {
    let backend = Backend::new(vec![]);
    let class = Class {
        name: "Point".to_string(),
        fields: vec![
            Parameter { name: "x".to_string(), ty: Type::Int },
            Parameter { name: "y".to_string(), ty: Type::Int },
        ],
        methods: vec![function("new", (6, 10)), function("distance", (12, 13))],
        doc: None,
    };
    let program = Program { items: vec![Item::Class(class)] };
    let text = "\nclass Point:\n\n\n\n\n\n\n\n\n\n\n\n\n\n";
    let items = backend.get_completions(&program, text, position(14, 0));
    let names = labels(&items);
    assert!(names.contains(&"Point"), "Should contain Point class");
    assert!(names.contains(&"Point.new"), "Should contain the method item");
    assert!(names.contains(&"Point.distance"), "Should contain the method item");
    let class_item = items.iter().find(|i| i.label == "Point").unwrap();
    assert_eq!(class_item.kind, CompletionItemKind::Class);
    assert_eq!(class_item.detail, "class Point");
    let method_item = items.iter().find(|i| i.label == "Point.new").unwrap();
    assert_eq!(method_item.kind, CompletionItemKind::Method);
}

#[test]
fn test_completion_variables_in_scope() {
    let mut main = function("main", (2, 5));
    main.body = vec![
        Statement::Let { name: "x".to_string() },
        Statement::Let { name: "y".to_string() },
    ];
    let program = Program { items: vec![Item::Function(main)] };
    let vars = extract_variables_in_scope(&program, 3, 1);
    assert!(vars.is_some(), "Should find variables in scope");
    if let Some(vars) = vars {
        assert!(vars.iter().any(|v| v == "x"), "Should contain variable x");
        assert!(vars.iter().any(|v| v == "y"), "Should contain variable y");
    }
}

#[test]
fn test_scope_extraction_recurses_and_deduplicates() {
    let stmts = vec![
        Statement::Let { name: "a".to_string() },
        Statement::If {
            then: vec![Statement::Let { name: "b".to_string() }],
            else_: Some(vec![Statement::While {
                body: vec![Statement::Let { name: "a".to_string() }],
            }]),
        },
        Statement::For {
            var: "i".to_string(),
            body: vec![Statement::Let { name: "c".to_string() }],
        },
        Statement::Other,
    ];
    let mut vars: Vec<String> = Vec::new();
    extract_variables_from_statements(&stmts, &mut vars);
    assert_eq!(vars, vec!["a", "b", "i", "c"]);
}

#[test]
fn test_completion_member_access() {
    // after a trailing dot, no keyword is suggested
    let backend = Backend::new(vec![builtin("len")]);
    let program = Program { items: vec![Item::Function(function("main", (2, 4)))] };
    let text = "\nfn main():\n    let obj = SomeObject()\n    obj.\n";
    let items = backend.get_completions(&program, text, position(3, 8));
    assert!(!items.is_empty());
    assert!(
        items.iter().all(|i| i.kind != CompletionItemKind::Keyword),
        "member access must suppress keywords"
    );
}

#[test]
fn test_completion_member_access_with_trailing_spaces() {
    let backend = Backend::new(vec![builtin("len")]);
    let program = Program { items: vec![] };
    let text = "value.   \nrest\n";
    let items = backend.get_completions(&program, text, position(0, 9));
    assert!(items.iter().all(|i| i.kind != CompletionItemKind::Keyword));
}

#[test]
fn test_completion_without_dot_has_keywords() {
    let backend = Backend::new(vec![builtin("len")]);
    let program = Program { items: vec![Item::Function(function("main", (1, 2)))] };
    let text = "fn main():\n    le\n";
    let items = backend.get_completions(&program, text, position(1, 6));
    assert!(items.iter().any(|i| i.kind == CompletionItemKind::Keyword));
    // keywords come last, after user items and built-ins
    let first_kw = items.iter().position(|i| i.kind == CompletionItemKind::Keyword).unwrap();
    assert!(items[first_kw..].iter().all(|i| i.kind == CompletionItemKind::Keyword));
}

#[test]
fn test_completion_variable_shadowed_by_function() {
    let backend = Backend::new(vec![]);
    let mut main = function("main", (1, 3));
    main.body = vec![
        Statement::Let { name: "helper".to_string() },
        Statement::Let { name: "local".to_string() },
    ];
    let program = Program {
        items: vec![Item::Function(main), Item::Function(function("helper", (5, 6)))],
    };
    let text = "fn main():\n    x\n\n\nfn helper():\n    pass\n";
    let items = backend.get_completions(&program, text, position(1, 4));
    let vars: Vec<&CompletionItem> =
        items.iter().filter(|i| i.kind == CompletionItemKind::Variable).collect();
    assert_eq!(vars.len(), 1);
    assert_eq!(vars[0].label, "local");
    assert_eq!(vars[0].detail, "Variable");
}

#[test]
fn test_completion_builtin_shadowed_by_function() {
    let backend = Backend::new(vec![builtin("len"), builtin("print_row")]);
    let program = Program { items: vec![Item::Function(function("len", (1, 2)))] };
    let text = "fn len():\n    pass\n\n";
    let items = backend.get_completions(&program, text, position(2, 0));
    let len_items: Vec<&CompletionItem> = items.iter().filter(|i| i.label == "len").collect();
    assert_eq!(len_items.len(), 1, "the user function shadows the built-in");
    assert!(items.iter().any(|i| i.label == "print_row"));
}

#[test]
fn test_completion_builtin_signature_detail() {
    let backend = Backend::new(vec![builtin("len")]);
    let program = Program { items: vec![] };
    let items = backend.get_completions(&program, "x\n", position(0, 1));
    let b = items.iter().find(|i| i.label == "len").unwrap();
    assert_eq!(b.detail, "len(value: dynamic) -> dynamic");
    assert_eq!(b.documentation.as_deref(), Some("the built-in len"));
}

#[test]
fn test_completion_builtin_cap() {
    // far more catalog entries than the cap: only the first 100 appear
    let catalog: Vec<BuiltinFn> = (0..150).map(|i| builtin(&format!("b{}", i))).collect();
    let backend = Backend::new(catalog);
    let program = Program { items: vec![] };
    let items = backend.get_completions(&program, "x\n", position(0, 1));
    let builtin_count =
        items.iter().filter(|i| i.kind == CompletionItemKind::Function).count();
    assert_eq!(builtin_count, 100);
    assert!(items.iter().any(|i| i.label == "b99"));
    assert!(items.iter().all(|i| i.label != "b100"));
}

#[test]
fn test_completion_performance() {
    // a document with 500 top-level functions: the list is produced
    // within the harness's time bound and the formatting cutoffs hold
    let mut items_src: Vec<Item> = Vec::new();
    let mut text = String::new();
    for i in 0..500 {
        let mut f = function(&format!("func_{}", i), (1 + 3 * i, 2 + 3 * i));
        f.params = vec![Parameter { name: "x".to_string(), ty: Type::Int }];
        f.return_type = Some(Type::Int);
        items_src.push(Item::Function(f));
        text.push_str(&format!("fn func_{}(x: int) -> int:\n    return {}\n\n", i, i));
    }
    let catalog: Vec<BuiltinFn> = (0..120).map(|i| builtin(&format!("b{}", i))).collect();
    let backend = Backend::new(catalog);
    let program = Program { items: items_src };
    let items = backend.get_completions(&program, &text, position(0, 0));

    // every function item is present
    let fn_items: Vec<&CompletionItem> = items
        .iter()
        .filter(|i| i.label.starts_with("func_"))
        .collect();
    assert_eq!(fn_items.len(), 500);
    // only the first 50 carry a fully formatted signature
    let detailed = fn_items.iter().filter(|i| i.detail.contains('(')).count();
    assert_eq!(detailed, 50);
    for i in 0..50 {
        assert_eq!(fn_items[i].detail, format!("fn func_{}(x: int) -> int", i));
    }
    for i in 50..500 {
        assert_eq!(fn_items[i].detail, format!("fn func_{}", i));
    }
    // with over 200 accumulated items, built-in details fall back to name()
    let builtin_items: Vec<&CompletionItem> = items
        .iter()
        .filter(|i| i.kind == CompletionItemKind::Function && i.label.starts_with('b'))
        .collect();
    for b in &builtin_items {
        assert_eq!(b.detail, format!("{}()", b.label));
    }
    // the catalog cap still applies
    assert_eq!(builtin_items.len(), 100);
}

#[test]
fn test_completion_detail_cutoff_boundary() {
    // an empty program: the accumulated count stays under the cutoff, so
    // every built-in shows its full signature
    let catalog: Vec<BuiltinFn> = (0..80).map(|i| builtin(&format!("b{}", i))).collect();
    let backend = Backend::new(catalog);
    let program = Program { items: vec![] };
    let items = backend.get_completions(&program, "x\n", position(0, 1));
    for b in items.iter().filter(|i| i.kind == CompletionItemKind::Function) {
        assert_eq!(b.detail, format!("{}(value: dynamic) -> dynamic", b.label));
    }
}

#[test]
fn test_completion_column_past_line_end_uses_whole_line() {
    let backend = Backend::new(vec![builtin("len")]);
    let program = Program { items: vec![] };
    // the line ends with a dot; a cursor column past its end still sees it
    let items = backend.get_completions(&program, "obj.\n", position(0, 80));
    assert!(items.iter().all(|i| i.kind != CompletionItemKind::Keyword));
}

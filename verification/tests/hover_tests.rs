use pain_lsp::ast::{Function, Item, Parameter, Program, Span, SrcPosition, Type};
use pain_lsp::hover::find_function_at_position;

fn span(start_line: usize, end_line: usize) -> Span {
    Span {
        start: SrcPosition { line: start_line, column: 1 },
        end: SrcPosition { line: end_line, column: 1 },
    }
}

fn function(name: &str, params: Vec<(&str, Type)>, ret: Option<Type>, lines: (usize, usize)) -> Function {
    Function {
        name: name.to_string(),
        params: params
            .into_iter()
            .map(|(n, ty)| Parameter { name: n.to_string(), ty })
            .collect(),
        return_type: ret,
        body: vec![],
        attrs: vec![],
        doc: None,
        span: span(lines.0, lines.1),
    }
}

#[test]
fn test_hover_function_signature() {
    // fn add(a: int, b: int) -> int, defined on line 2
    let program = Program {
        items: vec![Item::Function(function(
            "add",
            vec![("a", Type::Int), ("b", Type::Int)],
            Some(Type::Int),
            (2, 3),
        ))],
    };
    let hover_info = find_function_at_position(&program, 2, 3);
    assert!(hover_info.is_some(), "Should find function at position");
    if let Some(hover_info) = hover_info {
        assert!(hover_info.signature.contains("fn add"), "Should contain function signature");
        assert!(hover_info.signature.contains("a: int"), "Should contain first parameter");
        assert!(hover_info.signature.contains("b: int"), "Should contain second parameter");
        assert!(hover_info.signature.contains("-> int"), "Should contain return type");
        assert!(
            hover_info.signature.contains("fn add(a: int, b: int) -> int"),
            "Should contain the full signature"
        );
    }
}

#[test]
fn test_hover_function_with_doc() {
    // a documented fn add whose span begins at its doc block
    let mut func = function("add", vec![("a", Type::Int), ("b", Type::Int)], Some(Type::Int), (7, 11));
    func.doc = Some("This function adds two numbers".to_string());
    let program = Program { items: vec![Item::Function(func)] };
    let hover_info = find_function_at_position(&program, 7, 3);
    assert!(hover_info.is_some(), "Should find function with doc");
    if let Some(hover_info) = hover_info {
        assert!(hover_info.doc.is_some(), "Should have doc comment");
        if let Some(doc) = hover_info.doc {
            assert!(doc.contains("adds two numbers"), "Doc should contain description");
        }
    }
}

#[test]
fn test_hover_no_function_at_position() {
    // fn main on line 2; hover far below any definition line
    let program = Program {
        items: vec![Item::Function(function("main", vec![], None, (2, 3)))],
    };
    let hover_info = find_function_at_position(&program, 5, 8);
    assert!(hover_info.is_none(), "Should not find a function away from its definition");
}

#[test]
fn test_hover_multiple_functions() {
    let program = Program {
        items: vec![
            Item::Function(function("func1", vec![], None, (2, 3))),
            Item::Function(function("func2", vec![("x", Type::Int)], Some(Type::Int), (5, 6))),
            Item::Function(function(
                "func3",
                vec![("a", Type::Int), ("b", Type::Int), ("c", Type::Int)],
                Some(Type::Int),
                (8, 9),
            )),
        ],
    };
    let hover1 = find_function_at_position(&program, 2, 3);
    let hover2 = find_function_at_position(&program, 5, 3);
    let hover3 = find_function_at_position(&program, 8, 3);
    assert!(hover1.is_some());
    assert!(hover2.is_some());
    assert!(hover3.is_some());
    if let Some(hover1) = hover1 {
        assert!(hover1.signature.contains("func1"), "Should find func1");
    }
    if let Some(hover2) = hover2 {
        assert!(hover2.signature.contains("func2"), "Should find func2");
    }
    if let Some(hover3) = hover3 {
        assert!(hover3.signature.contains("func3"), "Should find func3");
    }
}

#[test]
fn test_hover_line_after_definition_matches() {
    let program = Program {
        items: vec![Item::Function(function("main", vec![], None, (2, 4)))],
    };
    // the line directly after the definition line is treated as at it
    let hover = find_function_at_position(&program, 3, 1);
    assert!(hover.is_some());
    assert_eq!(hover.unwrap().signature, "fn main()");
}

#[test]
fn test_hover_first_match_wins() {
    // two functions whose match lines overlap: line 3 is the line after
    // the first definition and the definition line of the second
    let program = Program {
        items: vec![
            Item::Function(function("first", vec![], None, (2, 2))),
            Item::Function(function("second", vec![], None, (3, 4))),
        ],
    };
    let hover = find_function_at_position(&program, 3, 1);
    assert_eq!(hover.unwrap().signature, "fn first()");
}

#[test]
fn test_hover_skips_classes() {
    let program = Program {
        items: vec![
            Item::Class(pain_lsp::ast::Class {
                name: "Point".to_string(),
                fields: vec![],
                methods: vec![function("new", vec![], None, (2, 3))],
                doc: None,
            }),
            Item::Function(function("main", vec![], None, (2, 3))),
        ],
    };
    // hover matches the top-level function, not the class or its methods
    let hover = find_function_at_position(&program, 2, 1);
    assert_eq!(hover.unwrap().signature, "fn main()");
}

use pain_lsp::ast::{Attribute, Function, Parameter, Span, SrcPosition, Type};
use pain_lsp::render::{format_function_signature, format_type};

fn span(line: usize, col: usize) -> Span {
    Span {
        start: SrcPosition { line, column: col },
        end: SrcPosition { line, column: col },
    }
}

fn plain_function(name: &str) -> Function {
    Function {
        name: name.to_string(),
        params: vec![],
        return_type: None,
        body: vec![],
        attrs: vec![],
        doc: None,
        span: span(1, 1),
    }
}

#[test]
fn test_format_type_recursion_limit() {
    let mut ty = Type::List(Box::new(Type::Int));
    for _ in 0..20 {
        ty = Type::List(Box::new(ty));
    }
    let formatted = format_type(&ty);
    assert!(!formatted.is_empty(), "Should format type even if deeply nested");
    assert!(formatted.contains("list"), "Should contain list in formatted type");
}

#[test]
fn test_format_type_depth_cutoff_renders_ellipsis() {
    let mut ty = Type::List(Box::new(Type::Int));
    for _ in 0..20 {
        ty = Type::List(Box::new(ty));
    }
    let formatted = format_type(&ty);
    assert!(formatted.contains("..."));
    // ten nested levels are rendered before the cutoff
    assert_eq!(&formatted[..5 * 11], "list[".repeat(11).as_str());
}

#[test]
fn test_format_type_simple_spellings() {
    assert_eq!(format_type(&Type::Int), "int");
    assert_eq!(format_type(&Type::Str), "str");
    assert_eq!(format_type(&Type::Float32), "float32");
    assert_eq!(format_type(&Type::Float64), "float64");
    assert_eq!(format_type(&Type::Bool), "bool");
    assert_eq!(format_type(&Type::Dynamic), "dynamic");
    assert_eq!(format_type(&Type::Named("Point".to_string())), "Point");
}

#[test]
fn test_format_type_compound_spellings() {
    let list = Type::List(Box::new(Type::Int));
    assert_eq!(format_type(&list), "list[int]");
    let arr = Type::Array(Box::new(Type::Bool));
    assert_eq!(format_type(&arr), "array[bool]");
    let map = Type::Mapping(Box::new(Type::Str), Box::new(Type::Int));
    assert_eq!(format_type(&map), "map[str, int]");
    let tensor = Type::Tensor(Box::new(Type::Float32), vec![2, 3]);
    assert_eq!(format_type(&tensor), "Tensor[float32, [2, 3]]");
    let empty_tensor = Type::Tensor(Box::new(Type::Int), vec![]);
    assert_eq!(format_type(&empty_tensor), "Tensor[int, []]");
    let wide_tensor = Type::Tensor(Box::new(Type::Int), vec![1, 128, 1024]);
    assert_eq!(format_type(&wide_tensor), "Tensor[int, [1, 128, 1024]]");
}

#[test]
fn test_format_function_signature_simple() {
    let func = plain_function("test");
    let sig = format_function_signature(&func);
    assert_eq!(sig, "fn test()", "Simple function signature should be correct");
}

#[test]
fn test_format_function_signature_with_params() {
    let func = Function {
        name: "add".to_string(),
        params: vec![
            Parameter { name: "a".to_string(), ty: Type::Int },
            Parameter { name: "b".to_string(), ty: Type::Int },
        ],
        return_type: Some(Type::Int),
        body: vec![],
        attrs: vec![],
        doc: None,
        span: span(1, 1),
    };
    let sig = format_function_signature(&func);
    assert!(sig.contains("fn add"), "Should contain function name");
    assert!(sig.contains("a: int"), "Should contain first parameter");
    assert!(sig.contains("b: int"), "Should contain second parameter");
    assert!(sig.contains("-> int"), "Should contain return type");
    assert_eq!(sig, "fn add(a: int, b: int) -> int");
}

#[test]
fn test_format_function_signature_with_attributes() {
    let mut func = plain_function("run");
    func.attrs = vec![
        Attribute { name: "inline_hint".to_string(), args: vec![] },
        Attribute {
            name: "deprecated".to_string(),
            args: vec!["since".to_string(), "note".to_string()],
        },
    ];
    func.return_type = Some(Type::Bool);
    let sig = format_function_signature(&func);
    assert_eq!(sig, "@inline_hint @deprecated(2) fn run() -> bool");
}

#[test]
fn test_format_function_signature_many_attribute_args() {
    let mut func = plain_function("f");
    let args: Vec<String> = (0..12).map(|i| format!("a{}", i)).collect();
    func.attrs = vec![Attribute { name: "shape".to_string(), args }];
    let sig = format_function_signature(&func);
    assert_eq!(sig, "@shape(12) fn f()");
}

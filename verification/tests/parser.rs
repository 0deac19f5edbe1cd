use tpb_codegen::lexer::{Lexer, Literal, Token};
use tpb_codegen::parser::{
    parse, parse_position, parse_struct, parse_struct_parameters, parse_type_id, ASTNode,
    TypeIDASTNode,
};

#[test]
fn parse_position_test() {
    let mut lexer = Lexer::tokenize("#[123]");
    let position = parse_position(&mut lexer);
    assert_eq!(position, 123);
}

#[test]
fn tokenize_symbols_words_and_literals() {
    let mut lexer = Lexer::tokenize("struct Point { \"a b\" 42 true x_1");
    assert!(matches!(lexer.current_token(), Token::Struct));
    assert!(matches!(lexer.next_token(), Token::ID { name } if name == "Point"));
    assert!(matches!(lexer.next_token(), Token::Symbol('{')));
    assert!(matches!(lexer.next_token(), Token::Literal(Literal::StringLiteral(s)) if s == "a b"));
    assert!(matches!(lexer.next_token(), Token::Literal(Literal::IntLiteral(42))));
    assert!(matches!(lexer.next_token(), Token::Literal(Literal::BoolLiteral(true))));
    assert!(matches!(lexer.next_token(), Token::ID { name } if name == "x_1"));
    assert!(matches!(lexer.next_token(), Token::EOF));
    // The end stays the end.
    assert!(matches!(lexer.next_token(), Token::EOF));
}

#[test]
fn tokenize_empty_source_gives_only_eof() {
    let lexer = Lexer::tokenize("  \n\t ");
    assert!(matches!(lexer.current_token(), Token::EOF));
}

#[test]
fn parse_position_moves_past_the_brackets() {
    let mut lexer = Lexer::tokenize("#[7] name");
    assert_eq!(parse_position(&mut lexer), 7);
    assert!(matches!(lexer.current_token(), Token::ID { name } if name == "name"));
}

#[test]
fn parse_position_keeps_the_low_bits() {
    let mut lexer = Lexer::tokenize("#[4294967297]");
    assert_eq!(parse_position(&mut lexer), 1);
}

#[test]
fn parse_type_id_reads_a_name() {
    let mut lexer = Lexer::tokenize("i32,");
    match parse_type_id(&mut lexer) {
        TypeIDASTNode::Primitive { id } => assert_eq!(id, "i32"),
        other => panic!("unexpected type {:?}", other),
    }
    assert!(matches!(lexer.current_token(), Token::Symbol(',')));
}

#[test]
fn parse_type_id_keeps_every_name_as_written() {
    let mut lexer = Lexer::tokenize("u8 f64 bool Point");
    for name in ["u8", "f64", "bool", "Point"] {
        assert!(matches!(parse_type_id(&mut lexer), TypeIDASTNode::Primitive { id } if id == name));
    }
    assert!(matches!(lexer.current_token(), Token::EOF));
}

#[test]
fn parse_source_without_items() {
    let mut lexer = Lexer::tokenize("");
    assert!(parse(&mut lexer).is_empty());
}

#[test]
fn parse_one_empty_struct() {
    let mut lexer = Lexer::tokenize("struct Empty;");
    let ast = parse(&mut lexer);
    assert_eq!(ast.len(), 1);
    match &ast[0] {
        ASTNode::Struct(node) => {
            assert_eq!(node.id, "Empty");
            assert!(node.fields.is_empty());
        },
        other => panic!("unexpected node {:?}", other),
    }
}

#[test]
fn parse_two_empty_structs() {
    let mut lexer = Lexer::tokenize("struct First;\nstruct Second {}");
    let ast = parse(&mut lexer);
    assert_eq!(ast.len(), 2);
    let ids: Vec<&str> = ast
        .iter()
        .map(|n| match n {
            ASTNode::Struct(s) => s.id.as_str(),
            _ => panic!("not a struct"),
        })
        .collect();
    assert_eq!(ids, vec!["First", "Second"]);
}

#[test]
fn parse_struct_with_fields() {
    let mut lexer = Lexer::tokenize(
        "struct Person {\n  #[1] first_name: String,\n  #[2] age: i32,\n}",
    );
    let node = match parse_struct(&mut lexer) {
        ASTNode::Struct(node) => node,
        other => panic!("unexpected node {:?}", other),
    };
    assert_eq!(node.id, "Person");
    assert_eq!(node.fields.len(), 2);
    assert_eq!(node.fields[0].position, 1);
    assert_eq!(node.fields[0].name, "first_name");
    assert!(matches!(&node.fields[0].type_id, TypeIDASTNode::Primitive { id } if id == "String"));
    assert_eq!(node.fields[1].position, 2);
    assert_eq!(node.fields[1].name, "age");
    assert!(matches!(&node.fields[1].type_id, TypeIDASTNode::Primitive { id } if id == "i32"));
    assert!(matches!(lexer.current_token(), Token::EOF));
}

#[test]
fn parse_struct_parameters_stops_without_comma() {
    let mut lexer = Lexer::tokenize("#[0] a: X #[1] b: Y");
    let fields = parse_struct_parameters(&mut lexer);
    assert_eq!(fields.len(), 1);
    assert_eq!(fields[0].name, "a");
    assert!(matches!(lexer.current_token(), Token::Symbol('#')));
}

#[test]
fn parse_struct_with_parameters_keeps_type_names() {
    let mut lexer = Lexer::tokenize("struct Foo {\n  #[1] x: i32,\n  #[2] y_z: f32\n}");
    let node = match parse_struct(&mut lexer) {
        ASTNode::Struct(node) => node,
        other => panic!("unexpected node {:?}", other),
    };
    assert_eq!(node.id, "Foo");
    assert_eq!(node.fields.len(), 2);
    assert_eq!(node.fields[0].position, 1);
    assert_eq!(node.fields[0].name, "x");
    assert!(matches!(&node.fields[0].type_id, TypeIDASTNode::Primitive { id } if id == "i32"));
    assert_eq!(node.fields[1].position, 2);
    assert_eq!(node.fields[1].name, "y_z");
    assert!(matches!(&node.fields[1].type_id, TypeIDASTNode::Primitive { id } if id == "f32"));
    assert!(matches!(lexer.current_token(), Token::EOF));
}

#[test]
fn parse_struct_parameters_accepts_a_trailing_comma() {
    let mut lexer = Lexer::tokenize("#[1] a: i32, #[2] b_c: Foo, }");
    let fields = parse_struct_parameters(&mut lexer);
    assert_eq!(fields.len(), 2);
    assert_eq!(fields[0].name, "a");
    assert!(matches!(&fields[0].type_id, TypeIDASTNode::Primitive { id } if id == "i32"));
    assert_eq!(fields[1].name, "b_c");
    assert!(matches!(&fields[1].type_id, TypeIDASTNode::Primitive { id } if id == "Foo"));
    assert!(matches!(lexer.current_token(), Token::Symbol('}')));
}

use tpb_codegen::ast::{from_parsed, from_parsed_struct, from_parsed_type, ASTNode, TypeIDASTNode};
use tpb_codegen::dart_generator::generate_models;
use tpb_codegen::lexer::{Lexer, Literal};
use tpb_codegen::parser::{self, parse};

fn primitive(id: &str) -> parser::TypeIDASTNode {
    parser::TypeIDASTNode::Primitive { id: String::from(id) }
}

#[test]
fn builtin_names_become_sized_types() {
    assert!(matches!(
        from_parsed_type(&primitive("i8")),
        TypeIDASTNode::Integer { size: 1, signed: true, .. }
    ));
    assert!(matches!(
        from_parsed_type(&primitive("u16")),
        TypeIDASTNode::Integer { size: 2, signed: false, .. }
    ));
    assert!(matches!(
        from_parsed_type(&primitive("i32")),
        TypeIDASTNode::Integer { size: 4, signed: true, .. }
    ));
    assert!(matches!(
        from_parsed_type(&primitive("u64")),
        TypeIDASTNode::Integer { size: 8, signed: false, .. }
    ));
    assert!(matches!(from_parsed_type(&primitive("f32")), TypeIDASTNode::Number { size: 4, .. }));
    assert!(matches!(from_parsed_type(&primitive("f64")), TypeIDASTNode::Number { size: 8, .. }));
    assert!(matches!(from_parsed_type(&primitive("bool")), TypeIDASTNode::Bool { .. }));
    assert!(matches!(from_parsed_type(&primitive("char")), TypeIDASTNode::Char { .. }));
    assert!(matches!(from_parsed_type(&primitive("Point")), TypeIDASTNode::Other { id } if id == "Point"));
}

#[test]
fn generic_arguments_are_resolved() {
    let t = parser::TypeIDASTNode::Generic {
        id: String::from("Vec"),
        generics: vec![primitive("i32"), primitive("Point")],
    };
    match from_parsed_type(&t) {
        TypeIDASTNode::Generic { id, generics } => {
            assert_eq!(id, "Vec");
            assert_eq!(generics.len(), 2);
            assert!(matches!(generics[0], TypeIDASTNode::Integer { size: 4, .. }));
            assert!(matches!(&generics[1], TypeIDASTNode::Other { id } if id == "Point"));
        },
        other => panic!("unexpected type {:?}", other),
    }
}

#[test]
fn parsed_struct_gets_both_codecs() {
    let s = parser::StructASTNode {
        id: String::from("Foo"),
        fields: vec![parser::StructFieldASTNode {
            position: 3,
            name: String::from("x"),
            type_id: primitive("f64"),
        }],
    };
    let r = from_parsed_struct(&s);
    assert_eq!(r.id, "Foo");
    assert!(r.emplace_buffers);
    assert!(r.into_buffers);
    assert_eq!(r.fields.len(), 1);
    assert_eq!(r.fields[0].position, 3);
    assert_eq!(r.fields[0].name, "x");
    assert!(matches!(r.fields[0].type_id, TypeIDASTNode::Number { size: 8, .. }));
}

#[test]
fn value_enums_carry_over() {
    let nodes = vec![parser::ASTNode::ValueEnum(vec![parser::IdValuePair {
        id: String::from("namespace"),
        value: parser::ConstValueASTNode::Literal {
            literal: Literal::StringLiteral(String::from("app")),
        },
    }])];
    let schema = from_parsed(&nodes);
    assert_eq!(schema.len(), 1);
    match &schema[0] {
        ASTNode::ValueEnum(pairs) => {
            assert_eq!(pairs.len(), 1);
            assert_eq!(pairs[0].id, "namespace");
        },
        other => panic!("unexpected node {:?}", other),
    }
}

#[test]
fn parse_then_generate_models() {
    let mut lexer = Lexer::tokenize("struct Foo {\n  #[1] x: i32,\n  #[2] y_z: f32\n}");
    let parsed = parse(&mut lexer);
    let schema = from_parsed(&parsed);
    let expected = "class Foo {
  int x;
  double yZ;

  Foo({
    required this.x,
    required this.yZ,
  });

  Foo.createDefault()
      : x = 0,
        yZ = 0.0;
}

class FooBuffersFactory implements BuffersFactory<Foo> {
  const FooBuffersFactory();

  @override
  Foo createDefault() => Foo.createDefault();
}
";
    assert_eq!(generate_models(&schema), expected);
}

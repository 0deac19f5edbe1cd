use tpb_codegen::ast::{find_directive_group_values, find_directive_value, find_fn_nodes};
use tpb_codegen::dart::enum_emplace_buffers::generate_enum_emplace_buffers;
use tpb_codegen::dart::enum_into_buffers::generate_enum_into_buffers;
use tpb_codegen::dart::enum_models::create_enum_item_struct_ast_node;
use tpb_codegen::dart::struct_into_buffers::{
    generate_struct_into_buffers, generate_struct_into_buffers_read,
};
use tpb_codegen::dart::rpc::generate_rpc_methods;
use tpb_codegen::dart::struct_emplace_to_buffers::{
    generate_struct_emplace_buffers, generate_struct_emplace_buffers_read,
    generate_struct_emplace_buffers_skip, generate_struct_emplace_buffers_write,
};
use tpb_codegen::dart_generator::{
    generate, generate_buffers, generate_enum_buffers, generate_enum_model, generate_models,
    generate_read, generate_read_skip, generate_rpc, generate_struct_buffers,
    generate_struct_model, generate_write,
};
use tpb_codegen::lexer::Literal;
use tpb_codegen::ast::{
    ASTNode, ConstValueASTNode, EnumASTNode, EnumItemASTNode, FnArgASTNode, FnASTNode,
    IdValuePair, StructASTNode, StructFieldASTNode, TupleFieldASTNode, TypeIDASTNode,
};

fn int32() -> TypeIDASTNode {
    TypeIDASTNode::Integer { id: String::from("i32"), size: 4, signed: true }
}

fn other(id: &str) -> TypeIDASTNode {
    TypeIDASTNode::Other { id: String::from(id) }
}

fn field(position: u32, name: &str, type_id: TypeIDASTNode) -> StructFieldASTNode {
    StructFieldASTNode { position, name: String::from(name), type_id }
}

fn point(emplace_buffers: bool, into_buffers: bool) -> StructASTNode {
    StructASTNode {
        id: String::from("Point"),
        fields: vec![field(1, "x_pos", int32()), field(2, "label", other("String"))],
        emplace_buffers,
        into_buffers,
    }
}

fn empty_struct() -> StructASTNode {
    StructASTNode {
        id: String::from("Empty"),
        fields: vec![],
        emplace_buffers: true,
        into_buffers: false,
    }
}

fn shape() -> EnumASTNode {
    EnumASTNode {
        id: String::from("Shape"),
        items: vec![
            EnumItemASTNode::Empty { position: 0, id: String::from("Idle") },
            EnumItemASTNode::Tuple {
                position: 1,
                id: String::from("Pair"),
                values: vec![TupleFieldASTNode { position: 0, type_id: int32() }],
            },
        ],
    }
}

fn string_literal(s: &str) -> ConstValueASTNode {
    ConstValueASTNode::Literal { literal: Literal::StringLiteral(String::from(s)) }
}

const POINT_MODEL: &str = "class Point {
  int xPos;
  String label;

  Point({
    required this.xPos,
    required this.label,
  });

  Point.createDefault()
      : xPos = 0,
        label = const StringBuffersFactory().createDefault();
}

class PointBuffersFactory implements BuffersFactory<Point> {
  const PointBuffersFactory();

  @override
  Point createDefault() => Point.createDefault();
}
";

const EMPTY_MODEL: &str = "class Empty {
  const Empty();
}

class EmptyBuffersFactory implements BuffersFactory<Empty> {
  const EmptyBuffersFactory();

  @override
  Empty createDefault() => const Empty();
}
";

const POINT_READ: &str = "  @override
  void read(BytesReader reader, Point model) {
    model.xPos = reader.readInt32();
    model.label = const StringIntoBuffers().read(reader);
  }
";

const POINT_WRITE: &str = "  @override
  void write(BytesWriter writer, Point model) {
    writer.writeInt32(model.xPos);
    const StringIntoBuffers().write(writer, model.label);
  }
";

const POINT_SKIP: &str = "  @override
  void skip(BytesReader reader, int count) {
    for (int i = 0; i < count; i += 1) {
      reader.readInt32();
      const StringIntoBuffers().read(reader);
    }
  }
";

const SHAPE_MODEL: &str = "enum ShapeValue {
  idle,
  pair,
}

class Shape {
  ShapeValue value = ShapeValue.idle;
  ShapeIdle idle = const ShapeIdle();
  ShapePair pair = ShapePair.createDefault();

  void toIdle() => value = ShapeValue.idle;

  void toPair(
    int v0,
  ) {
    value = ShapeValue.pair;
    pair.v0 = v0;
  }

  bool isIdle() => value == ShapeValue.idle;
  bool isPair() => value == ShapeValue.pair;

  static Shape createIdle() {
    final model = Shape();
    model.value = ShapeValue.idle;
    return model;
  }

  static Shape createPair(
    int v0,
  ) {
    final model = Shape();
    model.value = ShapeValue.pair;
    model.pair.v0 = v0;
    return model;
  }
}

class ShapeBuffersFactory implements BuffersFactory<Shape> {
  const ShapeBuffersFactory();

  @override
  Shape createDefault() => Shape();
}

class ShapeIdle {
  const ShapeIdle();
}

class ShapeIdleBuffersFactory implements BuffersFactory<ShapeIdle> {
  const ShapeIdleBuffersFactory();

  @override
  ShapeIdle createDefault() => const ShapeIdle();
}

class ShapePair {
  int v0;

  ShapePair({
    required this.v0,
  });

  ShapePair.createDefault()
      : v0 = 0;
}

class ShapePairBuffersFactory implements BuffersFactory<ShapePair> {
  const ShapePairBuffersFactory();

  @override
  ShapePair createDefault() => ShapePair.createDefault();
}
";

const HEADER: &str = "// GENERATED, DO NOT EDIT
// ignore_for_file: unused_import

";

const BUFFERS_IMPORTS: &str = "import 'package:tech_paws_buffers/tech_paws_buffers.dart';
import 'package:tech_paws_buffers/primitives.dart';
";

#[test]
fn struct_model_with_default_constructor_and_factory() {
    assert_eq!(generate_struct_model(&point(true, false), "", true), POINT_MODEL);
}

#[test]
fn struct_model_without_default() {
    let expected = "class Point extends Base {
  int xPos;
  String label;

  Point({
    required this.xPos,
    required this.label,
  });
}
";
    assert_eq!(generate_struct_model(&point(true, false), " extends Base", false), expected);
}

#[test]
fn struct_model_of_an_empty_struct() {
    assert_eq!(generate_struct_model(&empty_struct(), "", true), EMPTY_MODEL);
    assert_eq!(
        generate_struct_model(&empty_struct(), "", false),
        "class Empty {\n  const Empty();\n}\n"
    );
}

#[test]
fn struct_emplace_codec_parts() {
    let node = point(true, false);
    assert_eq!(generate_struct_emplace_buffers_read(&node), POINT_READ);
    assert_eq!(generate_struct_emplace_buffers_write(&node), POINT_WRITE);
    assert_eq!(generate_struct_emplace_buffers_skip(&node), POINT_SKIP);
}

#[test]
fn struct_emplace_codec_class() {
    let expected = format!(
        "class PointEmplaceToBuffers implements EmplaceToBuffers<Point> {{\n  const PointEmplaceToBuffers()\n\n{}\n{}\n{}}}\n",
        POINT_READ, POINT_WRITE, POINT_SKIP
    );
    assert_eq!(generate_struct_emplace_buffers(&point(true, false)), expected);
    assert_eq!(
        generate_struct_buffers(&point(true, false)),
        format!("{}\n", expected)
    );
}

#[test]
fn struct_without_codecs_gets_none() {
    assert_eq!(generate_struct_buffers(&point(false, false)), "");
}

#[test]
fn enum_item_structs() {
    let node = shape();
    let idle = create_enum_item_struct_ast_node(&node, &node.items[0]);
    assert_eq!(idle.id, "ShapeIdle");
    assert!(idle.fields.is_empty());
    assert!(idle.emplace_buffers);
    assert!(!idle.into_buffers);
    let pair = create_enum_item_struct_ast_node(&node, &node.items[1]);
    assert_eq!(pair.id, "ShapePair");
    assert_eq!(pair.fields.len(), 1);
    assert_eq!(pair.fields[0].name, "v0");
    assert_eq!(pair.fields[0].position, 0);
    assert!(matches!(pair.fields[0].type_id, TypeIDASTNode::Integer { size: 4, .. }));
}

#[test]
fn enum_item_struct_keeps_struct_fields() {
    let node = EnumASTNode {
        id: String::from("Event"),
        items: vec![EnumItemASTNode::Struct {
            position: 0,
            id: String::from("Moved"),
            fields: vec![field(3, "dx", int32())],
        }],
    };
    let moved = create_enum_item_struct_ast_node(&node, &node.items[0]);
    assert_eq!(moved.id, "EventMoved");
    assert_eq!(moved.fields.len(), 1);
    assert_eq!(moved.fields[0].name, "dx");
    assert_eq!(moved.fields[0].position, 3);
}

#[test]
fn enum_model_with_empty_and_tuple_items() {
    assert_eq!(generate_enum_model(&shape()), SHAPE_MODEL);
}

const SHAPE_EMPLACE: &str = "class ShapeEmplaceToBuffers implements EmplaceToBuffers<Shape> {
  const ShapeEmplaceToBuffers();

  @override
  void read(BytesReader reader, Shape model) {
    final value = reader.readInt32();
    if (value == 0) {
      model.value = ShapeValue.idle;
      const ShapeIdleEmplaceToBuffers().read(reader, model.idle);
      return;
    }
    if (value == 1) {
      model.value = ShapeValue.pair;
      const ShapePairEmplaceToBuffers().read(reader, model.pair);
      return;
    }
  }

  @override
  void write(BytesWriter writer, Shape model) {
    if (model.value == ShapeValue.idle) {
      writer.writeInt32(0);
      const ShapeIdleEmplaceToBuffers().write(writer, model.idle);
      return;
    }
    if (model.value == ShapeValue.pair) {
      writer.writeInt32(1);
      const ShapePairEmplaceToBuffers().write(writer, model.pair);
      return;
    }
  }

  @override
  void skip(BytesReader reader, int count) {
    for (int i = 0; i < count; i += 1) {
      final value = reader.readInt32();
      if (value == 0) const ShapeIdleEmplaceToBuffers().skip(reader, 1);
      if (value == 1) const ShapePairEmplaceToBuffers().skip(reader, 1);
    }
  }
}
";

const SHAPE_INTO: &str = "class ShapeIntoBuffers implements IntoBuffers<Shape> {
  const ShapeIntoBuffers();

  @override
  Shape read(BytesReader reader) {
    final model = Shape();
    const ShapeEmplaceToBuffers().read(reader, model);
    return model;
  }

  @override
  void write(BytesWriter writer, Shape model) {
    const ShapeEmplaceToBuffers().write(writer, model);
  }

  @override
  void skip(BytesReader reader, int count) {
    const ShapeEmplaceToBuffers().skip(reader, count);
  }
}
";

const POINT_INTO_READ: &str = "  @override
  Point read(BytesReader reader) {
    return Point(
      xPos: reader.readInt32(),
      label: const StringIntoBuffers().read(reader),
    );
  }
";

#[test]
fn enum_codec_classes() {
    assert_eq!(generate_enum_emplace_buffers(&shape()), SHAPE_EMPLACE);
    assert_eq!(generate_enum_into_buffers(&shape()), SHAPE_INTO);
}

#[test]
fn enum_codecs_of_item_structs() {
    let node = shape();
    let idle = create_enum_item_struct_ast_node(&node, &node.items[0]);
    let pair = create_enum_item_struct_ast_node(&node, &node.items[1]);
    let expected = format!(
        "{}\n{}\n{}\n{}",
        generate_struct_emplace_buffers(&idle),
        generate_struct_emplace_buffers(&pair),
        SHAPE_INTO,
        SHAPE_EMPLACE
    );
    assert_eq!(generate_enum_buffers(&node), expected);
}

#[test]
fn enum_without_items_still_gets_its_codecs() {
    let node = EnumASTNode { id: String::from("Nothing"), items: vec![] };
    let text = generate_enum_buffers(&node);
    assert!(text.starts_with("class NothingIntoBuffers implements IntoBuffers<Nothing> {\n"));
    assert!(text.contains("class NothingEmplaceToBuffers implements EmplaceToBuffers<Nothing> {\n"));
}

#[test]
fn struct_creating_codec_class() {
    let node = point(false, true);
    assert_eq!(generate_struct_into_buffers_read(&node), POINT_INTO_READ);
    let expected = format!(
        "class PointIntoBuffers implements IntoBuffers<Point> {{\n  const PointIntoBuffers();\n\n{}\n{}\n{}}}\n",
        POINT_INTO_READ, POINT_WRITE, POINT_SKIP
    );
    assert_eq!(generate_struct_into_buffers(&node), expected);
    assert_eq!(generate_struct_buffers(&node), format!("{}\n", expected));
}

#[test]
fn struct_creating_codec_of_an_empty_struct() {
    assert_eq!(
        generate_struct_into_buffers_read(&empty_struct()),
        "  @override\n  Empty read(BytesReader reader) {\n    return const Empty();\n  }\n"
    );
}

#[test]
fn struct_with_both_codecs_gets_in_place_then_creating() {
    let node = point(true, true);
    let expected = format!(
        "{}\n{}\n",
        generate_struct_emplace_buffers(&node),
        generate_struct_into_buffers(&node)
    );
    assert_eq!(generate_struct_buffers(&node), expected);
}

#[test]
fn reads_and_writes_use_the_same_codec() {
    let list_of_short = TypeIDASTNode::Generic {
        id: String::from("Vec"),
        generics: vec![TypeIDASTNode::Integer { id: String::from("i16"), size: 2, signed: true }],
    };
    assert_eq!(
        generate_read(&list_of_short),
        "const ListIntoBuffers<int>(const IntIntoBuffers()).read(reader)"
    );
    assert_eq!(
        generate_write(&list_of_short, "v"),
        "const ListIntoBuffers<int>(const IntIntoBuffers()).write(writer, v);"
    );
    assert_eq!(
        generate_read_skip(&list_of_short),
        "const ListIntoBuffers<int>(const IntIntoBuffers()).skip(reader, 1);"
    );
    assert_eq!(generate_read(&int32()), "reader.readInt32()");
    assert_eq!(generate_write(&int32(), "v"), "writer.writeInt32(v);");
    assert_eq!(generate_read_skip(&int32()), "reader.readInt32();");
}

#[test]
fn models_of_a_schema() {
    let ast = vec![ASTNode::Struct(point(true, false)), ASTNode::Struct(empty_struct())];
    assert_eq!(generate_models(&ast), format!("{}\n{}", POINT_MODEL, EMPTY_MODEL));
    let ast = vec![ASTNode::Enum(shape())];
    assert_eq!(generate_models(&ast), SHAPE_MODEL);
    assert_eq!(generate_models(&[]), "");
}

#[test]
fn buffers_of_a_schema() {
    let ast = vec![ASTNode::Struct(point(true, false))];
    let expected = format!("{}\n", generate_struct_emplace_buffers(&point(true, false)));
    assert_eq!(generate_buffers(&ast), expected);
    assert_eq!(generate_buffers(&[]), "");
}

#[test]
fn generate_file_without_items() {
    let expected = format!("{}{}", HEADER, BUFFERS_IMPORTS);
    assert_eq!(generate(&[], true, true, true), expected);
    assert_eq!(generate(&[], false, false, false), "// GENERATED, DO NOT EDIT\n// ignore_for_file: unused_import\n");
}

#[test]
fn generate_file_with_models_and_imports() {
    let ast = vec![
        ASTNode::DirectiveGroup {
            id: String::from("dart"),
            values: vec![IdValuePair {
                id: String::from("import"),
                value: string_literal("package:foo/foo.dart"),
            }],
        },
        ASTNode::Struct(point(true, false)),
    ];
    let expected = format!(
        "{}import 'package:foo/foo.dart';\n\n{}",
        HEADER, POINT_MODEL
    );
    assert_eq!(generate(&ast, true, false, false), expected);
}

#[test]
fn rpc_without_functions_is_empty() {
    let ast = vec![ASTNode::Struct(point(true, false))];
    assert_eq!(generate_rpc_methods(&ast), "");
    assert_eq!(generate_rpc(&ast), "");
}

fn greeting_schema() -> Vec<ASTNode> {
    vec![
        ASTNode::Directive(IdValuePair {
            id: String::from("namespace"),
            value: string_literal("my_app"),
        }),
        ASTNode::Fn(FnASTNode {
            id: String::from("say_hello"),
            args: vec![FnArgASTNode { id: String::from("name"), type_id: other("String") }],
            return_type_id: Some(other("String")),
        }),
    ]
}

#[test]
fn rpc_client_of_one_function() {
    let text = generate_rpc_methods(&greeting_schema());
    assert!(text.starts_with(
        "class __say_hello_rpc_args__ {\n  String name;\n\n  __say_hello_rpc_args__({\n    required this.name,\n  });\n}\n\n"
    ));
    assert!(text.contains(
        "class MyAppRpcClient {\n  final VMChannelScheduler _scheduler;\n  final _readSayHelloStreams <StreamController<String>>[];\n  final _readSayHelloTasks = <VMChannelReadTask>[];\n\n  MyAppRpcClient(this._scheduler);\n\n"
    ));
    assert!(text.contains(
        "  void disconnect() {\n    for (final task in _readSayHelloTasks) _scheduler.disconnect(task);\n    for (final controller in _readSayHelloStreams) controller.close();\n  }\n\n"
    ));
    assert!(text.contains("  Stream<String> readSayHello() {\n"));
    assert!(text.contains("        controller.add(const StringIntoBuffers().read(reader));\n"));
    assert!(text.contains(
        "  void writeSayHello({\n    required String name,\n  }) {\n    final args = __say_hello_rpc_args__(\n      name: name,\n    );\n\n"
    ));
    assert!(text.contains("      const __say_hello_rpc_args__IntoBuffers().write(writer, args);\n"));
    // The codec the client writes its arguments with is generated.
    assert!(text.contains(
        "class __say_hello_rpc_args__IntoBuffers implements IntoBuffers<__say_hello_rpc_args__> {\n"
    ));
    assert!(text.contains("    return __say_hello_rpc_args__(\n      name: const StringIntoBuffers().read(reader),\n    );\n"));
    assert!(text.contains("  Future<String> sayHello({\n"));
    assert!(text.ends_with("    return completer.future;\n  }\n}\n"));
}

#[test]
fn file_with_functions_imports_the_runtime() {
    let text = generate(&greeting_schema(), false, false, true);
    assert!(text.starts_with(
        "// GENERATED, DO NOT EDIT\n// ignore_for_file: unused_import\n\nimport 'dart:async';\nimport 'dart:convert';\n\nimport 'package:tech_paws_buffers/tech_paws_buffers.dart';\nimport 'package:tech_paws_buffers/primitives.dart';\nimport 'package:tech_paws_runtime/scheduler.dart';\nimport 'package:tech_paws_runtime/tech_paws_runtime.dart';\n\nclass __say_hello_rpc_args__ {\n"
    ));
    assert!(!text.ends_with("\n\n"));
}

#[test]
fn schema_queries() {
    let mut ast = greeting_schema();
    ast.push(ASTNode::Directive(IdValuePair {
        id: String::from("namespace"),
        value: string_literal("second"),
    }));
    ast.push(ASTNode::DirectiveGroup {
        id: String::from("dart"),
        values: vec![
            IdValuePair { id: String::from("import"), value: string_literal("a.dart") },
            IdValuePair { id: String::from("other"), value: string_literal("x") },
            IdValuePair { id: String::from("import"), value: string_literal("b.dart") },
        ],
    });
    ast.push(ASTNode::DirectiveGroup {
        id: String::from("rust"),
        values: vec![IdValuePair { id: String::from("import"), value: string_literal("c") }],
    });

    let fns = find_fn_nodes(&ast);
    assert_eq!(fns.len(), 1);
    assert_eq!(fns[0].id, "say_hello");

    match find_directive_value("namespace", &ast) {
        Some(ConstValueASTNode::Literal { literal: Literal::StringLiteral(s) }) => {
            assert_eq!(s, "my_app")
        },
        other => panic!("unexpected namespace {:?}", other),
    }
    assert!(find_directive_value("missing", &ast).is_none());

    let imports: Vec<&str> = find_directive_group_values(&ast, "dart", "import")
        .into_iter()
        .map(|c| match c {
            ConstValueASTNode::Literal { literal: Literal::StringLiteral(s) } => s.as_str(),
            _ => panic!("not a string"),
        })
        .collect();
    assert_eq!(imports, vec!["a.dart", "b.dart"]);
}

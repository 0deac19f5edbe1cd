use tpb_codegen::dart_generator::{
    generate_class_prefix, generate_const_value, generate_default_const, generate_option_type_id,
    generate_read, generate_read_emplace, generate_read_skip, generate_read_skip_emplace,
    generate_type_id, generate_write, generate_write_emplace,
};
use tpb_codegen::lexer::Literal;
use tpb_codegen::ast::{ConstValueASTNode, TypeIDASTNode};

fn integer(size: u32) -> TypeIDASTNode {
    TypeIDASTNode::Integer { id: String::from("i"), size, signed: true }
}

fn number(size: u32) -> TypeIDASTNode {
    TypeIDASTNode::Number { id: String::from("f"), size }
}

fn other(id: &str) -> TypeIDASTNode {
    TypeIDASTNode::Other { id: String::from(id) }
}

fn generic(id: &str, generics: Vec<TypeIDASTNode>) -> TypeIDASTNode {
    TypeIDASTNode::Generic { id: String::from(id), generics }
}

#[test]
fn dart_types_of_schema_types() {
    assert_eq!(generate_type_id(&integer(4)), "int");
    assert_eq!(generate_type_id(&number(8)), "double");
    assert_eq!(generate_type_id(&TypeIDASTNode::Bool { id: String::from("bool") }), "bool");
    assert_eq!(generate_type_id(&TypeIDASTNode::Char { id: String::from("char") }), "int");
    assert_eq!(generate_type_id(&other("Point")), "Point");
    assert_eq!(generate_type_id(&generic("Vec", vec![integer(4)])), "List<int>");
    assert_eq!(
        generate_type_id(&generic("Map", vec![other("String"), generic("Vec", vec![number(4)])])),
        "Map<String, List<double>>"
    );
    assert_eq!(generate_type_id(&generic("Empty", vec![])), "Empty<>");
}

#[test]
fn class_prefixes_and_optional_types() {
    assert_eq!(generate_class_prefix(&integer(1)), "Int");
    assert_eq!(generate_class_prefix(&number(4)), "Double");
    assert_eq!(generate_class_prefix(&TypeIDASTNode::Bool { id: String::from("bool") }), "Bool");
    assert_eq!(generate_class_prefix(&TypeIDASTNode::Char { id: String::from("char") }), "Int");
    assert_eq!(generate_class_prefix(&other("Point")), "Point");
    assert_eq!(generate_class_prefix(&generic("Vec", vec![integer(4)])), "List");
    assert_eq!(generate_class_prefix(&generic("Map", vec![integer(4), integer(4)])), "Map");
    assert_eq!(generate_option_type_id(&None), "void");
    assert_eq!(generate_option_type_id(&Some(generic("Vec", vec![other("A")]))), "List<A>");
}

#[test]
fn reads_of_each_kind_of_type() {
    assert_eq!(generate_read(&integer(1)), "reader.readInt8()");
    assert_eq!(generate_read(&integer(4)), "reader.readInt32()");
    assert_eq!(generate_read(&integer(8)), "reader.readInt64()");
    assert_eq!(generate_read(&number(4)), "reader.readFloat()");
    assert_eq!(generate_read(&number(8)), "reader.readDouble()");
    assert_eq!(generate_read(&TypeIDASTNode::Bool { id: String::from("bool") }), "reader.readBool()");
    assert_eq!(generate_read(&TypeIDASTNode::Char { id: String::from("char") }), "reader.readInt8()");
    assert_eq!(generate_read(&other("Point")), "const PointIntoBuffers().read(reader)");
    assert_eq!(
        generate_read(&generic("Vec", vec![other("Point")])),
        "const ListIntoBuffers<Point>(const PointIntoBuffers()).read(reader)"
    );
    assert_eq!(
        generate_read(&generic("Vec", vec![integer(4)])),
        "const ListIntoBuffers<int>(const IntIntoBuffers()).read(reader)"
    );
    assert_eq!(
        generate_read(&generic("Map", vec![other("String"), integer(8)])),
        "const MapIntoBuffers<String, int>().read(reader)"
    );
    assert_eq!(
        generate_read(&generic("Vec", vec![integer(4), integer(4)])),
        "const VecIntoBuffers<int, int>().read(reader)"
    );
}

#[test]
fn default_values() {
    assert_eq!(generate_default_const(&integer(4)), "0");
    assert_eq!(generate_default_const(&number(4)), "0.0");
    assert_eq!(generate_default_const(&TypeIDASTNode::Bool { id: String::from("bool") }), "false");
    assert_eq!(generate_default_const(&TypeIDASTNode::Char { id: String::from("char") }), "0");
    assert_eq!(
        generate_default_const(&other("Point")),
        "const PointBuffersFactory().createDefault()"
    );
    assert_eq!(
        generate_default_const(&generic("Vec", vec![integer(4)])),
        "const ListBuffersFactory<int>().createDefault()"
    );
    assert_eq!(
        generate_default_const(&generic("Map", vec![other("K"), other("V")])),
        "const MapBuffersFactory<K, V>().createDefault()"
    );
}

#[test]
fn reads_in_place() {
    assert_eq!(
        generate_read_emplace(&other("String"), "model.name"),
        "model.name = const StringIntoBuffers().read(reader);"
    );
    assert_eq!(
        generate_read_emplace(&other("Point"), "model.p"),
        "const PointEmplaceToBuffers().read(reader, model.p);"
    );
    assert_eq!(
        generate_read_emplace(&generic("Vec", vec![other("Point")]), "model.ps"),
        "const ListEmplaceToBuffers<Point>(const PointIntoBuffers()).read(reader, model.ps);"
    );
    assert_eq!(
        generate_read_emplace(&generic("Map", vec![integer(4), other("B")]), "m"),
        "const MapEmplaceToBuffers<int, B>().read(reader, m);"
    );
    assert_eq!(generate_read_emplace(&integer(8), "model.x"), "model.x = reader.readInt64();");
}

#[test]
fn skips() {
    assert_eq!(generate_read_skip(&TypeIDASTNode::Bool { id: String::from("b") }), "reader.readBool();");
    assert_eq!(generate_read_skip(&other("Point")), "const PointIntoBuffers().skip(reader, 1);");
    assert_eq!(generate_read_skip(&other("String")), "const StringIntoBuffers().skip(reader, 1);");
    assert_eq!(
        generate_read_skip(&generic("Vec", vec![other("P")])),
        "const ListIntoBuffers<P>(const PIntoBuffers()).skip(reader, 1);"
    );
    assert_eq!(
        generate_read_skip(&generic("Map", vec![integer(1), integer(1)])),
        "const MapIntoBuffers<int, int>().skip(reader, 1);"
    );
    assert_eq!(generate_read_skip_emplace(&integer(4)), "reader.readInt32();");
    assert_eq!(
        generate_read_skip_emplace(&other("String")),
        "const StringIntoBuffers().skip(reader, 1);"
    );
    assert_eq!(
        generate_read_skip_emplace(&other("Point")),
        "const PointEmplaceToBuffers().skip(reader, 1);"
    );
    assert_eq!(
        generate_read_skip_emplace(&generic("Vec", vec![other("P")])),
        "const ListEmplaceToBuffers<P>(const PIntoBuffers()).skip(reader, 1);"
    );
    assert_eq!(
        generate_read_skip_emplace(&generic("Map", vec![integer(1), integer(1)])),
        "const MapEmplaceToBuffers<int, int>().skip(reader, 1);"
    );
}

#[test]
fn writes() {
    assert_eq!(generate_write(&integer(1), "v"), "writer.writeInt8(v);");
    assert_eq!(generate_write(&integer(4), "v"), "writer.writeInt32(v);");
    assert_eq!(generate_write(&integer(8), "v"), "writer.writeInt64(v);");
    assert_eq!(generate_write(&number(4), "v"), "writer.writeFloat(v);");
    assert_eq!(generate_write(&number(8), "v"), "writer.writeDouble(v);");
    assert_eq!(generate_write(&TypeIDASTNode::Bool { id: String::from("b") }, "v"), "writer.writeBool(v);");
    assert_eq!(generate_write(&TypeIDASTNode::Char { id: String::from("c") }, "v"), "writer.writeInt8(v);");
    assert_eq!(generate_write(&other("Point"), "v"), "const PointIntoBuffers().write(writer, v);");
    assert_eq!(
        generate_write(&generic("Vec", vec![other("P")]), "v"),
        "const ListIntoBuffers<P>(const PIntoBuffers()).write(writer, v);"
    );
    assert_eq!(
        generate_write(&generic("Map", vec![other("K"), integer(4)]), "v"),
        "const MapIntoBuffers<K, int>().write(writer, v);"
    );
    assert_eq!(
        generate_write_emplace(&other("String"), "v"),
        "const StringIntoBuffers().write(writer, v);"
    );
    assert_eq!(
        generate_write_emplace(&other("Point"), "v"),
        "const PointEmplaceToBuffers().write(writer, v);"
    );
    assert_eq!(
        generate_write_emplace(&generic("Vec", vec![other("P")]), "v"),
        "const ListEmplaceToBuffers<P>(const PIntoBuffers()).write(writer, v);"
    );
    assert_eq!(
        generate_write_emplace(&generic("Map", vec![other("K"), integer(4)]), "v"),
        "const MapEmplaceToBuffers<K, int>().write(writer, v);"
    );
    assert_eq!(generate_write_emplace(&integer(4), "v"), "writer.writeInt32(v);");
}

#[test]
fn emplace_codecs_agree_with_plain_ones_on_builtin_types_and_strings() {
    for t in [integer(1), integer(8), number(4), TypeIDASTNode::Char { id: String::from("c") }, other("String")] {
        assert_eq!(generate_write_emplace(&t, "m.x"), generate_write(&t, "m.x"));
        assert_eq!(generate_read_skip_emplace(&t), generate_read_skip(&t));
        assert_eq!(generate_read_emplace(&t, "m.x"), format!("m.x = {};", generate_read(&t)));
    }
}

#[test]
fn class_prefix_is_the_type_name_without_arguments() {
    let t = generic("Vec", vec![other("P")]);
    assert_eq!(generate_type_id(&t), format!("{}<P>", generate_class_prefix(&t)));
    assert_eq!(generate_type_id(&other("Q")), generate_class_prefix(&other("Q")));
}

#[test]
fn constant_values() {
    let lit = |literal| ConstValueASTNode::Literal { literal };
    assert_eq!(generate_const_value(&lit(Literal::StringLiteral(String::from("hi")))), "\"hi\"");
    assert_eq!(generate_const_value(&lit(Literal::IntLiteral(0))), "0");
    assert_eq!(generate_const_value(&lit(Literal::IntLiteral(1234567890))), "1234567890");
    assert_eq!(generate_const_value(&lit(Literal::IntLiteral(u64::MAX))), "18446744073709551615");
    assert_eq!(generate_const_value(&lit(Literal::NumberLiteral(String::from("2.50")))), "2.50");
    assert_eq!(generate_const_value(&lit(Literal::BoolLiteral(true))), "true");
    assert_eq!(generate_const_value(&lit(Literal::BoolLiteral(false))), "false");
}

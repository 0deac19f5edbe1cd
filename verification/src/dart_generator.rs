use vstd::prelude::*;
use vstd::string::*;

use crate::lexer::{Literal, LiteralView};
use crate::dart::enum_models::{create_enum_item_struct_ast_node, enum_item_struct};
use crate::ast::{directive_group_values, find_directive_group_values, find_fn_nodes, fn_nodes};
use crate::dart::rpc::{generate_rpc_methods, rpc_methods, rpc_ready};
use crate::dart::struct_emplace_to_buffers::{emplace_buffers, fields_supported, generate_struct_emplace_buffers};
use crate::dart::struct_into_buffers::{generate_struct_into_buffers, into_buffers};
use crate::dart::enum_into_buffers::{enum_into_buffers, generate_enum_into_buffers};
use crate::dart::enum_emplace_buffers::{enum_emplace_buffers, generate_enum_emplace_buffers};
use crate::ast::{
    ast_view, ASTNode, AstView, item_id, lemma_type_id_views, ConstValueASTNode, ConstValueView, EnumASTNode, EnumItemASTNode,
    EnumItemView, EnumView, StructASTNode, StructFieldASTNode, StructFieldView, StructView,
    TupleFieldASTNode, TupleFieldView, TypeIDASTNode, TypeIdView,
};
use crate::text::{
    cat2, cat3, cat4, cat5, cat6, cat7, decimal, decimal_string, lemma_occurs_between,
    lemma_occurs_in_prefix, lemma_occurs_in_suffix, lemma_occurs_within, occurs_at, occurs_in,
    str_eq,
};
use crate::writer::{indented, indented_line, line, Writer};
use crate::casing::{camel, pascal, to_case, TextCase};

verus! {

// ---------------------------------------------------------------------------
// Layout of the generated code: two spaces per indentation level.
// ---------------------------------------------------------------------------

/// `s` indented by `level` levels.
pub open spec fn tab_text(level: nat, s: Seq<char>) -> Seq<char> {
    indented(level * 2, s)
}

/// The line `s`, indented by `level` levels.
pub open spec fn tab_line(level: nat, s: Seq<char>) -> Seq<char> {
    indented_line(level * 2, s)
}

// ---------------------------------------------------------------------------
// Dart spelling of schema types.
// ---------------------------------------------------------------------------

/// `Vec` is spelled `List` in Dart; other names stay.
pub open spec fn list_or(id: Seq<char>) -> Seq<char> {
    if id == "Vec"@ {
        "List"@
    } else {
        id
    }
}

/// The Dart type of a schema type.
pub open spec fn dart_type(t: TypeIdView) -> Seq<char>
    decreases t,
{
    match t {
        TypeIdView::Integer { .. } => "int"@,
        TypeIdView::Number { .. } => "double"@,
        TypeIdView::Bool { .. } => "bool"@,
        TypeIdView::Char { .. } => "int"@,
        TypeIdView::Other { id } => id,
        TypeIdView::Generic { id, generics } => list_or(id) + "<"@ + type_args(generics) + ">"@,
    }
}

/// The Dart types of type arguments, separated by `, `.
pub open spec fn type_args(ts: Seq<TypeIdView>) -> Seq<char>
    decreases ts,
{
    if ts.len() == 0 {
        seq![]
    } else if ts.len() == 1 {
        dart_type(ts[0])
    } else {
        type_args(ts.drop_last()) + ", "@ + dart_type(ts.last())
    }
}

/// The prefix of the codec class names for a schema type.
pub open spec fn class_prefix(t: TypeIdView) -> Seq<char> {
    match t {
        TypeIdView::Integer { .. } => "Int"@,
        TypeIdView::Number { .. } => "Double"@,
        TypeIdView::Bool { .. } => "Bool"@,
        TypeIdView::Char { .. } => "Int"@,
        TypeIdView::Other { id } => id,
        TypeIdView::Generic { id, .. } => list_or(id),
    }
}

/// The Dart type of an optional schema type; `void` for none.
pub open spec fn option_dart_type(t: Option<TypeIdView>) -> Seq<char> {
    match t {
        Some(t) => dart_type(t),
        None => "void"@,
    }
}

/// A `Vec` with a single type argument: encoded as a Dart list.
pub open spec fn is_list(t: TypeIdView) -> bool {
    t matches TypeIdView::Generic { id, generics } && id == "Vec"@ && generics.len() == 1
}

/// The element type of a list type.
pub open spec fn list_item(t: TypeIdView) -> TypeIdView {
    match t {
        TypeIdView::Generic { generics, .. } => generics[0],
        _ => t,
    }
}

/// The named user type `String`, which is always read into a new value.
pub open spec fn is_string(t: TypeIdView) -> bool {
    t matches TypeIdView::Other { id } && id == "String"@
}

/// The sizes the binary codecs support: 1, 4 and 8 byte integers, 4 and
/// 8 byte numbers. Only the type itself counts: the type arguments of a
/// generic type are only named by its codec, so any size is fine there.
pub open spec fn supported_size(t: TypeIdView) -> bool {
    match t {
        TypeIdView::Integer { size, .. } => size == 1 || size == 4 || size == 8,
        TypeIdView::Number { size, .. } => size == 4 || size == 8,
        _ => true,
    }
}

/// `const ListIntoBuffers<T>(const PIntoBuffers())` for a list of `T`.
pub open spec fn list_codec(t: TypeIdView, codec: Seq<char>) -> Seq<char> {
    "const List"@ + codec + "<"@ + dart_type(list_item(t)) + ">(const "@ + class_prefix(list_item(t))
        + "IntoBuffers())"@
}

/// `const <Name><codec><<args>>()` for a generic type.
pub open spec fn generic_codec(id: Seq<char>, generics: Seq<TypeIdView>, codec: Seq<char>) -> Seq<
    char,
> {
    "const "@ + id + codec + "<"@ + type_args(generics) + ">()"@
}

/// The Dart expression that reads a value of type `t`.
pub open spec fn read_expr(t: TypeIdView) -> Seq<char> {
    match t {
        TypeIdView::Integer { size, .. } => if size == 1 {
            "reader.readInt8()"@
        } else if size == 4 {
            "reader.readInt32()"@
        } else {
            "reader.readInt64()"@
        },
        TypeIdView::Number { size, .. } => if size == 4 {
            "reader.readFloat()"@
        } else {
            "reader.readDouble()"@
        },
        TypeIdView::Bool { .. } => "reader.readBool()"@,
        TypeIdView::Char { .. } => "reader.readInt8()"@,
        TypeIdView::Other { id } => "const "@ + id + "IntoBuffers().read(reader)"@,
        TypeIdView::Generic { id, generics } => if is_list(t) {
            list_codec(t, "IntoBuffers"@) + ".read(reader)"@
        } else {
            generic_codec(id, generics, "IntoBuffers"@) + ".read(reader)"@
        },
    }
}

/// The Dart expression that makes the default value of type `t`.
pub open spec fn default_const(t: TypeIdView) -> Seq<char> {
    match t {
        TypeIdView::Integer { .. } => "0"@,
        TypeIdView::Number { .. } => "0.0"@,
        TypeIdView::Bool { .. } => "false"@,
        TypeIdView::Char { .. } => "0"@,
        TypeIdView::Other { id } => "const "@ + id + "BuffersFactory().createDefault()"@,
        TypeIdView::Generic { id, generics } => generic_codec(
            list_or(id),
            generics,
            "BuffersFactory"@,
        ) + ".createDefault()"@,
    }
}

/// The Dart statement that reads a value of type `t` into `acc`.
pub open spec fn read_emplace_stmt(t: TypeIdView, acc: Seq<char>) -> Seq<char> {
    match t {
        TypeIdView::Other { id } => if id == "String"@ {
            acc + " = const "@ + id + "IntoBuffers().read(reader);"@
        } else {
            "const "@ + id + "EmplaceToBuffers().read(reader, "@ + acc + ");"@
        },
        TypeIdView::Generic { id, generics } => if is_list(t) {
            list_codec(t, "EmplaceToBuffers"@) + ".read(reader, "@ + acc + ");"@
        } else {
            generic_codec(id, generics, "EmplaceToBuffers"@) + ".read(reader, "@ + acc + ");"@
        },
        _ => acc + " = "@ + read_expr(t) + ";"@,
    }
}

/// The Dart statement that skips one value of type `t`.
pub open spec fn read_skip_stmt(t: TypeIdView) -> Seq<char> {
    match t {
        TypeIdView::Other { id } => "const "@ + id + "IntoBuffers().skip(reader, 1);"@,
        TypeIdView::Generic { id, generics } => if is_list(t) {
            list_codec(t, "IntoBuffers"@) + ".skip(reader, 1);"@
        } else {
            generic_codec(id, generics, "IntoBuffers"@) + ".skip(reader, 1);"@
        },
        _ => read_expr(t) + ";"@,
    }
}

/// The Dart statement that skips one value of type `t` read in place.
pub open spec fn read_skip_emplace_stmt(t: TypeIdView) -> Seq<char> {
    match t {
        TypeIdView::Other { id } => if id == "String"@ {
            "const "@ + id + "IntoBuffers().skip(reader, 1);"@
        } else {
            "const "@ + id + "EmplaceToBuffers().skip(reader, 1);"@
        },
        TypeIdView::Generic { id, generics } => if is_list(t) {
            list_codec(t, "EmplaceToBuffers"@) + ".skip(reader, 1);"@
        } else {
            generic_codec(id, generics, "EmplaceToBuffers"@) + ".skip(reader, 1);"@
        },
        _ => read_expr(t) + ";"@,
    }
}

/// The Dart statement that writes `acc`, of type `t`.
pub open spec fn write_stmt(t: TypeIdView, acc: Seq<char>) -> Seq<char> {
    match t {
        TypeIdView::Integer { size, .. } => if size == 1 {
            "writer.writeInt8("@ + acc + ");"@
        } else if size == 4 {
            "writer.writeInt32("@ + acc + ");"@
        } else {
            "writer.writeInt64("@ + acc + ");"@
        },
        TypeIdView::Number { size, .. } => if size == 4 {
            "writer.writeFloat("@ + acc + ");"@
        } else {
            "writer.writeDouble("@ + acc + ");"@
        },
        TypeIdView::Bool { .. } => "writer.writeBool("@ + acc + ");"@,
        TypeIdView::Char { .. } => "writer.writeInt8("@ + acc + ");"@,
        TypeIdView::Other { id } => "const "@ + id + "IntoBuffers().write(writer, "@ + acc + ");"@,
        TypeIdView::Generic { id, generics } => if is_list(t) {
            list_codec(t, "IntoBuffers"@) + ".write(writer, "@ + acc + ");"@
        } else {
            generic_codec(id, generics, "IntoBuffers"@) + ".write(writer, "@ + acc + ");"@
        },
    }
}

/// The Dart statement that writes `acc`, of type `t`, from its place.
pub open spec fn write_emplace_stmt(t: TypeIdView, acc: Seq<char>) -> Seq<char> {
    match t {
        TypeIdView::Other { id } => if id == "String"@ {
            "const "@ + id + "IntoBuffers().write(writer, "@ + acc + ");"@
        } else {
            "const "@ + id + "EmplaceToBuffers().write(writer, "@ + acc + ");"@
        },
        TypeIdView::Generic { id, generics } => if is_list(t) {
            list_codec(t, "EmplaceToBuffers"@) + ".write(writer, "@ + acc + ");"@
        } else {
            generic_codec(id, generics, "EmplaceToBuffers"@) + ".write(writer, "@ + acc + ");"@
        },
        _ => write_stmt(t, acc),
    }
}

/// The Dart spelling of a constant.
pub open spec fn const_value(c: ConstValueView) -> Seq<char> {
    match c {
        ConstValueView::Literal { literal } => match literal {
            LiteralView::Str(v) => "\""@ + v + "\""@,
            LiteralView::Int(v) => decimal(v as nat),
            LiteralView::Number(text) => text,
            LiteralView::Bool(b) => if b {
                "true"@
            } else {
                "false"@
            },
        },
    }
}


/// A built-in type: an integer, a number, a boolean or a character.
pub open spec fn is_builtin(t: TypeIdView) -> bool {
    !(t is Other) && !(t is Generic)
}

/// In-place and plain codecs agree on every type that is not generic and
/// not a user type other than `String`: such a value is read in place by
/// assigning a fresh read, and it is skipped and written as the plain codec
/// does.
pub proof fn lemma_emplace_codecs_agree(t: TypeIdView, acc: Seq<char>)
    requires
        is_builtin(t) || is_string(t),
    ensures
        read_emplace_stmt(t, acc) == acc + " = "@ + read_expr(t) + ";"@,
        read_skip_emplace_stmt(t) == read_skip_stmt(t),
        write_emplace_stmt(t, acc) == write_stmt(t, acc),
{
    if is_string(t) {
        reveal_strlit(" = const ");
        reveal_strlit(" = ");
        reveal_strlit("const ");
        assert(" = const "@ =~= " = "@ + "const "@);
        let id = t->Other_id;
        assert(acc + " = const "@ + id + "IntoBuffers().read(reader);"@ =~= acc + " = "@ + (
        "const "@ + id + "IntoBuffers().read(reader)"@) + ";"@) by {
            reveal_strlit("IntoBuffers().read(reader);");
            reveal_strlit("IntoBuffers().read(reader)");
            reveal_strlit(";");
        }
    }
}

/// Skipping a value of a built-in type reads it and drops the result.
pub proof fn lemma_builtin_skip_is_read(t: TypeIdView)
    requires
        is_builtin(t),
    ensures
        read_skip_stmt(t) == read_expr(t) + ";"@,
        read_skip_emplace_stmt(t) == read_expr(t) + ";"@,
{
}

/// The name of the reader and writer methods of a built-in type.
pub open spec fn builtin_kind(t: TypeIdView) -> Seq<char> {
    match t {
        TypeIdView::Integer { size, .. } => if size == 1 {
            "Int8"@
        } else if size == 4 {
            "Int32"@
        } else {
            "Int64"@
        },
        TypeIdView::Number { size, .. } => if size == 4 {
            "Float"@
        } else {
            "Double"@
        },
        TypeIdView::Bool { .. } => "Bool"@,
        TypeIdView::Char { .. } => "Int8"@,
        _ => seq![],
    }
}

/// The creating codec object of a user type or a generic type.
pub open spec fn into_codec(t: TypeIdView) -> Seq<char> {
    match t {
        TypeIdView::Other { id } => "const "@ + id + "IntoBuffers()"@,
        TypeIdView::Generic { id, generics } => if is_list(t) {
            list_codec(t, "IntoBuffers"@)
        } else {
            generic_codec(id, generics, "IntoBuffers"@)
        },
        _ => seq![],
    }
}

/// A value is written with the codec it is read with: a built-in type by
/// the reader and writer methods of the same name, any other type by the
/// same codec object, which also skips it.
pub proof fn lemma_read_write_same_codec(t: TypeIdView, acc: Seq<char>)
    requires
        supported_size(t),
    ensures
        is_builtin(t) ==> read_expr(t) == "reader.read"@ + builtin_kind(t) + "()"@ && write_stmt(
            t,
            acc,
        ) == "writer.write"@ + builtin_kind(t) + "("@ + acc + ");"@ && read_skip_stmt(t)
            == read_expr(t) + ";"@,
        !is_builtin(t) ==> read_expr(t) == into_codec(t) + ".read(reader)"@ && write_stmt(t, acc)
            == into_codec(t) + ".write(writer, "@ + acc + ");"@ && read_skip_stmt(t) == into_codec(
            t,
        ) + ".skip(reader, 1);"@,
{
    reveal_strlit("reader.read");
    reveal_strlit("writer.write");
    reveal_strlit("()");
    reveal_strlit("(");
    match t {
        TypeIdView::Integer { size, .. } => {
            reveal_strlit("Int8");
            reveal_strlit("Int32");
            reveal_strlit("Int64");
            reveal_strlit("reader.readInt8()");
            reveal_strlit("reader.readInt32()");
            reveal_strlit("reader.readInt64()");
            reveal_strlit("writer.writeInt8(");
            reveal_strlit("writer.writeInt32(");
            reveal_strlit("writer.writeInt64(");
            if size == 1 {
                assert("reader.readInt8()"@ =~= "reader.read"@ + "Int8"@ + "()"@);
                assert("writer.writeInt8("@ =~= "writer.write"@ + "Int8"@ + "("@);
            } else if size == 4 {
                assert("reader.readInt32()"@ =~= "reader.read"@ + "Int32"@ + "()"@);
                assert("writer.writeInt32("@ =~= "writer.write"@ + "Int32"@ + "("@);
            } else {
                assert("reader.readInt64()"@ =~= "reader.read"@ + "Int64"@ + "()"@);
                assert("writer.writeInt64("@ =~= "writer.write"@ + "Int64"@ + "("@);
            }
        },
        TypeIdView::Number { size, .. } => {
            reveal_strlit("Float");
            reveal_strlit("Double");
            reveal_strlit("reader.readFloat()");
            reveal_strlit("reader.readDouble()");
            reveal_strlit("writer.writeFloat(");
            reveal_strlit("writer.writeDouble(");
            if size == 4 {
                assert("reader.readFloat()"@ =~= "reader.read"@ + "Float"@ + "()"@);
                assert("writer.writeFloat("@ =~= "writer.write"@ + "Float"@ + "("@);
            } else {
                assert("reader.readDouble()"@ =~= "reader.read"@ + "Double"@ + "()"@);
                assert("writer.writeDouble("@ =~= "writer.write"@ + "Double"@ + "("@);
            }
        },
        TypeIdView::Bool { .. } => {
            reveal_strlit("Bool");
            reveal_strlit("reader.readBool()");
            reveal_strlit("writer.writeBool(");
            assert("reader.readBool()"@ =~= "reader.read"@ + "Bool"@ + "()"@);
            assert("writer.writeBool("@ =~= "writer.write"@ + "Bool"@ + "("@);
        },
        TypeIdView::Char { .. } => {
            reveal_strlit("Int8");
            reveal_strlit("reader.readInt8()");
            reveal_strlit("writer.writeInt8(");
            assert("reader.readInt8()"@ =~= "reader.read"@ + "Int8"@ + "()"@);
            assert("writer.writeInt8("@ =~= "writer.write"@ + "Int8"@ + "("@);
        },
        TypeIdView::Other { id } => {
            reveal_strlit("IntoBuffers()");
            reveal_strlit(".read(reader)");
            reveal_strlit(".write(writer, ");
            reveal_strlit(".skip(reader, 1);");
            reveal_strlit("IntoBuffers().read(reader)");
            reveal_strlit("IntoBuffers().write(writer, ");
            reveal_strlit("IntoBuffers().skip(reader, 1);");
            assert("IntoBuffers().read(reader)"@ =~= "IntoBuffers()"@ + ".read(reader)"@);
            assert("IntoBuffers().write(writer, "@ =~= "IntoBuffers()"@ + ".write(writer, "@);
            assert("IntoBuffers().skip(reader, 1);"@ =~= "IntoBuffers()"@ + ".skip(reader, 1);"@);
            assert("const "@ + id + "IntoBuffers().read(reader)"@ =~= ("const "@ + id
                + "IntoBuffers()"@) + ".read(reader)"@);
            assert("const "@ + id + "IntoBuffers().write(writer, "@ + acc + ");"@ =~= ("const "@
                + id + "IntoBuffers()"@) + ".write(writer, "@ + acc + ");"@);
            assert("const "@ + id + "IntoBuffers().skip(reader, 1);"@ =~= ("const "@ + id
                + "IntoBuffers()"@) + ".skip(reader, 1);"@);
        },
        TypeIdView::Generic { .. } => {
            let c = into_codec(t);
            assert(c + ".write(writer, "@ + acc + ");"@ =~= c + ".write(writer, "@ + acc + ");"@);
        },
    }
}

/// The codec classes of a user type or a generic type are named after its
/// Dart type without the type arguments.
pub proof fn lemma_class_prefix_names_type(t: TypeIdView)
    requires
        !is_builtin(t),
    ensures
        t is Other ==> dart_type(t) == class_prefix(t),
        t is Generic ==> dart_type(t) == class_prefix(t) + "<"@ + type_args(t->Generic_generics)
            + ">"@,
{
}

// ---------------------------------------------------------------------------
// Executable spelling of schema types.
// ---------------------------------------------------------------------------

fn is_vec(id: &String) -> (r: bool)
    ensures
        r == (id@ == "Vec"@),
{
    str_eq(id.as_str(), "Vec")
}

fn is_string_id(id: &String) -> (r: bool)
    ensures
        r == (id@ == "String"@),
{
    str_eq(id.as_str(), "String")
}

fn list_name(id: &String) -> (r: String)
    ensures
        r@ == list_or(id@),
{
    if is_vec(id) {
        String::from_str("List")
    } else {
        id.clone()
    }
}

proof fn lemma_generics_view(type_id: &TypeIDASTNode)
    requires
        type_id matches TypeIDASTNode::Generic { .. },
    ensures
        type_id matches TypeIDASTNode::Generic { id, generics } && type_id@ == (TypeIdView::Generic {
            id: id@,
            generics: generics@.map_values(|g: TypeIDASTNode| g@),
        }),
{
    if let TypeIDASTNode::Generic { id, generics } = type_id {
        lemma_type_id_views(generics@);
    }
}

proof fn lemma_type_args_push(ts: Seq<TypeIdView>, i: int)
    requires
        0 <= i < ts.len(),
    ensures
        type_args(ts.take(i + 1)) == if i == 0 {
            dart_type(ts[0])
        } else {
            type_args(ts.take(i)) + ", "@ + dart_type(ts[i])
        },
{
    assert(ts.take(i + 1).drop_last() =~= ts.take(i));
}

/// Writes the Dart type of `type_id`.
pub fn generate_type_id(type_id: &TypeIDASTNode) -> (res: String)
    ensures
        res@ == dart_type(type_id@),
    decreases type_id,
{
    match type_id {
        TypeIDASTNode::Integer { .. } => String::from_str("int"),
        TypeIDASTNode::Number { .. } => String::from_str("double"),
        TypeIDASTNode::Bool { .. } => String::from_str("bool"),
        TypeIDASTNode::Char { .. } => String::from_str("int"),
        TypeIDASTNode::Other { id } => id.clone(),
        TypeIDASTNode::Generic { id, generics } => {
            proof {
                lemma_generics_view(type_id);
            }
            let mut res = list_name(id);
            res.append("<");
            let args = generate_type_args_of(type_id, generics);
            res.append(args.as_str());
            res.append(">");
            res
        },
    }
}

fn generate_type_args_of(parent: &TypeIDASTNode, generics: &Vec<TypeIDASTNode>) -> (res: String)
    requires
        parent matches TypeIDASTNode::Generic { generics: g, .. } && g == generics,
    ensures
        res@ == type_args(generics@.map_values(|g: TypeIDASTNode| g@)),
    decreases parent, 0nat,
{
    let ghost ts = generics@.map_values(|g: TypeIDASTNode| g@);
    let mut res = String::new();
    let mut i: usize = 0;
    while i < generics.len()
        invariant
            i <= generics.len(),
            ts == generics@.map_values(|g: TypeIDASTNode| g@),
            parent matches TypeIDASTNode::Generic { generics: g, .. } && g == generics,
            res@ == type_args(ts.take(i as int)),
        decreases generics.len() - i,
    {
        proof {
            lemma_type_args_push(ts, i as int);
        }
        if i > 0 {
            res.append(", ");
        }
        let g = generate_type_id(&generics[i]);
        res.append(g.as_str());
        i += 1;
    }
    assert(ts.take(i as int) =~= ts);
    res
}


/// Writes the prefix of the codec class names for `type_id`.
pub fn generate_class_prefix(type_id: &TypeIDASTNode) -> (res: String)
    ensures
        res@ == class_prefix(type_id@),
{
    match type_id {
        TypeIDASTNode::Integer { .. } => String::from_str("Int"),
        TypeIDASTNode::Number { .. } => String::from_str("Double"),
        TypeIDASTNode::Bool { .. } => String::from_str("Bool"),
        TypeIDASTNode::Char { .. } => String::from_str("Int"),
        TypeIDASTNode::Other { id } => id.clone(),
        TypeIDASTNode::Generic { id, .. } => list_name(id),
    }
}

/// Writes the Dart type of an optional type; `void` for none.
pub fn generate_option_type_id(type_id: &Option<TypeIDASTNode>) -> (res: String)
    ensures
        res@ == option_dart_type(
            match type_id {
                Some(t) => Some(t@),
                None => None,
            },
        ),
{
    match type_id {
        Some(type_id) => generate_type_id(type_id),
        None => String::from_str("void"),
    }
}

/// `const List<codec><T>(const <P>IntoBuffers())` for a list type.
fn list_codec_string(type_id: &TypeIDASTNode, codec: &str) -> (res: String)
    requires
        is_list(type_id@),
    ensures
        res@ == list_codec(type_id@, codec@),
{
    proof {
        lemma_generics_view(type_id);
    }
    match type_id {
        TypeIDASTNode::Generic { generics, .. } => {
            let item = &generics[0];
            let mut res = String::from_str("const List");
            res.append(codec);
            res.append("<");
            let t = generate_type_id(item);
            res.append(t.as_str());
            res.append(">(const ");
            let p = generate_class_prefix(item);
            res.append(p.as_str());
            res.append("IntoBuffers())");
            res
        },
        _ => {
            assert(false);
            String::new()
        },
    }
}

/// `const <id><codec><<args>>()` for a generic type.
fn generic_codec_string(type_id: &TypeIDASTNode, id: &str, codec: &str) -> (res: String)
    requires
        type_id is Generic,
    ensures
        res@ == generic_codec(id@, type_id@->Generic_generics, codec@),
{
    proof {
        lemma_generics_view(type_id);
    }
    match type_id {
        TypeIDASTNode::Generic { generics, .. } => {
            let mut res = String::from_str("const ");
            res.append(id);
            res.append(codec);
            res.append("<");
            let args = generate_type_args_of(type_id, generics);
            res.append(args.as_str());
            res.append(">()");
            res
        },
        _ => {
            assert(false);
            String::new()
        },
    }
}

fn is_list_type(type_id: &TypeIDASTNode) -> (r: bool)
    ensures
        r == is_list(type_id@),
{
    proof {
        if type_id is Generic {
            lemma_generics_view(type_id);
        }
    }
    match type_id {
        TypeIDASTNode::Generic { id, generics } => is_vec(id) && generics.len() == 1,
        _ => false,
    }
}

/// Writes the Dart expression that reads a value of type `type_id`.
pub fn generate_read(type_id: &TypeIDASTNode) -> (res: String)
    requires
        supported_size(type_id@),
    ensures
        res@ == read_expr(type_id@),
{
    match type_id {
        TypeIDASTNode::Integer { size, .. } => {
            if *size == 1 {
                String::from_str("reader.readInt8()")
            } else if *size == 4 {
                String::from_str("reader.readInt32()")
            } else {
                String::from_str("reader.readInt64()")
            }
        },
        TypeIDASTNode::Number { size, .. } => {
            if *size == 4 {
                String::from_str("reader.readFloat()")
            } else {
                String::from_str("reader.readDouble()")
            }
        },
        TypeIDASTNode::Bool { .. } => String::from_str("reader.readBool()"),
        TypeIDASTNode::Char { .. } => String::from_str("reader.readInt8()"),
        TypeIDASTNode::Other { id } => {
            let mut res = String::from_str("const ");
            res.append(id.as_str());
            res.append("IntoBuffers().read(reader)");
            res
        },
        TypeIDASTNode::Generic { id, .. } => {
            let mut res = if is_list_type(type_id) {
                list_codec_string(type_id, "IntoBuffers")
            } else {
                generic_codec_string(type_id, id.as_str(), "IntoBuffers")
            };
            res.append(".read(reader)");
            res
        },
    }
}

/// Writes the Dart expression that makes the default value of `type_id`.
pub fn generate_default_const(type_id: &TypeIDASTNode) -> (res: String)
    ensures
        res@ == default_const(type_id@),
{
    match type_id {
        TypeIDASTNode::Integer { .. } => String::from_str("0"),
        TypeIDASTNode::Number { .. } => String::from_str("0.0"),
        TypeIDASTNode::Bool { .. } => String::from_str("false"),
        TypeIDASTNode::Char { .. } => String::from_str("0"),
        TypeIDASTNode::Other { id } => {
            let mut res = String::from_str("const ");
            res.append(id.as_str());
            res.append("BuffersFactory().createDefault()");
            res
        },
        TypeIDASTNode::Generic { id, .. } => {
            let name = list_name(id);
            let mut res = generic_codec_string(type_id, name.as_str(), "BuffersFactory");
            res.append(".createDefault()");
            res
        },
    }
}

/// Writes the Dart statement that reads a value of type `type_id` into
/// `accessor`.
pub fn generate_read_emplace(type_id: &TypeIDASTNode, accessor: &str) -> (res: String)
    requires
        supported_size(type_id@),
    ensures
        res@ == read_emplace_stmt(type_id@, accessor@),
{
    match type_id {
        TypeIDASTNode::Other { id } => {
            if is_string_id(id) {
                let mut res = String::from_str(accessor);
                res.append(" = const ");
                res.append(id.as_str());
                res.append("IntoBuffers().read(reader);");
                res
            } else {
                let mut res = String::from_str("const ");
                res.append(id.as_str());
                res.append("EmplaceToBuffers().read(reader, ");
                res.append(accessor);
                res.append(");");
                res
            }
        },
        TypeIDASTNode::Generic { id, .. } => {
            let mut res = if is_list_type(type_id) {
                list_codec_string(type_id, "EmplaceToBuffers")
            } else {
                generic_codec_string(type_id, id.as_str(), "EmplaceToBuffers")
            };
            res.append(".read(reader, ");
            res.append(accessor);
            res.append(");");
            res
        },
        _ => {
            let mut res = String::from_str(accessor);
            res.append(" = ");
            let read = generate_read(type_id);
            res.append(read.as_str());
            res.append(";");
            res
        },
    }
}

/// Writes the Dart statement that skips one value of type `type_id`.
pub fn generate_read_skip(type_id: &TypeIDASTNode) -> (res: String)
    requires
        supported_size(type_id@),
    ensures
        res@ == read_skip_stmt(type_id@),
{
    match type_id {
        TypeIDASTNode::Other { id } => {
            let mut res = String::from_str("const ");
            res.append(id.as_str());
            res.append("IntoBuffers().skip(reader, 1);");
            res
        },
        TypeIDASTNode::Generic { id, .. } => {
            let mut res = if is_list_type(type_id) {
                list_codec_string(type_id, "IntoBuffers")
            } else {
                generic_codec_string(type_id, id.as_str(), "IntoBuffers")
            };
            res.append(".skip(reader, 1);");
            res
        },
        _ => {
            let mut res = generate_read(type_id);
            res.append(";");
            res
        },
    }
}

/// Writes the Dart statement that skips one value of type `type_id` that
/// is read in place.
pub fn generate_read_skip_emplace(type_id: &TypeIDASTNode) -> (res: String)
    requires
        supported_size(type_id@),
    ensures
        res@ == read_skip_emplace_stmt(type_id@),
{
    match type_id {
        TypeIDASTNode::Other { id } => {
            let mut res = String::from_str("const ");
            res.append(id.as_str());
            if is_string_id(id) {
                res.append("IntoBuffers().skip(reader, 1);");
            } else {
                res.append("EmplaceToBuffers().skip(reader, 1);");
            }
            res
        },
        TypeIDASTNode::Generic { id, .. } => {
            let mut res = if is_list_type(type_id) {
                list_codec_string(type_id, "EmplaceToBuffers")
            } else {
                generic_codec_string(type_id, id.as_str(), "EmplaceToBuffers")
            };
            res.append(".skip(reader, 1);");
            res
        },
        _ => {
            let mut res = generate_read(type_id);
            res.append(";");
            res
        },
    }
}

fn wrap_call(head: &str, accessor: &str) -> (res: String)
    ensures
        res@ == head@ + accessor@ + ");"@,
{
    let mut res = String::from_str(head);
    res.append(accessor);
    res.append(");");
    res
}

/// Writes the Dart statement that writes `accessor`, of type `type_id`.
pub fn generate_write(type_id: &TypeIDASTNode, accessor: &str) -> (res: String)
    requires
        supported_size(type_id@),
    ensures
        res@ == write_stmt(type_id@, accessor@),
{
    match type_id {
        TypeIDASTNode::Integer { size, .. } => {
            if *size == 1 {
                wrap_call("writer.writeInt8(", accessor)
            } else if *size == 4 {
                wrap_call("writer.writeInt32(", accessor)
            } else {
                wrap_call("writer.writeInt64(", accessor)
            }
        },
        TypeIDASTNode::Number { size, .. } => {
            if *size == 4 {
                wrap_call("writer.writeFloat(", accessor)
            } else {
                wrap_call("writer.writeDouble(", accessor)
            }
        },
        TypeIDASTNode::Bool { .. } => wrap_call("writer.writeBool(", accessor),
        TypeIDASTNode::Char { .. } => wrap_call("writer.writeInt8(", accessor),
        TypeIDASTNode::Other { id } => {
            let mut res = String::from_str("const ");
            res.append(id.as_str());
            res.append("IntoBuffers().write(writer, ");
            res.append(accessor);
            res.append(");");
            res
        },
        TypeIDASTNode::Generic { id, .. } => {
            let mut res = if is_list_type(type_id) {
                list_codec_string(type_id, "IntoBuffers")
            } else {
                generic_codec_string(type_id, id.as_str(), "IntoBuffers")
            };
            res.append(".write(writer, ");
            res.append(accessor);
            res.append(");");
            res
        },
    }
}

/// Writes the Dart statement that writes `accessor`, of type `type_id`,
/// from its place.
pub fn generate_write_emplace(type_id: &TypeIDASTNode, accessor: &str) -> (res: String)
    requires
        supported_size(type_id@),
    ensures
        res@ == write_emplace_stmt(type_id@, accessor@),
{
    match type_id {
        TypeIDASTNode::Other { id } => {
            let mut res = String::from_str("const ");
            res.append(id.as_str());
            if is_string_id(id) {
                res.append("IntoBuffers().write(writer, ");
            } else {
                res.append("EmplaceToBuffers().write(writer, ");
            }
            res.append(accessor);
            res.append(");");
            res
        },
        TypeIDASTNode::Generic { id, .. } => {
            let mut res = if is_list_type(type_id) {
                list_codec_string(type_id, "EmplaceToBuffers")
            } else {
                generic_codec_string(type_id, id.as_str(), "EmplaceToBuffers")
            };
            res.append(".write(writer, ");
            res.append(accessor);
            res.append(");");
            res
        },
        _ => generate_write(type_id, accessor),
    }
}

/// Writes the Dart spelling of a constant.
pub fn generate_const_value(node: &ConstValueASTNode) -> (res: String)
    ensures
        res@ == const_value(node@),
{
    match node {
        ConstValueASTNode::Literal { literal } => match literal {
            Literal::StringLiteral(value) => {
                let mut res = String::from_str("\"");
                res.append(value.as_str());
                res.append("\"");
                res
            },
            Literal::IntLiteral(value) => decimal_string(*value),
            Literal::NumberLiteral(text) => text.clone(),
            Literal::BoolLiteral(value) => {
                if *value {
                    String::from_str("true")
                } else {
                    String::from_str("false")
                }
            },
        },
    }
}


// ---------------------------------------------------------------------------
// Model classes of structs.
// ---------------------------------------------------------------------------

/// A field declaration for each field.
pub open spec fn field_decls(fields: Seq<StructFieldView>) -> Seq<char>
    decreases fields.len(),
{
    if fields.len() == 0 {
        seq![]
    } else {
        let f = fields.last();
        field_decls(fields.drop_last()) + tab_line(
            1,
            dart_type(f.type_id) + " "@ + camel(f.name) + ";"@,
        )
    }
}

/// A required constructor parameter for each field.
pub open spec fn required_params(fields: Seq<StructFieldView>) -> Seq<char>
    decreases fields.len(),
{
    if fields.len() == 0 {
        seq![]
    } else {
        required_params(fields.drop_last()) + tab_line(
            2,
            "required this."@ + camel(fields.last().name) + ","@,
        )
    }
}

/// `<field> = <default>` for a field.
pub open spec fn default_init(f: StructFieldView) -> Seq<char> {
    camel(f.name) + " = "@ + default_const(f.type_id)
}

/// The initialisers of the first fields of a struct with `n` fields: each
/// followed by `,` and a continuation indent, the last one by `;`.
pub open spec fn default_inits(fields: Seq<StructFieldView>, n: nat) -> Seq<char>
    decreases fields.len(),
{
    if fields.len() == 0 {
        seq![]
    } else {
        default_inits(fields.drop_last(), n) + default_init(fields.last()) + if fields.len() == n {
            line(";"@)
        } else {
            line(","@) + tab_text(3, "  "@)
        }
    }
}

/// The factory class that makes default models of `id`.
pub open spec fn factory_class(id: Seq<char>, create: Seq<char>) -> Seq<char> {
    line("class "@ + id + "BuffersFactory implements BuffersFactory<"@ + id + "> {"@) + tab_line(
        1,
        "const "@ + id + "BuffersFactory();"@,
    ) + line(""@) + tab_line(1, "@override"@) + tab_line(1, create) + line("}"@)
}

/// The model class of a struct (its name followed by `def`), with its
/// factory class when `generate_default`.
#[verifier::opaque]
pub open spec fn struct_model(node: StructView, def: Seq<char>, generate_default: bool) -> Seq<char> {
    line("class "@ + node.id + def + " {"@) + struct_members(node, generate_default)
}

/// The body of the model class of a struct, after its opening line, and the
/// factory class when `generate_default`.
pub open spec fn struct_members(node: StructView, generate_default: bool) -> Seq<char> {
    let id = node.id;
    let fs = node.fields;
    if fs.len() == 0 {
        tab_line(1, "const "@ + id + "();"@) + line("}"@) + if generate_default {
            line(""@) + factory_class(id, id + " createDefault() => const "@ + id + "();"@)
        } else {
            seq![]
        }
    } else {
        field_decls(fs) + line(""@) + tab_line(1, id + "({"@) + required_params(fs) + tab_line(
            1,
            "});"@,
        ) + if generate_default {
            line(""@) + tab_line(1, id + ".createDefault()"@) + tab_text(3, ": "@) + default_inits(
                fs,
                fs.len(),
            ) + line("}"@) + line(""@) + factory_class(
                id,
                id + " createDefault() => "@ + id + ".createDefault();"@,
            )
        } else {
            line("}"@)
        }
    }
}

/// The model class of a struct opens with `class <id><def> {`, whatever
/// its fields and whether a default is asked for.
pub proof fn lemma_struct_model_opens_class(node: StructView, def: Seq<char>, generate_default: bool)
    ensures
        ("class "@ + node.id + def + " {\n"@).is_prefix_of(
            struct_model(node, def, generate_default),
        ),
{
    reveal(struct_model);
    reveal_strlit(" {\n");
    reveal_strlit(" {");
    let h = "class "@ + node.id + def + " {\n"@;
    assert(line("class "@ + node.id + def + " {"@) =~= h);
    let s = struct_model(node, def, generate_default);
    assert(s.subrange(0, h.len() as int) =~= h);
}

fn write_factory_class(writer: &mut Writer, id: &str, create: &str)
    requires
        old(writer).tab() == 2,
    ensures
        final(writer).tab() == 2,
        final(writer)@ == old(writer)@ + factory_class(id@, create@),
{
    proof {
        reveal_strlit("");
    }
    let ghost start = writer@;
    writer.writeln(cat5("class ", id, "BuffersFactory implements BuffersFactory<", id, "> {").as_str());
    writer.writeln_tab(1, cat3("const ", id, "BuffersFactory();").as_str());
    writer.writeln("");
    writer.writeln_tab(1, "@override");
    writer.writeln_tab(1, create);
    writer.writeln("}");
    assert(writer@ =~= start + factory_class(id@, create@));
}

/// Writes the model class of a struct, named by its id followed by `def`,
/// and, when `generate_default`, its default constructor and factory class.
pub fn generate_struct_model(node: &StructASTNode, def: &str, generate_default: bool) -> (res: String)
    ensures
        res@ == struct_model(node@, def@, generate_default),
{
    proof {
        reveal_strlit("");
        reveal(struct_model);
    }
    let mut writer = Writer::new(2);
    let id = node.id.as_str();
    let ghost fs = node@.fields;
    writer.writeln(cat4("class ", id, def, " {").as_str());
    if node.fields.len() == 0 {
        writer.writeln_tab(1, cat3("const ", id, "();").as_str());
        writer.writeln("}");
        let ghost mid = writer@;
        if generate_default {
            writer.writeln("");
            write_factory_class(&mut writer, id, cat4(id, " createDefault() => const ", id, "();").as_str());
        }
        assert(writer@ =~= struct_model(node@, def@, generate_default));
        return String::from_str(writer.show());
    }
    let ghost head = writer@;
    let mut i: usize = 0;
    while i < node.fields.len()
        invariant
            i <= node.fields.len(),
            fs == node@.fields,
            writer.tab() == 2,
            writer@ == head + field_decls(fs.take(i as int)),
        decreases node.fields.len() - i,
    {
        let field = &node.fields[i];
        assert(fs[i as int] == field@);
        let type_id = generate_type_id(&field.type_id);
        let name = to_case(field.name.as_str(), TextCase::Camel);
        writer.writeln_tab(1, cat4(type_id.as_str(), " ", name.as_str(), ";").as_str());
        assert(fs.take(i + 1).drop_last() =~= fs.take(i as int));
        i += 1;
    }
    assert(fs.take(i as int) =~= fs);
    writer.writeln("");
    writer.writeln_tab(1, cat2(id, "({").as_str());
    let ghost head2 = writer@;
    let mut i: usize = 0;
    while i < node.fields.len()
        invariant
            i <= node.fields.len(),
            fs == node@.fields,
            writer.tab() == 2,
            writer@ == head2 + required_params(fs.take(i as int)),
        decreases node.fields.len() - i,
    {
        let field = &node.fields[i];
        assert(fs[i as int] == field@);
        let name = to_case(field.name.as_str(), TextCase::Camel);
        writer.writeln_tab(2, cat3("required this.", name.as_str(), ",").as_str());
        assert(fs.take(i + 1).drop_last() =~= fs.take(i as int));
        i += 1;
    }
    assert(fs.take(i as int) =~= fs);
    writer.writeln_tab(1, "});");
    let ghost head3 = writer@;
    if generate_default {
        writer.writeln("");
        writer.writeln_tab(1, cat2(id, ".createDefault()").as_str());
        writer.write_tab(3, ": ");
        let ghost head4 = writer@;
        let n = node.fields.len();
        let mut i: usize = 0;
        while i < n
            invariant
                i <= n,
                n == fs.len(),
                fs == node@.fields,
                writer.tab() == 2,
                writer@ == head4 + default_inits(fs.take(i as int), n as nat),
            decreases n - i,
        {
            let field = &node.fields[i];
            assert(fs[i as int] == field@);
            let name = to_case(field.name.as_str(), TextCase::Camel);
            let default = generate_default_const(&field.type_id);
            writer.write(cat3(name.as_str(), " = ", default.as_str()).as_str());
            if i == n - 1 {
                writer.writeln(";");
            } else {
                writer.writeln(",");
                writer.write_tab(3, "  ");
            }
            assert(fs.take(i + 1).drop_last() =~= fs.take(i as int));
            i += 1;
        }
        assert(fs.take(i as int) =~= fs);
        writer.writeln("}");
        writer.writeln("");
        write_factory_class(&mut writer, id, cat4(id, " createDefault() => ", id, ".createDefault();").as_str());
        assert(writer@ =~= struct_model(node@, def@, generate_default));
    } else {
        writer.writeln("}");
        assert(writer@ =~= struct_model(node@, def@, generate_default));
    }
    String::from_str(writer.show())
}


// ---------------------------------------------------------------------------
// Model classes of enums.
// ---------------------------------------------------------------------------

/// A Dart enum value for each item.
pub open spec fn enum_value_lines(items: Seq<EnumItemView>) -> Seq<char>
    decreases items.len(),
{
    if items.len() == 0 {
        seq![]
    } else {
        enum_value_lines(items.drop_last()) + tab_line(1, camel(item_id(items.last())) + ","@)
    }
}

/// The expression that makes the default data of an item of enum `id`.
pub open spec fn item_factory(id: Seq<char>, item: EnumItemView) -> Seq<char> {
    match item {
        EnumItemView::Empty { id: iid, .. } => "const "@ + id + iid + "()"@,
        _ => id + item_id(item) + ".createDefault()"@,
    }
}

/// A data field of enum `id` for each item.
pub open spec fn item_field_lines(id: Seq<char>, items: Seq<EnumItemView>) -> Seq<char>
    decreases items.len(),
{
    if items.len() == 0 {
        seq![]
    } else {
        let it = items.last();
        item_field_lines(id, items.drop_last()) + tab_line(
            1,
            id + item_id(it) + " "@ + camel(item_id(it)) + " = "@ + item_factory(id, it) + ";"@,
        )
    }
}

/// A parameter `<type> v<i>,` for each value of a tuple item.
pub open spec fn tuple_params(values: Seq<TupleFieldView>) -> Seq<char>
    decreases values.len(),
{
    if values.len() == 0 {
        seq![]
    } else {
        let k = (values.len() - 1) as nat;
        tuple_params(values.drop_last()) + tab_line(
            2,
            dart_type(values.last().type_id) + " v"@ + decimal(k) + ","@,
        )
    }
}

/// `<prefix>.v<i> = v<i>;` for each value of a tuple item.
pub open spec fn tuple_assigns(prefix: Seq<char>, values: Seq<TupleFieldView>) -> Seq<char>
    decreases values.len(),
{
    if values.len() == 0 {
        seq![]
    } else {
        let k = (values.len() - 1) as nat;
        tuple_assigns(prefix, values.drop_last()) + tab_line(
            2,
            prefix + ".v"@ + decimal(k) + " = v"@ + decimal(k) + ";"@,
        )
    }
}

/// A required named parameter for each field of a struct item.
pub open spec fn struct_params(fields: Seq<StructFieldView>) -> Seq<char>
    decreases fields.len(),
{
    if fields.len() == 0 {
        seq![]
    } else {
        let f = fields.last();
        struct_params(fields.drop_last()) + tab_line(
            2,
            "required "@ + dart_type(f.type_id) + " "@ + camel(f.name) + ","@,
        )
    }
}

/// `<prefix>.<field> = <field>;` for each field of a struct item.
pub open spec fn struct_assigns(prefix: Seq<char>, fields: Seq<StructFieldView>) -> Seq<char>
    decreases fields.len(),
{
    if fields.len() == 0 {
        seq![]
    } else {
        let f = fields.last();
        struct_assigns(prefix, fields.drop_last()) + tab_line(
            2,
            prefix + "."@ + camel(f.name) + " = "@ + camel(f.name) + ";"@,
        )
    }
}

/// `value = <id>Value.<item>;`
pub open spec fn set_value_line(id: Seq<char>, iid: Seq<char>, prefix: Seq<char>) -> Seq<char> {
    tab_line(2, prefix + "value = "@ + id + "Value."@ + camel(iid) + ";"@)
}

/// The method of enum `id` that switches to `item`, with its data.
#[verifier::opaque]
pub open spec fn to_method(id: Seq<char>, item: EnumItemView) -> Seq<char> {
    match item {
        EnumItemView::Empty { id: iid, .. } => tab_line(
            1,
            "void to"@ + pascal(iid) + "() => value = "@ + id + "Value."@ + camel(iid) + ";"@,
        ),
        EnumItemView::Tuple { id: iid, values, .. } => tab_line(1, "void to"@ + pascal(iid) + "("@)
            + tuple_params(values) + tab_line(1, ") {"@) + set_value_line(id, iid, ""@)
            + tuple_assigns(camel(iid), values) + tab_line(1, "}"@),
        EnumItemView::Struct { id: iid, fields, .. } => tab_line(
            1,
            "void to"@ + pascal(iid) + "({"@,
        ) + struct_params(fields) + tab_line(1, "}) {"@) + set_value_line(id, iid, ""@)
            + struct_assigns(camel(iid), fields) + tab_line(1, "}"@),
    }
}

/// Every method that switches an enum to an item sets the enum's value to
/// that item: `value = <Enum>Value.<item>;` occurs in it, on a line of its
/// own for an item with data.
pub proof fn lemma_to_method_sets_value(id: Seq<char>, item: EnumItemView)
    ensures
        occurs_in(to_method(id, item), "value = "@ + id + "Value."@ + camel(item_id(item)) + ";"@),
        !(item is Empty) ==> occurs_in(
            to_method(id, item),
            "    value = "@ + id + "Value."@ + camel(item_id(item)) + ";\n"@,
        ),
{
    reveal(to_method);
    reveal_strlit("    value = ");
    reveal_strlit("value = ");
    reveal_strlit(";\n");
    reveal_strlit(";");
    reveal_strlit("");
    let iid = item_id(item);
    let t = "value = "@ + id + "Value."@ + camel(iid) + ";"@;
    let s = to_method(id, item);
    match item {
        EnumItemView::Empty { .. } => {
            let a = "  void to"@ + pascal(iid) + "() => "@;
            reveal_strlit("  void to");
            reveal_strlit("void to");
            reveal_strlit("() => ");
            reveal_strlit("() => value = ");
            assert(s =~= a + t + seq!['\n']);
            lemma_occurs_between(a, t, seq!['\n']);
            assert(occurs_at(s, t, a.len() as int));
        },
        _ => {
            let l = "    value = "@ + id + "Value."@ + camel(iid) + ";\n"@;
            let sl = set_value_line(id, iid, ""@);
            assert(sl =~= l);
            let (pre, post) = match item {
                EnumItemView::Tuple { values, .. } => (
                    tab_line(1, "void to"@ + pascal(iid) + "("@) + tuple_params(values) + tab_line(
                        1,
                        ") {"@,
                    ),
                    tuple_assigns(camel(iid), values),
                ),
                EnumItemView::Struct { fields, .. } => (
                    tab_line(1, "void to"@ + pascal(iid) + "({"@) + struct_params(fields) + tab_line(
                        1,
                        "}) {"@,
                    ),
                    struct_assigns(camel(iid), fields),
                ),
                _ => (seq![], seq![]),
            };
            assert(s =~= pre + l + (post + tab_line(1, "}"@)));
            lemma_occurs_between(pre, l, post + tab_line(1, "}"@));
            assert(l =~= "    "@ + t + seq!['\n']) by {
                reveal_strlit("    ");
            }
            lemma_occurs_within(s, "    "@, t, seq!['\n'], pre.len() as int);
            assert(occurs_at(s, l, pre.len() as int));
            assert(occurs_at(s, t, pre.len() + 4int));
        },
    }
}

/// The `to` methods of the first items of an enum with `n` items, with an
/// empty line between each two.
pub open spec fn to_methods(id: Seq<char>, items: Seq<EnumItemView>, n: nat) -> Seq<char>
    decreases items.len(),
{
    if items.len() == 0 {
        seq![]
    } else {
        to_methods(id, items.drop_last(), n) + to_method(id, items.last()) + if items.len() != n {
            line(""@)
        } else {
            seq![]
        }
    }
}

/// A method of enum `id` for each item that tells whether it is the
/// current one.
pub open spec fn is_methods(id: Seq<char>, items: Seq<EnumItemView>) -> Seq<char>
    decreases items.len(),
{
    if items.len() == 0 {
        seq![]
    } else {
        let iid = item_id(items.last());
        is_methods(id, items.drop_last()) + tab_line(
            1,
            "bool is"@ + pascal(iid) + "() => value == "@ + id + "Value."@ + camel(iid) + ";"@,
        )
    }
}

/// The first two statements of a `create` method: a new model, set to
/// the item.
pub open spec fn model_start(id: Seq<char>, iid: Seq<char>) -> Seq<char> {
    tab_line(2, "final model = "@ + id + "();"@) + set_value_line(id, iid, "model."@)
}

/// The `create` method of enum `id` for `item`, up to its `return`.
pub open spec fn create_body(id: Seq<char>, item: EnumItemView) -> Seq<char> {
    let iid = item_id(item);
    match item {
        EnumItemView::Empty { .. } => tab_line(
            1,
            "static "@ + id + " create"@ + pascal(iid) + "() {"@,
        ) + model_start(id, iid),
        EnumItemView::Tuple { values, .. } => tab_line(
            1,
            "static "@ + id + " create"@ + pascal(iid) + "("@,
        ) + tuple_params(values) + tab_line(1, ") {"@) + model_start(id, iid) + tuple_assigns(
            "model."@ + camel(iid),
            values,
        ),
        EnumItemView::Struct { fields, .. } => tab_line(
            1,
            "static "@ + id + " create"@ + pascal(iid) + "({"@,
        ) + struct_params(fields) + tab_line(1, "}) {"@) + model_start(id, iid) + struct_assigns(
            "model."@ + camel(iid),
            fields,
        ),
    }
}

/// The static method of enum `id` that makes a model holding `item`.
pub open spec fn create_method(id: Seq<char>, item: EnumItemView) -> Seq<char> {
    create_body(id, item) + tab_line(2, "return model;"@) + tab_line(1, "}"@)
}

/// The `create` methods of the first items of an enum with `n` items,
/// with an empty line between each two.
pub open spec fn create_methods(id: Seq<char>, items: Seq<EnumItemView>, n: nat) -> Seq<char>
    decreases items.len(),
{
    if items.len() == 0 {
        seq![]
    } else {
        create_methods(id, items.drop_last(), n) + create_method(id, items.last()) + if items.len()
            != n {
            line(""@)
        } else {
            seq![]
        }
    }
}

/// The model classes of the data of the first items of an enum with `n`
/// items, with an empty line between each two.
pub open spec fn item_models(node: EnumView, items: Seq<EnumItemView>, n: nat) -> Seq<char>
    decreases items.len(),
{
    if items.len() == 0 {
        seq![]
    } else {
        item_models(node, items.drop_last(), n) + struct_model(
            enum_item_struct(node, items.last()),
            ""@,
            true,
        ) + if items.len() != n {
            line(""@)
        } else {
            seq![]
        }
    }
}

/// The model classes of an enum: the Dart enum of its items, the class
/// that holds the current item and the data of each item, its factory
/// class and the model class of the data of each item.
pub open spec fn enum_model(node: EnumView) -> Seq<char> {
    let id = node.id;
    let items = node.items;
    let n = items.len();
    line("enum "@ + id + "Value {"@) + enum_value_lines(items) + line("}"@) + line(""@) + line(
        "class "@ + id + " {"@,
    ) + tab_line(1, id + "Value value = "@ + id + "Value."@ + camel(item_id(items[0])) + ";"@)
        + item_field_lines(id, items) + line(""@) + to_methods(id, items, n) + line(""@)
        + is_methods(id, items) + line(""@) + create_methods(id, items, n) + line("}"@) + line(
        ""@,
    ) + factory_class(id, id + " createDefault() => "@ + id + "();"@) + line(""@) + item_models(
        node,
        items,
        n,
    )
}

fn write_tuple_params(writer: &mut Writer, values: &Vec<TupleFieldASTNode>)
    requires
        old(writer).tab() == 2,
    ensures
        final(writer).tab() == 2,
        final(writer)@ == old(writer)@ + tuple_params(
            values@.map_values(|v: TupleFieldASTNode| v@),
        ),
{
    let ghost vs = values@.map_values(|v: TupleFieldASTNode| v@);
    let ghost head = writer@;
    let mut i: usize = 0;
    while i < values.len()
        invariant
            i <= values.len(),
            vs == values@.map_values(|v: TupleFieldASTNode| v@),
            writer.tab() == 2,
            writer@ == head + tuple_params(vs.take(i as int)),
        decreases values.len() - i,
    {
        assert(vs[i as int] == values@[i as int]@);
        let type_id = generate_type_id(&values[i].type_id);
        let index = decimal_string(i as u64);
        writer.writeln_tab(2, cat4(type_id.as_str(), " v", index.as_str(), ",").as_str());
        assert(vs.take(i + 1).drop_last() =~= vs.take(i as int));
        i += 1;
    }
    assert(vs.take(i as int) =~= vs);
}

fn write_tuple_assigns(writer: &mut Writer, prefix: &str, values: &Vec<TupleFieldASTNode>)
    requires
        old(writer).tab() == 2,
    ensures
        final(writer).tab() == 2,
        final(writer)@ == old(writer)@ + tuple_assigns(
            prefix@,
            values@.map_values(|v: TupleFieldASTNode| v@),
        ),
{
    let ghost vs = values@.map_values(|v: TupleFieldASTNode| v@);
    let ghost head = writer@;
    let mut i: usize = 0;
    while i < values.len()
        invariant
            i <= values.len(),
            vs == values@.map_values(|v: TupleFieldASTNode| v@),
            writer.tab() == 2,
            writer@ == head + tuple_assigns(prefix@, vs.take(i as int)),
        decreases values.len() - i,
    {
        let index = decimal_string(i as u64);
        writer.writeln_tab(
            2,
            cat6(prefix, ".v", index.as_str(), " = v", index.as_str(), ";").as_str(),
        );
        assert(vs.take(i + 1).drop_last() =~= vs.take(i as int));
        i += 1;
    }
    assert(vs.take(i as int) =~= vs);
}

fn write_struct_params(writer: &mut Writer, fields: &Vec<StructFieldASTNode>)
    requires
        old(writer).tab() == 2,
    ensures
        final(writer).tab() == 2,
        final(writer)@ == old(writer)@ + struct_params(
            fields@.map_values(|f: StructFieldASTNode| f@),
        ),
{
    let ghost fs = fields@.map_values(|f: StructFieldASTNode| f@);
    let ghost head = writer@;
    let mut i: usize = 0;
    while i < fields.len()
        invariant
            i <= fields.len(),
            fs == fields@.map_values(|f: StructFieldASTNode| f@),
            writer.tab() == 2,
            writer@ == head + struct_params(fs.take(i as int)),
        decreases fields.len() - i,
    {
        assert(fs[i as int] == fields@[i as int]@);
        let type_id = generate_type_id(&fields[i].type_id);
        let name = to_case(fields[i].name.as_str(), TextCase::Camel);
        writer.writeln_tab(
            2,
            cat5("required ", type_id.as_str(), " ", name.as_str(), ",").as_str(),
        );
        assert(fs.take(i + 1).drop_last() =~= fs.take(i as int));
        i += 1;
    }
    assert(fs.take(i as int) =~= fs);
}

fn write_struct_assigns(writer: &mut Writer, prefix: &str, fields: &Vec<StructFieldASTNode>)
    requires
        old(writer).tab() == 2,
    ensures
        final(writer).tab() == 2,
        final(writer)@ == old(writer)@ + struct_assigns(
            prefix@,
            fields@.map_values(|f: StructFieldASTNode| f@),
        ),
{
    let ghost fs = fields@.map_values(|f: StructFieldASTNode| f@);
    let ghost head = writer@;
    let mut i: usize = 0;
    while i < fields.len()
        invariant
            i <= fields.len(),
            fs == fields@.map_values(|f: StructFieldASTNode| f@),
            writer.tab() == 2,
            writer@ == head + struct_assigns(prefix@, fs.take(i as int)),
        decreases fields.len() - i,
    {
        assert(fs[i as int] == fields@[i as int]@);
        let name = to_case(fields[i].name.as_str(), TextCase::Camel);
        writer.writeln_tab(
            2,
            cat6(prefix, ".", name.as_str(), " = ", name.as_str(), ";").as_str(),
        );
        assert(fs.take(i + 1).drop_last() =~= fs.take(i as int));
        i += 1;
    }
    assert(fs.take(i as int) =~= fs);
}

fn write_set_value(writer: &mut Writer, prefix: &str, id: &str, camel_id: &str)
    requires
        old(writer).tab() == 2,
    ensures
        final(writer).tab() == 2,
        final(writer)@ == old(writer)@ + tab_line(
            2,
            prefix@ + "value = "@ + id@ + "Value."@ + camel_id@ + ";"@,
        ),
{
    writer.writeln_tab(2, cat6(prefix, "value = ", id, "Value.", camel_id, ";").as_str());
}

fn write_to_method(writer: &mut Writer, id: &str, item: &EnumItemASTNode)
    requires
        old(writer).tab() == 2,
    ensures
        final(writer).tab() == 2,
        final(writer)@ == old(writer)@ + to_method(id@, item@),
{
    proof {
        reveal(to_method);
    }
    proof {
        reveal_strlit("");
    }
    let ghost start = writer@;
    let iid = item.id();
    let camel_id = to_case(iid.as_str(), TextCase::Camel);
    let pascal_id = to_case(iid.as_str(), TextCase::Pascal);
    match item {
        EnumItemASTNode::Empty { .. } => {
            writer.writeln_tab(
                1,
                cat7(
                    "void to",
                    pascal_id.as_str(),
                    "() => value = ",
                    id,
                    "Value.",
                    camel_id.as_str(),
                    ";",
                ).as_str(),
            );
        },
        EnumItemASTNode::Tuple { values, .. } => {
            writer.writeln_tab(1, cat3("void to", pascal_id.as_str(), "(").as_str());
            write_tuple_params(writer, values);
            writer.writeln_tab(1, ") {");
            write_set_value(writer, "", id, camel_id.as_str());
            write_tuple_assigns(writer, camel_id.as_str(), values);
            writer.writeln_tab(1, "}");
        },
        EnumItemASTNode::Struct { fields, .. } => {
            writer.writeln_tab(1, cat3("void to", pascal_id.as_str(), "({").as_str());
            write_struct_params(writer, fields);
            writer.writeln_tab(1, "}) {");
            write_set_value(writer, "", id, camel_id.as_str());
            write_struct_assigns(writer, camel_id.as_str(), fields);
            writer.writeln_tab(1, "}");
        },
    }
    assert(writer@ =~= start + to_method(id@, item@));
}

fn write_model_start(writer: &mut Writer, id: &str, camel_id: &str)
    requires
        old(writer).tab() == 2,
    ensures
        final(writer).tab() == 2,
        final(writer)@ == old(writer)@ + tab_line(2, "final model = "@ + id@ + "();"@) + tab_line(
            2,
            "model."@ + "value = "@ + id@ + "Value."@ + camel_id@ + ";"@,
        ),
{
    writer.writeln_tab(2, cat3("final model = ", id, "();").as_str());
    write_set_value(writer, "model.", id, camel_id);
}

fn write_create_body(writer: &mut Writer, id: &str, item: &EnumItemASTNode)
    requires
        old(writer).tab() == 2,
    ensures
        final(writer).tab() == 2,
        final(writer)@ == old(writer)@ + create_body(id@, item@),
{
    let ghost start = writer@;
    let iid = item.id();
    let camel_id = to_case(iid.as_str(), TextCase::Camel);
    let pascal_id = to_case(iid.as_str(), TextCase::Pascal);
    let model_prefix = cat2("model.", camel_id.as_str());
    match item {
        EnumItemASTNode::Empty { .. } => {
            writer.writeln_tab(1, cat5("static ", id, " create", pascal_id.as_str(), "() {").as_str());
            write_model_start(writer, id, camel_id.as_str());
            assert(writer@ =~= start + create_body(id@, item@));
        },
        EnumItemASTNode::Tuple { values, .. } => {
            writer.writeln_tab(1, cat5("static ", id, " create", pascal_id.as_str(), "(").as_str());
            write_tuple_params(writer, values);
            writer.writeln_tab(1, ") {");
            write_model_start(writer, id, camel_id.as_str());
            write_tuple_assigns(writer, model_prefix.as_str(), values);
            assert(writer@ =~= start + create_body(id@, item@));
        },
        EnumItemASTNode::Struct { fields, .. } => {
            writer.writeln_tab(1, cat5("static ", id, " create", pascal_id.as_str(), "({").as_str());
            write_struct_params(writer, fields);
            writer.writeln_tab(1, "}) {");
            write_model_start(writer, id, camel_id.as_str());
            write_struct_assigns(writer, model_prefix.as_str(), fields);
            assert(writer@ =~= start + create_body(id@, item@));
        },
    }
}

fn write_create_method(writer: &mut Writer, id: &str, item: &EnumItemASTNode)
    requires
        old(writer).tab() == 2,
    ensures
        final(writer).tab() == 2,
        final(writer)@ == old(writer)@ + create_method(id@, item@),
{
    proof {
        reveal(create_method);
    }
    write_create_body(writer, id, item);
    writer.writeln_tab(2, "return model;");
    writer.writeln_tab(1, "}");
}

/// Writes the model classes of an enum: the Dart enum of its items, the
/// class that holds the current item and the data of every item (the first
/// item being the default), its factory class, and the model class of the
/// data of each item.
pub fn generate_enum_model(node: &EnumASTNode) -> (res: String)
    requires
        node.items.len() > 0,
    ensures
        res@ == enum_model(node@),
{
    proof {
        reveal_strlit("");
    }
    let mut writer = Writer::new(2);
    let id = node.id.as_str();
    let ghost items = node@.items;
    let n = node.items.len();
    writer.writeln(cat3("enum ", id, "Value {").as_str());
    let ghost h1 = writer@;
    let mut i: usize = 0;
    while i < n
        invariant
            i <= n,
            n == items.len(),
            items == node@.items,
            writer.tab() == 2,
            writer@ == h1 + enum_value_lines(items.take(i as int)),
        decreases n - i,
    {
        assert(items[i as int] == node.items@[i as int]@);
        let name = to_case(node.items[i].id().as_str(), TextCase::Camel);
        writer.writeln_tab(1, cat2(name.as_str(), ",").as_str());
        assert(items.take(i + 1).drop_last() =~= items.take(i as int));
        i += 1;
    }
    assert(items.take(i as int) =~= items);
    writer.writeln("}");
    writer.writeln("");
    writer.writeln(cat3("class ", id, " {").as_str());
    assert(items[0] == node.items@[0]@);
    let first = to_case(node.items[0].id().as_str(), TextCase::Camel);
    writer.writeln_tab(1, cat6(id, "Value value = ", id, "Value.", first.as_str(), ";").as_str());
    let ghost h2 = writer@;
    let mut i: usize = 0;
    while i < n
        invariant
            i <= n,
            n == items.len(),
            items == node@.items,
            writer.tab() == 2,
            writer@ == h2 + item_field_lines(id@, items.take(i as int)),
        decreases n - i,
    {
        let item = &node.items[i];
        assert(items[i as int] == item@);
        let iid = item.id();
        let factory = match item {
            EnumItemASTNode::Empty { .. } => cat4("const ", id, iid.as_str(), "()"),
            _ => cat3(id, iid.as_str(), ".createDefault()"),
        };
        let name = to_case(iid.as_str(), TextCase::Camel);
        writer.writeln_tab(
            1,
            cat7(id, iid.as_str(), " ", name.as_str(), " = ", factory.as_str(), ";").as_str(),
        );
        assert(items.take(i + 1).drop_last() =~= items.take(i as int));
        i += 1;
    }
    assert(items.take(i as int) =~= items);
    writer.writeln("");
    let ghost h3 = writer@;
    let mut i: usize = 0;
    while i < n
        invariant
            i <= n,
            n == items.len(),
            items == node@.items,
            writer.tab() == 2,
            writer@ == h3 + to_methods(id@, items.take(i as int), n as nat),
        decreases n - i,
    {
        assert(items[i as int] == node.items@[i as int]@);
        write_to_method(&mut writer, id, &node.items[i]);
        if i != n - 1 {
            writer.writeln("");
        }
        assert(items.take(i + 1).drop_last() =~= items.take(i as int));
        i += 1;
    }
    assert(items.take(i as int) =~= items);
    writer.writeln("");
    let ghost h4 = writer@;
    let mut i: usize = 0;
    while i < n
        invariant
            i <= n,
            n == items.len(),
            items == node@.items,
            writer.tab() == 2,
            writer@ == h4 + is_methods(id@, items.take(i as int)),
        decreases n - i,
    {
        assert(items[i as int] == node.items@[i as int]@);
        let iid = node.items[i].id();
        let pascal_id = to_case(iid.as_str(), TextCase::Pascal);
        let camel_id = to_case(iid.as_str(), TextCase::Camel);
        writer.writeln_tab(
            1,
            cat7(
                "bool is",
                pascal_id.as_str(),
                "() => value == ",
                id,
                "Value.",
                camel_id.as_str(),
                ";",
            ).as_str(),
        );
        assert(items.take(i + 1).drop_last() =~= items.take(i as int));
        i += 1;
    }
    assert(items.take(i as int) =~= items);
    writer.writeln("");
    let ghost h5 = writer@;
    let mut i: usize = 0;
    while i < n
        invariant
            i <= n,
            n == items.len(),
            items == node@.items,
            writer.tab() == 2,
            writer@ == h5 + create_methods(id@, items.take(i as int), n as nat),
        decreases n - i,
    {
        assert(items[i as int] == node.items@[i as int]@);
        write_create_method(&mut writer, id, &node.items[i]);
        if i != n - 1 {
            writer.writeln("");
        }
        assert(items.take(i + 1).drop_last() =~= items.take(i as int));
        i += 1;
    }
    assert(items.take(i as int) =~= items);
    writer.writeln("}");
    writer.writeln("");
    write_factory_class(&mut writer, id, cat4(id, " createDefault() => ", id, "();").as_str());
    writer.writeln("");
    let ghost h6 = writer@;
    let mut i: usize = 0;
    while i < n
        invariant
            i <= n,
            n == items.len(),
            items == node@.items,
            writer.tab() == 2,
            writer@ == h6 + item_models(node@, items.take(i as int), n as nat),
        decreases n - i,
    {
        assert(items[i as int] == node.items@[i as int]@);
        let enum_class = create_enum_item_struct_ast_node(node, &node.items[i]);
        let model = generate_struct_model(&enum_class, "", true);
        writer.write(model.as_str());
        if i != n - 1 {
            writer.writeln("");
        }
        assert(items.take(i + 1).drop_last() =~= items.take(i as int));
        i += 1;
    }
    assert(items.take(i as int) =~= items);
    assert(writer@ =~= enum_model(node@));
    String::from_str(writer.show())
}


// ---------------------------------------------------------------------------
// Codecs.
// ---------------------------------------------------------------------------

/// A struct whose codecs can be written: when it asks for a codec, every
/// field has a type that the codecs support.
pub open spec fn struct_codecs_ready(node: StructView) -> bool {
    (node.emplace_buffers || node.into_buffers) ==> fields_supported(node.fields)
}

/// The codec classes of a struct: the in-place codec when the struct asks
/// for one, then the creating codec when it asks for one.
pub open spec fn struct_buffers(node: StructView) -> Seq<char> {
    (if node.emplace_buffers {
        line(emplace_buffers(node))
    } else {
        seq![]
    }) + (if node.into_buffers {
        line(into_buffers(node))
    } else {
        seq![]
    })
}

/// Writes the codec classes of a struct.
pub fn generate_struct_buffers(node: &StructASTNode) -> (res: String)
    requires
        struct_codecs_ready(node@),
    ensures
        res@ == struct_buffers(node@),
{
    let mut writer = Writer::new(2);
    if node.emplace_buffers {
        writer.writeln(generate_struct_emplace_buffers(node).as_str());
    }
    if node.into_buffers {
        writer.writeln(generate_struct_into_buffers(node).as_str());
    }
    assert(writer@ =~= struct_buffers(node@));
    String::from_str(writer.show())
}


/// The codec classes of an enum: the in-place codec of the data of each
/// item, then the creating codec and the in-place codec of the enum.
pub open spec fn enum_buffers(node: EnumView) -> Seq<char> {
    item_buffers(node, node.items) + line(enum_into_buffers(node)) + enum_emplace_buffers(node)
}

/// The in-place codec of the data of each of `items` of enum `node`.
pub open spec fn item_buffers(node: EnumView, items: Seq<EnumItemView>) -> Seq<char>
    decreases items.len(),
{
    if items.len() == 0 {
        seq![]
    } else {
        item_buffers(node, items.drop_last()) + line(
            emplace_buffers(enum_item_struct(node, items.last())),
        )
    }
}

/// Every item of the enum has data whose types the codecs support.
pub open spec fn enum_items_supported(node: EnumView) -> bool {
    forall|j: int|
        0 <= j < node.items.len() ==> fields_supported(
            #[trigger] enum_item_struct(node, node.items[j]).fields,
        )
}

/// Writes the codec classes of an enum.
pub fn generate_enum_buffers(node: &EnumASTNode) -> (res: String)
    requires
        enum_items_supported(node@),
    ensures
        res@ == enum_buffers(node@),
{
    let mut writer = Writer::new(2);
    let ghost items = node@.items;
    let mut i: usize = 0;
    while i < node.items.len()
        invariant
            i <= node.items.len(),
            items == node@.items,
            enum_items_supported(node@),
            writer@ == item_buffers(node@, items.take(i as int)),
        decreases node.items.len() - i,
    {
        assert(items[i as int] == node.items@[i as int]@);
        let enum_class = create_enum_item_struct_ast_node(node, &node.items[i]);
        assert(fields_supported(enum_item_struct(node@, items[i as int]).fields));
        writer.writeln(generate_struct_emplace_buffers(&enum_class).as_str());
        assert(items.take(i + 1).drop_last() =~= items.take(i as int));
        i += 1;
    }
    assert(items.take(i as int) =~= items);
    writer.writeln(generate_enum_into_buffers(node).as_str());
    writer.write(generate_enum_emplace_buffers(node).as_str());
    String::from_str(writer.show())
}

// ---------------------------------------------------------------------------
// Whole files.
// ---------------------------------------------------------------------------

/// `s` ends with an empty line.
pub open spec fn ends_with_blank(s: Seq<char>) -> bool {
    s.len() >= 2 && s[s.len() - 1] == '\n' && s[s.len() - 2] == '\n'
}

/// `s` without its last character when it ends with an empty line.
pub open spec fn trim_blank(s: Seq<char>) -> Seq<char> {
    if ends_with_blank(s) {
        s.drop_last()
    } else {
        s
    }
}

/// `s` without the line breaks that end it beyond the first.
pub open spec fn trim_blanks(s: Seq<char>) -> Seq<char>
    decreases s.len(),
{
    if ends_with_blank(s) {
        trim_blanks(s.drop_last())
    } else {
        s
    }
}

/// Removing the trailing empty lines leaves none.
pub proof fn lemma_trim_blanks(s: Seq<char>)
    ensures
        !ends_with_blank(trim_blanks(s)),
        trim_blanks(s).len() <= s.len(),
    decreases s.len(),
{
    if ends_with_blank(s) {
        lemma_trim_blanks(s.drop_last());
    }
}

fn str_ends_with_blank(s: &str, end: usize) -> (r: bool)
    requires
        end <= s@.len(),
    ensures
        r == ends_with_blank(s@.take(end as int)),
{
    end >= 2 && s.get_char(end - 1) == '\n' && s.get_char(end - 2) == '\n'
}

/// `s` without its trailing empty lines (all of them when `all`, else
/// the last one).
fn trimmed(s: &str, all: bool) -> (res: String)
    ensures
        res@ == if all {
            trim_blanks(s@)
        } else {
            trim_blank(s@)
        },
{
    let mut end = s.unicode_len();
    assert(s@.take(end as int) =~= s@);
    if all {
        while str_ends_with_blank(s, end)
            invariant
                end <= s@.len(),
                trim_blanks(s@) == trim_blanks(s@.take(end as int)),
            decreases end,
        {
            assert(s@.take(end as int).drop_last() =~= s@.take(end - 1));
            end -= 1;
        }
    } else if str_ends_with_blank(s, end) {
        end -= 1;
    }
    String::from_str(s.substring_char(0, end))
}

/// The model classes of the structs and enums of a schema.
pub open spec fn models_text(ast: Seq<AstView>) -> Seq<char>
    decreases ast.len(),
{
    if ast.len() == 0 {
        seq![]
    } else {
        models_text(ast.drop_last()) + match ast.last() {
            AstView::Struct(node) => line(struct_model(node, ""@, true)),
            AstView::Enum(node) => enum_model(node),
            _ => seq![],
        }
    }
}

/// Every enum of the schema has an item.
pub open spec fn models_ready(ast: Seq<AstView>) -> bool {
    forall|i: int| 0 <= i < ast.len() ==> (#[trigger] ast[i] matches AstView::Enum(e) ==> e.items.len() > 0)
}

/// Writes the model classes of the structs and enums of a schema, without
/// a final empty line.
pub fn generate_models(ast: &[ASTNode]) -> (res: String)
    requires
        models_ready(ast_view(ast@)),
    ensures
        res@ == trim_blank(models_text(ast_view(ast@))),
{
    let ghost v = ast_view(ast@);
    let mut writer = Writer::new(2);
    let mut i: usize = 0;
    while i < ast.len()
        invariant
            i <= ast.len(),
            v == ast_view(ast@),
            models_ready(v),
            writer.tab() == 2,
            writer@ == models_text(v.take(i as int)),
        decreases ast.len() - i,
    {
        assert(v[i as int] == ast@[i as int]@);
        match &ast[i] {
            ASTNode::Struct(node) => writer.writeln(generate_struct_model(node, "", true).as_str()),
            ASTNode::Enum(node) => writer.write(generate_enum_model(node).as_str()),
            _ => (),
        }
        assert(v.take(i + 1).drop_last() =~= v.take(i as int));
        i += 1;
    }
    assert(v.take(i as int) =~= v);
    trimmed(writer.show(), false)
}

/// The codec classes of the structs and enums of a schema.
pub open spec fn buffers_text(ast: Seq<AstView>) -> Seq<char>
    decreases ast.len(),
{
    if ast.len() == 0 {
        seq![]
    } else {
        buffers_text(ast.drop_last()) + node_buffers(ast.last())
    }
}

/// The codecs of the first items of a schema start the codecs of the whole.
proof fn lemma_buffers_prefix(ast: Seq<AstView>, m: int)
    requires
        0 <= m <= ast.len(),
    ensures
        buffers_text(ast.take(m)).is_prefix_of(buffers_text(ast)),
    decreases ast.len(),
{
    if m == ast.len() {
        assert(ast.take(m) =~= ast);
        assert(buffers_text(ast).subrange(0, buffers_text(ast).len() as int) =~= buffers_text(ast));
    } else {
        let d = ast.drop_last();
        lemma_buffers_prefix(d, m);
        assert(d.take(m) =~= ast.take(m));
        let a = buffers_text(ast.take(m));
        let b = buffers_text(d);
        let c = buffers_text(ast);
        assert(c == b + node_buffers(ast.last()));
        assert(c.subrange(0, a.len() as int) =~= b.subrange(0, a.len() as int));
    }
}

/// What item `i` adds to the codecs of a schema.
pub open spec fn item_codecs(node: AstView) -> Seq<char> {
    match node {
        AstView::Struct(n) => struct_buffers(n) + seq!['\n'],
        AstView::Enum(n) => enum_buffers(n) + seq!['\n'],
        _ => Seq::<char>::empty(),
    }
}

proof fn lemma_buffers_step(ast: Seq<AstView>, i: int)
    requires
        0 <= i < ast.len(),
    ensures
        buffers_text(ast.take(i + 1)) == buffers_text(ast.take(i)) + item_codecs(ast[i]),
{
    reveal(node_buffers);
    assert(ast.take(i + 1).drop_last() =~= ast.take(i));
    assert(ast.take(i + 1).last() == ast[i]);
    assert(node_buffers(ast[i]) == item_codecs(ast[i]));
}

/// The codecs of a schema are the codecs of its structs and enums, in the
/// order of the items, each followed by a line break; other items add
/// nothing. So every struct's and every enum's codecs occur in them, and
/// still do without the final empty line, as `generate_buffers` gives them.
pub proof fn lemma_buffers_of_items(ast: Seq<AstView>)
    ensures
        buffers_text(Seq::<AstView>::empty()) == Seq::<char>::empty(),
        forall|i: int|
            0 <= i < ast.len() ==> #[trigger] buffers_text(ast.take(i + 1)) == buffers_text(
                ast.take(i),
            ) + item_codecs(ast[i]),
        forall|i: int|
            0 <= i < ast.len() ==> (#[trigger] ast[i] matches AstView::Enum(n) ==> occurs_in(
                trim_blank(buffers_text(ast)),
                enum_buffers(n),
            )),
        forall|i: int|
            0 <= i < ast.len() ==> (#[trigger] ast[i] matches AstView::Struct(n) ==> occurs_in(
                trim_blank(buffers_text(ast)),
                struct_buffers(n),
            )),
{
    lemma_buffers_steps(ast);
    lemma_enum_codecs_occur(ast);
    lemma_struct_codecs_occur(ast);
}

proof fn lemma_buffers_steps(ast: Seq<AstView>)
    ensures
        forall|i: int|
            0 <= i < ast.len() ==> #[trigger] buffers_text(ast.take(i + 1)) == buffers_text(
                ast.take(i),
            ) + item_codecs(ast[i]),
{
    assert forall|i: int| 0 <= i < ast.len() implies #[trigger] buffers_text(ast.take(i + 1))
        == buffers_text(ast.take(i)) + item_codecs(ast[i]) by {
        lemma_buffers_step(ast, i);
    }
}

proof fn lemma_enum_codecs_occur(ast: Seq<AstView>)
    ensures
        forall|i: int|
            0 <= i < ast.len() ==> (#[trigger] ast[i] matches AstView::Enum(n) ==> occurs_in(
                trim_blank(buffers_text(ast)),
                enum_buffers(n),
            )),
{
    assert forall|i: int| 0 <= i < ast.len() implies (#[trigger] ast[i] matches AstView::Enum(n)
        ==> occurs_in(trim_blank(buffers_text(ast)), enum_buffers(n))) by {
        if let AstView::Enum(n) = ast[i] {
            lemma_buffers_step(ast, i);
            assert(buffers_text(ast.take(i)) + item_codecs(ast[i]) =~= buffers_text(ast.take(i))
                + enum_buffers(n) + seq!['\n']);
            lemma_occurs_of_item(ast, i, enum_buffers(n));
        }
    }
}

proof fn lemma_struct_codecs_occur(ast: Seq<AstView>)
    ensures
        forall|i: int|
            0 <= i < ast.len() ==> (#[trigger] ast[i] matches AstView::Struct(n) ==> occurs_in(
                trim_blank(buffers_text(ast)),
                struct_buffers(n),
            )),
{
    assert forall|i: int| 0 <= i < ast.len() implies (#[trigger] ast[i] matches AstView::Struct(n)
        ==> occurs_in(trim_blank(buffers_text(ast)), struct_buffers(n))) by {
        if let AstView::Struct(n) = ast[i] {
            lemma_buffers_step(ast, i);
            assert(buffers_text(ast.take(i)) + item_codecs(ast[i]) =~= buffers_text(ast.take(i))
                + struct_buffers(n) + seq!['\n']);
            lemma_occurs_of_item(ast, i, struct_buffers(n));
        }
    }
}

/// Codecs that item `i` adds, followed by a line break, occur in the
/// codecs of the schema without their final empty line.
proof fn lemma_occurs_of_item(ast: Seq<AstView>, i: int, t: Seq<char>)
    requires
        0 <= i < ast.len(),
        buffers_text(ast.take(i + 1)) == buffers_text(ast.take(i)) + t + seq!['\n'],
    ensures
        occurs_in(trim_blank(buffers_text(ast)), t),
{
    let a = buffers_text(ast.take(i));
    let p = buffers_text(ast.take(i + 1));
    let all = buffers_text(ast);
    lemma_buffers_prefix(ast, i + 1);
    lemma_occurs_between(a, t, seq!['\n']);
    let k = a.len() as int;
    assert(k + t.len() + 1 <= all.len());
    assert(all.subrange(k, k + t.len()) =~= p.subrange(k, k + t.len()));
    let r = trim_blank(all);
    assert(r.len() >= all.len() - 1);
    assert(r.subrange(k, k + t.len()) =~= all.subrange(k, k + t.len()));
    assert(occurs_at(r, t, k));
}

/// The codecs of the schema only meet types they support.
pub open spec fn buffers_ready(ast: Seq<AstView>) -> bool {
    forall|i: int|
        0 <= i < ast.len() ==> match #[trigger] ast[i] {
            AstView::Struct(s) => struct_codecs_ready(s),
            AstView::Enum(e) => enum_items_supported(e),
            _ => true,
        }
}

/// The codec classes of one top-level item, each on its own.
#[verifier::opaque]
pub open spec fn node_buffers(node: AstView) -> Seq<char> {
    match node {
        AstView::Struct(node) => line(struct_buffers(node)),
        AstView::Enum(node) => line(enum_buffers(node)),
        _ => seq![],
    }
}

fn write_node_buffers(writer: &mut Writer, node: &ASTNode)
    requires
        old(writer).tab() == 2,
        match node@ {
            AstView::Struct(s) => struct_codecs_ready(s),
            AstView::Enum(e) => enum_items_supported(e),
            _ => true,
        },
    ensures
        final(writer).tab() == 2,
        final(writer)@ == old(writer)@ + node_buffers(node@),
{
    reveal(node_buffers);
    match node {
        ASTNode::Struct(node) => writer.writeln(generate_struct_buffers(node).as_str()),
        ASTNode::Enum(node) => writer.writeln(generate_enum_buffers(node).as_str()),
        _ => (),
    }
}

/// Writes the codec classes of the structs and enums of a schema, without
/// a final empty line.
pub fn generate_buffers(ast: &[ASTNode]) -> (res: String)
    requires
        buffers_ready(ast_view(ast@)),
    ensures
        res@ == trim_blank(buffers_text(ast_view(ast@))),
{
    let ghost v = ast_view(ast@);
    let mut writer = Writer::new(2);
    let mut i: usize = 0;
    while i < ast.len()
        invariant
            i <= ast.len(),
            v == ast_view(ast@),
            buffers_ready(v),
            writer.tab() == 2,
            writer@ == buffers_text(v.take(i as int)),
        decreases ast.len() - i,
    {
        assert(v[i as int] == ast@[i as int]@);
        write_node_buffers(&mut writer, &ast[i]);
        assert(v.take(i + 1).drop_last() =~= v.take(i as int));
        i += 1;
    }
    assert(v.take(i as int) =~= v);
    trimmed(writer.show(), false)
}

/// Writes the client code of the functions of a schema.
pub fn generate_rpc(ast: &[ASTNode]) -> (res: String)
    requires
        rpc_ready(ast_view(ast@)),
    ensures
        res@ == rpc_methods(ast_view(ast@)),
{
    let mut writer = Writer::new(2);
    writer.write(generate_rpc_methods(ast).as_str());
    assert(writer@ =~= rpc_methods(ast_view(ast@)));
    String::from_str(writer.show())
}


/// The import lines of the generated file.
pub open spec fn import_lines(imports: Seq<ConstValueView>) -> Seq<char>
    decreases imports.len(),
{
    if imports.len() == 0 {
        seq![]
    } else {
        import_lines(imports.drop_last()) + match imports.last() {
            ConstValueView::Literal { literal: LiteralView::Str(v) } => line(
                "import '"@ + v + "';"@,
            ),
            _ => seq![],
        }
    }
}

/// Every Dart import of the schema is a string.
pub open spec fn imports_ready(ast: Seq<AstView>) -> bool {
    let imports = directive_group_values(ast, "dart"@, "import"@);
    forall|k: int|
        0 <= k < imports.len() ==> (#[trigger] imports[k] matches ConstValueView::Literal {
            literal: LiteralView::Str(_),
        })
}

/// The imports of the buffer packages, which every codec uses.
pub open spec fn buffers_package_imports() -> Seq<char> {
    line("import 'package:tech_paws_buffers/tech_paws_buffers.dart';"@) + line(
        "import 'package:tech_paws_buffers/primitives.dart';"@,
    )
}

/// The imports of the client code: the Dart libraries, the buffer packages
/// and the runtime packages.
pub open spec fn runtime_package_imports() -> Seq<char> {
    line("import 'dart:async';"@) + line("import 'dart:convert';"@) + line(""@)
        + buffers_package_imports() + line("import 'package:tech_paws_runtime/scheduler.dart';"@)
        + line("import 'package:tech_paws_runtime/tech_paws_runtime.dart';"@)
}

/// The packages that the generated code imports.
pub open spec fn package_imports(ast: Seq<AstView>, buffers: bool, rpc: bool) -> Seq<char> {
    if rpc && fn_nodes(ast).len() > 0 {
        runtime_package_imports()
    } else if buffers {
        buffers_package_imports()
    } else {
        seq![]
    }
}

/// Import lines, where there are any, end with `;` and a line break.
proof fn lemma_import_lines_end(imports: Seq<ConstValueView>)
    ensures
        import_lines(imports).len() > 0 ==> ({
            let t = import_lines(imports);
            t.len() >= 2 && t[t.len() - 1] == '\n' && t[t.len() - 2] == ';'
        }),
    decreases imports.len(),
{
    if imports.len() > 0 {
        lemma_import_lines_end(imports.drop_last());
        reveal_strlit("';");
        match imports.last() {
            ConstValueView::Literal { literal: LiteralView::Str(v) } => {
                let l = "import '"@ + v + "';"@;
                assert(l[l.len() - 1] == ';');
            },
            _ => {},
        }
    }
}

/// Package imports, where there are any, end with `;` and a line break.
proof fn lemma_package_imports_end(ast: Seq<AstView>, buffers: bool, rpc: bool)
    ensures
        package_imports(ast, buffers, rpc).len() > 0 ==> ({
            let t = package_imports(ast, buffers, rpc);
            t.len() >= 2 && t[t.len() - 1] == '\n' && t[t.len() - 2] == ';'
        }),
{
    reveal_strlit("import 'package:tech_paws_runtime/tech_paws_runtime.dart';");
    reveal_strlit("import 'package:tech_paws_buffers/primitives.dart';");
}

/// The generated file opens with the header lines, an empty line, the
/// package imports and the schema's own Dart imports in their order. The
/// client runtime is imported exactly when the client code is asked for
/// and the schema has a function; the buffer packages are imported then
/// too, and otherwise exactly when the codecs are asked for.
pub proof fn lemma_generated_imports(ast: Seq<AstView>, models: bool, buffers: bool, rpc: bool)
    ensures
        rpc && fn_nodes(ast).len() > 0 ==> package_imports(ast, buffers, rpc)
            == runtime_package_imports(),
        !(rpc && fn_nodes(ast).len() > 0) && buffers ==> package_imports(ast, buffers, rpc)
            == buffers_package_imports(),
        !(rpc && fn_nodes(ast).len() > 0) && !buffers ==> package_imports(ast, buffers, rpc)
            == Seq::<char>::empty(),
        ({
            let p = package_imports(ast, buffers, rpc) + import_lines(
                directive_group_values(ast, "dart"@, "import"@),
            );
            p.len() > 0 ==> (file_header() + line(""@) + p).is_prefix_of(
                generated(ast, models, buffers, rpc),
            )
        }),
{
    let pk = package_imports(ast, buffers, rpc);
    let d = import_lines(directive_group_values(ast, "dart"@, "import"@));
    let p = pk + d;
    if p.len() > 0 {
        lemma_import_lines_end(directive_group_values(ast, "dart"@, "import"@));
        lemma_package_imports_end(ast, buffers, rpc);
        let h = generated_head(ast, buffers, rpc);
        let b = generated_body(ast, models, buffers, rpc);
        assert(!ends_with_blank(h)) by {
            if d.len() > 0 {
                assert(h[h.len() - 1] == d[d.len() - 1]);
                assert(h[h.len() - 2] == d[d.len() - 2]);
            } else {
                assert(h[h.len() - 1] == pk[pk.len() - 1]);
                assert(h[h.len() - 2] == pk[pk.len() - 2]);
            }
        }
        lemma_trim_blanks_keeps_prefix(h, b);
    }
}

/// The two lines that open every generated file.
pub open spec fn file_header() -> Seq<char> {
    line("// GENERATED, DO NOT EDIT"@) + line("// ignore_for_file: unused_import"@)
}

/// Removing trailing empty lines keeps a prefix that does not itself end
/// with an empty line.
proof fn lemma_trim_blanks_keeps_prefix(h: Seq<char>, r: Seq<char>)
    requires
        !ends_with_blank(h),
    ensures
        h.is_prefix_of(trim_blanks(h + r)),
    decreases r.len(),
{
    let s = h + r;
    if ends_with_blank(s) {
        if r.len() == 0 {
            assert(s =~= h);
        } else {
            assert(s.drop_last() =~= h + r.drop_last());
            lemma_trim_blanks_keeps_prefix(h, r.drop_last());
        }
    } else {
        assert(s.subrange(0, h.len() as int) =~= h);
    }
}

/// Every generated file opens with the header lines.
proof fn lemma_generated_header(ast: Seq<AstView>, models: bool, buffers: bool, rpc: bool)
    ensures
        file_header().is_prefix_of(generated(ast, models, buffers, rpc)),
{
    let h = file_header();
    let r = line(""@) + (package_imports(ast, buffers, rpc) + import_lines(
        directive_group_values(ast, "dart"@, "import"@),
    )) + generated_body(ast, models, buffers, rpc);
    reveal_strlit("// GENERATED, DO NOT EDIT");
    reveal_strlit("// ignore_for_file: unused_import");
    assert(generated_text(ast, models, buffers, rpc) =~= h + r);
    lemma_trim_blanks_keeps_prefix(h, r);
}

/// The opening of the generated file: the header, an empty line, the
/// package imports and the schema's Dart imports.
pub open spec fn generated_head(ast: Seq<AstView>, buffers: bool, rpc: bool) -> Seq<char> {
    file_header() + line(""@) + (package_imports(ast, buffers, rpc) + import_lines(
        directive_group_values(ast, "dart"@, "import"@),
    ))
}

/// The parts of the generated file that are asked for, each after an empty
/// line: model classes, codecs, client code.
#[verifier::opaque]
pub open spec fn generated_body(ast: Seq<AstView>, models: bool, buffers: bool, rpc: bool) -> Seq<
    char,
> {
    models_part(ast, models) + buffers_part(ast, buffers) + rpc_part(ast, rpc)
}

/// The generated Dart file before its trailing empty lines are removed.
pub open spec fn generated_text(ast: Seq<AstView>, models: bool, buffers: bool, rpc: bool) -> Seq<
    char,
> {
    generated_head(ast, buffers, rpc) + generated_body(ast, models, buffers, rpc)
}

/// The generated Dart file: `generated_text` without trailing empty lines.
pub open spec fn generated(ast: Seq<AstView>, models: bool, buffers: bool, rpc: bool) -> Seq<char> {
    trim_blanks(generated_text(ast, models, buffers, rpc))
}

/// What the generator needs of a schema for the parts asked for.
pub open spec fn generate_ready(ast: Seq<AstView>, models: bool, buffers: bool, rpc: bool) -> bool {
    &&& imports_ready(ast)
    &&& models ==> models_ready(ast)
    &&& buffers ==> buffers_ready(ast)
    &&& rpc ==> rpc_ready(ast)
}

fn write_package_imports(writer: &mut Writer, ast: &[ASTNode], buffers: bool, rpc: bool)
    requires
        old(writer).tab() == 2,
    ensures
        final(writer).tab() == 2,
        final(writer)@ == old(writer)@ + package_imports(ast_view(ast@), buffers, rpc),
{
    proof {
        reveal_strlit("");
    }
    let ghost h0 = writer@;
    if rpc && find_fn_nodes(ast).len() != 0 {
        writer.writeln("import 'dart:async';");
        writer.writeln("import 'dart:convert';");
        writer.writeln("");
        writer.writeln("import 'package:tech_paws_buffers/tech_paws_buffers.dart';");
        writer.writeln("import 'package:tech_paws_buffers/primitives.dart';");
        writer.writeln("import 'package:tech_paws_runtime/scheduler.dart';");
        writer.writeln("import 'package:tech_paws_runtime/tech_paws_runtime.dart';");
    } else if buffers {
        writer.writeln("import 'package:tech_paws_buffers/tech_paws_buffers.dart';");
        writer.writeln("import 'package:tech_paws_buffers/primitives.dart';");
    }
    assert(writer@ =~= h0 + package_imports(ast_view(ast@), buffers, rpc));
}

fn write_dart_imports(writer: &mut Writer, ast: &[ASTNode])
    requires
        old(writer).tab() == 2,
        imports_ready(ast_view(ast@)),
    ensures
        final(writer).tab() == 2,
        final(writer)@ == old(writer)@ + import_lines(
            directive_group_values(ast_view(ast@), "dart"@, "import"@),
        ),
{
    let ghost v = ast_view(ast@);
    let imports = find_directive_group_values(ast, "dart", "import");
    let ghost iv = imports@.map_values(|c: &ConstValueASTNode| c@);
    let ghost h1 = writer@;
    let mut i: usize = 0;
    while i < imports.len()
        invariant
            i <= imports.len(),
            iv == imports@.map_values(|c: &ConstValueASTNode| c@),
            iv == directive_group_values(v, "dart"@, "import"@),
            imports_ready(v),
            writer.tab() == 2,
            writer@ == h1 + import_lines(iv.take(i as int)),
        decreases imports.len() - i,
    {
        assert(iv[i as int] == imports@[i as int]@);
        assert(iv.take(i + 1).drop_last() =~= iv.take(i as int));
        match imports[i] {
            ConstValueASTNode::Literal { literal: Literal::StringLiteral(value) } => {
                writer.writeln(cat3("import '", value.as_str(), "';").as_str());
            },
            _ => {
                assert(false);
            },
        }
        i += 1;
    }
    assert(iv.take(i as int) =~= iv);
}

/// Writes the Dart file of a schema, with the model classes, the codecs
/// and the client code as asked. The schema tree has no constant items, so
/// the file has no section of constants.
pub fn generate(ast: &[ASTNode], models: bool, buffers: bool, rpc: bool) -> (res: String)
    requires
        generate_ready(ast_view(ast@), models, buffers, rpc),
    ensures
        res@ == generated(ast_view(ast@), models, buffers, rpc),
        !ends_with_blank(res@),
        file_header().is_prefix_of(res@),
{
    let ghost v = ast_view(ast@);
    let mut writer = Writer::new(2);
    write_generated_head(&mut writer, ast, buffers, rpc);
    write_generated_body(&mut writer, ast, models, buffers, rpc);
    assert(writer@ =~= generated_text(v, models, buffers, rpc));
    proof {
        lemma_trim_blanks(generated_text(v, models, buffers, rpc));
        lemma_generated_header(v, models, buffers, rpc);
    }
    trimmed(writer.show(), true)
}

fn write_generated_head(writer: &mut Writer, ast: &[ASTNode], buffers: bool, rpc: bool)
    requires
        old(writer).tab() == 2,
        old(writer)@ == Seq::<char>::empty(),
        imports_ready(ast_view(ast@)),
    ensures
        final(writer).tab() == 2,
        final(writer)@ == generated_head(ast_view(ast@), buffers, rpc),
{
    proof {
        reveal_strlit("");
        reveal_strlit("// GENERATED, DO NOT EDIT");
        reveal_strlit("// ignore_for_file: unused_import");
    }
    writer.writeln("// GENERATED, DO NOT EDIT");
    writer.writeln("// ignore_for_file: unused_import");
    writer.writeln("");
    write_package_imports(writer, ast, buffers, rpc);
    write_dart_imports(writer, ast);
    assert(writer@ =~= generated_head(ast_view(ast@), buffers, rpc));
}

/// The models part of the generated file.
#[verifier::opaque]
pub open spec fn models_part(ast: Seq<AstView>, models: bool) -> Seq<char> {
    if models {
        line(""@) + trim_blank(models_text(ast))
    } else {
        seq![]
    }
}

/// The codecs part of the generated file.
#[verifier::opaque]
pub open spec fn buffers_part(ast: Seq<AstView>, buffers: bool) -> Seq<char> {
    if buffers {
        line(""@) + trim_blank(buffers_text(ast))
    } else {
        seq![]
    }
}

/// The client part of the generated file.
#[verifier::opaque]
pub open spec fn rpc_part(ast: Seq<AstView>, rpc: bool) -> Seq<char> {
    if rpc {
        line(""@) + rpc_methods(ast)
    } else {
        seq![]
    }
}

fn write_models_part(writer: &mut Writer, ast: &[ASTNode], models: bool)
    requires
        old(writer).tab() == 2,
        models ==> models_ready(ast_view(ast@)),
    ensures
        final(writer).tab() == 2,
        final(writer)@ == old(writer)@ + models_part(ast_view(ast@), models),
{
    proof {
        reveal_strlit("");
        reveal(models_part);
    }
    if models {
        writer.writeln("");
        writer.write(generate_models(ast).as_str());
    }
}

fn write_buffers_part(writer: &mut Writer, ast: &[ASTNode], buffers: bool)
    requires
        old(writer).tab() == 2,
        buffers ==> buffers_ready(ast_view(ast@)),
    ensures
        final(writer).tab() == 2,
        final(writer)@ == old(writer)@ + buffers_part(ast_view(ast@), buffers),
{
    proof {
        reveal_strlit("");
        reveal(buffers_part);
    }
    if buffers {
        writer.writeln("");
        writer.write(generate_buffers(ast).as_str());
    }
}

fn write_rpc_part(writer: &mut Writer, ast: &[ASTNode], rpc: bool)
    requires
        old(writer).tab() == 2,
        rpc ==> rpc_ready(ast_view(ast@)),
    ensures
        final(writer).tab() == 2,
        final(writer)@ == old(writer)@ + rpc_part(ast_view(ast@), rpc),
{
    proof {
        reveal_strlit("");
        reveal(rpc_part);
    }
    if rpc {
        writer.writeln("");
        writer.write(generate_rpc(ast).as_str());
    }
}

fn write_generated_body(
    writer: &mut Writer,
    ast: &[ASTNode],
    models: bool,
    buffers: bool,
    rpc: bool,
)
    requires
        old(writer).tab() == 2,
        generate_ready(ast_view(ast@), models, buffers, rpc),
    ensures
        final(writer).tab() == 2,
        final(writer)@ == old(writer)@ + generated_body(ast_view(ast@), models, buffers, rpc),
{
    let ghost v = ast_view(ast@);
    let ghost h = writer@;
    write_models_part(writer, ast, models);
    write_buffers_part(writer, ast, buffers);
    write_rpc_part(writer, ast, rpc);
    reveal(generated_body);
    assert(writer@ =~= h + (models_part(v, models) + buffers_part(v, buffers) + rpc_part(v, rpc)));
}

} // verus!

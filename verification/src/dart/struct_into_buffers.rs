use vstd::prelude::*;
use vstd::string::*;

use crate::casing::{camel, to_case, TextCase};
use crate::dart::struct_emplace_to_buffers::{
    emplace_skip_method, emplace_write_method, fields_supported,
    generate_struct_emplace_buffers_skip, generate_struct_emplace_buffers_write,
};
use crate::dart_generator::{generate_read, read_expr, supported_size, tab_line};
use crate::ast::{StructASTNode, StructFieldView, StructView};
use crate::text::{cat3, cat4, cat5};
use crate::writer::{line, Writer};

verus! {

/// `<field>: <read>,` for each field: the arguments of the constructor
/// call that builds a model from what is read.
pub open spec fn field_args(fields: Seq<StructFieldView>) -> Seq<char>
    decreases fields.len(),
{
    if fields.len() == 0 {
        seq![]
    } else {
        let f = fields.last();
        field_args(fields.drop_last()) + tab_line(
            3,
            camel(f.name) + ": "@ + read_expr(f.type_id) + ","@,
        )
    }
}

/// The `read` method of the creating codec of a struct: it reads each field
/// and calls the model's constructor, the constant one for a struct without
/// fields.
pub open spec fn into_read_method(node: StructView) -> Seq<char> {
    tab_line(1, "@override"@) + tab_line(1, node.id + " read(BytesReader reader) {"@) + (if node.fields.len()
        == 0 {
        tab_line(2, "return const "@ + node.id + "();"@)
    } else {
        tab_line(2, "return "@ + node.id + "("@) + field_args(node.fields) + tab_line(2, ");"@)
    }) + tab_line(1, "}"@)
}

/// The creating codec class of a struct: `read` builds a new model, `write`
/// and `skip` are those of the in-place codec.
pub open spec fn into_buffers(node: StructView) -> Seq<char> {
    line("class "@ + node.id + "IntoBuffers implements IntoBuffers<"@ + node.id + "> {"@) + tab_line(
        1,
        "const "@ + node.id + "IntoBuffers();"@,
    ) + line(""@) + line(into_read_method(node)) + line(emplace_write_method(node))
        + emplace_skip_method(node) + line("}"@)
}

/// Writes the class that reads a struct into a new model, writes it and
/// skips it.
pub fn generate_struct_into_buffers(node: &StructASTNode) -> (res: String)
    requires
        fields_supported(node@.fields),
    ensures
        res@ == into_buffers(node@),
{
    let mut writer = Writer::new(2);
    let id = node.id.as_str();
    proof {
        reveal_strlit("");
    }
    writer.writeln(cat5("class ", id, "IntoBuffers implements IntoBuffers<", id, "> {").as_str());
    writer.writeln_tab(1, cat3("const ", id, "IntoBuffers();").as_str());
    writer.writeln("");
    let read = generate_struct_into_buffers_read(node);
    writer.writeln(read.as_str());
    let write = generate_struct_emplace_buffers_write(node);
    writer.writeln(write.as_str());
    let skip = generate_struct_emplace_buffers_skip(node);
    writer.write(skip.as_str());
    writer.writeln("}");
    String::from_str(writer.show())
}

/// Writes the `read` method of the creating codec of a struct.
pub fn generate_struct_into_buffers_read(node: &StructASTNode) -> (res: String)
    requires
        fields_supported(node@.fields),
    ensures
        res@ == into_read_method(node@),
{
    let mut writer = Writer::new(2);
    let id = node.id.as_str();
    writer.writeln_tab(1, "@override");
    writer.writeln_tab(1, cat3("", id, " read(BytesReader reader) {").as_str());
    proof {
        reveal_strlit("");
        assert(""@ + node.id@ + " read(BytesReader reader) {"@ =~= node.id@
            + " read(BytesReader reader) {"@);
    }
    if node.fields.len() == 0 {
        writer.writeln_tab(2, cat3("return const ", id, "();").as_str());
    } else {
        writer.writeln_tab(2, cat3("return ", id, "(").as_str());
        let ghost head = writer@;
        let ghost fs = node@.fields;
        let mut i: usize = 0;
        while i < node.fields.len()
            invariant
                i <= node.fields.len(),
                fs == node@.fields,
                fields_supported(fs),
                writer.tab() == 2,
                writer@ == head + field_args(fs.take(i as int)),
            decreases node.fields.len() - i,
        {
            let field = &node.fields[i];
            assert(fs[i as int] == field@);
            assert(supported_size(fs[i as int].type_id));
            let name = to_case(field.name.as_str(), TextCase::Camel);
            let read = generate_read(&field.type_id);
            writer.writeln_tab(3, cat4(name.as_str(), ": ", read.as_str(), ",").as_str());
            assert(fs.take(i + 1).drop_last() =~= fs.take(i as int));
            i += 1;
        }
        assert(fs.take(i as int) =~= fs);
        writer.writeln_tab(2, ");");
    }
    writer.writeln_tab(1, "}");
    String::from_str(writer.show())
}

} // verus!

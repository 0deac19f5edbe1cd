use vstd::prelude::*;
use vstd::string::*;

use crate::casing::{camel, to_case, TextCase};
use crate::dart_generator::{generate_read, generate_write, read_expr, supported_size, tab_line, write_stmt};
use crate::ast::{StructASTNode, StructFieldASTNode, StructFieldView, StructView};
use crate::text::{cat2, cat3, cat5};
use crate::writer::{line, Writer};

verus! {

/// Every field has a type that the binary codecs support.
pub open spec fn fields_supported(fields: Seq<StructFieldView>) -> bool {
    forall|i: int| 0 <= i < fields.len() ==> supported_size(#[trigger] fields[i].type_id)
}

/// `model.<field> = <read>;` for each field.
pub open spec fn field_reads(fields: Seq<StructFieldView>) -> Seq<char>
    decreases fields.len(),
{
    if fields.len() == 0 {
        seq![]
    } else {
        let f = fields.last();
        field_reads(fields.drop_last()) + tab_line(
            2,
            "model."@ + camel(f.name) + " = "@ + read_expr(f.type_id) + ";"@,
        )
    }
}

/// The write statement of each field.
pub open spec fn field_writes(fields: Seq<StructFieldView>) -> Seq<char>
    decreases fields.len(),
{
    if fields.len() == 0 {
        seq![]
    } else {
        let f = fields.last();
        field_writes(fields.drop_last()) + tab_line(
            2,
            write_stmt(f.type_id, "model."@ + camel(f.name)),
        )
    }
}

/// A read of each field, its value dropped.
pub open spec fn field_skips(fields: Seq<StructFieldView>) -> Seq<char>
    decreases fields.len(),
{
    if fields.len() == 0 {
        seq![]
    } else {
        field_skips(fields.drop_last()) + tab_line(3, read_expr(fields.last().type_id) + ";"@)
    }
}

/// The `read` method of the in-place codec of a struct.
pub open spec fn emplace_read_method(node: StructView) -> Seq<char> {
    tab_line(1, "@override"@) + tab_line(
        1,
        "void read(BytesReader reader, "@ + node.id + " model) {"@,
    ) + field_reads(node.fields) + tab_line(1, "}"@)
}

/// The `write` method of the in-place codec of a struct.
pub open spec fn emplace_write_method(node: StructView) -> Seq<char> {
    tab_line(1, "@override"@) + tab_line(
        1,
        "void write(BytesWriter writer, "@ + node.id + " model) {"@,
    ) + field_writes(node.fields) + tab_line(1, "}"@)
}

/// The `skip` method of the in-place codec of a struct.
pub open spec fn emplace_skip_method(node: StructView) -> Seq<char> {
    tab_line(1, "@override"@) + tab_line(1, "void skip(BytesReader reader, int count) {"@)
        + tab_line(2, "for (int i = 0; i < count; i += 1) {"@) + field_skips(node.fields)
        + tab_line(2, "}"@) + tab_line(1, "}"@)
}

/// The in-place codec class of a struct.
pub open spec fn emplace_buffers(node: StructView) -> Seq<char> {
    line("class "@ + node.id + "EmplaceToBuffers implements EmplaceToBuffers<"@ + node.id + "> {"@)
        + tab_line(1, "const "@ + node.id + "EmplaceToBuffers()"@) + line(""@) + line(
        emplace_read_method(node),
    ) + line(emplace_write_method(node)) + emplace_skip_method(node) + line("}"@)
}

/// Writes the class that reads a struct into an existing model, writes it
/// and skips it.
pub fn generate_struct_emplace_buffers(node: &StructASTNode) -> (res: String)
    requires
        fields_supported(node@.fields),
    ensures
        res@ == emplace_buffers(node@),
{
    let mut writer = Writer::new(2);
    let id = node.id.as_str();
    proof {
        reveal_strlit("");
    }
    writer.writeln(cat5("class ", id, "EmplaceToBuffers implements EmplaceToBuffers<", id, "> {").as_str());
    writer.writeln_tab(1, cat3("const ", id, "EmplaceToBuffers()").as_str());
    writer.writeln("");
    let read = generate_struct_emplace_buffers_read(node);
    writer.writeln(read.as_str());
    let write = generate_struct_emplace_buffers_write(node);
    writer.writeln(write.as_str());
    let skip = generate_struct_emplace_buffers_skip(node);
    writer.write(skip.as_str());
    writer.writeln("}");
    String::from_str(writer.show())
}

/// Writes the `read` method of the in-place codec of a struct.
pub fn generate_struct_emplace_buffers_read(node: &StructASTNode) -> (res: String)
    requires
        fields_supported(node@.fields),
    ensures
        res@ == emplace_read_method(node@),
{
    let mut writer = Writer::new(2);
    writer.writeln_tab(1, "@override");
    writer.writeln_tab(1, cat3("void read(BytesReader reader, ", node.id.as_str(), " model) {").as_str());
    let ghost head = writer@;
    let ghost fs = node@.fields;
    let mut i: usize = 0;
    while i < node.fields.len()
        invariant
            i <= node.fields.len(),
            fs == node@.fields,
            fields_supported(fs),
            writer.tab() == 2,
            writer@ == head + field_reads(fs.take(i as int)),
        decreases node.fields.len() - i,
    {
        let field = &node.fields[i];
        assert(fs[i as int] == field@);
        assert(supported_size(fs[i as int].type_id));
        let name = to_case(field.name.as_str(), TextCase::Camel);
        let read = generate_read(&field.type_id);
        writer.writeln_tab(2, cat5("model.", name.as_str(), " = ", read.as_str(), ";").as_str());
        assert(fs.take(i + 1).drop_last() =~= fs.take(i as int));
        i += 1;
    }
    assert(fs.take(i as int) =~= fs);
    writer.writeln_tab(1, "}");
    String::from_str(writer.show())
}

/// Writes the `write` method of the in-place codec of a struct.
pub fn generate_struct_emplace_buffers_write(node: &StructASTNode) -> (res: String)
    requires
        fields_supported(node@.fields),
    ensures
        res@ == emplace_write_method(node@),
{
    let mut writer = Writer::new(2);
    writer.writeln_tab(1, "@override");
    writer.writeln_tab(1, cat3("void write(BytesWriter writer, ", node.id.as_str(), " model) {").as_str());
    let ghost head = writer@;
    let ghost fs = node@.fields;
    let mut i: usize = 0;
    while i < node.fields.len()
        invariant
            i <= node.fields.len(),
            fs == node@.fields,
            fields_supported(fs),
            writer.tab() == 2,
            writer@ == head + field_writes(fs.take(i as int)),
        decreases node.fields.len() - i,
    {
        let field = &node.fields[i];
        assert(fs[i as int] == field@);
        assert(supported_size(fs[i as int].type_id));
        let name = to_case(field.name.as_str(), TextCase::Camel);
        let accessor = cat2("model.", name.as_str());
        let write = generate_write(&field.type_id, accessor.as_str());
        writer.writeln_tab(2, write.as_str());
        assert(fs.take(i + 1).drop_last() =~= fs.take(i as int));
        i += 1;
    }
    assert(fs.take(i as int) =~= fs);
    writer.writeln_tab(1, "}");
    String::from_str(writer.show())
}

/// Writes the `skip` method of the in-place codec of a struct.
pub fn generate_struct_emplace_buffers_skip(node: &StructASTNode) -> (res: String)
    requires
        fields_supported(node@.fields),
    ensures
        res@ == emplace_skip_method(node@),
{
    let mut writer = Writer::new(2);
    writer.writeln_tab(1, "@override");
    writer.writeln_tab(1, "void skip(BytesReader reader, int count) {");
    writer.writeln_tab(2, "for (int i = 0; i < count; i += 1) {");
    let ghost head = writer@;
    let ghost fs = node@.fields;
    let mut i: usize = 0;
    while i < node.fields.len()
        invariant
            i <= node.fields.len(),
            fs == node@.fields,
            fields_supported(fs),
            writer.tab() == 2,
            writer@ == head + field_skips(fs.take(i as int)),
        decreases node.fields.len() - i,
    {
        let field = &node.fields[i];
        assert(fs[i as int] == field@);
        assert(supported_size(fs[i as int].type_id));
        let read = generate_read(&field.type_id);
        writer.writeln_tab(3, cat2(read.as_str(), ";").as_str());
        assert(fs.take(i + 1).drop_last() =~= fs.take(i as int));
        i += 1;
    }
    assert(fs.take(i as int) =~= fs);
    writer.writeln_tab(2, "}");
    writer.writeln_tab(1, "}");
    String::from_str(writer.show())
}

} // verus!

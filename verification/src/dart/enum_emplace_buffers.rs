use vstd::prelude::*;
use vstd::string::*;

use crate::casing::{camel, to_case, TextCase};
use crate::dart_generator::tab_line;
use crate::ast::{item_id, item_position, EnumASTNode, EnumItemASTNode, EnumItemView, EnumView};
use crate::text::{cat2, cat3, cat5, decimal, decimal_string};
use crate::writer::{line, Writer};

verus! {

/// The name of the struct that holds the data of an item of enum `e`.
pub open spec fn item_struct_id(e: Seq<char>, item: EnumItemView) -> Seq<char> {
    e + item_id(item)
}

/// The discriminant of an item on the wire: its position, in decimal.
pub open spec fn item_tag(item: EnumItemView) -> Seq<char> {
    decimal(item_position(item) as nat)
}

/// Reading one item: when the discriminant read is the item's, the model
/// becomes that item and its data is read in place.
pub open spec fn item_read_block(e: Seq<char>, item: EnumItemView) -> Seq<char> {
    let c = camel(item_id(item));
    tab_line(2, "if (value == "@ + item_tag(item) + ") {"@) + tab_line(
        3,
        "model.value = "@ + e + "Value."@ + c + ";"@,
    ) + tab_line(
        3,
        "const "@ + item_struct_id(e, item) + "EmplaceToBuffers().read(reader, model."@ + c + ");"@,
    ) + tab_line(3, "return;"@) + tab_line(2, "}"@)
}

/// Writing one item: when the model is that item, its discriminant and then
/// its data are written.
pub open spec fn item_write_block(e: Seq<char>, item: EnumItemView) -> Seq<char> {
    let c = camel(item_id(item));
    tab_line(2, "if (model.value == "@ + e + "Value."@ + c + ") {"@) + tab_line(
        3,
        "writer.writeInt32("@ + item_tag(item) + ");"@,
    ) + tab_line(
        3,
        "const "@ + item_struct_id(e, item) + "EmplaceToBuffers().write(writer, model."@ + c
            + ");"@,
    ) + tab_line(3, "return;"@) + tab_line(2, "}"@)
}

/// Skipping one item: when the discriminant read is the item's, its data is
/// skipped.
pub open spec fn item_skip_line(e: Seq<char>, item: EnumItemView) -> Seq<char> {
    tab_line(
        3,
        "if (value == "@ + item_tag(item) + ") const "@ + item_struct_id(e, item)
            + "EmplaceToBuffers().skip(reader, 1);"@,
    )
}

/// The read block of each of `items`.
pub open spec fn item_reads(e: Seq<char>, items: Seq<EnumItemView>) -> Seq<char>
    decreases items.len(),
{
    if items.len() == 0 {
        seq![]
    } else {
        item_reads(e, items.drop_last()) + item_read_block(e, items.last())
    }
}

/// The write block of each of `items`.
pub open spec fn item_writes(e: Seq<char>, items: Seq<EnumItemView>) -> Seq<char>
    decreases items.len(),
{
    if items.len() == 0 {
        seq![]
    } else {
        item_writes(e, items.drop_last()) + item_write_block(e, items.last())
    }
}

/// The skip line of each of `items`.
pub open spec fn item_skips(e: Seq<char>, items: Seq<EnumItemView>) -> Seq<char>
    decreases items.len(),
{
    if items.len() == 0 {
        seq![]
    } else {
        item_skips(e, items.drop_last()) + item_skip_line(e, items.last())
    }
}

/// The `read` method of the in-place codec of an enum.
pub open spec fn enum_emplace_read_method(node: EnumView) -> Seq<char> {
    tab_line(1, "@override"@) + tab_line(
        1,
        "void read(BytesReader reader, "@ + node.id + " model) {"@,
    ) + tab_line(2, "final value = reader.readInt32();"@) + item_reads(node.id, node.items)
        + tab_line(1, "}"@)
}

/// The `write` method of the in-place codec of an enum.
pub open spec fn enum_emplace_write_method(node: EnumView) -> Seq<char> {
    tab_line(1, "@override"@) + tab_line(
        1,
        "void write(BytesWriter writer, "@ + node.id + " model) {"@,
    ) + item_writes(node.id, node.items) + tab_line(1, "}"@)
}

/// The `skip` method of the in-place codec of an enum.
pub open spec fn enum_emplace_skip_method(node: EnumView) -> Seq<char> {
    tab_line(1, "@override"@) + tab_line(1, "void skip(BytesReader reader, int count) {"@)
        + tab_line(2, "for (int i = 0; i < count; i += 1) {"@) + tab_line(
        3,
        "final value = reader.readInt32();"@,
    ) + item_skips(node.id, node.items) + tab_line(2, "}"@) + tab_line(1, "}"@)
}

/// The in-place codec class of an enum: the discriminant of the item, then
/// the item's data through the in-place codec of its struct.
pub open spec fn enum_emplace_buffers(node: EnumView) -> Seq<char> {
    line("class "@ + node.id + "EmplaceToBuffers implements EmplaceToBuffers<"@ + node.id + "> {"@)
        + tab_line(1, "const "@ + node.id + "EmplaceToBuffers();"@) + line(""@) + line(
        enum_emplace_read_method(node),
    ) + line(enum_emplace_write_method(node)) + enum_emplace_skip_method(node) + line("}"@)
}

fn generate_item_read_block(writer: &mut Writer, e: &str, item: &EnumItemASTNode)
    requires
        old(writer).tab() == 2,
    ensures
        final(writer).tab() == 2,
        final(writer)@ == old(writer)@ + item_read_block(e@, item@),
{
    let c = to_case(item.id().as_str(), TextCase::Camel);
    let s = cat2(e, item.id().as_str());
    let tag = decimal_string(item.position() as u64);
    writer.writeln_tab(2, cat3("if (value == ", tag.as_str(), ") {").as_str());
    writer.writeln_tab(3, cat5("model.value = ", e, "Value.", c.as_str(), ";").as_str());
    writer.writeln_tab(
        3,
        cat5("const ", s.as_str(), "EmplaceToBuffers().read(reader, model.", c.as_str(), ");").as_str(),
    );
    writer.writeln_tab(3, "return;");
    writer.writeln_tab(2, "}");
}

fn generate_item_write_block(writer: &mut Writer, e: &str, item: &EnumItemASTNode)
    requires
        old(writer).tab() == 2,
    ensures
        final(writer).tab() == 2,
        final(writer)@ == old(writer)@ + item_write_block(e@, item@),
{
    let c = to_case(item.id().as_str(), TextCase::Camel);
    let s = cat2(e, item.id().as_str());
    let tag = decimal_string(item.position() as u64);
    writer.writeln_tab(2, cat5("if (model.value == ", e, "Value.", c.as_str(), ") {").as_str());
    writer.writeln_tab(3, cat3("writer.writeInt32(", tag.as_str(), ");").as_str());
    writer.writeln_tab(
        3,
        cat5("const ", s.as_str(), "EmplaceToBuffers().write(writer, model.", c.as_str(), ");").as_str(),
    );
    writer.writeln_tab(3, "return;");
    writer.writeln_tab(2, "}");
}

fn generate_item_skip_line(writer: &mut Writer, e: &str, item: &EnumItemASTNode)
    requires
        old(writer).tab() == 2,
    ensures
        final(writer).tab() == 2,
        final(writer)@ == old(writer)@ + item_skip_line(e@, item@),
{
    let s = cat2(e, item.id().as_str());
    let tag = decimal_string(item.position() as u64);
    writer.writeln_tab(
        3,
        cat5("if (value == ", tag.as_str(), ") const ", s.as_str(), "EmplaceToBuffers().skip(reader, 1);").as_str(),
    );
}

/// Writes the `read` method of the in-place codec of an enum.
pub fn generate_enum_emplace_buffers_read(node: &EnumASTNode) -> (res: String)
    ensures
        res@ == enum_emplace_read_method(node@),
{
    let mut writer = Writer::new(2);
    writer.writeln_tab(1, "@override");
    writer.writeln_tab(1, cat3("void read(BytesReader reader, ", node.id.as_str(), " model) {").as_str());
    writer.writeln_tab(2, "final value = reader.readInt32();");
    let ghost head = writer@;
    let ghost items = node@.items;
    let mut i: usize = 0;
    while i < node.items.len()
        invariant
            i <= node.items.len(),
            items == node@.items,
            writer.tab() == 2,
            writer@ == head + item_reads(node@.id, items.take(i as int)),
        decreases node.items.len() - i,
    {
        assert(items[i as int] == node.items@[i as int]@);
        generate_item_read_block(&mut writer, node.id.as_str(), &node.items[i]);
        assert(items.take(i + 1).drop_last() =~= items.take(i as int));
        i += 1;
    }
    assert(items.take(i as int) =~= items);
    writer.writeln_tab(1, "}");
    String::from_str(writer.show())
}

/// Writes the `write` method of the in-place codec of an enum.
pub fn generate_enum_emplace_buffers_write(node: &EnumASTNode) -> (res: String)
    ensures
        res@ == enum_emplace_write_method(node@),
{
    let mut writer = Writer::new(2);
    writer.writeln_tab(1, "@override");
    writer.writeln_tab(1, cat3("void write(BytesWriter writer, ", node.id.as_str(), " model) {").as_str());
    let ghost head = writer@;
    let ghost items = node@.items;
    let mut i: usize = 0;
    while i < node.items.len()
        invariant
            i <= node.items.len(),
            items == node@.items,
            writer.tab() == 2,
            writer@ == head + item_writes(node@.id, items.take(i as int)),
        decreases node.items.len() - i,
    {
        assert(items[i as int] == node.items@[i as int]@);
        generate_item_write_block(&mut writer, node.id.as_str(), &node.items[i]);
        assert(items.take(i + 1).drop_last() =~= items.take(i as int));
        i += 1;
    }
    assert(items.take(i as int) =~= items);
    writer.writeln_tab(1, "}");
    String::from_str(writer.show())
}

/// Writes the `skip` method of the in-place codec of an enum.
pub fn generate_enum_emplace_buffers_skip(node: &EnumASTNode) -> (res: String)
    ensures
        res@ == enum_emplace_skip_method(node@),
{
    let mut writer = Writer::new(2);
    writer.writeln_tab(1, "@override");
    writer.writeln_tab(1, "void skip(BytesReader reader, int count) {");
    writer.writeln_tab(2, "for (int i = 0; i < count; i += 1) {");
    writer.writeln_tab(3, "final value = reader.readInt32();");
    let ghost head = writer@;
    let ghost items = node@.items;
    let mut i: usize = 0;
    while i < node.items.len()
        invariant
            i <= node.items.len(),
            items == node@.items,
            writer.tab() == 2,
            writer@ == head + item_skips(node@.id, items.take(i as int)),
        decreases node.items.len() - i,
    {
        assert(items[i as int] == node.items@[i as int]@);
        generate_item_skip_line(&mut writer, node.id.as_str(), &node.items[i]);
        assert(items.take(i + 1).drop_last() =~= items.take(i as int));
        i += 1;
    }
    assert(items.take(i as int) =~= items);
    writer.writeln_tab(2, "}");
    writer.writeln_tab(1, "}");
    String::from_str(writer.show())
}

/// Writes the class that reads an enum into an existing model, writes it
/// and skips it.
pub fn generate_enum_emplace_buffers(node: &EnumASTNode) -> (res: String)
    ensures
        res@ == enum_emplace_buffers(node@),
{
    let mut writer = Writer::new(2);
    let id = node.id.as_str();
    proof {
        reveal_strlit("");
    }
    writer.writeln(cat5("class ", id, "EmplaceToBuffers implements EmplaceToBuffers<", id, "> {").as_str());
    writer.writeln_tab(1, cat3("const ", id, "EmplaceToBuffers();").as_str());
    writer.writeln("");
    let read = generate_enum_emplace_buffers_read(node);
    writer.writeln(read.as_str());
    let write = generate_enum_emplace_buffers_write(node);
    writer.writeln(write.as_str());
    let skip = generate_enum_emplace_buffers_skip(node);
    writer.write(skip.as_str());
    writer.writeln("}");
    String::from_str(writer.show())
}

} // verus!

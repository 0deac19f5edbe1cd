use vstd::prelude::*;
use vstd::string::*;

use crate::dart_generator::tab_line;
use crate::ast::{EnumASTNode, EnumView};
use crate::text::{cat3, cat5};
use crate::writer::{line, Writer};

verus! {

/// The creating codec class of an enum: `read` makes a model and reads
/// into it with the in-place codec, `write` and `skip` hand over to the
/// in-place codec.
pub open spec fn enum_into_buffers(node: EnumView) -> Seq<char> {
    let e = node.id;
    line("class "@ + e + "IntoBuffers implements IntoBuffers<"@ + e + "> {"@) + tab_line(
        1,
        "const "@ + e + "IntoBuffers();"@,
    ) + line(""@) + tab_line(1, "@override"@) + tab_line(1, e + " read(BytesReader reader) {"@)
        + tab_line(2, "final model = "@ + e + "();"@) + tab_line(
        2,
        "const "@ + e + "EmplaceToBuffers().read(reader, model);"@,
    ) + tab_line(2, "return model;"@) + tab_line(1, "}"@) + line(""@) + tab_line(
        1,
        "@override"@,
    ) + tab_line(1, "void write(BytesWriter writer, "@ + e + " model) {"@) + tab_line(
        2,
        "const "@ + e + "EmplaceToBuffers().write(writer, model);"@,
    ) + tab_line(1, "}"@) + line(""@) + tab_line(1, "@override"@) + tab_line(
        1,
        "void skip(BytesReader reader, int count) {"@,
    ) + tab_line(2, "const "@ + e + "EmplaceToBuffers().skip(reader, count);"@) + tab_line(
        1,
        "}"@,
    ) + line("}"@)
}

/// Writes the class that reads an enum into a new model, writes it and
/// skips it.
pub fn generate_enum_into_buffers(node: &EnumASTNode) -> (res: String)
    ensures
        res@ == enum_into_buffers(node@),
{
    let mut writer = Writer::new(2);
    let e = node.id.as_str();
    proof {
        reveal_strlit("");
    }
    writer.writeln(cat5("class ", e, "IntoBuffers implements IntoBuffers<", e, "> {").as_str());
    writer.writeln_tab(1, cat3("const ", e, "IntoBuffers();").as_str());
    writer.writeln("");
    writer.writeln_tab(1, "@override");
    writer.writeln_tab(1, cat3("", e, " read(BytesReader reader) {").as_str());
    proof {
        assert(""@ + e@ + " read(BytesReader reader) {"@ =~= e@ + " read(BytesReader reader) {"@);
    }
    writer.writeln_tab(2, cat3("final model = ", e, "();").as_str());
    writer.writeln_tab(2, cat3("const ", e, "EmplaceToBuffers().read(reader, model);").as_str());
    writer.writeln_tab(2, "return model;");
    writer.writeln_tab(1, "}");
    writer.writeln("");
    writer.writeln_tab(1, "@override");
    writer.writeln_tab(1, cat3("void write(BytesWriter writer, ", e, " model) {").as_str());
    writer.writeln_tab(2, cat3("const ", e, "EmplaceToBuffers().write(writer, model);").as_str());
    writer.writeln_tab(1, "}");
    writer.writeln("");
    writer.writeln_tab(1, "@override");
    writer.writeln_tab(1, "void skip(BytesReader reader, int count) {");
    writer.writeln_tab(2, cat3("const ", e, "EmplaceToBuffers().skip(reader, count);").as_str());
    writer.writeln_tab(1, "}");
    writer.writeln("}");
    assert(writer@ =~= enum_into_buffers(node@));
    String::from_str(writer.show())
}

} // verus!

# tpb_codegen

A code generator for binary-buffer schemas, verified with Verus. A schema
(`struct Point { #[1] x: i32, #[2] y: i32 }`) is read by the lexer and the
parser into a syntax tree; the Dart generator turns the tree into model
classes, in-place codecs and an RPC client.

Layout of `src/`:

- `lexer.rs`: tokens of a schema, with the token sequence stated as a
  function of the source text.
- `parser.rs`: the parsed tree, with type names kept as written
  (`TypeIDASTNode::Primitive`), its mathematical model, the grammar as spec
  functions and the parser proved against it.
- `ast.rs`: the schema tree that the generator reads, in which type names
  are resolved (`i32` to a 4-byte signed integer, `f64` to an 8-byte
  number, other names to user types); `from_parsed` builds it from a parsed
  schema. Also queries over it (functions, directives, directive groups).
- `writer.rs`: an indenting text buffer.
- `text.rs`: decimal spelling and string concatenation.
- `casing.rs`: identifier case conversion through `convert_case`.
- `dart_generator.rs` and `dart/`: the Dart generator. Each generating
  function states its output exactly, as a spec function of the model of
  its input. For each struct and enum it writes the model class, the
  in-place codec (`XEmplaceToBuffers`) and the creating codec
  (`XIntoBuffers`), each with `read`, `write` and `skip`; an enum's codecs
  write the item's position as an `Int32` before the item's data.

The schema tree has no constant items, so the generated file has no
section of constants.

Identifier case conversion is delegated to the `convert_case` crate; its
result is named, not restated, so the contracts speak of
`case_converted(text, case)`.

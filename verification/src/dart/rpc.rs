use vstd::prelude::*;
use vstd::string::*;

use crate::ast::{directive_value, find_directive_value, find_fn_nodes, fn_nodes};
use crate::casing::{camel, pascal, to_case, TextCase};
use crate::dart_generator::{
    dart_type, generate_option_type_id, generate_read, generate_struct_buffers,
    generate_struct_model, generate_type_id, generate_write, option_dart_type, read_expr,
    struct_buffers, struct_model, supported_size, tab_line, write_stmt,
};
use crate::lexer::{Literal, LiteralView};
use crate::ast::{
    ast_view, ASTNode, ConstValueASTNode, ConstValueView, FnASTNode, FnArgASTNode, FnArgView,
    FnView, StructASTNode, StructFieldASTNode, StructFieldView, StructView, TypeIDASTNode,
    TypeIdView,
};
use crate::text::{
    cat2, cat3, cat4, cat5, lemma_occurs_between, lemma_occurs_in_prefix, lemma_occurs_in_suffix,
    occurs_at,
};
use crate::writer::{line, Writer};

verus! {

/// `__<name>_rpc_args__`: the struct that carries the arguments of a function.
pub open spec fn args_struct_id(f: FnView) -> Seq<char> {
    "__"@ + f.id + "_rpc_args__"@
}

/// The struct that carries the arguments of a function: one field per
/// argument, numbered from 0; it gets a codec that creates new models.
pub open spec fn args_struct(f: FnView) -> StructView {
    StructView {
        id: args_struct_id(f),
        fields: Seq::new(
            f.args.len(),
            |i: int|
                StructFieldView {
                    position: i as u32,
                    name: f.args[i].id,
                    type_id: f.args[i].type_id,
                },
        ),
        emplace_buffers: false,
        into_buffers: true,
    }
}

/// The namespace directive, which must be a string.
pub open spec fn namespace(ast: Seq<crate::ast::AstView>) -> Seq<char> {
    match directive_value("namespace"@, ast) {
        Some(ConstValueView::Literal { literal: LiteralView::Str(v) }) => v,
        _ => seq![],
    }
}

/// Every argument of the function has a type that the codecs support.
pub open spec fn args_supported(f: FnView) -> bool {
    forall|j: int| 0 <= j < f.args.len() ==> supported_size(#[trigger] f.args[j].type_id)
}

/// What the client class needs of a schema with functions: a string
/// namespace, and argument and return types that the codecs support.
pub open spec fn rpc_ready(ast: Seq<crate::ast::AstView>) -> bool {
    let fns = fn_nodes(ast);
    fns.len() > 0 ==> {
        &&& directive_value("namespace"@, ast) matches Some(
            ConstValueView::Literal { literal: LiteralView::Str(_) },
        )
        &&& forall|i: int|
            0 <= i < fns.len() ==> (#[trigger] fns[i].return_type_id matches Some(t)
                ==> supported_size(t))
        &&& forall|i: int| 0 <= i < fns.len() ==> args_supported(#[trigger] fns[i])
    }
}

/// The argument struct model and codecs of each function.
pub open spec fn args_structs(fns: Seq<FnView>) -> Seq<char>
    decreases fns.len(),
{
    if fns.len() == 0 {
        seq![]
    } else {
        let s = args_struct(fns.last());
        args_structs(fns.drop_last()) + line(struct_model(s, ""@, false)) + line(struct_buffers(s))
    }
}

/// The stream and task lists of each function.
pub open spec fn stream_fields(fns: Seq<FnView>) -> Seq<char>
    decreases fns.len(),
{
    if fns.len() == 0 {
        seq![]
    } else {
        let f = fns.last();
        stream_fields(fns.drop_last()) + tab_line(
            1,
            "final _read"@ + pascal(f.id) + "Streams <StreamController<"@ + option_dart_type(
                f.return_type_id,
            ) + ">>[];"@,
        ) + tab_line(1, "final _read"@ + pascal(f.id) + "Tasks = <VMChannelReadTask>[];"@)
    }
}

/// Disconnecting the tasks and closing the streams of each function.
pub open spec fn disconnect_lines(fns: Seq<FnView>) -> Seq<char>
    decreases fns.len(),
{
    if fns.len() == 0 {
        seq![]
    } else {
        let p = pascal(fns.last().id);
        disconnect_lines(fns.drop_last()) + tab_line(
            2,
            "for (final task in _read"@ + p + "Tasks) _scheduler.disconnect(task);"@,
        ) + tab_line(2, "for (final controller in _read"@ + p + "Streams) controller.close();"@)
    }
}

/// The `disconnect` method of the client.
pub open spec fn disconnect_method(fns: Seq<FnView>) -> Seq<char> {
    tab_line(1, "void disconnect() {"@) + disconnect_lines(fns) + tab_line(1, "}"@)
}

/// The method that streams the results of a function.
#[verifier::opaque]
pub open spec fn rpc_read(f: FnView) -> Seq<char> {
    let r = option_dart_type(f.return_type_id);
    let p = pascal(f.id);
    tab_line(1, "Stream<"@ + r + "> read"@ + p + "() {"@) + tab_line(
        2,
        "final controller = StreamController<"@ + r + ">.broadcast();"@,
    ) + line(""@) + tab_line(2, "final task = _scheduler.read("@ + p + "ClientAddress, (reader) {"@)
        + tab_line(3, "reader.reset();"@) + tab_line(3, "final status = reader.readInt8();"@) + line(
        ""@,
    ) + tab_line(3, "if (status == kStatusReceivedData) {"@) + (match f.return_type_id {
        Some(t) => tab_line(4, "controller.add("@ + read_expr(t) + ");"@),
        None => tab_line(4, "controller.add(null);"@),
    }) + tab_line(3, "}"@) + tab_line(2, "});"@) + line(""@) + tab_line(
        2,
        "_read"@ + p + "Tasks.add(task);"@,
    ) + tab_line(2, "_read"@ + p + "Streams.add(controller);"@) + line(""@) + tab_line(
        2,
        "return controller.stream;"@,
    ) + tab_line(1, "}"@)
}

/// `required <type> <arg>,` for each argument.
pub open spec fn required_args(args: Seq<FnArgView>) -> Seq<char>
    decreases args.len(),
{
    if args.len() == 0 {
        seq![]
    } else {
        let a = args.last();
        required_args(args.drop_last()) + tab_line(
            2,
            "required "@ + dart_type(a.type_id) + " "@ + a.id + ","@,
        )
    }
}

/// `<arg>: <arg>,` for each argument.
pub open spec fn named_args(args: Seq<FnArgView>) -> Seq<char>
    decreases args.len(),
{
    if args.len() == 0 {
        seq![]
    } else {
        let a = args.last();
        named_args(args.drop_last()) + tab_line(3, a.id + ": "@ + a.id + ","@)
    }
}

/// The method that sends a call of a function.
#[verifier::opaque]
pub open spec fn rpc_write(f: FnView) -> Seq<char> {
    let p = pascal(f.id);
    (if f.args.len() == 0 {
        tab_line(1, "void write"@ + p + "() {"@)
    } else {
        tab_line(1, "void write"@ + p + "({"@) + required_args(f.args) + tab_line(1, "}) {"@)
            + tab_line(2, "final args = __"@ + f.id + "_rpc_args__("@) + named_args(f.args)
            + tab_line(2, ");"@) + line(""@)
    }) + tab_line(2, "final task = _scheduler.write("@ + p + "ServerAddress, (writer) {"@)
        + tab_line(3, "writer.clear();"@) + tab_line(3, "writer.writeInt8(kStatusReceivedData);"@)
        + (if f.args.len() == 0 {
        seq![]
    } else {
        tab_line(3, write_stmt(TypeIdView::Other { id: args_struct_id(f) }, "args"@))
    }) + tab_line(2, "});"@) + tab_line(1, "}"@)
}

/// The opening of the calling method of a function: its signature, then
/// the call of its sending method with the arguments.
pub open spec fn async_call(f: FnView) -> Seq<char> {
    let r = option_dart_type(f.return_type_id);
    let p = pascal(f.id);
    let c = camel(f.id);
    if f.args.len() == 0 {
        tab_line(1, "Future<"@ + r + "> "@ + c + "() {"@) + tab_line(2, "write"@ + p + "();"@)
    } else {
        (tab_line(1, "Future<"@ + r + "> "@ + c + "({"@) + required_args(f.args) + tab_line(
            1,
            "}) {"@,
        )) + (tab_line(2, "write"@ + p + "("@) + (named_args(f.args) + tab_line(2, ");"@) + line(
            ""@,
        )))
    }
}

/// The rest of the calling method of a function: a completer, completed by
/// the first answer read, and its future.
pub open spec fn async_wait(f: FnView) -> Seq<char> {
    tab_line(2, "final completer = Completer<"@ + option_dart_type(f.return_type_id) + ">();"@)
        + async_read(f)
}

/// The part of the calling method after its completer: a read task that
/// completes it with the answer, kept with the function's tasks.
pub open spec fn async_read(f: FnView) -> Seq<char> {
    let p = pascal(f.id);
    line(""@) + tab_line(2, "final task = _scheduler.read("@ + p + "ClientAddress, (reader) {"@)
        + tab_line(3, "reader.reset();"@) + tab_line(3, "final status = reader.readInt8();"@) + line(
        ""@,
    ) + tab_line(3, "if (status == kStatusReceivedData) {"@) + (match f.return_type_id {
        Some(t) => tab_line(4, "completer.complete("@ + read_expr(t) + ");"@),
        None => tab_line(4, "completer.complete();"@),
    }) + tab_line(4, "_scheduler.disconnect(task);"@) + tab_line(
        4,
        "_readGreetingTasks.remove(task);"@,
    ) + tab_line(3, "}"@) + tab_line(2, "});"@) + line(""@) + tab_line(
        2,
        "_read"@ + p + "Tasks.add(task);"@,
    ) + tab_line(2, "return completer.future;"@) + tab_line(1, "}"@)
}

/// The method that calls a function and completes with its result.
#[verifier::opaque]
pub open spec fn rpc_async(f: FnView) -> Seq<char> {
    async_call(f) + async_wait(f)
}

/// The three client methods of each of the first functions of `n`, with
/// an empty line between each two functions.
pub open spec fn rpc_bodies(fns: Seq<FnView>, n: nat) -> Seq<char>
    decreases fns.len(),
{
    if fns.len() == 0 {
        seq![]
    } else {
        let f = fns.last();
        rpc_bodies(fns.drop_last(), n) + rpc_read(f) + line(""@) + rpc_write(f) + line(""@)
            + rpc_async(f) + (if fns.len() != n {
            line(""@)
        } else {
            seq![]
        })
    }
}

/// The client code of the functions of a schema: the argument struct of
/// each function and the client class of the namespace; nothing when the
/// schema has no function.
pub open spec fn rpc_methods(ast: Seq<crate::ast::AstView>) -> Seq<char> {
    let fns = fn_nodes(ast);
    let ns = pascal(namespace(ast));
    if fns.len() == 0 {
        seq![]
    } else {
        args_structs(fns) + line("class "@ + ns + "RpcClient {"@) + tab_line(
            1,
            "final VMChannelScheduler _scheduler;"@,
        ) + stream_fields(fns) + line(""@) + tab_line(1, ns + "RpcClient(this._scheduler);"@)
            + line(""@) + disconnect_method(fns) + line(""@) + rpc_bodies(fns, fns.len())
            + line("}"@)
    }
}

/// The struct that carries the arguments of `node`.
fn create_args_struct(node: &FnASTNode) -> (res: StructASTNode)
    ensures
        res@ == args_struct(node@),
{
    let ghost args = node@.args;
    let mut fields: Vec<StructFieldASTNode> = Vec::new();
    let mut i: usize = 0;
    while i < node.args.len()
        invariant
            i <= node.args.len(),
            args == node@.args,
            fields@.map_values(|f: StructFieldASTNode| f@) =~= Seq::new(
                i as nat,
                |k: int|
                    StructFieldView {
                        position: k as u32,
                        name: args[k].id,
                        type_id: args[k].type_id,
                    },
            ),
        decreases node.args.len() - i,
    {
        let arg = &node.args[i];
        assert(args[i as int] == arg@);
        let field = StructFieldASTNode {
            position: i as u32,
            name: arg.id.clone(),
            type_id: arg.type_id.duplicate(),
        };
        let ghost before = fields@.map_values(|f: StructFieldASTNode| f@);
        let ghost fv = field@;
        fields.push(field);
        assert(fields@.map_values(|f: StructFieldASTNode| f@) =~= before.push(fv));
        i += 1;
    }
    let res = StructASTNode {
        id: cat3("__", node.id.as_str(), "_rpc_args__"),
        fields,
        emplace_buffers: false,
        into_buffers: true,
    };
    let ghost got = res@.fields;
    let ghost want = args_struct(node@).fields;
    assert(got.len() == want.len());
    assert forall|k: int| 0 <= k < got.len() implies got[k] == want[k] by {}
    assert(got =~= want);
    res
}

fn write_required_args(writer: &mut Writer, args: &Vec<FnArgASTNode>)
    requires
        old(writer).tab() == 2,
    ensures
        final(writer).tab() == 2,
        final(writer)@ == old(writer)@ + required_args(args@.map_values(|a: FnArgASTNode| a@)),
{
    let ghost av = args@.map_values(|a: FnArgASTNode| a@);
    let ghost head = writer@;
    let mut i: usize = 0;
    while i < args.len()
        invariant
            i <= args.len(),
            av == args@.map_values(|a: FnArgASTNode| a@),
            writer.tab() == 2,
            writer@ == head + required_args(av.take(i as int)),
        decreases args.len() - i,
    {
        assert(av[i as int] == args@[i as int]@);
        let type_id = generate_type_id(&args[i].type_id);
        writer.writeln_tab(
            2,
            cat5("required ", type_id.as_str(), " ", args[i].id.as_str(), ",").as_str(),
        );
        assert(av.take(i + 1).drop_last() =~= av.take(i as int));
        i += 1;
    }
    assert(av.take(i as int) =~= av);
}

fn write_named_args(writer: &mut Writer, args: &Vec<FnArgASTNode>)
    requires
        old(writer).tab() == 2,
    ensures
        final(writer).tab() == 2,
        final(writer)@ == old(writer)@ + named_args(args@.map_values(|a: FnArgASTNode| a@)),
{
    let ghost av = args@.map_values(|a: FnArgASTNode| a@);
    let ghost head = writer@;
    let mut i: usize = 0;
    while i < args.len()
        invariant
            i <= args.len(),
            av == args@.map_values(|a: FnArgASTNode| a@),
            writer.tab() == 2,
            writer@ == head + named_args(av.take(i as int)),
        decreases args.len() - i,
    {
        assert(av[i as int] == args@[i as int]@);
        let id = args[i].id.as_str();
        writer.writeln_tab(3, cat4(id, ": ", id, ",").as_str());
        assert(av.take(i + 1).drop_last() =~= av.take(i as int));
        i += 1;
    }
    assert(av.take(i as int) =~= av);
}

fn generate_disconnect(nodes: &Vec<&FnASTNode>) -> (res: String)
    ensures
        res@ == disconnect_method(nodes@.map_values(|f: &FnASTNode| f@)),
{
    let ghost fns = nodes@.map_values(|f: &FnASTNode| f@);
    let mut writer = Writer::new(2);
    writer.writeln_tab(1, "void disconnect() {");
    let ghost head = writer@;
    let mut i: usize = 0;
    while i < nodes.len()
        invariant
            i <= nodes.len(),
            fns == nodes@.map_values(|f: &FnASTNode| f@),
            writer.tab() == 2,
            writer@ == head + disconnect_lines(fns.take(i as int)),
        decreases nodes.len() - i,
    {
        assert(fns[i as int] == nodes@[i as int]@);
        let p = to_case(nodes[i].id.as_str(), TextCase::Pascal);
        writer.writeln_tab(
            2,
            cat3("for (final task in _read", p.as_str(), "Tasks) _scheduler.disconnect(task);").as_str(),
        );
        writer.writeln_tab(
            2,
            cat3("for (final controller in _read", p.as_str(), "Streams) controller.close();").as_str(),
        );
        assert(fns.take(i + 1).drop_last() =~= fns.take(i as int));
        i += 1;
    }
    assert(fns.take(i as int) =~= fns);
    writer.writeln_tab(1, "}");
    String::from_str(writer.show())
}

fn generate_rpc_read(node: &FnASTNode) -> (res: String)
    requires
        node@.return_type_id matches Some(t) ==> supported_size(t),
    ensures
        res@ == rpc_read(node@),
{
    proof {
        reveal(rpc_read);
    }
    proof {
        reveal_strlit("");
    }
    let r = generate_option_type_id(&node.return_type_id);
    let p = to_case(node.id.as_str(), TextCase::Pascal);
    let mut writer = Writer::new(2);
    writer.writeln_tab(1, cat5("Stream<", r.as_str(), "> read", p.as_str(), "() {").as_str());
    writer.writeln_tab(2, cat3("final controller = StreamController<", r.as_str(), ">.broadcast();").as_str());
    writer.writeln("");
    writer.writeln_tab(2, cat3("final task = _scheduler.read(", p.as_str(), "ClientAddress, (reader) {").as_str());
    writer.writeln_tab(3, "reader.reset();");
    writer.writeln_tab(3, "final status = reader.readInt8();");
    writer.writeln("");
    writer.writeln_tab(3, "if (status == kStatusReceivedData) {");
    match &node.return_type_id {
        Some(type_id) => {
            let read = generate_read(type_id);
            writer.writeln_tab(4, cat3("controller.add(", read.as_str(), ");").as_str());
        },
        None => writer.writeln_tab(4, "controller.add(null);"),
    }
    writer.writeln_tab(3, "}");
    writer.writeln_tab(2, "});");
    writer.writeln("");
    writer.writeln_tab(2, cat3("_read", p.as_str(), "Tasks.add(task);").as_str());
    writer.writeln_tab(2, cat3("_read", p.as_str(), "Streams.add(controller);").as_str());
    writer.writeln("");
    writer.writeln_tab(2, "return controller.stream;");
    writer.writeln_tab(1, "}");
    assert(writer@ =~= rpc_read(node@));
    String::from_str(writer.show())
}

fn generate_rpc_write(node: &FnASTNode) -> (res: String)
    ensures
        res@ == rpc_write(node@),
{
    proof {
        reveal(rpc_write);
    }
    proof {
        reveal_strlit("");
    }
    let p = to_case(node.id.as_str(), TextCase::Pascal);
    let mut writer = Writer::new(2);
    if node.args.len() == 0 {
        writer.writeln_tab(1, cat3("void write", p.as_str(), "() {").as_str());
    } else {
        writer.writeln_tab(1, cat3("void write", p.as_str(), "({").as_str());
        write_required_args(&mut writer, &node.args);
        writer.writeln_tab(1, "}) {");
        writer.writeln_tab(2, cat3("final args = __", node.id.as_str(), "_rpc_args__(").as_str());
        write_named_args(&mut writer, &node.args);
        writer.writeln_tab(2, ");");
        writer.writeln("");
    }
    let ghost mid = writer@;
    writer.writeln_tab(2, cat3("final task = _scheduler.write(", p.as_str(), "ServerAddress, (writer) {").as_str());
    writer.writeln_tab(3, "writer.clear();");
    writer.writeln_tab(3, "writer.writeInt8(kStatusReceivedData);");
    if node.args.len() != 0 {
        let type_id = TypeIDASTNode::Other { id: cat3("__", node.id.as_str(), "_rpc_args__") };
        let write = generate_write(&type_id, "args");
        writer.writeln_tab(3, write.as_str());
    }
    writer.writeln_tab(2, "});");
    writer.writeln_tab(1, "}");
    assert(writer@ =~= rpc_write(node@));
    String::from_str(writer.show())
}

fn write_async_call(writer: &mut Writer, node: &FnASTNode, r: &str, p: &str, c: &str)
    requires
        old(writer).tab() == 2,
        r@ == option_dart_type(node@.return_type_id),
        p@ == pascal(node@.id),
        c@ == camel(node@.id),
    ensures
        final(writer).tab() == 2,
        final(writer)@ == old(writer)@ + async_call(node@),
{
    proof {
        reveal_strlit("");
    }
    let ghost h = writer@;
    if node.args.len() == 0 {
        writer.writeln_tab(1, cat5("Future<", r, "> ", c, "() {").as_str());
        writer.writeln_tab(2, cat3("write", p, "();").as_str());
    } else {
        writer.writeln_tab(1, cat5("Future<", r, "> ", c, "({").as_str());
        write_required_args(writer, &node.args);
        writer.writeln_tab(1, "}) {");
        writer.writeln_tab(2, cat3("write", p, "(").as_str());
        write_named_args(writer, &node.args);
        writer.writeln_tab(2, ");");
        writer.writeln("");
    }
    assert(writer@ =~= h + async_call(node@));
}

fn write_async_wait(writer: &mut Writer, node: &FnASTNode, r: &str, p: &str)
    requires
        old(writer).tab() == 2,
        node@.return_type_id matches Some(t) ==> supported_size(t),
        r@ == option_dart_type(node@.return_type_id),
        p@ == pascal(node@.id),
    ensures
        final(writer).tab() == 2,
        final(writer)@ == old(writer)@ + async_wait(node@),
{
    let ghost h = writer@;
    writer.writeln_tab(2, cat3("final completer = Completer<", r, ">();").as_str());
    write_async_read(writer, node, p);
    assert(writer@ =~= h + async_wait(node@));
}

#[verifier::rlimit(40)]
fn write_async_read(writer: &mut Writer, node: &FnASTNode, p: &str)
    requires
        old(writer).tab() == 2,
        node@.return_type_id matches Some(t) ==> supported_size(t),
        p@ == pascal(node@.id),
    ensures
        final(writer).tab() == 2,
        final(writer)@ == old(writer)@ + async_read(node@),
{
    proof {
        reveal_strlit("");
    }
    let ghost h = writer@;
    writer.writeln("");
    writer.writeln_tab(2, cat3("final task = _scheduler.read(", p, "ClientAddress, (reader) {").as_str());
    writer.writeln_tab(3, "reader.reset();");
    writer.writeln_tab(3, "final status = reader.readInt8();");
    writer.writeln("");
    writer.writeln_tab(3, "if (status == kStatusReceivedData) {");
    match &node.return_type_id {
        Some(type_id) => {
            let read = generate_read(type_id);
            writer.writeln_tab(4, cat3("completer.complete(", read.as_str(), ");").as_str());
        },
        None => writer.writeln_tab(4, "completer.complete();"),
    }
    writer.writeln_tab(4, "_scheduler.disconnect(task);");
    writer.writeln_tab(4, "_readGreetingTasks.remove(task);");
    writer.writeln_tab(3, "}");
    writer.writeln_tab(2, "});");
    writer.writeln("");
    writer.writeln_tab(2, cat3("_read", p, "Tasks.add(task);").as_str());
    writer.writeln_tab(2, "return completer.future;");
    writer.writeln_tab(1, "}");
    assert(writer@ =~= h + async_read(node@));
}

fn generate_rpc_async(node: &FnASTNode) -> (res: String)
    requires
        node@.return_type_id matches Some(t) ==> supported_size(t),
    ensures
        res@ == rpc_async(node@),
{
    proof {
        reveal(rpc_async);
    }
    let r = generate_option_type_id(&node.return_type_id);
    let p = to_case(node.id.as_str(), TextCase::Pascal);
    let c = to_case(node.id.as_str(), TextCase::Camel);
    let mut writer = Writer::new(2);
    write_async_call(&mut writer, node, r.as_str(), p.as_str(), c.as_str());
    write_async_wait(&mut writer, node, r.as_str(), p.as_str());
    assert(writer@ =~= rpc_async(node@));
    String::from_str(writer.show())
}

/// Writes the client code of the functions of a schema: for each function
/// the struct of its arguments, then the client class of the namespace with
/// a streaming, a sending and a calling method per function. Nothing when
/// the schema has no function.
pub fn generate_rpc_methods(ast: &[ASTNode]) -> (res: String)
    requires
        rpc_ready(ast_view(ast@)),
    ensures
        res@ == rpc_methods(ast_view(ast@)),
{
    proof {
        reveal_strlit("");
        reveal_strlit("namespace");
    }
    let nodes = find_fn_nodes(ast);
    let ghost fns = nodes@.map_values(|f: &FnASTNode| f@);
    let n = nodes.len();
    if n == 0 {
        return String::new();
    }
    let mut writer = Writer::new(2);
    let mut i: usize = 0;
    while i < n
        invariant
            i <= n,
            n == nodes.len(),
            fns == nodes@.map_values(|f: &FnASTNode| f@),
            fns == fn_nodes(ast_view(ast@)),
            rpc_ready(ast_view(ast@)),
            writer.tab() == 2,
            writer@ == args_structs(fns.take(i as int)),
        decreases n - i,
    {
        assert(fns[i as int] == nodes@[i as int]@);
        assert(args_supported(fns[i as int]));
        let args_struct = create_args_struct(nodes[i]);
        let model = generate_struct_model(&args_struct, "", false);
        writer.writeln(model.as_str());
        let buffers = generate_struct_buffers(&args_struct);
        writer.writeln(buffers.as_str());
        assert(fns.take(i + 1).drop_last() =~= fns.take(i as int));
        i += 1;
    }
    assert(fns.take(i as int) =~= fns);
    let namespace = match find_directive_value("namespace", ast) {
        Some(ConstValueASTNode::Literal { literal: Literal::StringLiteral(value) }) => value,
        _ => {
            assert(false);
            return String::new();
        },
    };
    let ns = to_case(namespace.as_str(), TextCase::Pascal);
    writer.writeln(cat3("class ", ns.as_str(), "RpcClient {").as_str());
    writer.writeln_tab(1, "final VMChannelScheduler _scheduler;");
    let ghost h1 = writer@;
    let mut i: usize = 0;
    while i < n
        invariant
            i <= n,
            n == nodes.len(),
            fns == nodes@.map_values(|f: &FnASTNode| f@),
            writer.tab() == 2,
            writer@ == h1 + stream_fields(fns.take(i as int)),
        decreases n - i,
    {
        assert(fns[i as int] == nodes@[i as int]@);
        let p = to_case(nodes[i].id.as_str(), TextCase::Pascal);
        let r = generate_option_type_id(&nodes[i].return_type_id);
        writer.writeln_tab(
            1,
            cat5("final _read", p.as_str(), "Streams <StreamController<", r.as_str(), ">>[];").as_str(),
        );
        writer.writeln_tab(1, cat3("final _read", p.as_str(), "Tasks = <VMChannelReadTask>[];").as_str());
        assert(fns.take(i + 1).drop_last() =~= fns.take(i as int));
        i += 1;
    }
    assert(fns.take(i as int) =~= fns);
    writer.writeln("");
    writer.writeln_tab(1, cat2(ns.as_str(), "RpcClient(this._scheduler);").as_str());
    writer.writeln("");
    let disconnect = generate_disconnect(&nodes);
    writer.write(disconnect.as_str());
    writer.writeln("");
    let ghost h2 = writer@;
    let mut i: usize = 0;
    while i < n
        invariant
            i <= n,
            n == nodes.len(),
            fns == nodes@.map_values(|f: &FnASTNode| f@),
            fns == fn_nodes(ast_view(ast@)),
            rpc_ready(ast_view(ast@)),
            writer.tab() == 2,
            writer@ == h2 + rpc_bodies(fns.take(i as int), n as nat),
        decreases n - i,
    {
        let node = nodes[i];
        assert(fns[i as int] == node@);
        assert(node@.return_type_id matches Some(t) ==> supported_size(t));
        let read = generate_rpc_read(node);
        writer.write(read.as_str());
        writer.writeln("");
        let write = generate_rpc_write(node);
        writer.write(write.as_str());
        writer.writeln("");
        let call = generate_rpc_async(node);
        writer.write(call.as_str());
        if i != n - 1 {
            writer.writeln("");
        }
        assert(fns.take(i + 1).drop_last() =~= fns.take(i as int));
        i += 1;
    }
    assert(fns.take(i as int) =~= fns);
    writer.writeln("}");
    assert(writer@ =~= rpc_methods(ast_view(ast@)));
    String::from_str(writer.show())
}

/// The calling method of a function sends the call before it waits for
/// the answer: `write<Name>(` occurs in it before the completer is made,
/// whether the function has arguments or not.
pub proof fn lemma_call_sends_first(f: FnView)
    ensures
        exists|i: int, j: int|
            i < j && #[trigger] occurs_at(rpc_async(f), "    write"@ + pascal(f.id) + "("@, i)
                && #[trigger] occurs_at(rpc_async(f), "    final completer = Completer<"@, j),
{
    reveal(rpc_async);
    reveal_strlit("    write");
    reveal_strlit("write");
    reveal_strlit("    final completer = Completer<");
    reveal_strlit("final completer = Completer<");
    let r = option_dart_type(f.return_type_id);
    let p = pascal(f.id);
    let c = camel(f.id);
    let x = async_call(f);
    let y = async_wait(f);
    let w = "    write"@ + p + "("@;
    let cl = "    final completer = Completer<"@;
    let comp = tab_line(2, "final completer = Completer<"@ + r + ">();"@);
    let tail = async_read(f);
    assert(comp =~= cl + (r + ">();"@ + seq!['\n']));
    lemma_occurs_between(Seq::<char>::empty(), cl, r + ">();"@ + seq!['\n']);
    assert(Seq::<char>::empty() + cl + (r + ">();"@ + seq!['\n']) =~= comp);
    lemma_occurs_in_prefix(comp, tail, cl, 0);
    lemma_occurs_in_suffix(x, y, cl, 0);
    let i: int;
    if f.args.len() == 0 {
        let h = tab_line(1, "Future<"@ + r + "> "@ + c + "() {"@);
        let wl = tab_line(2, "write"@ + p + "();"@);
        reveal_strlit("();");
        reveal_strlit(");");
        assert(wl =~= w + (");"@ + seq!['\n'])) by {
            reveal_strlit("(");
        }
        lemma_occurs_between(h, w, ");"@ + seq!['\n']);
        assert(h + w + (");"@ + seq!['\n']) =~= x);
        i = h.len() as int;
    } else {
        let h = tab_line(1, "Future<"@ + r + "> "@ + c + "({"@) + required_args(f.args) + tab_line(
            1,
            "}) {"@,
        );
        let wl = tab_line(2, "write"@ + p + "("@);
        let more = named_args(f.args) + tab_line(2, ");"@) + line(""@);
        assert(wl =~= w + seq!['\n']);
        lemma_occurs_between(h, w, seq!['\n'] + more);
        assert(h + w + (seq!['\n'] + more) =~= x);
        i = h.len() as int;
    }
    lemma_occurs_in_prefix(x, y, w, i);
    assert(occurs_at(rpc_async(f), w, i));
    assert(occurs_at(rpc_async(f), cl, x.len() as int));
}

/// The `disconnect` method of the client: for each function, in order,
/// one line that disconnects its read tasks and one that closes its
/// streams, between the method's opening and closing lines; with no
/// function it is only those two lines.
pub proof fn lemma_disconnect_method(fns: Seq<FnView>)
    ensures
        disconnect_method(fns) == "  void disconnect() {\n"@ + disconnect_lines(fns) + "  }\n"@,
        disconnect_method(Seq::<FnView>::empty()) == "  void disconnect() {\n  }\n"@,
        forall|k: int|
            0 <= k < fns.len() ==> #[trigger] disconnect_lines(fns.take(k + 1)) == disconnect_lines(
                fns.take(k),
            ) + "    for (final task in _read"@ + pascal(fns[k].id)
                + "Tasks) _scheduler.disconnect(task);\n    for (final controller in _read"@
                + pascal(fns[k].id) + "Streams) controller.close();\n"@,
{
    reveal_strlit("void disconnect() {");
    reveal_strlit("}");
    reveal_strlit("  void disconnect() {\n");
    reveal_strlit("  }\n");
    reveal_strlit("  void disconnect() {\n  }\n");
    reveal_strlit("for (final task in _read");
    reveal_strlit("Tasks) _scheduler.disconnect(task);");
    reveal_strlit("for (final controller in _read");
    reveal_strlit("Streams) controller.close();");
    reveal_strlit("    for (final task in _read");
    reveal_strlit("Tasks) _scheduler.disconnect(task);\n    for (final controller in _read");
    reveal_strlit("Streams) controller.close();\n");
    assert(tab_line(1, "void disconnect() {"@) =~= "  void disconnect() {\n"@);
    assert(tab_line(1, "}"@) =~= "  }\n"@);
    assert(disconnect_lines(Seq::<FnView>::empty()) =~= Seq::<char>::empty());
    assert("  void disconnect() {\n"@ + Seq::<char>::empty() + "  }\n"@
        =~= "  void disconnect() {\n  }\n"@);
    assert forall|k: int| 0 <= k < fns.len() implies #[trigger] disconnect_lines(fns.take(k + 1))
        == disconnect_lines(fns.take(k)) + "    for (final task in _read"@ + pascal(fns[k].id)
        + "Tasks) _scheduler.disconnect(task);\n    for (final controller in _read"@ + pascal(
        fns[k].id,
    ) + "Streams) controller.close();\n"@ by {
        let t = fns.take(k + 1);
        let p = pascal(fns[k].id);
        assert(t.drop_last() =~= fns.take(k));
        assert(t.last() == fns[k]);
        assert(tab_line(2, "for (final task in _read"@ + p + "Tasks) _scheduler.disconnect(task);"@)
            + tab_line(2, "for (final controller in _read"@ + p + "Streams) controller.close();"@)
            =~= "    for (final task in _read"@ + p
            + "Tasks) _scheduler.disconnect(task);\n    for (final controller in _read"@ + p
            + "Streams) controller.close();\n"@);
    }
}

/// A schema gets client code exactly when it has a function.
pub proof fn lemma_rpc_only_for_functions(ast: Seq<crate::ast::AstView>)
    ensures
        (rpc_methods(ast) == Seq::<char>::empty()) <==> fn_nodes(ast).len() == 0,
{
    if fn_nodes(ast).len() > 0 {
        assert(rpc_methods(ast).len() > 0);
    }
}

} // verus!

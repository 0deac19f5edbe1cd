use vstd::prelude::*;

use crate::lexer::{Literal, LiteralView};
use crate::parser::{self, parsed_type_views, ParsedFieldView, ParsedNodeView, ParsedStructView, ParsedTypeView};
use crate::text::{decimal, str_eq};

verus! {

// ---------------------------------------------------------------------------
// The syntax tree of a schema and its mathematical model.
// ---------------------------------------------------------------------------

/// A top-level item of a schema.
#[derive(Debug)]
pub enum ASTNode {
    Enum(EnumASTNode),
    ValueEnum(Vec<IdValuePair>),
    Struct(StructASTNode),
    Fn(FnASTNode),
    /// A single directive `id = value`, such as the namespace.
    Directive(IdValuePair),
    /// A named group of directives, such as the imports of one target language.
    DirectiveGroup { id: String, values: Vec<IdValuePair> },
}

#[derive(Debug)]
pub struct StructASTNode {
    pub id: String,
    pub fields: Vec<StructFieldASTNode>,
    /// Whether the struct gets a codec that reads into an existing model.
    pub emplace_buffers: bool,
    /// Whether the struct gets a codec that creates a new model.
    pub into_buffers: bool,
}

#[derive(Debug)]
pub struct EnumASTNode {
    pub id: String,
    pub items: Vec<EnumItemASTNode>,
}

#[derive(Debug)]
pub enum EnumItemASTNode {
    Empty { position: u32, id: String },
    Tuple { position: u32, id: String, values: Vec<TupleFieldASTNode> },
    Struct { position: u32, id: String, fields: Vec<StructFieldASTNode> },
}

#[derive(Debug)]
pub enum ConstValueASTNode {
    Literal { literal: Literal },
}

#[derive(Debug)]
pub struct IdValuePair {
    pub id: String,
    pub value: ConstValueASTNode,
}

#[derive(Debug)]
pub enum TypeIDASTNode {
    Integer { id: String, size: u32, signed: bool },
    Number { id: String, size: u32 },
    Bool { id: String },
    Char { id: String },
    Other { id: String },
    Generic { id: String, generics: Vec<TypeIDASTNode> },
}

#[derive(Debug)]
pub struct TupleFieldASTNode {
    pub position: u32,
    pub type_id: TypeIDASTNode,
}

#[derive(Debug)]
pub struct StructFieldASTNode {
    pub position: u32,
    pub name: String,
    pub type_id: TypeIDASTNode,
}

#[derive(Debug)]
pub struct FnArgASTNode {
    pub id: String,
    pub type_id: TypeIDASTNode,
}

#[derive(Debug)]
pub struct FnASTNode {
    pub id: String,
    pub args: Vec<FnArgASTNode>,
    pub return_type_id: Option<TypeIDASTNode>,
}

pub enum TypeIdView {
    Integer { id: Seq<char>, size: u32, signed: bool },
    Number { id: Seq<char>, size: u32 },
    Bool { id: Seq<char> },
    Char { id: Seq<char> },
    Other { id: Seq<char> },
    Generic { id: Seq<char>, generics: Seq<TypeIdView> },
}

pub struct TupleFieldView {
    pub position: u32,
    pub type_id: TypeIdView,
}

pub struct StructFieldView {
    pub position: u32,
    pub name: Seq<char>,
    pub type_id: TypeIdView,
}

pub struct StructView {
    pub id: Seq<char>,
    pub fields: Seq<StructFieldView>,
    pub emplace_buffers: bool,
    pub into_buffers: bool,
}

pub enum EnumItemView {
    Empty { position: u32, id: Seq<char> },
    Tuple { position: u32, id: Seq<char>, values: Seq<TupleFieldView> },
    Struct { position: u32, id: Seq<char>, fields: Seq<StructFieldView> },
}

pub struct EnumView {
    pub id: Seq<char>,
    pub items: Seq<EnumItemView>,
}

pub enum ConstValueView {
    Literal { literal: LiteralView },
}

pub struct IdValuePairView {
    pub id: Seq<char>,
    pub value: ConstValueView,
}

pub struct FnArgView {
    pub id: Seq<char>,
    pub type_id: TypeIdView,
}

pub struct FnView {
    pub id: Seq<char>,
    pub args: Seq<FnArgView>,
    pub return_type_id: Option<TypeIdView>,
}

pub enum AstView {
    Enum(EnumView),
    ValueEnum(Seq<IdValuePairView>),
    Struct(StructView),
    Fn(FnView),
    Directive(IdValuePairView),
    DirectiveGroup { id: Seq<char>, values: Seq<IdValuePairView> },
}

impl View for TypeIDASTNode {
    type V = TypeIdView;

    open spec fn view(&self) -> TypeIdView
        decreases self,
    {
        match self {
            TypeIDASTNode::Integer { id, size, signed } => TypeIdView::Integer {
                id: id@,
                size: *size,
                signed: *signed,
            },
            TypeIDASTNode::Number { id, size } => TypeIdView::Number { id: id@, size: *size },
            TypeIDASTNode::Bool { id } => TypeIdView::Bool { id: id@ },
            TypeIDASTNode::Char { id } => TypeIdView::Char { id: id@ },
            TypeIDASTNode::Other { id } => TypeIdView::Other { id: id@ },
            TypeIDASTNode::Generic { id, generics } => TypeIdView::Generic {
                id: id@,
                generics: type_id_views(generics@),
            },
        }
    }
}

/// The models of a list of types.
pub open spec fn type_id_views(ts: Seq<TypeIDASTNode>) -> Seq<TypeIdView>
    decreases ts,
{
    if ts.len() == 0 {
        seq![]
    } else {
        type_id_views(ts.drop_last()).push(ts.last().view())
    }
}

pub proof fn lemma_type_id_views(ts: Seq<TypeIDASTNode>)
    ensures
        type_id_views(ts) == ts.map_values(|t: TypeIDASTNode| t@),
    decreases ts.len(),
{
    if ts.len() > 0 {
        lemma_type_id_views(ts.drop_last());
        assert(type_id_views(ts) == type_id_views(ts.drop_last()).push(ts.last().view()));
        let a = type_id_views(ts);
        let b = ts.map_values(|t: TypeIDASTNode| t@);
        assert(a.len() == b.len());
        assert forall|k: int| 0 <= k < a.len() implies a[k] == b[k] by {
            if k < a.len() - 1 {
                assert(a[k] == type_id_views(ts.drop_last())[k]);
                assert(ts.drop_last()[k] == ts[k]);
            }
        }
        assert(a =~= b);
    } else {
        assert(type_id_views(ts) =~= ts.map_values(|t: TypeIDASTNode| t@));
    }
}

impl View for TupleFieldASTNode {
    type V = TupleFieldView;

    open spec fn view(&self) -> TupleFieldView {
        TupleFieldView { position: self.position, type_id: self.type_id@ }
    }
}

impl View for StructFieldASTNode {
    type V = StructFieldView;

    open spec fn view(&self) -> StructFieldView {
        StructFieldView { position: self.position, name: self.name@, type_id: self.type_id@ }
    }
}

impl View for StructASTNode {
    type V = StructView;

    open spec fn view(&self) -> StructView {
        StructView {
            id: self.id@,
            fields: self.fields@.map_values(|f: StructFieldASTNode| f@),
            emplace_buffers: self.emplace_buffers,
            into_buffers: self.into_buffers,
        }
    }
}

impl View for EnumItemASTNode {
    type V = EnumItemView;

    open spec fn view(&self) -> EnumItemView {
        match self {
            EnumItemASTNode::Empty { position, id } => EnumItemView::Empty {
                position: *position,
                id: id@,
            },
            EnumItemASTNode::Tuple { position, id, values } => EnumItemView::Tuple {
                position: *position,
                id: id@,
                values: values@.map_values(|v: TupleFieldASTNode| v@),
            },
            EnumItemASTNode::Struct { position, id, fields } => EnumItemView::Struct {
                position: *position,
                id: id@,
                fields: fields@.map_values(|f: StructFieldASTNode| f@),
            },
        }
    }
}

impl View for EnumASTNode {
    type V = EnumView;

    open spec fn view(&self) -> EnumView {
        EnumView { id: self.id@, items: self.items@.map_values(|i: EnumItemASTNode| i@) }
    }
}

impl View for ConstValueASTNode {
    type V = ConstValueView;

    open spec fn view(&self) -> ConstValueView {
        match self {
            ConstValueASTNode::Literal { literal } => ConstValueView::Literal { literal: literal@ },
        }
    }
}

impl View for IdValuePair {
    type V = IdValuePairView;

    open spec fn view(&self) -> IdValuePairView {
        IdValuePairView { id: self.id@, value: self.value@ }
    }
}

impl View for FnArgASTNode {
    type V = FnArgView;

    open spec fn view(&self) -> FnArgView {
        FnArgView { id: self.id@, type_id: self.type_id@ }
    }
}

impl View for FnASTNode {
    type V = FnView;

    open spec fn view(&self) -> FnView {
        FnView {
            id: self.id@,
            args: self.args@.map_values(|a: FnArgASTNode| a@),
            return_type_id: match &self.return_type_id {
                Some(t) => Some(t@),
                None => None,
            },
        }
    }
}

impl View for ASTNode {
    type V = AstView;

    open spec fn view(&self) -> AstView {
        match self {
            ASTNode::Enum(e) => AstView::Enum(e@),
            ASTNode::ValueEnum(vs) => AstView::ValueEnum(vs@.map_values(|v: IdValuePair| v@)),
            ASTNode::Struct(s) => AstView::Struct(s@),
            ASTNode::Fn(f) => AstView::Fn(f@),
            ASTNode::Directive(d) => AstView::Directive(d@),
            ASTNode::DirectiveGroup { id, values } => AstView::DirectiveGroup {
                id: id@,
                values: values@.map_values(|v: IdValuePair| v@),
            },
        }
    }
}

/// The models of a sequence of top-level items.
pub open spec fn ast_view(ast: Seq<ASTNode>) -> Seq<AstView> {
    ast.map_values(|n: ASTNode| n@)
}


// ---------------------------------------------------------------------------
// Copies and accessors.
// ---------------------------------------------------------------------------

/// The id of an enum item.
pub open spec fn item_id(item: EnumItemView) -> Seq<char> {
    match item {
        EnumItemView::Empty { id, .. } => id,
        EnumItemView::Tuple { id, .. } => id,
        EnumItemView::Struct { id, .. } => id,
    }
}

/// The position of an enum item, whatever its kind.
pub open spec fn item_position(item: EnumItemView) -> u32 {
    match item {
        EnumItemView::Empty { position, .. } => position,
        EnumItemView::Tuple { position, .. } => position,
        EnumItemView::Struct { position, .. } => position,
    }
}

impl EnumItemASTNode {
    /// The position of the item, whatever its kind.
    pub fn position(&self) -> (position: u32)
        ensures
            position == item_position(self@),
    {
        match self {
            EnumItemASTNode::Empty { position, .. } => *position,
            EnumItemASTNode::Tuple { position, .. } => *position,
            EnumItemASTNode::Struct { position, .. } => *position,
        }
    }

    /// The id of the item, whatever its kind.
    pub fn id(&self) -> (id: &String)
        ensures
            id@ == item_id(self@),
    {
        match self {
            EnumItemASTNode::Empty { id, .. } => id,
            EnumItemASTNode::Tuple { id, .. } => id,
            EnumItemASTNode::Struct { id, .. } => id,
        }
    }
}

impl TypeIDASTNode {
    /// A copy of the type.
    pub fn duplicate(&self) -> (res: TypeIDASTNode)
        ensures
            res@ == self@,
        decreases self,
    {
        match self {
            TypeIDASTNode::Integer { id, size, signed } => TypeIDASTNode::Integer {
                id: id.clone(),
                size: *size,
                signed: *signed,
            },
            TypeIDASTNode::Number { id, size } => TypeIDASTNode::Number { id: id.clone(), size: *size },
            TypeIDASTNode::Bool { id } => TypeIDASTNode::Bool { id: id.clone() },
            TypeIDASTNode::Char { id } => TypeIDASTNode::Char { id: id.clone() },
            TypeIDASTNode::Other { id } => TypeIDASTNode::Other { id: id.clone() },
            TypeIDASTNode::Generic { id, generics } => {
                let copies = TypeIDASTNode::duplicate_all(self, generics);
                proof {
                    lemma_type_id_views(generics@);
                    lemma_type_id_views(copies@);
                }
                TypeIDASTNode::Generic { id: id.clone(), generics: copies }
            },
        }
    }

    fn duplicate_all(parent: &TypeIDASTNode, generics: &Vec<TypeIDASTNode>) -> (res: Vec<TypeIDASTNode>)
        requires
            parent matches TypeIDASTNode::Generic { generics: g, .. } && g == generics,
        ensures
            res@.map_values(|t: TypeIDASTNode| t@) == generics@.map_values(|t: TypeIDASTNode| t@),
        decreases parent, 0nat,
    {
        let mut res: Vec<TypeIDASTNode> = Vec::new();
        let mut i: usize = 0;
        while i < generics.len()
            invariant
                i <= generics.len(),
                parent matches TypeIDASTNode::Generic { generics: g, .. } && g == generics,
                res@.map_values(|t: TypeIDASTNode| t@) =~= generics@.take(i as int).map_values(
                    |t: TypeIDASTNode| t@,
                ),
            decreases generics.len() - i,
        {
            let copy = generics[i].duplicate();
            let ghost before = res@.map_values(|t: TypeIDASTNode| t@);
            let ghost cv = copy@;
            res.push(copy);
            assert(res@.map_values(|t: TypeIDASTNode| t@) =~= before.push(cv));
            assert(generics@.take(i + 1).map_values(|t: TypeIDASTNode| t@) =~= generics@.take(
                i as int,
            ).map_values(|t: TypeIDASTNode| t@).push(generics@[i as int]@));
            i += 1;
        }
        assert(generics@.take(i as int) =~= generics@);
        res
    }
}

impl StructFieldASTNode {
    /// A copy of the field.
    pub fn duplicate(&self) -> (res: StructFieldASTNode)
        ensures
            res@ == self@,
    {
        StructFieldASTNode {
            position: self.position,
            name: self.name.clone(),
            type_id: self.type_id.duplicate(),
        }
    }
}


/// The schema type that a type name stands for: the Rust integer, float,
/// boolean and character types by their byte size, any other name as a
/// user type.
pub open spec fn named_type(name: Seq<char>) -> TypeIdView {
    if name == "i8"@ || name == "u8"@ {
        TypeIdView::Integer { id: name, size: 1, signed: name == "i8"@ }
    } else if name == "i16"@ || name == "u16"@ {
        TypeIdView::Integer { id: name, size: 2, signed: name == "i16"@ }
    } else if name == "i32"@ || name == "u32"@ {
        TypeIdView::Integer { id: name, size: 4, signed: name == "i32"@ }
    } else if name == "i64"@ || name == "u64"@ {
        TypeIdView::Integer { id: name, size: 8, signed: name == "i64"@ }
    } else if name == "f32"@ {
        TypeIdView::Number { id: name, size: 4 }
    } else if name == "f64"@ {
        TypeIdView::Number { id: name, size: 8 }
    } else if name == "bool"@ {
        TypeIdView::Bool { id: name }
    } else if name == "char"@ {
        TypeIdView::Char { id: name }
    } else {
        TypeIdView::Other { id: name }
    }
}


proof fn lemma_width_names()
    ensures
        "i8"@ == "i"@ + decimal(8),
        "u8"@ == "u"@ + decimal(8),
        "i16"@ == "i"@ + decimal(16),
        "u16"@ == "u"@ + decimal(16),
        "i32"@ == "i"@ + decimal(32),
        "u32"@ == "u"@ + decimal(32),
        "i64"@ == "i"@ + decimal(64),
        "u64"@ == "u"@ + decimal(64),
        "f32"@ == "f"@ + decimal(32),
        "f64"@ == "f"@ + decimal(64),
        "i8"@ != "u8"@,
        "i16"@ != "u16"@,
        "i32"@ != "u32"@,
        "i64"@ != "u64"@,
{
    reveal_strlit("i8");
    reveal_strlit("u8");
    reveal_strlit("i16");
    reveal_strlit("u16");
    reveal_strlit("i32");
    reveal_strlit("u32");
    reveal_strlit("i64");
    reveal_strlit("u64");
    reveal_strlit("f32");
    reveal_strlit("f64");
    reveal_strlit("i");
    reveal_strlit("u");
    reveal_strlit("f");
    assert(decimal(8) == seq!['8']);
    assert(decimal(1) == seq!['1']);
    assert(decimal(3) == seq!['3']);
    assert(decimal(6) == seq!['6']);
    assert(decimal(16) =~= seq!['1', '6']);
    assert(decimal(32) =~= seq!['3', '2']);
    assert(decimal(64) =~= seq!['6', '4']);
    assert("i8"@ =~= "i"@ + decimal(8));
    assert("u8"@ =~= "u"@ + decimal(8));
    assert("i16"@ =~= "i"@ + decimal(16));
    assert("u16"@ =~= "u"@ + decimal(16));
    assert("i32"@ =~= "i"@ + decimal(32));
    assert("u32"@ =~= "u"@ + decimal(32));
    assert("i64"@ =~= "i"@ + decimal(64));
    assert("u64"@ =~= "u"@ + decimal(64));
    assert("f32"@ =~= "f"@ + decimal(32));
    assert("f64"@ =~= "f"@ + decimal(64));
    assert("i8"@[0] != "u8"@[0]);
    assert("i16"@[0] != "u16"@[0]);
    assert("i32"@[0] != "u32"@[0]);
    assert("i64"@[0] != "u64"@[0]);
}

proof fn lemma_named_type_of_names()
    ensures
        named_type("i8"@) == (TypeIdView::Integer { id: "i8"@, size: 1, signed: true }),
        named_type("u8"@) == (TypeIdView::Integer { id: "u8"@, size: 1, signed: false }),
        named_type("i16"@) == (TypeIdView::Integer { id: "i16"@, size: 2, signed: true }),
        named_type("u16"@) == (TypeIdView::Integer { id: "u16"@, size: 2, signed: false }),
        named_type("i32"@) == (TypeIdView::Integer { id: "i32"@, size: 4, signed: true }),
        named_type("u32"@) == (TypeIdView::Integer { id: "u32"@, size: 4, signed: false }),
        named_type("i64"@) == (TypeIdView::Integer { id: "i64"@, size: 8, signed: true }),
        named_type("u64"@) == (TypeIdView::Integer { id: "u64"@, size: 8, signed: false }),
        named_type("f32"@) == (TypeIdView::Number { id: "f32"@, size: 4 }),
        named_type("f64"@) == (TypeIdView::Number { id: "f64"@, size: 8 }),
{
    reveal_strlit("i8");
    reveal_strlit("u8");
    reveal_strlit("i16");
    reveal_strlit("u16");
    reveal_strlit("i32");
    reveal_strlit("u32");
    reveal_strlit("i64");
    reveal_strlit("u64");
    reveal_strlit("f32");
    reveal_strlit("f64");
    reveal_strlit("bool");
    reveal_strlit("char");
    assert("i8"@[0] != "u8"@[0]);
    assert("i16"@[0] != "u16"@[0]);
    assert("i16"@[1] != "i32"@[1]);
    assert("i16"@[0] != "u32"@[0]);
    assert("i16"@[1] != "i64"@[1]);
    assert("i16"@[0] != "u64"@[0]);
    assert("u16"@[1] != "u32"@[1]);
    assert("u16"@[1] != "u64"@[1]);
    assert("i32"@[0] != "u16"@[0]);
    assert("i32"@[0] != "u32"@[0]);
    assert("i32"@[1] != "i64"@[1]);
    assert("i32"@[0] != "u64"@[0]);
    assert("u32"@[1] != "u64"@[1]);
    assert("i64"@[0] != "u16"@[0]);
    assert("i64"@[0] != "u32"@[0]);
    assert("i64"@[0] != "u64"@[0]);
    assert("f32"@[0] != "i16"@[0]);
    assert("f32"@[0] != "u16"@[0]);
    assert("f32"@[0] != "i32"@[0]);
    assert("f32"@[0] != "u32"@[0]);
    assert("f32"@[0] != "i64"@[0]);
    assert("f32"@[0] != "u64"@[0]);
    assert("f32"@[1] != "f64"@[1]);
    assert("f64"@[0] != "i16"@[0]);
    assert("f64"@[0] != "u16"@[0]);
    assert("f64"@[0] != "i32"@[0]);
    assert("f64"@[0] != "u32"@[0]);
    assert("f64"@[0] != "i64"@[0]);
    assert("f64"@[0] != "u64"@[0]);
    assert("bool"@[0] != "char"@[0]);
}

/// `i` for a signed integer, `u` for an unsigned one.
pub open spec fn sign_prefix(signed: bool) -> Seq<char> {
    if signed {
        "i"@
    } else {
        "u"@
    }
}

/// `prefix` followed by the width in bits of a value of `size` bytes.
pub open spec fn width_name(prefix: Seq<char>, size: u32) -> Seq<char> {
    prefix + decimal(8 * size as nat)
}

/// A name stands for an integer exactly when it is `i` (signed) or `u`
/// (unsigned) followed by the integer's width in bits, 8, 16, 32 or 64, and
/// for a number exactly when it is `f` followed by its width, 32 or 64; the
/// resolved type keeps the name.
pub proof fn lemma_named_type_widths(name: Seq<char>)
    ensures
        (named_type(name) is Integer) ==> (named_type(name)->Integer_id == name && (
        named_type(name)->Integer_size == 1 || named_type(name)->Integer_size == 2 || named_type(
            name,
        )->Integer_size == 4 || named_type(name)->Integer_size == 8) && name == width_name(
            sign_prefix(named_type(name)->Integer_signed),
            named_type(name)->Integer_size,
        )),
        (named_type(name) is Number) ==> (named_type(name)->Number_id == name && (named_type(
            name,
        )->Number_size == 4 || named_type(name)->Number_size == 8) && name == width_name(
            "f"@,
            named_type(name)->Number_size,
        )),
        forall|size: u32, signed: bool|
            (size == 1 || size == 2 || size == 4 || size == 8) && name == width_name(
                sign_prefix(signed),
                size,
            ) ==> (named_type(name) == (TypeIdView::Integer { id: name, size, signed })),
        forall|size: u32|
            (size == 4 || size == 8) && name == width_name("f"@, size) ==> (named_type(name) == (
            TypeIdView::Number { id: name, size })),
{
    lemma_width_names();
    lemma_named_type_of_names();
    reveal_strlit("i8");
    reveal_strlit("u8");
    reveal_strlit("i16");
    reveal_strlit("u16");
    reveal_strlit("i32");
    reveal_strlit("u32");
    reveal_strlit("i64");
    reveal_strlit("u64");
    reveal_strlit("f32");
    reveal_strlit("f64");
    assert forall|size: u32, signed: bool|
        (size == 1 || size == 2 || size == 4 || size == 8) && name == width_name(
            sign_prefix(signed),
            size,
        ) implies (named_type(name) == (TypeIdView::Integer { id: name, size, signed })) by {
        if size == 1 {
            assert(8 * size as nat == 8);
            assert(name == if signed { "i8"@ } else { "u8"@ });
        } else if size == 2 {
            assert(8 * size as nat == 16);
            assert(name == if signed { "i16"@ } else { "u16"@ });
        } else if size == 4 {
            assert(8 * size as nat == 32);
            assert(name == if signed { "i32"@ } else { "u32"@ });
        } else {
            assert(8 * size as nat == 64);
            assert(name == if signed { "i64"@ } else { "u64"@ });
        }
    }
    assert forall|size: u32| (size == 4 || size == 8) && name == width_name("f"@, size) implies (
    named_type(name) == (TypeIdView::Number { id: name, size })) by {
        if size == 4 {
            assert(8 * size as nat == 32);
            assert(name == "f32"@);
        } else {
            assert(8 * size as nat == 64);
            assert(name == "f64"@);
        }
    }
}

/// The schema type that a type name stands for.
pub fn type_of_name(name: String) -> (t: TypeIDASTNode)
    ensures
        t@ == named_type(name@),
{
    let n = name.as_str();
    if str_eq(n, "i8") || str_eq(n, "u8") {
        let signed = str_eq(n, "i8");
        TypeIDASTNode::Integer { id: name, size: 1, signed }
    } else if str_eq(n, "i16") || str_eq(n, "u16") {
        let signed = str_eq(n, "i16");
        TypeIDASTNode::Integer { id: name, size: 2, signed }
    } else if str_eq(n, "i32") || str_eq(n, "u32") {
        let signed = str_eq(n, "i32");
        TypeIDASTNode::Integer { id: name, size: 4, signed }
    } else if str_eq(n, "i64") || str_eq(n, "u64") {
        let signed = str_eq(n, "i64");
        TypeIDASTNode::Integer { id: name, size: 8, signed }
    } else if str_eq(n, "f32") {
        TypeIDASTNode::Number { id: name, size: 4 }
    } else if str_eq(n, "f64") {
        TypeIDASTNode::Number { id: name, size: 8 }
    } else if str_eq(n, "bool") {
        TypeIDASTNode::Bool { id: name }
    } else if str_eq(n, "char") {
        TypeIDASTNode::Char { id: name }
    } else {
        TypeIDASTNode::Other { id: name }
    }
}


// ---------------------------------------------------------------------------
// From the parsed tree to the schema tree.
// ---------------------------------------------------------------------------

/// The schema type of a type as written: a name by `named_type`, a
/// generic type with each of its arguments resolved in turn.
pub open spec fn schema_type(t: ParsedTypeView) -> TypeIdView
    decreases t,
{
    match t {
        ParsedTypeView::Primitive { id } => named_type(id),
        ParsedTypeView::Generic { id, generics } => TypeIdView::Generic {
            id,
            generics: schema_types(generics),
        },
    }
}

/// The schema types of a list of types as written.
pub open spec fn schema_types(ts: Seq<ParsedTypeView>) -> Seq<TypeIdView>
    decreases ts,
{
    if ts.len() == 0 {
        seq![]
    } else {
        schema_types(ts.drop_last()).push(schema_type(ts.last()))
    }
}

/// A parsed field with its type resolved.
pub open spec fn schema_field(f: ParsedFieldView) -> StructFieldView {
    StructFieldView { position: f.position, name: f.name, type_id: schema_type(f.type_id) }
}

/// A parsed struct with its field types resolved; it gets both codecs.
pub open spec fn schema_struct(s: ParsedStructView) -> StructView {
    StructView {
        id: s.id,
        fields: s.fields.map_values(|f: ParsedFieldView| schema_field(f)),
        emplace_buffers: true,
        into_buffers: true,
    }
}

/// A parsed item that the schema tree can hold: anything but an enum,
/// whose parsed form carries no name.
pub open spec fn convertible(n: ParsedNodeView) -> bool {
    !(n is Enum)
}

/// The schema item of a parsed struct or value enum.
pub open spec fn schema_node(n: ParsedNodeView) -> AstView {
    match n {
        ParsedNodeView::Struct(s) => AstView::Struct(schema_struct(s)),
        ParsedNodeView::ValueEnum(pairs) => AstView::ValueEnum(pairs),
        ParsedNodeView::Enum(_) => AstView::ValueEnum(seq![]),
    }
}

proof fn lemma_schema_types(gs: Seq<parser::TypeIDASTNode>)
    ensures
        schema_types(parsed_type_views(gs)) == gs.map_values(
            |g: parser::TypeIDASTNode| schema_type(g@),
        ),
    decreases gs.len(),
{
    if gs.len() > 0 {
        lemma_schema_types(gs.drop_last());
        let pv = parsed_type_views(gs);
        let prev = parsed_type_views(gs.drop_last());
        assert(pv == prev.push(gs.last().view()));
        assert(pv.drop_last() =~= prev);
        assert(schema_types(pv) == schema_types(prev).push(schema_type(gs.last()@)));
        let a = schema_types(pv);
        let b = gs.map_values(|g: parser::TypeIDASTNode| schema_type(g@));
        assert(a.len() == b.len());
        assert forall|k: int| 0 <= k < a.len() implies a[k] == b[k] by {
            if k < a.len() - 1 {
                assert(a[k] == schema_types(pv.drop_last())[k]);
                assert(gs.drop_last()[k] == gs[k]);
            }
        }
        assert(a =~= b);
    } else {
        assert(schema_types(parsed_type_views(gs)) =~= gs.map_values(
            |g: parser::TypeIDASTNode| schema_type(g@),
        ));
    }
}

/// The schema type of a type as written.
pub fn from_parsed_type(t: &parser::TypeIDASTNode) -> (res: TypeIDASTNode)
    ensures
        res@ == schema_type(t@),
    decreases t,
{
    match t {
        parser::TypeIDASTNode::Primitive { id } => type_of_name(id.clone()),
        parser::TypeIDASTNode::Generic { id, generics } => {
            let resolved = from_parsed_types(t, generics);
            proof {
                lemma_schema_types(generics@);
                lemma_type_id_views(resolved@);
            }
            TypeIDASTNode::Generic { id: id.clone(), generics: resolved }
        },
    }
}

fn from_parsed_types(parent: &parser::TypeIDASTNode, generics: &Vec<parser::TypeIDASTNode>) -> (res:
    Vec<TypeIDASTNode>)
    requires
        parent matches parser::TypeIDASTNode::Generic { generics: g, .. } && g == generics,
    ensures
        res@.map_values(|t: TypeIDASTNode| t@) == generics@.map_values(
            |g: parser::TypeIDASTNode| schema_type(g@),
        ),
    decreases parent, 0nat,
{
    let mut res: Vec<TypeIDASTNode> = Vec::new();
    let mut i: usize = 0;
    while i < generics.len()
        invariant
            i <= generics.len(),
            parent matches parser::TypeIDASTNode::Generic { generics: g, .. } && g == generics,
            res@.map_values(|t: TypeIDASTNode| t@) =~= generics@.take(i as int).map_values(
                |g: parser::TypeIDASTNode| schema_type(g@),
            ),
        decreases generics.len() - i,
    {
        let r = from_parsed_type(&generics[i]);
        let ghost before = res@.map_values(|t: TypeIDASTNode| t@);
        let ghost rv = r@;
        res.push(r);
        assert(res@.map_values(|t: TypeIDASTNode| t@) =~= before.push(rv));
        assert(generics@.take(i + 1).map_values(|g: parser::TypeIDASTNode| schema_type(g@))
            =~= generics@.take(i as int).map_values(
            |g: parser::TypeIDASTNode| schema_type(g@),
        ).push(schema_type(generics@[i as int]@)));
        i += 1;
    }
    assert(generics@.take(i as int) =~= generics@);
    res
}

/// The schema struct of a parsed struct: field types resolved, both codecs
/// asked for.
pub fn from_parsed_struct(s: &parser::StructASTNode) -> (res: StructASTNode)
    ensures
        res@ == schema_struct(s@),
{
    let mut fields: Vec<StructFieldASTNode> = Vec::new();
    let mut i: usize = 0;
    while i < s.fields.len()
        invariant
            i <= s.fields.len(),
            fields@.map_values(|f: StructFieldASTNode| f@) =~= s.fields@.take(i as int).map_values(
                |f: parser::StructFieldASTNode| schema_field(f@),
            ),
        decreases s.fields.len() - i,
    {
        let f = &s.fields[i];
        let field = StructFieldASTNode {
            position: f.position,
            name: f.name.clone(),
            type_id: from_parsed_type(&f.type_id),
        };
        let ghost before = fields@.map_values(|f: StructFieldASTNode| f@);
        let ghost fv = field@;
        fields.push(field);
        assert(fields@.map_values(|f: StructFieldASTNode| f@) =~= before.push(fv));
        assert(s.fields@.take(i + 1).map_values(|f: parser::StructFieldASTNode| schema_field(f@))
            =~= s.fields@.take(i as int).map_values(
            |f: parser::StructFieldASTNode| schema_field(f@),
        ).push(schema_field(s.fields@[i as int]@)));
        i += 1;
    }
    assert(s.fields@.take(i as int) =~= s.fields@);
    assert(s@.fields.map_values(|f: parser::ParsedFieldView| schema_field(f)) =~= s.fields@.map_values(
        |f: parser::StructFieldASTNode| schema_field(f@),
    ));
    StructASTNode { id: s.id.clone(), fields, emplace_buffers: true, into_buffers: true }
}

fn copy_literal(l: &Literal) -> (res: Literal)
    ensures
        res@ == l@,
{
    match l {
        Literal::StringLiteral(v) => Literal::StringLiteral(v.clone()),
        Literal::IntLiteral(v) => Literal::IntLiteral(*v),
        Literal::NumberLiteral(v) => Literal::NumberLiteral(v.clone()),
        Literal::BoolLiteral(v) => Literal::BoolLiteral(*v),
    }
}

fn from_parsed_pairs(pairs: &Vec<parser::IdValuePair>) -> (res: Vec<IdValuePair>)
    ensures
        res@.map_values(|p: IdValuePair| p@) == pairs@.map_values(|p: parser::IdValuePair| p@),
{
    let mut res: Vec<IdValuePair> = Vec::new();
    let mut i: usize = 0;
    while i < pairs.len()
        invariant
            i <= pairs.len(),
            res@.map_values(|p: IdValuePair| p@) =~= pairs@.take(i as int).map_values(
                |p: parser::IdValuePair| p@,
            ),
        decreases pairs.len() - i,
    {
        let p = &pairs[i];
        let value = match &p.value {
            parser::ConstValueASTNode::Literal { literal } => ConstValueASTNode::Literal {
                literal: copy_literal(literal),
            },
        };
        let pair = IdValuePair { id: p.id.clone(), value };
        let ghost before = res@.map_values(|p: IdValuePair| p@);
        let ghost pv = pair@;
        res.push(pair);
        assert(res@.map_values(|p: IdValuePair| p@) =~= before.push(pv));
        assert(pairs@.take(i + 1).map_values(|p: parser::IdValuePair| p@) =~= pairs@.take(
            i as int,
        ).map_values(|p: parser::IdValuePair| p@).push(pairs@[i as int]@));
        i += 1;
    }
    assert(pairs@.take(i as int) =~= pairs@);
    res
}

/// The schema tree of a parsed schema: structs with their types resolved,
/// value enums as they are. A parsed enum carries no name, so it has no
/// place in the schema tree; the parser makes none.
pub fn from_parsed(nodes: &[parser::ASTNode]) -> (res: Vec<ASTNode>)
    requires
        forall|i: int| 0 <= i < nodes@.len() ==> convertible(#[trigger] nodes@[i]@),
    ensures
        ast_view(res@) == parser::parsed_view(nodes@).map_values(|n: ParsedNodeView| schema_node(n)),
{
    let mut res: Vec<ASTNode> = Vec::new();
    let mut i: usize = 0;
    while i < nodes.len()
        invariant
            i <= nodes.len(),
            forall|k: int| 0 <= k < nodes@.len() ==> convertible(#[trigger] nodes@[k]@),
            ast_view(res@) =~= nodes@.take(i as int).map_values(
                |n: parser::ASTNode| schema_node(n@),
            ),
        decreases nodes.len() - i,
    {
        assert(convertible(nodes@[i as int]@));
        let node = match &nodes[i] {
            parser::ASTNode::Struct(s) => ASTNode::Struct(from_parsed_struct(s)),
            parser::ASTNode::ValueEnum(pairs) => ASTNode::ValueEnum(from_parsed_pairs(pairs)),
            parser::ASTNode::Enum(_) => {
                assert(false);
                ASTNode::ValueEnum(Vec::new())
            },
        };
        let ghost before = ast_view(res@);
        let ghost nv = node@;
        res.push(node);
        assert(ast_view(res@) =~= before.push(nv));
        assert(nodes@.take(i + 1).map_values(|n: parser::ASTNode| schema_node(n@)) =~= nodes@.take(
            i as int,
        ).map_values(|n: parser::ASTNode| schema_node(n@)).push(schema_node(nodes@[i as int]@)));
        i += 1;
    }
    assert(nodes@.take(i as int) =~= nodes@);
    assert(parser::parsed_view(nodes@).map_values(|n: ParsedNodeView| schema_node(n)) =~= nodes@.map_values(
        |n: parser::ASTNode| schema_node(n@),
    ));
    res
}

// ---------------------------------------------------------------------------
// Queries.
// ---------------------------------------------------------------------------

/// The functions among the top-level items, in order.
pub open spec fn fn_nodes(ast: Seq<AstView>) -> Seq<FnView>
    decreases ast.len(),
{
    if ast.len() == 0 {
        seq![]
    } else {
        let rest = fn_nodes(ast.drop_last());
        match ast.last() {
            AstView::Fn(f) => rest.push(f),
            _ => rest,
        }
    }
}

/// The value of the first directive named `id`, if any.
pub open spec fn directive_value(id: Seq<char>, ast: Seq<AstView>) -> Option<ConstValueView>
    decreases ast.len(),
{
    if ast.len() == 0 {
        None
    } else {
        match ast[0] {
            AstView::Directive(d) => if d.id == id {
                Some(d.value)
            } else {
                directive_value(id, ast.drop_first())
            },
            _ => directive_value(id, ast.drop_first()),
        }
    }
}

/// The values of the pairs named `id` in `pairs`, in order.
pub open spec fn pair_values(pairs: Seq<IdValuePairView>, id: Seq<char>) -> Seq<ConstValueView>
    decreases pairs.len(),
{
    if pairs.len() == 0 {
        seq![]
    } else {
        let rest = pair_values(pairs.drop_last(), id);
        if pairs.last().id == id {
            rest.push(pairs.last().value)
        } else {
            rest
        }
    }
}

/// The values of the directives named `id` in the directive groups named
/// `group`, in order.
pub open spec fn directive_group_values(ast: Seq<AstView>, group: Seq<char>, id: Seq<char>) -> Seq<
    ConstValueView,
>
    decreases ast.len(),
{
    if ast.len() == 0 {
        seq![]
    } else {
        let rest = directive_group_values(ast.drop_last(), group, id);
        match ast.last() {
            AstView::DirectiveGroup { id: g, values } => if g == group {
                rest + pair_values(values, id)
            } else {
                rest
            },
            _ => rest,
        }
    }
}

/// The functions among the top-level items, in order.
pub fn find_fn_nodes(ast: &[ASTNode]) -> (res: Vec<&FnASTNode>)
    ensures
        res@.map_values(|f: &FnASTNode| f@) == fn_nodes(ast_view(ast@)),
{
    let ghost v = ast_view(ast@);
    let mut res: Vec<&FnASTNode> = Vec::new();
    let mut i: usize = 0;
    while i < ast.len()
        invariant
            i <= ast.len(),
            v == ast_view(ast@),
            res@.map_values(|f: &FnASTNode| f@) == fn_nodes(v.take(i as int)),
        decreases ast.len() - i,
    {
        assert(v.take(i + 1).drop_last() =~= v.take(i as int));
        assert(v[i as int] == ast@[i as int]@);
        let ghost before = res@.map_values(|f: &FnASTNode| f@);
        if let ASTNode::Fn(f) = &ast[i] {
            res.push(f);
            assert(res@.map_values(|f: &FnASTNode| f@) =~= before.push(f@));
        }
        i += 1;
    }
    assert(v.take(i as int) =~= v);
    res
}

/// The value of the first directive named `id`, if any.
pub fn find_directive_value<'a>(id: &str, ast: &'a [ASTNode]) -> (res: Option<&'a ConstValueASTNode>)
    ensures
        match res {
            Some(c) => directive_value(id@, ast_view(ast@)) == Some(c@),
            None => directive_value(id@, ast_view(ast@)) is None,
        },
{
    let ghost v = ast_view(ast@);
    assert(v.skip(0) =~= v);
    let mut i: usize = 0;
    while i < ast.len()
        invariant
            i <= ast.len(),
            v == ast_view(ast@),
            directive_value(id@, v) == directive_value(id@, v.skip(i as int)),
        decreases ast.len() - i,
    {
        assert(v.skip(i as int)[0] == ast@[i as int]@);
        assert(v.skip(i as int).drop_first() =~= v.skip(i + 1));
        if let ASTNode::Directive(d) = &ast[i] {
            if str_eq(d.id.as_str(), id) {
                return Some(&d.value);
            }
        }
        i += 1;
    }
    None
}

fn push_pair_values<'a>(out: &mut Vec<&'a ConstValueASTNode>, pairs: &'a Vec<IdValuePair>, id: &str)
    ensures
        final(out)@.map_values(|c: &ConstValueASTNode| c@) == old(out)@.map_values(
            |c: &ConstValueASTNode| c@,
        ) + pair_values(pairs@.map_values(|p: IdValuePair| p@), id@),
{
    let ghost start = out@.map_values(|c: &ConstValueASTNode| c@);
    let ghost ps = pairs@.map_values(|p: IdValuePair| p@);
    let mut i: usize = 0;
    while i < pairs.len()
        invariant
            i <= pairs.len(),
            ps == pairs@.map_values(|p: IdValuePair| p@),
            out@.map_values(|c: &ConstValueASTNode| c@) == start + pair_values(ps.take(i as int), id@),
        decreases pairs.len() - i,
    {
        assert(ps.take(i + 1).drop_last() =~= ps.take(i as int));
        assert(ps[i as int] == pairs@[i as int]@);
        let ghost before = out@.map_values(|c: &ConstValueASTNode| c@);
        let pair = &pairs[i];
        if str_eq(pair.id.as_str(), id) {
            out.push(&pair.value);
            assert(out@.map_values(|c: &ConstValueASTNode| c@) =~= before.push(pair.value@));
        }
        i += 1;
    }
    assert(ps.take(i as int) =~= ps);
}

/// The values of the directives named `id` in the directive groups named
/// `group`, in order.
pub fn find_directive_group_values<'a>(ast: &'a [ASTNode], group: &str, id: &str) -> (res: Vec<
    &'a ConstValueASTNode,
>)
    ensures
        res@.map_values(|c: &ConstValueASTNode| c@) == directive_group_values(
            ast_view(ast@),
            group@,
            id@,
        ),
{
    let ghost v = ast_view(ast@);
    let mut res: Vec<&ConstValueASTNode> = Vec::new();
    let mut i: usize = 0;
    while i < ast.len()
        invariant
            i <= ast.len(),
            v == ast_view(ast@),
            res@.map_values(|c: &ConstValueASTNode| c@) == directive_group_values(
                v.take(i as int),
                group@,
                id@,
            ),
        decreases ast.len() - i,
    {
        assert(v.take(i + 1).drop_last() =~= v.take(i as int));
        assert(v[i as int] == ast@[i as int]@);
        if let ASTNode::DirectiveGroup { id: g, values } = &ast[i] {
            if str_eq(g.as_str(), group) {
                push_pair_values(&mut res, values, id);
            }
        }
        i += 1;
    }
    assert(v.take(i as int) =~= v);
    res
}

} // verus!

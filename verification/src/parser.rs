use vstd::prelude::*;

use crate::lexer::{
    advance, digit_value, digits_end, digits_value, is_digit, lemma_digits_end_skip, lex, Lexer,
    Literal, LiteralView, Token, TokenView, tokenize_spec,
};
use crate::ast::{ConstValueView, IdValuePairView};
use crate::text::{decimal, digit_char};

verus! {

// ---------------------------------------------------------------------------
// The parsed tree of a schema and its mathematical model. Type names are
// kept as written; `crate::ast` gives them their meaning.
// ---------------------------------------------------------------------------

/// A top-level item of a parsed schema.
#[derive(Debug)]
pub enum ASTNode {
    Enum(Vec<EnumItemASTNode>),
    ValueEnum(Vec<IdValuePair>),
    Struct(StructASTNode),
}

#[derive(Debug)]
pub struct StructASTNode {
    pub id: String,
    pub fields: Vec<StructFieldASTNode>,
}

#[derive(Debug)]
pub enum EnumItemASTNode {
    Empty { position: u32, id: String },
    Tuple { position: u32, id: String, values: Vec<TupleFieldASTNode> },
    Struct { position: u32, id: String, fields: Vec<StructFieldASTNode> },
}

#[derive(Debug)]
pub enum ConstValueASTNode {
    Literal { literal: Literal },
}

#[derive(Debug)]
pub struct IdValuePair {
    pub id: String,
    pub value: ConstValueASTNode,
}

/// A type as written: a name, or a name with type arguments.
#[derive(Debug)]
pub enum TypeIDASTNode {
    Primitive { id: String },
    Generic { id: String, generics: Vec<TypeIDASTNode> },
}

#[derive(Debug)]
pub struct TupleFieldASTNode {
    pub position: u32,
    pub type_id: TypeIDASTNode,
}

#[derive(Debug)]
pub struct StructFieldASTNode {
    pub position: u32,
    pub name: String,
    pub type_id: TypeIDASTNode,
}

/// The model of a type as written.
pub enum ParsedTypeView {
    Primitive { id: Seq<char> },
    Generic { id: Seq<char>, generics: Seq<ParsedTypeView> },
}

pub struct ParsedTupleFieldView {
    pub position: u32,
    pub type_id: ParsedTypeView,
}

pub struct ParsedFieldView {
    pub position: u32,
    pub name: Seq<char>,
    pub type_id: ParsedTypeView,
}

pub struct ParsedStructView {
    pub id: Seq<char>,
    pub fields: Seq<ParsedFieldView>,
}

pub enum ParsedItemView {
    Empty { position: u32, id: Seq<char> },
    Tuple { position: u32, id: Seq<char>, values: Seq<ParsedTupleFieldView> },
    Struct { position: u32, id: Seq<char>, fields: Seq<ParsedFieldView> },
}

pub enum ParsedNodeView {
    Enum(Seq<ParsedItemView>),
    ValueEnum(Seq<IdValuePairView>),
    Struct(ParsedStructView),
}

impl View for TypeIDASTNode {
    type V = ParsedTypeView;

    open spec fn view(&self) -> ParsedTypeView
        decreases self,
    {
        match self {
            TypeIDASTNode::Primitive { id } => ParsedTypeView::Primitive { id: id@ },
            TypeIDASTNode::Generic { id, generics } => ParsedTypeView::Generic {
                id: id@,
                generics: parsed_type_views(generics@),
            },
        }
    }
}

/// The models of a list of types as written.
pub open spec fn parsed_type_views(ts: Seq<TypeIDASTNode>) -> Seq<ParsedTypeView>
    decreases ts,
{
    if ts.len() == 0 {
        seq![]
    } else {
        parsed_type_views(ts.drop_last()).push(ts.last().view())
    }
}

impl View for TupleFieldASTNode {
    type V = ParsedTupleFieldView;

    open spec fn view(&self) -> ParsedTupleFieldView {
        ParsedTupleFieldView { position: self.position, type_id: self.type_id@ }
    }
}

impl View for StructFieldASTNode {
    type V = ParsedFieldView;

    open spec fn view(&self) -> ParsedFieldView {
        ParsedFieldView { position: self.position, name: self.name@, type_id: self.type_id@ }
    }
}

impl View for StructASTNode {
    type V = ParsedStructView;

    open spec fn view(&self) -> ParsedStructView {
        ParsedStructView {
            id: self.id@,
            fields: self.fields@.map_values(|f: StructFieldASTNode| f@),
        }
    }
}

impl View for EnumItemASTNode {
    type V = ParsedItemView;

    open spec fn view(&self) -> ParsedItemView {
        match self {
            EnumItemASTNode::Empty { position, id } => ParsedItemView::Empty {
                position: *position,
                id: id@,
            },
            EnumItemASTNode::Tuple { position, id, values } => ParsedItemView::Tuple {
                position: *position,
                id: id@,
                values: values@.map_values(|v: TupleFieldASTNode| v@),
            },
            EnumItemASTNode::Struct { position, id, fields } => ParsedItemView::Struct {
                position: *position,
                id: id@,
                fields: fields@.map_values(|f: StructFieldASTNode| f@),
            },
        }
    }
}

impl View for ConstValueASTNode {
    type V = ConstValueView;

    open spec fn view(&self) -> ConstValueView {
        match self {
            ConstValueASTNode::Literal { literal } => ConstValueView::Literal { literal: literal@ },
        }
    }
}

impl View for IdValuePair {
    type V = IdValuePairView;

    open spec fn view(&self) -> IdValuePairView {
        IdValuePairView { id: self.id@, value: self.value@ }
    }
}

impl View for ASTNode {
    type V = ParsedNodeView;

    open spec fn view(&self) -> ParsedNodeView {
        match self {
            ASTNode::Enum(items) => ParsedNodeView::Enum(
                items@.map_values(|i: EnumItemASTNode| i@),
            ),
            ASTNode::ValueEnum(vs) => ParsedNodeView::ValueEnum(
                vs@.map_values(|v: IdValuePair| v@),
            ),
            ASTNode::Struct(s) => ParsedNodeView::Struct(s@),
        }
    }
}

/// The models of a sequence of parsed top-level items.
pub open spec fn parsed_view(nodes: Seq<ASTNode>) -> Seq<ParsedNodeView> {
    nodes.map_values(|n: ASTNode| n@)
}

// ---------------------------------------------------------------------------
// The grammar, over a token sequence `ts` read from position `p`.
// Each rule gives the value read and the position after it, or `None`
// where the parser stops with an error.
// ---------------------------------------------------------------------------

/// `#[<integer>]`: a field position.
pub open spec fn spec_parse_position(ts: Seq<TokenView>, p: nat) -> Option<(u32, nat)> {
    let p1 = advance(ts, p);
    let p2 = advance(ts, p1);
    let p3 = advance(ts, p2);
    if p < ts.len() && ts[p as int] == TokenView::Punct('#') && ts[p1 as int] == TokenView::Punct('[')
        && ts[p3 as int] == TokenView::Punct(']') {
        match ts[p2 as int] {
            TokenView::Literal(LiteralView::Int(v)) => Some((v as u32, advance(ts, p3))),
            _ => None,
        }
    } else {
        None
    }
}

/// A type name, kept as written.
pub open spec fn spec_parse_type_id(ts: Seq<TokenView>, p: nat) -> Option<(ParsedTypeView, nat)> {
    if p < ts.len() {
        match ts[p as int] {
            TokenView::Id(name) => Some((ParsedTypeView::Primitive { id: name }, advance(ts, p))),
            _ => None,
        }
    } else {
        None
    }
}

/// One field `#[<position>] <name>: <type>`.
pub open spec fn spec_parse_field(ts: Seq<TokenView>, p: nat) -> Option<(ParsedFieldView, nat)> {
    match spec_parse_position(ts, p) {
        Some((position, q)) => match ts[q as int] {
            TokenView::Id(name) => {
                let q1 = advance(ts, q);
                if ts[q1 as int] == TokenView::Punct(':') {
                    match spec_parse_type_id(ts, advance(ts, q1)) {
                        Some((type_id, r)) => Some(
                            (ParsedFieldView { position, name, type_id }, r),
                        ),
                        None => None,
                    }
                } else {
                    None
                }
            },
            _ => None,
        },
        None => None,
    }
}

pub proof fn lemma_advance(ts: Seq<TokenView>, p: nat)
    ensures
        p <= advance(ts, p),
        p < ts.len() ==> advance(ts, p) < ts.len(),
        p + 1 < ts.len() ==> advance(ts, p) == p + 1,
{
}

pub proof fn lemma_parse_field_progress(ts: Seq<TokenView>, p: nat)
    ensures
        spec_parse_field(ts, p) matches Some((_, r)) ==> p < r < ts.len(),
{
    let p1 = advance(ts, p);
    let p2 = advance(ts, p1);
    let p3 = advance(ts, p2);
    if let Some((_, q)) = spec_parse_position(ts, p) {
        assert(p + 1 < ts.len());
        let q1 = advance(ts, q);
        if let Some((_, r)) = spec_parse_type_id(ts, advance(ts, q1)) {
        }
    }
}

/// The fields of a struct body: fields separated by `,`, each starting
/// with `#`; a `,` after the last one is allowed.
pub open spec fn spec_parse_fields(ts: Seq<TokenView>, p: nat) -> Option<(Seq<ParsedFieldView>, nat)>
    decreases ts.len() - p,
{
    if p >= ts.len() {
        None
    } else if ts[p as int] != TokenView::Punct('#') {
        Some((seq![], p))
    } else {
        match spec_parse_field(ts, p) {
            Some((field, r)) => {
                if ts[r as int] != TokenView::Punct(',') {
                    Some((seq![field], r))
                } else {
                    proof {
                        lemma_parse_field_progress(ts, p);
                    }
                    match spec_parse_fields(ts, advance(ts, r)) {
                        Some((rest, e)) => Some((seq![field] + rest, e)),
                        None => None,
                    }
                }
            },
            None => None,
        }
    }
}

/// `struct <name>;` or `struct <name> { <fields> }`.
pub open spec fn spec_parse_struct(ts: Seq<TokenView>, p: nat) -> Option<(ParsedStructView, nat)> {
    let p1 = advance(ts, p);
    let p2 = advance(ts, p1);
    if p < ts.len() && ts[p as int] == TokenView::Struct {
        match ts[p1 as int] {
            TokenView::Id(name) => {
                if ts[p2 as int] == TokenView::Punct(';') {
                    Some(
                        (
                            ParsedStructView { id: name, fields: seq![] },
                            advance(ts, p2),
                        ),
                    )
                } else if ts[p2 as int] != TokenView::Punct('{') {
                    None
                } else {
                    match spec_parse_fields(ts, advance(ts, p2)) {
                        Some((fields, q)) => if ts[q as int] == TokenView::Punct('}') {
                            Some(
                                (
                                    ParsedStructView { id: name, fields },
                                    advance(ts, q),
                                ),
                            )
                        } else {
                            None
                        },
                        None => None,
                    }
                }
            },
            _ => None,
        }
    } else {
        None
    }
}

pub proof fn lemma_parse_fields_bounds(ts: Seq<TokenView>, p: nat)
    ensures
        spec_parse_fields(ts, p) matches Some((_, e)) ==> p <= e < ts.len(),
    decreases ts.len() - p,
{
    if p < ts.len() && ts[p as int] == TokenView::Punct('#') {
        lemma_parse_field_progress(ts, p);
        if let Some((_, r)) = spec_parse_field(ts, p) {
            if ts[r as int] == TokenView::Punct(',') {
                lemma_parse_fields_bounds(ts, advance(ts, r));
            }
        }
    }
}

pub proof fn lemma_parse_struct_progress(ts: Seq<TokenView>, p: nat)
    ensures
        spec_parse_struct(ts, p) matches Some((_, q)) ==> p < q < ts.len(),
{
    let p1 = advance(ts, p);
    let p2 = advance(ts, p1);
    if spec_parse_struct(ts, p) is Some {
        assert(p + 1 < ts.len());
        lemma_parse_fields_bounds(ts, advance(ts, p2));
    }
}

/// A whole schema: structs up to the end of the tokens.
pub open spec fn spec_parse(ts: Seq<TokenView>, p: nat) -> Option<(Seq<ParsedNodeView>, nat)>
    decreases ts.len() - p,
{
    if p >= ts.len() {
        None
    } else if ts[p as int] == TokenView::EOF {
        Some((seq![], p))
    } else {
        match spec_parse_struct(ts, p) {
            Some((node, q)) => {
                proof {
                    lemma_parse_struct_progress(ts, p);
                }
                match spec_parse(ts, q) {
                    Some((rest, e)) => Some((seq![ParsedNodeView::Struct(node)] + rest, e)),
                    None => None,
                }
            },
            None => None,
        }
    }
}

/// A parsed schema holds structs only, so all of it has a place in the
/// schema tree.
pub proof fn lemma_parse_gives_structs(ts: Seq<TokenView>, p: nat)
    ensures
        spec_parse(ts, p) matches Some((nodes, _)) ==> forall|i: int|
            0 <= i < nodes.len() ==> #[trigger] nodes[i] is Struct,
    decreases ts.len() - p,
{
    if p < ts.len() && ts[p as int] != TokenView::EOF {
        lemma_parse_struct_progress(ts, p);
        if let Some((node, q)) = spec_parse_struct(ts, p) {
            lemma_parse_gives_structs(ts, q);
            if let Some((rest, _)) = spec_parse(ts, q) {
                let all = seq![ParsedNodeView::Struct(node)] + rest;
                assert forall|i: int| 0 <= i < all.len() implies #[trigger] all[i] is Struct by {
                    if i > 0 {
                        assert(all[i] == rest[i - 1]);
                    }
                }
            }
        }
    }
}

/// A schema is read up to the end of its tokens: where parsing succeeds,
/// it stops on `EOF`, never before where it started.
pub proof fn lemma_parse_reaches_end(ts: Seq<TokenView>, p: nat)
    ensures
        spec_parse(ts, p) matches Some((_, e)) ==> p <= e < ts.len() && ts[e as int]
            == TokenView::EOF,
    decreases ts.len() - p,
{
    if p < ts.len() && ts[p as int] != TokenView::EOF {
        lemma_parse_struct_progress(ts, p);
        if let Some((_, q)) = spec_parse_struct(ts, p) {
            lemma_parse_reaches_end(ts, q);
        }
    }
}

proof fn lemma_digit_char(d: nat)
    requires
        d < 10,
    ensures
        is_digit(digit_char(d)),
        digit_value(digit_char(d)) == d,
{
}

proof fn lemma_decimal_digits(n: nat)
    ensures
        decimal(n).len() >= 1,
        forall|k: int| 0 <= k < decimal(n).len() ==> is_digit(#[trigger] decimal(n)[k]),
    decreases n,
{
    lemma_digit_char(n % 10);
    if n >= 10 {
        lemma_decimal_digits(n / 10);
        let s = decimal(n);
        assert forall|k: int| 0 <= k < s.len() implies is_digit(#[trigger] s[k]) by {
            if k < s.len() - 1 {
                assert(s[k] == decimal(n / 10)[k]);
            }
        }
    }
}

/// The value of digits depends on the digits alone.
proof fn lemma_digits_value_shift(s: Seq<char>, f: int, t: Seq<char>, g: int, len: int)
    requires
        0 <= len,
        0 <= f,
        f + len <= s.len(),
        0 <= g,
        g + len <= t.len(),
        forall|k: int| f <= k < f + len ==> #[trigger] s[k] == t[k - f + g],
    ensures
        digits_value(s, f, f + len) == digits_value(t, g, g + len),
    decreases len,
{
    if len > 0 {
        lemma_digits_value_shift(s, f, t, g, len - 1);
        assert(s[f + len - 1] == t[g + len - 1]);
    }
}

proof fn lemma_decimal_value(n: nat)
    requires
        n <= u64::MAX,
    ensures
        digits_value(decimal(n), 0, decimal(n).len() as int) == n,
    decreases n,
{
    lemma_digit_char(n % 10);
    if n >= 10 {
        let a = decimal(n / 10);
        let s = decimal(n);
        lemma_decimal_value(n / 10);
        lemma_decimal_digits(n / 10);
        assert forall|k: int| 0 <= k < a.len() implies #[trigger] s[k] == a[k - 0 + 0] by {}
        lemma_digits_value_shift(s, 0, a, 0, a.len() as int);
        assert(digits_value(s, 0, a.len() as int) == n / 10);
        assert((n / 10) * 10 + n % 10 == n);
        assert(s.len() == a.len() + 1);
        assert(s[a.len() as int] == digit_char(n % 10));
        let m = vstd::wrapping::u64_specs::wrapping_mul((n / 10) as u64, 10);
        assert(m == (n / 10) * 10);
        assert(vstd::wrapping::u64_specs::wrapping_add(m, (n % 10) as u64) == n);
        assert(digits_value(s, 0, s.len() as int) == vstd::wrapping::u64_specs::wrapping_add(
            m,
            digit_value(s[a.len() as int]),
        ));
    } else {
        let s = decimal(n);
        assert(s.len() == 1);
        assert(digits_value(s, 0, 0) == 0);
        assert(digits_value(s, 0, 1) == vstd::wrapping::u64_specs::wrapping_add(
            vstd::wrapping::u64_specs::wrapping_mul(0, 10),
            digit_value(s[0]),
        ));
    }
}

/// A position written as `#[<n>]`, with `n` in decimal, is read back as
/// `n`, after the four tokens of the position.
pub proof fn lemma_position_roundtrip(n: u32)
    ensures
        spec_parse_position(tokenize_spec("#["@ + decimal(n as nat) + "]"@), 0) == Some((n, 4nat)),
{
    reveal_strlit("#[");
    reveal_strlit("]");
    let d = decimal(n as nat);
    let s = "#["@ + d + "]"@;
    let l: int = d.len() as int;
    lemma_decimal_digits(n as nat);
    lemma_decimal_value(n as nat);
    assert(s[0] == '#');
    assert(s[1] == '[');
    assert(s[2 + l] == ']');
    assert forall|k: int| 2 <= k < 2 + l implies is_digit(#[trigger] s[k]) by {
        assert(s[k] == d[k - 2]);
    }
    lemma_digits_end_skip(s, 2, (2 + l) as nat);
    assert(digits_end(s, (2 + l) as nat) == 2 + l);
    assert forall|k: int| 2 <= k < 2 + l implies #[trigger] s[k] == d[k - 2 + 0] by {}
    lemma_digits_value_shift(s, 2, d, 0, l);
    assert(d.subrange(0, l) =~= d);
    let ts = lex(s, 0);
    assert(lex(s, (3 + l) as nat) == seq![TokenView::EOF]);
    assert(lex(s, (2 + l) as nat) == seq![TokenView::Punct(']')] + lex(s, (3 + l) as nat));
    assert(lex(s, 2) == seq![TokenView::Literal(LiteralView::Int(n as u64))] + lex(s, (2 + l) as nat));
    assert(lex(s, 1) == seq![TokenView::Punct('[')] + lex(s, 2));
    assert(lex(s, 0) == seq![TokenView::Punct('#')] + lex(s, 1));
    assert(ts =~= seq![
        TokenView::Punct('#'),
        TokenView::Punct('['),
        TokenView::Literal(LiteralView::Int(n as u64)),
        TokenView::Punct(']'),
        TokenView::EOF,
    ]);
}

// ---------------------------------------------------------------------------
// The parser.
// ---------------------------------------------------------------------------

fn is_symbol(t: &Token, c: char) -> (r: bool)
    ensures
        r == (t@ == TokenView::Punct(c)),
{
    match t {
        Token::Symbol(d) => *d == c,
        _ => false,
    }
}

/// Parses a whole schema; stops at the end of the tokens.
pub fn parse(lexer: &mut Lexer) -> (ast_nodes: Vec<ASTNode>)
    requires
        old(lexer).wf(),
        spec_parse(old(lexer).tokens(), old(lexer).pos()) is Some,
    ensures
        final(lexer).wf(),
        final(lexer).tokens() == old(lexer).tokens(),
        (parsed_view(ast_nodes@), final(lexer).pos()) == spec_parse(
            old(lexer).tokens(),
            old(lexer).pos(),
        ).unwrap(),
        final(lexer).current() == TokenView::EOF,
{
    proof {
        lemma_parse_reaches_end(lexer.tokens(), lexer.pos());
    }
    let ghost ts = lexer.tokens();
    let ghost p0 = lexer.pos();
    let mut ast_nodes: Vec<ASTNode> = Vec::new();
    while !matches!(lexer.current_token(), Token::EOF)
        invariant
            lexer.wf(),
            lexer.tokens() == ts,
            spec_parse(ts, lexer.pos()) is Some,
            spec_parse(ts, p0) matches Some((all, e)) && spec_parse(ts, lexer.pos()) matches Some(
                (rest, e2),
            ) && e == e2 && all == parsed_view(ast_nodes@) + rest,
        decreases ts.len() - lexer.pos(),
    {
        let ghost p = lexer.pos();
        proof {
            lemma_parse_struct_progress(ts, p);
        }
        let node = parse_struct(lexer);
        let ghost nv = node@;
        let ghost prev = parsed_view(ast_nodes@);
        ast_nodes.push(node);
        assert(parsed_view(ast_nodes@) =~= prev.push(nv));
        let ghost rest = spec_parse(ts, lexer.pos()).unwrap().0;
        assert(spec_parse(ts, p).unwrap().0 == seq![nv] + rest);
        assert(prev + (seq![nv] + rest) =~= prev.push(nv) + rest);
    }
    assert(parsed_view(ast_nodes@) + seq![] =~= parsed_view(ast_nodes@));
    ast_nodes
}

/// Parses `struct <name>;` or `struct <name> { <fields> }`.
pub fn parse_struct(lexer: &mut Lexer) -> (node: ASTNode)
    requires
        old(lexer).wf(),
        spec_parse_struct(old(lexer).tokens(), old(lexer).pos()) is Some,
    ensures
        final(lexer).wf(),
        final(lexer).tokens() == old(lexer).tokens(),
        spec_parse_struct(old(lexer).tokens(), old(lexer).pos()) matches Some((s, e)) && node@
            == ParsedNodeView::Struct(s) && final(lexer).pos() == e,
{
    let ghost ts = lexer.tokens();
    let name = match lexer.next_token() {
        Token::ID { name } => name.clone(),
        _ => {
            assert(false);
            String::new()
        },
    };
    if is_symbol(lexer.next_token(), ';') {
        lexer.next_token();
        let node = StructASTNode {
            id: name,
            fields: Vec::new(),
        };
        assert(node@.fields =~= seq![]);
        return ASTNode::Struct(node);
    }
    lexer.next_token();
    let parameters = parse_struct_parameters(lexer);
    lexer.next_token();
    ASTNode::Struct(
        StructASTNode { id: name, fields: parameters },
    )
}

/// Parses the fields of a struct body, up to the first token after them.
pub fn parse_struct_parameters(lexer: &mut Lexer) -> (fields: Vec<StructFieldASTNode>)
    requires
        old(lexer).wf(),
        spec_parse_fields(old(lexer).tokens(), old(lexer).pos()) is Some,
    ensures
        final(lexer).wf(),
        final(lexer).tokens() == old(lexer).tokens(),
        (fields@.map_values(|f: StructFieldASTNode| f@), final(lexer).pos()) == spec_parse_fields(
            old(lexer).tokens(),
            old(lexer).pos(),
        ).unwrap(),
{
    let ghost ts = lexer.tokens();
    let ghost p0 = lexer.pos();
    let mut fields: Vec<StructFieldASTNode> = Vec::new();
    while is_symbol(lexer.current_token(), '#')
        invariant_except_break
            spec_parse_fields(ts, lexer.pos()) is Some,
            spec_parse_fields(ts, p0) matches Some((all, e)) && spec_parse_fields(
                ts,
                lexer.pos(),
            ) matches Some((rest, e2)) && e == e2 && all == fields@.map_values(
                |f: StructFieldASTNode| f@,
            ) + rest,
        invariant
            lexer.wf(),
            lexer.tokens() == ts,
        ensures
            spec_parse_fields(ts, p0) matches Some((all, e)) && e == lexer.pos()
                && all == fields@.map_values(|f: StructFieldASTNode| f@),
        decreases ts.len() - lexer.pos(),
    {
        let ghost p = lexer.pos();
        proof {
            lemma_parse_field_progress(ts, p);
        }
        let position = parse_position(lexer);
        let name = match lexer.current_token() {
            Token::ID { name } => name.clone(),
            _ => {
                assert(false);
                String::new()
            },
        };
        lexer.next_token();
        lexer.next_token();
        let type_id = parse_type_id(lexer);
        let field = StructFieldASTNode { position, name, type_id };
        let ghost fv = field@;
        let ghost prev = fields@.map_values(|f: StructFieldASTNode| f@);
        fields.push(field);
        assert(fields@.map_values(|f: StructFieldASTNode| f@) =~= prev.push(fv));
        if !is_symbol(lexer.current_token(), ',') {
            assert(spec_parse_fields(ts, p).unwrap().0 =~= seq![fv]);
            assert(prev + seq![fv] =~= prev.push(fv));
            break;
        }
        lexer.next_token();
        proof {
            lemma_advance(ts, p);
        }
        let ghost rest = spec_parse_fields(ts, lexer.pos()).unwrap().0;
        assert(prev + (seq![fv] + rest) =~= prev.push(fv) + rest);
    }
    fields
}

/// Parses a type name.
pub fn parse_type_id(lexer: &mut Lexer) -> (type_id: TypeIDASTNode)
    requires
        old(lexer).wf(),
        spec_parse_type_id(old(lexer).tokens(), old(lexer).pos()) is Some,
    ensures
        final(lexer).wf(),
        final(lexer).tokens() == old(lexer).tokens(),
        (type_id@, final(lexer).pos()) == spec_parse_type_id(
            old(lexer).tokens(),
            old(lexer).pos(),
        ).unwrap(),
{
    let name = match lexer.current_token() {
        Token::ID { name } => name.clone(),
        _ => {
            assert(false);
            String::new()
        },
    };
    lexer.next_token();
    TypeIDASTNode::Primitive { id: name }
}

/// Parses `#[<number>]`.
pub fn parse_position(lexer: &mut Lexer) -> (position: u32)
    requires
        old(lexer).wf(),
        spec_parse_position(old(lexer).tokens(), old(lexer).pos()) is Some,
    ensures
        final(lexer).wf(),
        final(lexer).tokens() == old(lexer).tokens(),
        (position, final(lexer).pos()) == spec_parse_position(
            old(lexer).tokens(),
            old(lexer).pos(),
        ).unwrap(),
{
    lexer.next_token();
    let position = match lexer.next_token() {
        Token::Literal(Literal::IntLiteral(value)) => *value,
        _ => {
            assert(false);
            0
        },
    };
    lexer.next_token();
    lexer.next_token();
    position as u32
}

} // verus!

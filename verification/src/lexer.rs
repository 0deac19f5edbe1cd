use vstd::prelude::*;
use vstd::string::*;

use crate::text::str_eq;

verus! {

/// A literal value in a schema.
#[derive(Debug)]
pub enum Literal {
    StringLiteral(String),
    IntLiteral(u64),
    /// A number with a fractional part, kept as the text it was written as.
    NumberLiteral(String),
    BoolLiteral(bool),
}

/// The mathematical model of a `Literal`.
pub enum LiteralView {
    Str(Seq<char>),
    Int(u64),
    Number(Seq<char>),
    Bool(bool),
}

impl View for Literal {
    type V = LiteralView;

    open spec fn view(&self) -> LiteralView {
        match self {
            Literal::StringLiteral(s) => LiteralView::Str(s@),
            Literal::IntLiteral(v) => LiteralView::Int(*v),
            Literal::NumberLiteral(s) => LiteralView::Number(s@),
            Literal::BoolLiteral(b) => LiteralView::Bool(*b),
        }
    }
}

/// A token of a schema file.
#[derive(Debug)]
pub enum Token {
    ID { name: String },
    Literal(Literal),
    Symbol(char),
    Struct,
    EOF,
}

/// The mathematical model of a `Token`.
pub enum TokenView {
    Id(Seq<char>),
    Literal(LiteralView),
    Punct(char),
    Struct,
    EOF,
}

impl View for Token {
    type V = TokenView;

    open spec fn view(&self) -> TokenView {
        match self {
            Token::ID { name } => TokenView::Id(name@),
            Token::Literal(l) => TokenView::Literal(l@),
            Token::Symbol(c) => TokenView::Punct(*c),
            Token::Struct => TokenView::Struct,
            Token::EOF => TokenView::EOF,
        }
    }
}

pub open spec fn is_space(c: char) -> bool {
    c == ' ' || c == '\t' || c == '\n' || c == '\r'
}

pub open spec fn is_digit(c: char) -> bool {
    '0' <= c <= '9'
}

pub open spec fn is_ident_start(c: char) -> bool {
    ('a' <= c <= 'z') || ('A' <= c <= 'Z') || c == '_'
}

pub open spec fn is_ident_char(c: char) -> bool {
    is_ident_start(c) || is_digit(c)
}

/// The value of the digit character `c`.
pub open spec fn digit_value(c: char) -> u64 {
    (c as u32 - '0' as u32) as u64
}

/// The end of the identifier characters that start at `i`.
pub open spec fn ident_end(s: Seq<char>, i: nat) -> nat
    decreases s.len() - i,
{
    if i < s.len() && is_ident_char(s[i as int]) {
        ident_end(s, i + 1)
    } else {
        i
    }
}

/// The end of the digits that start at `i`.
pub open spec fn digits_end(s: Seq<char>, i: nat) -> nat
    decreases s.len() - i,
{
    if i < s.len() && is_digit(s[i as int]) {
        digits_end(s, i + 1)
    } else {
        i
    }
}

/// The index of the first `"` at or after `i`, or the length of `s`.
pub open spec fn quote_end(s: Seq<char>, i: nat) -> nat
    decreases s.len() - i,
{
    if i < s.len() && s[i as int] != '"' {
        quote_end(s, i + 1)
    } else {
        i
    }
}

/// The value of the digits `s[from..to]`, modulo 2^64.
pub open spec fn digits_value(s: Seq<char>, from: int, to: int) -> u64
    decreases to - from,
{
    if to <= from {
        0
    } else {
        vstd::wrapping::u64_specs::wrapping_add(
            vstd::wrapping::u64_specs::wrapping_mul(digits_value(s, from, to - 1), 10),
            digit_value(s[to - 1]),
        )
    }
}

/// The token for a word: a keyword, a boolean literal or an identifier.
pub open spec fn word_token(w: Seq<char>) -> TokenView {
    if w == "struct"@ {
        TokenView::Struct
    } else if w == "true"@ {
        TokenView::Literal(LiteralView::Bool(true))
    } else if w == "false"@ {
        TokenView::Literal(LiteralView::Bool(false))
    } else {
        TokenView::Id(w)
    }
}

pub proof fn lemma_ident_end(s: Seq<char>, i: nat)
    ensures
        i <= ident_end(s, i) <= if i <= s.len() { s.len() } else { i },
        i < s.len() && is_ident_char(s[i as int]) ==> i < ident_end(s, i),
        forall|k: int| i <= k < ident_end(s, i) ==> is_ident_char(#[trigger] s[k]),
        ident_end(s, i) < s.len() ==> !is_ident_char(s[ident_end(s, i) as int]),
    decreases s.len() - i,
{
    if i < s.len() && is_ident_char(s[i as int]) {
        lemma_ident_end(s, i + 1);
    }
}

pub proof fn lemma_digits_end(s: Seq<char>, i: nat)
    ensures
        i <= digits_end(s, i) <= if i <= s.len() { s.len() } else { i },
        i < s.len() && is_digit(s[i as int]) ==> i < digits_end(s, i),
        forall|k: int| i <= k < digits_end(s, i) ==> is_digit(#[trigger] s[k]),
        digits_end(s, i) < s.len() ==> !is_digit(s[digits_end(s, i) as int]),
    decreases s.len() - i,
{
    if i < s.len() && is_digit(s[i as int]) {
        lemma_digits_end(s, i + 1);
    }
}

pub proof fn lemma_quote_end(s: Seq<char>, i: nat)
    ensures
        i <= quote_end(s, i) <= if i <= s.len() { s.len() } else { i },
        forall|k: int| i <= k < quote_end(s, i) ==> #[trigger] s[k] != '"',
        quote_end(s, i) < s.len() ==> s[quote_end(s, i) as int] == '"',
    decreases s.len() - i,
{
    if i < s.len() && s[i as int] != '"' {
        lemma_quote_end(s, i + 1);
    }
}

/// The token that starts at index `i` of `s` (none for a blank), and the
/// index after it: a letter or `_` starts a word, a digit an integer
/// literal and `"` a string literal that runs to the next `"` (or to the
/// end); every other character is a symbol of its own.
pub open spec fn scan(s: Seq<char>, i: nat) -> (Option<TokenView>, nat) {
    let c = s[i as int];
    if is_space(c) {
        (None, i + 1)
    } else if is_ident_start(c) {
        let j = ident_end(s, i);
        (Some(word_token(s.subrange(i as int, j as int))), j)
    } else if is_digit(c) {
        let j = digits_end(s, i);
        (Some(TokenView::Literal(LiteralView::Int(digits_value(s, i as int, j as int)))), j)
    } else if c == '"' {
        let j = quote_end(s, i + 1);
        (
            Some(TokenView::Literal(LiteralView::Str(s.subrange((i + 1) as int, j as int)))),
            if j < s.len() { j + 1 } else { j },
        )
    } else {
        (Some(TokenView::Punct(c)), i + 1)
    }
}

pub proof fn lemma_scan(s: Seq<char>, i: nat)
    requires
        i < s.len(),
    ensures
        i < scan(s, i).1 <= s.len(),
        scan(s, i).0 != Some(TokenView::EOF),
{
    lemma_ident_end(s, i);
    lemma_digits_end(s, i);
    lemma_quote_end(s, i + 1);
}

/// The tokens of `s` from index `i` on, ending with `EOF`.
pub open spec fn lex(s: Seq<char>, i: nat) -> Seq<TokenView>
    decreases s.len() - i,
{
    if i >= s.len() {
        seq![TokenView::EOF]
    } else {
        let (t, j) = scan(s, i);
        proof {
            lemma_scan(s, i);
        }
        match t {
            Some(t) => seq![t] + lex(s, j),
            None => lex(s, j),
        }
    }
}

/// The tokens of a source text.
pub open spec fn tokenize_spec(src: Seq<char>) -> Seq<TokenView> {
    lex(src, 0)
}

/// A token sequence ends with its only `EOF`.
pub open spec fn tokens_wf(ts: Seq<TokenView>) -> bool {
    &&& ts.len() > 0
    &&& ts.last() == TokenView::EOF
    &&& forall|k: int| 0 <= k < ts.len() - 1 ==> #[trigger] ts[k] != TokenView::EOF
}

/// The position after `p`: the next token, or `p` itself at the end.
pub open spec fn advance(ts: Seq<TokenView>, p: nat) -> nat {
    if p + 1 < ts.len() {
        p + 1
    } else {
        p
    }
}

pub proof fn lemma_lex_wf(s: Seq<char>, i: nat)
    ensures
        tokens_wf(lex(s, i)),
    decreases s.len() - i,
{
    if i < s.len() {
        lemma_scan(s, i);
        let (t, j) = scan(s, i);
        lemma_lex_wf(s, j);
        if let Some(t) = t {
            let ts = seq![t] + lex(s, j);
            assert forall|k: int| 0 <= k < ts.len() - 1 implies #[trigger] ts[k] != TokenView::EOF by {
                if k > 0 {
                    assert(ts[k] == lex(s, j)[k - 1]);
                }
            }
        }
    }
}

fn char_is_space(c: char) -> (r: bool)
    ensures
        r == is_space(c),
{
    c == ' ' || c == '\t' || c == '\n' || c == '\r'
}

fn char_is_digit(c: char) -> (r: bool)
    ensures
        r == is_digit(c),
{
    '0' <= c && c <= '9'
}

fn char_is_ident_start(c: char) -> (r: bool)
    ensures
        r == is_ident_start(c),
{
    ('a' <= c && c <= 'z') || ('A' <= c && c <= 'Z') || c == '_'
}

fn char_is_ident_char(c: char) -> (r: bool)
    ensures
        r == is_ident_char(c),
{
    char_is_ident_start(c) || char_is_digit(c)
}

fn symbol_token(c: char) -> (t: Token)
    ensures
        t@ == TokenView::Punct(c),
{
    Token::Symbol(c)
}

fn word_to_token(w: &str) -> (t: Token)
    ensures
        t@ == word_token(w@),
{
    if str_eq(w, "struct") {
        Token::Struct
    } else if str_eq(w, "true") {
        Token::Literal(Literal::BoolLiteral(true))
    } else if str_eq(w, "false") {
        Token::Literal(Literal::BoolLiteral(false))
    } else {
        Token::ID { name: String::from_str(w) }
    }
}

/// A token stream with a current position.
pub struct Lexer {
    tokens: Vec<Token>,
    pos: usize,
}

impl Lexer {
    /// The tokens, in order.
    pub closed spec fn tokens(&self) -> Seq<TokenView> {
        self.tokens@.map_values(|t: Token| t@)
    }

    /// The index of the current token.
    pub closed spec fn pos(&self) -> nat {
        self.pos as nat
    }

    /// The tokens end with their only `EOF` and the position is on one.
    pub open spec fn wf(&self) -> bool {
        tokens_wf(self.tokens()) && self.pos() < self.tokens().len()
    }

    /// The current token.
    pub open spec fn current(&self) -> TokenView {
        self.tokens()[self.pos() as int]
    }

    /// Splits `src` into tokens, the current one being the first.
    pub fn tokenize(src: &str) -> (l: Lexer)
        ensures
            l.wf(),
            l.tokens() == tokenize_spec(src@),
            l.pos() == 0,
    {
        let n = src.unicode_len();
        let mut chars: Vec<char> = Vec::new();
        let mut k: usize = 0;
        while k < n
            invariant
                k <= n,
                n == src@.len(),
                chars@ == src@.subrange(0, k as int),
            decreases n - k,
        {
            chars.push(src.get_char(k));
            k += 1;
        }
        assert(chars@ =~= src@);
        let ghost s = src@;
        let mut tokens: Vec<Token> = Vec::new();
        let mut i: usize = 0;
        while i < n
            invariant
                i <= n,
                n == s.len(),
                s == src@,
                chars@ == s,
                tokens@.map_values(|t: Token| t@) + lex(s, i as nat) == lex(s, 0),
            decreases n - i,
        {
            let c = chars[i];
            let ghost old_tokens = tokens@.map_values(|t: Token| t@);
            if char_is_space(c) {
                i += 1;
            } else if char_is_ident_start(c) {
                proof {
                    lemma_ident_end(s, i as nat);
                }
                let mut j = i + 1;
                while j < n && char_is_ident_char(chars[j])
                    invariant
                        i < j <= n,
                        n == s.len(),
                        chars@ == s,
                        forall|k: int| i <= k < j ==> is_ident_char(#[trigger] s[k]),
                    decreases n - j,
                {
                    j += 1;
                }
                proof {
                    lemma_ident_end_skip(s, i as nat, j as nat);
                }
                let word = src.substring_char(i, j);
                tokens.push(word_to_token(word));
                assert(tokens@.map_values(|t: Token| t@) =~= old_tokens.push(
                    word_token(s.subrange(i as int, j as int)),
                ));
                i = j;
            } else if char_is_digit(c) {
                proof {
                    lemma_digits_end(s, i as nat);
                }
                let mut value: u64 = 0;
                let mut j = i;
                while j < n && char_is_digit(chars[j])
                    invariant
                        i <= j <= n,
                        n == s.len(),
                        chars@ == s,
                        forall|k: int| i <= k < j ==> is_digit(#[trigger] s[k]),
                        value == digits_value(s, i as int, j as int),
                    decreases n - j,
                {
                    let d = (chars[j] as u32 - '0' as u32) as u64;
                    value = value.wrapping_mul(10).wrapping_add(d);
                    j += 1;
                }
                proof {
                    lemma_digits_end_skip(s, i as nat, j as nat);
                }
                tokens.push(Token::Literal(Literal::IntLiteral(value)));
                assert(tokens@.map_values(|t: Token| t@) =~= old_tokens.push(
                    TokenView::Literal(LiteralView::Int(digits_value(s, i as int, j as int))),
                ));
                i = j;
            } else if c == '"' {
                proof {
                    lemma_quote_end(s, (i + 1) as nat);
                }
                let mut j = i + 1;
                while j < n && chars[j] != '"'
                    invariant
                        i < j <= n,
                        n == s.len(),
                        chars@ == s,
                        forall|k: int| i + 1 <= k < j ==> #[trigger] s[k] != '"',
                    decreases n - j,
                {
                    j += 1;
                }
                proof {
                    lemma_quote_end_skip(s, (i + 1) as nat, j as nat);
                }
                let text = src.substring_char(i + 1, j);
                tokens.push(Token::Literal(Literal::StringLiteral(String::from_str(text))));
                assert(tokens@.map_values(|t: Token| t@) =~= old_tokens.push(
                    TokenView::Literal(LiteralView::Str(s.subrange((i + 1) as int, j as int))),
                ));
                i = if j < n {
                    j + 1
                } else {
                    j
                };
            } else {
                tokens.push(symbol_token(c));
                assert(tokens@.map_values(|t: Token| t@) =~= old_tokens.push(TokenView::Punct(c)));
                i += 1;
            }
        }
        tokens.push(Token::EOF);
        proof {
            lemma_lex_wf(s, 0);
        }
        let l = Lexer { tokens, pos: 0 };
        assert(l.tokens() =~= lex(s, 0));
        l
    }

    /// The current token.
    pub fn current_token(&self) -> (t: &Token)
        requires
            self.wf(),
        ensures
            t@ == self.current(),
    {
        &self.tokens[self.pos]
    }

    /// Moves to the next token, unless the current one is the last, and
    /// returns the (new) current token.
    pub fn next_token(&mut self) -> (t: &Token)
        requires
            old(self).wf(),
        ensures
            final(self).wf(),
            final(self).tokens() == old(self).tokens(),
            final(self).pos() == advance(old(self).tokens(), old(self).pos()),
            t@ == final(self).current(),
    {
        assert(self.tokens().len() == self.tokens@.len());
        let n = self.tokens.len();
        if self.pos < n - 1 {
            self.pos = self.pos + 1;
        }
        &self.tokens[self.pos]
    }
}

/// Skipping the identifier characters before `j` does not move the end.
pub proof fn lemma_ident_end_skip(s: Seq<char>, i: nat, j: nat)
    requires
        i <= j,
        forall|k: int| i <= k < j ==> is_ident_char(#[trigger] s[k]),
        j <= s.len(),
    ensures
        ident_end(s, i) == ident_end(s, j),
    decreases j - i,
{
    if i < j {
        assert(is_ident_char(s[i as int]));
        lemma_ident_end_skip(s, i + 1, j);
    }
}

pub proof fn lemma_digits_end_skip(s: Seq<char>, i: nat, j: nat)
    requires
        i <= j,
        forall|k: int| i <= k < j ==> is_digit(#[trigger] s[k]),
        j <= s.len(),
    ensures
        digits_end(s, i) == digits_end(s, j),
    decreases j - i,
{
    if i < j {
        assert(is_digit(s[i as int]));
        lemma_digits_end_skip(s, i + 1, j);
    }
}

pub proof fn lemma_quote_end_skip(s: Seq<char>, i: nat, j: nat)
    requires
        i <= j,
        forall|k: int| i <= k < j ==> #[trigger] s[k] != '"',
        j <= s.len(),
    ensures
        quote_end(s, i) == quote_end(s, j),
    decreases j - i,
{
    if i < j {
        assert(s[i as int] != '"');
        lemma_quote_end_skip(s, i + 1, j);
    }
}

} // verus!


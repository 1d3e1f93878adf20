use vstd::prelude::*;

verus! {

/// The kinds of token that the grammar tells apart.
#[derive(Clone, Copy, Debug, PartialEq, Eq, Structural)]
pub enum TokenKind {
    LParen,
    RParen,
    /// A string literal, quotes included.
    Str,
    /// An identifier, `$` included.
    Id,
    Keyword,
    Integer,
    /// Whitespace and comments.
    Trivia,
    /// Floats, annotations and reserved words: nothing the grammar reads.
    Other,
}

/// One token with its source text.
#[derive(Clone, Debug)]
pub struct Token {
    pub kind: TokenKind,
    pub text: String,
}

impl View for Token {
    type V = (TokenKind, Seq<char>);

    open spec fn view(&self) -> (TokenKind, Seq<char>) {
        (self.kind, self.text@)
    }
}

impl Token {
    pub fn new(kind: TokenKind, text: String) -> (r: Token)
        ensures
            r@ == (kind, text@),
    {
        Token { kind, text }
    }
}

/// The tokens as the contracts see them.
pub open spec fn tokens_view(v: Seq<Token>) -> Seq<(TokenKind, Seq<char>)> {
    v.map_values(|t: Token| t@)
}

/// The token at `p` is there and of kind `k`.
pub open spec fn kind_is(ts: Seq<(TokenKind, Seq<char>)>, p: int, k: TokenKind) -> bool {
    0 <= p < ts.len() && ts[p].0 == k
}

/// The token at `p` is the keyword `kw`.
pub open spec fn keyword_is(ts: Seq<(TokenKind, Seq<char>)>, p: int, kw: Seq<char>) -> bool {
    kind_is(ts, p, TokenKind::Keyword) && ts[p].1 == kw
}

/// Whether the token at `p` is there and of kind `k`.
pub fn at_kind(toks: &Vec<Token>, p: usize, k: TokenKind) -> (r: bool)
    ensures
        r == kind_is(tokens_view(toks@), p as int, k),
        r ==> p < toks.len(),
{
    p < toks.len() && toks[p].kind == k
}

/// Whether two strings hold the same characters.
pub fn str_eq(a: &str, b: &str) -> (r: bool)
    ensures
        r == (a@ == b@),
{
    let n = a.unicode_len();
    if n != b.unicode_len() {
        return false;
    }
    let mut i: usize = 0;
    while i < n
        invariant
            i <= n,
            n == a@.len(),
            n == b@.len(),
            a@.subrange(0, i as int) == b@.subrange(0, i as int),
        decreases n - i,
    {
        if a.get_char(i) != b.get_char(i) {
            return false;
        }
        assert(a@.subrange(0, i + 1) =~= a@.subrange(0, i as int).push(a@[i as int]));
        assert(b@.subrange(0, i + 1) =~= b@.subrange(0, i as int).push(b@[i as int]));
        i = i + 1;
    }
    assert(a@ =~= a@.subrange(0, n as int));
    assert(b@ =~= b@.subrange(0, n as int));
    true
}

/// Whether the token at `p` is the keyword `kw`.
pub fn at_keyword(toks: &Vec<Token>, p: usize, kw: &str) -> (r: bool)
    ensures
        r == keyword_is(tokens_view(toks@), p as int, kw@),
        r ==> p < toks.len(),
{
    p < toks.len() && toks[p].kind == TokenKind::Keyword && str_eq(toks[p].text.as_str(), kw)
}

} // verus!

use vstd::prelude::*;

use wast::lexer::TokenKind as Lexed;

use crate::error::{Error, ErrorV};
use crate::token::{tokens_view, Token, TokenKind};

verus! {

/// The tokens that wast's lexer splits `src` into, each as its kind and
/// source text, whitespace and comments included; `None` where it rejects
/// the text.
pub uninterp spec fn lexed(src: Seq<char>) -> Option<Seq<(TokenKind, Seq<char>)>>;

/// Relies on wast::lexer::Lexer::iter: the tokens of `src` in order with
/// their source text, or the first lexing error. Only the kinds that the
/// grammar tells apart are kept apart.
#[verifier::external_body]
fn lex(src: &str) -> (r: Result<Vec<Token>, String>)
    ensures
        match lexed(src@) {
            Some(ts) => r is Ok && tokens_view(r->Ok_0@) == ts,
            None => r is Err,
        },
{
    let mut out = Vec::new();
    for t in wast::lexer::Lexer::new(src).iter(0) {
        let t = t.map_err(|e| e.message())?;
        out.push(Token { kind: match t.kind {
            Lexed::LParen => TokenKind::LParen,
            Lexed::RParen => TokenKind::RParen,
            Lexed::String => TokenKind::Str,
            Lexed::Id => TokenKind::Id,
            Lexed::Keyword => TokenKind::Keyword,
            Lexed::Integer(_) => TokenKind::Integer,
            Lexed::Whitespace | Lexed::LineComment | Lexed::BlockComment => TokenKind::Trivia,
            _ => TokenKind::Other,
        }, text: t.src(src).to_string() });
    }
    Ok(out)
}

/// The first `k` tokens without whitespace and comments.
pub open spec fn significant(ts: Seq<(TokenKind, Seq<char>)>, k: int) -> Seq<(TokenKind, Seq<char>)>
    decreases k,
{
    if k <= 0 || k > ts.len() {
        seq![]
    } else if ts[k - 1].0 == TokenKind::Trivia {
        significant(ts, k - 1)
    } else {
        significant(ts, k - 1).push(ts[k - 1])
    }
}

/// The tokens that the grammar reads: whitespace and comments left out,
/// the rest in order.
pub fn drop_trivia(all: &Vec<Token>) -> (r: Vec<Token>)
    ensures
        tokens_view(r@) == significant(tokens_view(all@), all.len() as int),
{
    let ghost ts = tokens_view(all@);
    let mut out: Vec<Token> = Vec::new();
    let mut i: usize = 0;
    while i < all.len()
        invariant
            i <= all.len(),
            ts == tokens_view(all@),
            tokens_view(out@) == significant(ts, i as int),
        decreases all.len() - i,
    {
        if all[i].kind != TokenKind::Trivia {
            let ghost before = out@;
            out.push(Token::new(all[i].kind, all[i].text.clone()));
            assert(tokens_view(out@) =~= tokens_view(before).push(ts[i as int]));
        }
        i = i + 1;
    }
    out
}

/// The tokens of `src` that the grammar reads.
pub open spec fn tokenize_spec(src: Seq<char>) -> Option<Seq<(TokenKind, Seq<char>)>> {
    match lexed(src) {
        Some(ts) => Some(significant(ts, ts.len() as int)),
        None => None,
    }
}

/// Splits source text into the tokens that the grammar reads: whitespace
/// and comments are left out.
pub fn tokenize(src: &str) -> (r: Result<Vec<Token>, Error>)
    ensures
        match tokenize_spec(src@) {
            Some(ts) => r is Ok && tokens_view(r->Ok_0@) == ts,
            None => r is Err && r->Err_0@ == ErrorV::Lex,
        },
{
    let all = match lex(src) {
        Ok(v) => v,
        Err(msg) => {
            return Err(Error::Lex(msg));
        },
    };
    Ok(drop_trivia(&all))
}

} // verus!

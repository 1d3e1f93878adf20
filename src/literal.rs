use vstd::prelude::*;

use crate::error::{Error, FaultKind};

verus! {

/// The sign written in front of a numeric literal.
#[derive(Clone, Copy, Debug, PartialEq, Eq, Structural)]
pub enum Sign {
    Empty,
    Positive,
    Negative,
}

pub open spec fn sign_of(s: Seq<char>) -> Sign {
    if s.len() > 0 && s[0] == '+' {
        Sign::Positive
    } else if s.len() > 0 && s[0] == '-' {
        Sign::Negative
    } else {
        Sign::Empty
    }
}

/// Number of characters that the sign takes up.
pub open spec fn sign_len(s: Seq<char>) -> int {
    if sign_of(s) == Sign::Empty {
        0
    } else {
        1
    }
}

pub open spec fn sign_text(sign: Sign) -> Seq<char> {
    match sign {
        Sign::Empty => seq![],
        Sign::Positive => seq!['+'],
        Sign::Negative => seq!['-'],
    }
}

pub open spec fn is_dec_digit(c: char) -> bool {
    '0' <= c && c <= '9'
}

pub open spec fn is_hex_digit(c: char) -> bool {
    is_dec_digit(c) || ('a' <= c && c <= 'f') || ('A' <= c && c <= 'F')
}

/// A digit of the radix, or the `_` separator.
pub open spec fn is_digit_char(c: char, hex: bool) -> bool {
    c == '_' || if hex {
        is_hex_digit(c)
    } else {
        is_dec_digit(c)
    }
}

/// The first index at or after `i` whose character is not a digit of the
/// radix nor a separator; `s.len()` if there is none.
pub open spec fn first_bad_from(s: Seq<char>, i: int, hex: bool) -> int
    decreases s.len() - i,
{
    if i >= s.len() {
        s.len() as int
    } else if !is_digit_char(s[i], hex) {
        i
    } else {
        first_bad_from(s, i + 1, hex)
    }
}

/// Checks the digit run `s[start..]`: not led or ended by a separator, made
/// of digits and separators only, not empty. The run on success.
pub open spec fn digit_run(s: Seq<char>, start: int, hex: bool) -> Result<Seq<char>, (FaultKind, int)> {
    let n = s.len() as int;
    if start < n && s[start] == '_' {
        Err((FaultKind::InvalidChar, start))
    } else if start <= n - 1 && s[n - 1] == '_' {
        Err((FaultKind::InvalidChar, n - 1))
    } else if first_bad_from(s, start, hex) < n {
        Err((FaultKind::InvalidChar, first_bad_from(s, start, hex)))
    } else if start >= n {
        Err((FaultKind::Malformed, 0))
    } else {
        Ok(s.subrange(start, n))
    }
}

/// A decimal literal: optional sign, then digits and separators.
pub open spec fn decimal_spec(s: Seq<char>) -> Result<Seq<char>, (FaultKind, int)> {
    if s.len() == 0 {
        Err((FaultKind::EmptyInput, 0))
    } else {
        digit_run(s, sign_len(s), false)
    }
}

/// A hexadecimal literal: optional sign, `0x`, then hex digits and separators.
pub open spec fn hexadecimal_spec(s: Seq<char>) -> Result<Seq<char>, (FaultKind, int)> {
    let n = s.len() as int;
    let st = sign_len(s);
    if n == 0 {
        Err((FaultKind::EmptyInput, 0))
    } else if s[0] == '_' {
        Err((FaultKind::InvalidChar, 0))
    } else if n < st + 2 {
        Err((FaultKind::Malformed, 0))
    } else if s[st] != '0' {
        Err((FaultKind::InvalidChar, st))
    } else if s[st + 1] != 'x' {
        Err((FaultKind::InvalidChar, st + 1))
    } else {
        digit_run(s, st + 2, true)
    }
}

/// The literal is written in hexadecimal: `0x` follows the sign.
pub open spec fn is_hex_literal(s: Seq<char>) -> bool {
    let st = sign_len(s);
    s.len() >= st + 2 && s[st] == '0' && s[st + 1] == 'x'
}

/// An integer literal in either radix: sign, digit run and radix on success.
pub open spec fn integer_spec(s: Seq<char>) -> Result<(Sign, Seq<char>, bool), (FaultKind, int)> {
    let hex = is_hex_literal(s);
    let run = if hex {
        hexadecimal_spec(s)
    } else {
        decimal_spec(s)
    };
    match run {
        Ok(d) => Ok((sign_of(s), d, hex)),
        Err(f) => Err(f),
    }
}

impl Sign {
    /// The sign as it is written: nothing, `+` or `-`.
    pub fn to_string(&self) -> (r: String)
        ensures
            r@ == sign_text(*self),
    {
        let r = match self {
            Sign::Empty => "",
            Sign::Positive => "+",
            Sign::Negative => "-",
        };
        proof {
            reveal_strlit("");
            reveal_strlit("+");
            reveal_strlit("-");
        }
        r.to_string()
    }
}

fn read_sign(s: &str) -> (r: (Sign, usize))
    ensures
        r.0 == sign_of(s@),
        r.1 == sign_len(s@),
{
    if s.unicode_len() > 0 {
        let c = s.get_char(0);
        if c == '+' {
            return (Sign::Positive, 1);
        } else if c == '-' {
            return (Sign::Negative, 1);
        }
    }
    (Sign::Empty, 0)
}

fn is_digit_char_exec(c: char, hex: bool) -> (r: bool)
    ensures
        r == is_digit_char(c, hex),
{
    c == '_' || ('0' <= c && c <= '9') || (hex && (('a' <= c && c <= 'f') || ('A' <= c && c <= 'F')))
}

fn make_fault(f: FaultKind, idx: usize, s: &str) -> (r: Error)
    ensures
        r.is_fault((f, idx as int), s@),
{
    match f {
        FaultKind::EmptyInput => Error::EmptyExpr,
        FaultKind::Malformed => Error::MalformedPattern(s.to_string()),
        FaultKind::InvalidChar => Error::InvalidChar { idx, string: s.to_string() },
    }
}

/// Checks the digit run that starts at char `start` of `s`, as `digit_run`.
fn read_digit_run(s: &str, start: usize, hex: bool) -> (r: Result<String, Error>)
    requires
        start <= s@.len(),
    ensures
        match digit_run(s@, start as int, hex) {
            Ok(d) => r is Ok && r->Ok_0@ == d,
            Err(f) => r is Err && r->Err_0.is_fault(f, s@),
        },
{
    let n = s.unicode_len();
    if start < n && s.get_char(start) == '_' {
        return Err(make_fault(FaultKind::InvalidChar, start, s));
    }
    if start < n && s.get_char(n - 1) == '_' {
        return Err(make_fault(FaultKind::InvalidChar, n - 1, s));
    }
    let mut i = start;
    while i < n
        invariant
            start <= i <= n,
            n == s@.len(),
            first_bad_from(s@, start as int, hex) == first_bad_from(s@, i as int, hex),
            start < n ==> s@[start as int] != '_' && s@[n - 1] != '_',
        decreases n - i,
    {
        if !is_digit_char_exec(s.get_char(i), hex) {
            assert(first_bad_from(s@, i as int, hex) == i);
            return Err(make_fault(FaultKind::InvalidChar, i, s));
        }
        i = i + 1;
    }
    if start >= n {
        return Err(make_fault(FaultKind::Malformed, 0, s));
    }
    Ok(s.substring_char(start, n).to_string())
}

/// A decimal literal, split into its sign and its digit run.
#[derive(Clone, Debug, PartialEq, Eq)]
pub struct Decimal {
    pub sign: Sign,
    pub num: String,
}

impl Decimal {
    /// Reads a decimal literal: an optional sign, then digits and `_`
    /// separators, with no separator at either end of the digit run.
    pub fn from_str(s: &str) -> (r: Result<Decimal, Error>)
        ensures
            match decimal_spec(s@) {
                Ok(d) => r is Ok && r->Ok_0.sign == sign_of(s@) && r->Ok_0.num@ == d,
                Err(f) => r is Err && r->Err_0.is_fault(f, s@),
            },
    {
        if s.unicode_len() == 0 {
            return Err(Error::EmptyExpr);
        }
        let (sign, start) = read_sign(s);
        match read_digit_run(s, start, false) {
            Ok(num) => Ok(Decimal { sign, num }),
            Err(e) => Err(e),
        }
    }

    /// The literal as written: sign, then digits.
    pub fn to_string(&self) -> (r: String)
        ensures
            r@ == sign_text(self.sign) + self.num@,
    {
        let mut r = self.sign.to_string();
        r.append(self.num.as_str());
        r
    }
}

/// A hexadecimal literal, split into its sign and the digit run after `0x`.
#[derive(Clone, Debug, PartialEq, Eq)]
pub struct Hexadecimal {
    pub sign: Sign,
    pub hexnum: String,
}

impl Hexadecimal {
    /// Reads a hexadecimal literal: an optional sign, `0x`, then hex digits
    /// and `_` separators, with no separator at either end of the digit run.
    pub fn from_str(s: &str) -> (r: Result<Hexadecimal, Error>)
        ensures
            match hexadecimal_spec(s@) {
                Ok(d) => r is Ok && r->Ok_0.sign == sign_of(s@) && r->Ok_0.hexnum@ == d,
                Err(f) => r is Err && r->Err_0.is_fault(f, s@),
            },
    {
        let n = s.unicode_len();
        if n == 0 {
            return Err(Error::EmptyExpr);
        }
        if s.get_char(0) == '_' {
            return Err(make_fault(FaultKind::InvalidChar, 0, s));
        }
        let (sign, start) = read_sign(s);
        if n < start + 2 {
            return Err(make_fault(FaultKind::Malformed, 0, s));
        }
        if s.get_char(start) != '0' {
            return Err(make_fault(FaultKind::InvalidChar, start, s));
        }
        if s.get_char(start + 1) != 'x' {
            return Err(make_fault(FaultKind::InvalidChar, start + 1, s));
        }
        match read_digit_run(s, start + 2, true) {
            Ok(hexnum) => Ok(Hexadecimal { sign, hexnum }),
            Err(e) => Err(e),
        }
    }

    /// The literal as written: sign, `0x`, then digits.
    pub fn to_string(&self) -> (r: String)
        ensures
            r@ == sign_text(self.sign) + seq!['0', 'x'] + self.hexnum@,
    {
        let mut r = self.sign.to_string();
        let ox = "0x";
        proof {
            reveal_strlit("0x");
        }
        r.append(ox);
        r.append(self.hexnum.as_str());
        r
    }
}

/// An integer literal as the source wrote it, with its sign, digit run and
/// radix taken apart. The source text is kept verbatim for printing.
#[derive(Clone, Debug)]
pub struct IntegerLiteral {
    sign: Sign,
    src: String,
    val: String,
    hex: bool,
}

impl View for IntegerLiteral {
    type V = Seq<char>;

    /// A literal is known by its source text, which fixes the other fields.
    open spec fn view(&self) -> Seq<char> {
        self.src_view()
    }
}

impl IntegerLiteral {
    /// The fields agree with the source text, which is a valid literal.
    pub open spec fn wf(&self) -> bool {
        integer_spec(self.src_view()) == Ok::<_, (FaultKind, int)>((self.sign_view(), self.val_view(), self.hex_view()))
    }

    pub closed spec fn src_view(&self) -> Seq<char> {
        self.src@
    }

    pub closed spec fn sign_view(&self) -> Sign {
        self.sign
    }

    pub closed spec fn val_view(&self) -> Seq<char> {
        self.val@
    }

    pub closed spec fn hex_view(&self) -> bool {
        self.hex
    }

    /// Reads a decimal or (after the sign, `0x`) hexadecimal literal.
    pub fn new(src: String) -> (r: Result<IntegerLiteral, Error>)
        ensures
            match integer_spec(src@) {
                Ok(v) => r is Ok && r->Ok_0.wf() && r->Ok_0.src_view() == src@ && r->Ok_0.sign_view() == v.0
                    && r->Ok_0.val_view() == v.1 && r->Ok_0.hex_view() == v.2,
                Err(f) => r is Err && r->Err_0.is_fault(f, src@),
            },
    {
        let s = src.as_str();
        let n = s.unicode_len();
        let (sign, st) = read_sign(s);
        let hex = n >= st + 2 && s.get_char(st) == '0' && s.get_char(st + 1) == 'x';
        if hex {
            match Hexadecimal::from_str(s) {
                Ok(h) => Ok(IntegerLiteral { sign, src, val: h.hexnum, hex }),
                Err(e) => Err(e),
            }
        } else {
            match Decimal::from_str(s) {
                Ok(d) => Ok(IntegerLiteral { sign, src, val: d.num, hex }),
                Err(e) => Err(e),
            }
        }
    }

    /// The sign written in front of the literal.
    pub fn sign(&self) -> (r: Sign)
        ensures
            r == self.sign_view(),
    {
        self.sign
    }

    /// The literal's source text, as written.
    pub fn src(&self) -> (r: &String)
        ensures
            r@ == self.src_view(),
    {
        &self.src
    }

    /// The digit run (separators kept, `0x` left out) and its radix.
    pub fn val(&self) -> (r: (&String, u32))
        ensures
            r.0@ == self.val_view(),
            r.1 == if self.hex_view() { 16u32 } else { 10u32 },
    {
        (&self.val, if self.hex { 16 } else { 10 })
    }
}

} // verus!

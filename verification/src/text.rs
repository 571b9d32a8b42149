//! Verified text utilities: type names, boolean words, and the decimal
//! form of integers.

use vstd::prelude::*;
use vstd::string::StrSliceExecFns;
use vstd::string::StringExecFns;

verus! {

use crate::ast::Type;

/// The printed name of a type, as diagnostics spell it.
pub open spec fn type_text_v(t: Type) -> Seq<char> {
    match t {
        Type::Arcana => "Arcana"@,
        Type::Aether => "Aether"@,
        Type::Rune => "Rune"@,
        Type::Omen => "Omen"@,
        Type::Abyss => "Abyss"@,
    }
}

/// The printed name of a type.
pub fn type_text(t: Type) -> (r: String)
    ensures
        r@ == type_text_v(t),
{
    match t {
        Type::Arcana => String::from_str("Arcana"),
        Type::Aether => String::from_str("Aether"),
        Type::Rune => String::from_str("Rune"),
        Type::Omen => String::from_str("Omen"),
        Type::Abyss => String::from_str("Abyss"),
    }
}

/// The character for one decimal digit value.
pub open spec fn digit_char(d: int) -> char {
    ((48 + d) as u8) as char
}

/// The decimal form of a non-negative number, most significant digit
/// first, as `u64`'s textual form spells it.
pub open spec fn dec_u64(n: int) -> Seq<char>
    decreases n,
{
    if n < 10 {
        seq![digit_char(n)]
    } else {
        dec_u64(n / 10).push(digit_char(n % 10))
    }
}

/// The decimal form of a signed number, as `i64`'s textual form spells it.
pub open spec fn dec_i64(n: int) -> Seq<char> {
    if n < 0 {
        seq!['-'] + dec_u64(-n)
    } else {
        dec_u64(n)
    }
}

/// One decimal digit as text.  Meaningful only for `d < 10`.
fn digit_str(d: u64) -> (r: &'static str)
    ensures
        d < 10 ==> r@ == seq![digit_char(d as int)],
{
    let r: &'static str = match d {
        0 => "0",
        1 => "1",
        2 => "2",
        3 => "3",
        4 => "4",
        5 => "5",
        6 => "6",
        7 => "7",
        8 => "8",
        _ => "9",
    };
    proof {
        reveal_strlit("0");
        reveal_strlit("1");
        reveal_strlit("2");
        reveal_strlit("3");
        reveal_strlit("4");
        reveal_strlit("5");
        reveal_strlit("6");
        reveal_strlit("7");
        reveal_strlit("8");
        reveal_strlit("9");
        if d < 10 {
            assert(r@ =~= seq![digit_char(d as int)]);
        }
    }
    r
}

/// The decimal form of a `u64`.
pub fn format_u64(n: u64) -> (r: String)
    ensures
        r@ == dec_u64(n as int),
    decreases n,
{
    if n < 10 {
        let mut s = String::new();
        s.append(digit_str(n));
        s
    } else {
        let mut s = format_u64(n / 10);
        s.append(digit_str(n % 10));
        proof {
            assert(s@ =~= dec_u64(n as int));
        }
        s
    }
}

/// The decimal form of an `i64`, exactly as the standard textual form
/// spells it.
pub fn format_i64(n: i64) -> (r: String)
    ensures
        r@ == dec_i64(n as int),
{
    if n >= 0 {
        format_u64(n as u64)
    } else {
        let m: u64 = (-(n as i128)) as u64;
        let mut s = String::from_str("-");
        proof {
            reveal_strlit("-");
        }
        s.append(format_u64(m).as_str());
        proof {
            assert(s@ =~= dec_i64(n as int));
        }
        s
    }
}

/// Whether the character is a decimal digit.
pub open spec fn is_digit(c: char) -> bool {
    48 <= c as int <= 57
}

/// The value of a digit character.
pub open spec fn digit_val(c: char) -> int {
    c as int - 48
}

/// Whether every character of the text is a decimal digit.
pub open spec fn all_digits(s: Seq<char>) -> bool {
    forall|i: int| 0 <= i < s.len() ==> is_digit(s[i])
}

/// The number the digit text denotes, most significant digit first.
pub open spec fn digits_val(s: Seq<char>) -> int
    decreases s.len(),
{
    if s.len() == 0 {
        0
    } else {
        digits_val(s.drop_last()) * 10 + digit_val(s.last())
    }
}

/// A digit text's value is non-negative.
pub proof fn lemma_digits_val_nonneg(s: Seq<char>)
    requires
        all_digits(s),
    ensures
        digits_val(s) >= 0,
    decreases s.len(),
{
    if s.len() > 0 {
        assert(all_digits(s.drop_last())) by {
            assert forall|i: int| 0 <= i < s.drop_last().len() implies is_digit(
                s.drop_last()[i],
            ) by {
                assert(s.drop_last()[i] == s[i]);
            }
        }
        lemma_digits_val_nonneg(s.drop_last());
    }
}

/// A digit text is worth at least its prefix.
pub proof fn lemma_digits_val_prefix(s: Seq<char>, k: int)
    requires
        all_digits(s),
        0 <= k <= s.len(),
    ensures
        digits_val(s) >= digits_val(s.take(k)),
    decreases s.len() - k,
{
    if k < s.len() {
        lemma_digits_val_prefix(s, k + 1);
        assert(s.take(k + 1).drop_last() =~= s.take(k));
        assert(s.take(k + 1).last() == s[k]);
        assert(all_digits(s.take(k))) by {
            assert forall|i: int| 0 <= i < k implies is_digit(s.take(k)[i]) by {
                assert(s.take(k)[i] == s[i]);
            }
        }
        lemma_digits_val_nonneg(s.take(k));
    } else {
        assert(s.take(k) =~= s);
    }
}

/// The digit part of a signed number once an optional leading sign is
/// split off.
pub open spec fn sign_part(s: Seq<char>) -> Seq<char> {
    if s.len() > 0 && (s[0] == '-' || s[0] == '+') {
        s.drop_first()
    } else {
        s
    }
}

/// What a sign and a digit text denote as a 64-bit signed integer, if
/// the digits are well formed and the value is in range.
pub open spec fn parse_core(neg: bool, digs: Seq<char>) -> Option<i64> {
    if digs.len() == 0 || !all_digits(digs) {
        None
    } else {
        let v = digits_val(digs);
        if neg {
            if v <= 0x8000_0000_0000_0000 {
                Some((-v) as i64)
            } else {
                None
            }
        } else {
            if v <= 0x7fff_ffff_ffff_ffff {
                Some(v as i64)
            } else {
                None
            }
        }
    }
}

/// What a text parses to as a 64-bit signed integer: an optional sign,
/// then at least one digit, and a value within range — exactly the
/// standard parse.
pub open spec fn parse_i64_v(s: Seq<char>) -> Option<i64> {
    parse_core(s.len() > 0 && s[0] == '-', sign_part(s))
}

/// Parses a 64-bit signed integer, exactly as the standard parse does.
pub fn parse_i64(s: &str) -> (r: Option<i64>)
    ensures
        r == parse_i64_v(s@),
{
    let n = s.unicode_len();
    let ghost digs = if s@.len() > 0 && (s@[0] == '-' || s@[0] == '+') {
        s@.drop_first()
    } else {
        s@
    };
    let mut pos: usize = 0;
    let mut neg: bool = false;
    if n > 0 {
        let c0 = s.get_char(0);
        if c0 == '-' {
            neg = true;
            pos = 1;
        } else if c0 == '+' {
            pos = 1;
        }
    }
    if pos >= n {
        return None;
    }
    proof {
        assert(digs =~= s@.subrange(pos as int, n as int));
    }
    let bound: u64 = if neg {
        0x8000_0000_0000_0000
    } else {
        0x7fff_ffff_ffff_ffff
    };
    let mut acc: u64 = 0;
    let mut i: usize = pos;
    proof {
        assert(digs.take(0) =~= Seq::<char>::empty());
    }
    while i < n
        invariant
            pos <= i <= n,
            n == s@.len(),
            digs == s@.subrange(pos as int, n as int),
            parse_i64_v(s@) == parse_core(neg, digs),
            bound == (if neg {
                0x8000_0000_0000_0000u64
            } else {
                0x7fff_ffff_ffff_ffffu64
            }),
            acc <= bound,
            all_digits(digs.take(i - pos)),
            acc as int == digits_val(digs.take(i - pos)),
        decreases n - i,
    {
        let c = s.get_char(i);
        let code = c as u32;
        proof {
            assert(digs.take(i + 1 - pos).drop_last() =~= digs.take(i - pos));
            assert(digs.take(i + 1 - pos).last() == s@[i as int]);
        }
        if code < 48 || code > 57 {
            proof {
                assert(digs[i - pos] == s@[i as int]);
                assert(!is_digit(digs[i - pos]));
            }
            return None;
        }
        let d = (code - 48) as u64;
        if acc > (bound - d) / 10 {
            proof {
                let k = i + 1 - pos;
                let bd = (bound - d) as int;
                assert(bd / 10 * 10 + bd % 10 == bd);
                assert(acc as int * 10 >= (bd / 10 + 1) * 10);
                assert(acc as int * 10 + d > bound as int);
                assert(digits_val(digs.take(k)) == acc as int * 10 + d);
                if all_digits(digs) {
                    assert(all_digits(digs.take(k))) by {
                        assert forall|j: int| 0 <= j < k implies is_digit(digs.take(k)[j]) by {
                            assert(digs.take(k)[j] == digs[j]);
                        }
                    }
                    lemma_digits_val_prefix(digs, k);
                    assert(digits_val(digs) > bound as int);
                }
            }
            return None;
        }
        proof {
            let k = i + 1 - pos;
            assert forall|j: int| 0 <= j < k implies is_digit(digs.take(k)[j]) by {
                assert(digs.take(k)[j] == digs[j]);
                if j < k - 1 {
                    assert(digs.take(i - pos)[j] == digs[j]);
                }
            }
        }
        acc = acc * 10 + d;
        i = i + 1;
    }
    proof {
        assert(digs.take(n - pos) =~= digs);
    }
    if neg {
        if acc == 0x8000_0000_0000_0000 {
            Some(i64::MIN)
        } else {
            Some(-(acc as i64))
        }
    } else {
        Some(acc as i64)
    }
}

/// The text with every two-character `\n` escape turned into a newline,
/// scanning left to right.
pub open spec fn unescape_v(s: Seq<char>) -> Seq<char>
    decreases s.len(),
{
    if s.len() == 0 {
        Seq::empty()
    } else if s.len() >= 2 && s[0] == '\\' && s[1] == 'n' {
        seq!['\n'] + unescape_v(s.skip(2))
    } else {
        seq![s[0]] + unescape_v(s.skip(1))
    }
}

/// Expands the two-character `\n` escapes of the text into newlines.
pub fn unescape(s: &str) -> (r: String)
    ensures
        r@ == unescape_v(s@),
{
    let n = s.unicode_len();
    let mut out = String::new();
    let mut i: usize = 0;
    proof {
        assert(s@.skip(0) =~= s@);
        assert(out@ + unescape_v(s@) =~= unescape_v(s@));
    }
    while i < n
        invariant
            i <= n,
            n == s@.len(),
            out@ + unescape_v(s@.skip(i as int)) == unescape_v(s@),
        decreases n - i,
    {
        let c = s.get_char(i);
        if c == '\\' && i + 1 < n && s.get_char(i + 1) == 'n' {
            proof {
                assert(s@.skip(i as int)[0] == s@[i as int]);
                assert(s@.skip(i as int)[1] == s@[i + 1]);
                assert(s@.skip(i as int).skip(2) =~= s@.skip(i + 2));
            }
            out.append("\n");
            proof {
                reveal_strlit("\n");
                assert(unescape_v(s@.skip(i as int)) == seq!['\n'] + unescape_v(s@.skip(i + 2)));
                assert(out@ + unescape_v(s@.skip(i + 2)) =~= unescape_v(s@));
            }
            i = i + 2;
        } else {
            let piece = s.substring_char(i, i + 1);
            proof {
                assert(s@.skip(i as int)[0] == s@[i as int]);
                assert(s@.skip(i as int).skip(1) =~= s@.skip(i + 1));
                assert(piece@ =~= seq![s@[i as int]]);
            }
            out.append(piece);
            proof {
                assert(out@ + unescape_v(s@.skip(i + 1)) =~= unescape_v(s@));
            }
            i = i + 1;
        }
    }
    proof {
        assert(s@.skip(n as int) =~= Seq::<char>::empty());
        assert(out@ =~= out@ + unescape_v(s@.skip(n as int)));
    }
    out
}

/// Whether the character counts as whitespace for trimming, as the
/// standard trim sees it.
pub open spec fn is_space_char(c: char) -> bool {
    c as int == 9 || c as int == 10 || c as int == 11 || c as int == 12 || c as int == 13
        || c as int == 32 || c as int == 133 || c as int == 160 || c as int == 5760 || (8192
        <= c as int <= 8202) || c as int == 8232 || c as int == 8233 || c as int == 8239
        || c as int == 8287 || c as int == 12288
}

/// How many leading characters of the text satisfy `sp`.
pub open spec fn lead_while(s: Seq<char>, sp: spec_fn(char) -> bool) -> int
    decreases s.len(),
{
    if s.len() > 0 && sp(s.first()) {
        1 + lead_while(s.drop_first(), sp)
    } else {
        0
    }
}

/// How many trailing characters of the text satisfy `sp`.
pub open spec fn trail_while(s: Seq<char>, sp: spec_fn(char) -> bool) -> int
    decreases s.len(),
{
    if s.len() > 0 && sp(s.last()) {
        1 + trail_while(s.drop_last(), sp)
    } else {
        0
    }
}

/// The text with leading and trailing characters satisfying `sp` removed.
pub open spec fn trim_while_v(s: Seq<char>, sp: spec_fn(char) -> bool) -> Seq<char> {
    let a = lead_while(s, sp);
    if a == s.len() {
        Seq::empty()
    } else {
        s.subrange(a, s.len() - trail_while(s, sp))
    }
}

/// The text with leading and trailing whitespace removed, as the
/// standard trim does.
pub open spec fn trim_v(s: Seq<char>) -> Seq<char> {
    trim_while_v(s, |c: char| is_space_char(c))
}

/// The text with leading and trailing double quotes removed.
pub open spec fn trim_quotes_v(s: Seq<char>) -> Seq<char> {
    trim_while_v(s, |c: char| c == '"')
}

/// Whether the character counts as whitespace for trimming.
pub fn is_space(c: char) -> (r: bool)
    ensures
        r == is_space_char(c),
{
    let x = c as u32;
    x == 9 || x == 10 || x == 11 || x == 12 || x == 13 || x == 32 || x == 133 || x == 160 || x
        == 5760 || (8192 <= x && x <= 8202) || x == 8232 || x == 8233 || x == 8239 || x == 8287
        || x == 12288
}

/// `lead_while` of a suffix: one step.
proof fn lemma_lead_step(s: Seq<char>, sp: spec_fn(char) -> bool, a: int)
    requires
        0 <= a < s.len(),
        forall|j: int| 0 <= j < a ==> sp(s[j]),
        !sp(s[a]),
    ensures
        lead_while(s, sp) == a,
    decreases a,
{
    if a == 0 {
    } else {
        assert(sp(s.first()));
        lemma_lead_step(s.drop_first(), sp, a - 1);
    }
}

/// `lead_while` of an all-matching text is its length.
proof fn lemma_lead_all(s: Seq<char>, sp: spec_fn(char) -> bool)
    requires
        forall|j: int| 0 <= j < s.len() ==> sp(s[j]),
    ensures
        lead_while(s, sp) == s.len(),
    decreases s.len(),
{
    if s.len() > 0 {
        lemma_lead_all(s.drop_first(), sp);
    }
}

/// `trail_while` counted from the last non-matching character.
proof fn lemma_trail_step(s: Seq<char>, sp: spec_fn(char) -> bool, b: int)
    requires
        0 <= b <= s.len(),
        forall|j: int| b <= j < s.len() ==> sp(s[j]),
        b > 0 ==> !sp(s[b - 1]),
    ensures
        trail_while(s, sp) == s.len() - b,
    decreases s.len() - b,
{
    if b < s.len() {
        assert(sp(s.last()));
        lemma_trail_step(s.drop_last(), sp, b);
    }
}

/// Trims characters satisfying the test from both ends, returning an
/// owned copy.
fn trim_exec(s: &str, quotes: bool) -> (r: String)
    ensures
        quotes ==> r@ == trim_quotes_v(s@),
        !quotes ==> r@ == trim_v(s@),
{
    let ghost sp: spec_fn(char) -> bool = if quotes {
        |c: char| c == '"'
    } else {
        |c: char| is_space_char(c)
    };
    let n = s.unicode_len();
    let mut a: usize = 0;
    while a < n
        invariant
            a <= n,
            n == s@.len(),
            quotes ==> sp == (|c: char| c == '"'),
            !quotes ==> sp == (|c: char| is_space_char(c)),
            forall|j: int| 0 <= j < a ==> sp(s@[j]),
        ensures
            a <= n,
            n == s@.len(),
            forall|j: int| 0 <= j < a ==> sp(s@[j]),
            a < n ==> !sp(s@[a as int]),
        decreases n - a,
    {
        let c = s.get_char(a);
        let hit = if quotes {
            c == '"'
        } else {
            is_space(c)
        };
        if !hit {
            break ;
        }
        a = a + 1;
    }
    if a == n {
        proof {
            lemma_lead_all(s@, sp);
        }
        return String::new();
    }
    proof {
        lemma_lead_step(s@, sp, a as int);
    }
    let mut b: usize = n;
    while b > a
        invariant
            a < n,
            a <= b <= n,
            n == s@.len(),
            quotes ==> sp == (|c: char| c == '"'),
            !quotes ==> sp == (|c: char| is_space_char(c)),
            forall|j: int| b <= j < n ==> sp(s@[j]),
            !sp(s@[a as int]),
        ensures
            a <= b <= n,
            forall|j: int| b <= j < n ==> sp(s@[j]),
            b > 0 ==> !sp(s@[b - 1]),
        decreases b,
    {
        let c = s.get_char(b - 1);
        let hit = if quotes {
            c == '"'
        } else {
            is_space(c)
        };
        if !hit {
            break ;
        }
        b = b - 1;
    }
    proof {
        lemma_trail_step(s@, sp, b as int);
    }
    let piece = s.substring_char(a, b);
    String::from_str(piece)
}

/// The text with leading and trailing whitespace removed.
pub fn trim_space(s: &str) -> (r: String)
    ensures
        r@ == trim_v(s@),
{
    trim_exec(s, false)
}

/// The text with leading and trailing double quotes removed.
pub fn trim_quotes(s: &str) -> (r: String)
    ensures
        r@ == trim_quotes_v(s@),
{
    trim_exec(s, true)
}

} // verus!

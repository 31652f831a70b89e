//! Verified building blocks for the protocol's JSON text frames: decimal
//! rendering and reading of numeric fields, skipping of insignificant
//! whitespace, and escaping and unescaping of string fields.
//!
//! The unescaper accepts the standard escape forms: the two-character
//! escapes, `\uXXXX` for any code point of the basic plane, and surrogate
//! pairs of two `\uXXXX` escapes for the rest; a lone surrogate is rejected
//! as malformed.

use vstd::prelude::*;

verus! {

/// Relies on String::push: appends exactly one character.
#[verifier::external_body]
pub(crate) fn push_char(s: &mut String, c: char)
    ensures
        final(s)@ == old(s)@.push(c),
{
    s.push(c);
}

/// Relies on char::from_u32: the character for every valid scalar value (at
/// most 0x10FFFF and not a surrogate), and nothing for the rest.
pub assume_specification[ char::from_u32 ](v: u32) -> (r: Option<char>)
    ensures
        r == (if v < 0xD800 || (0xE000 <= v && v <= 0x10FFFF) {
            Some(v as char)
        } else {
            None::<char>
        }),
;

/// The decimal digit character for a value below ten.
pub open spec fn dec_digit(d: nat) -> char {
    ((48 + d) as u8) as char
}

/// The decimal rendering of a natural number, most significant digit first.
pub open spec fn dec_of(n: nat) -> Seq<char>
    decreases n,
{
    if n < 10 {
        seq![dec_digit(n)]
    } else {
        dec_of(n / 10).push(dec_digit(n % 10))
    }
}

/// Returns the character for a decimal digit.
fn dec_digit_char(d: u8) -> (c: char)
    requires
        d < 10,
    ensures
        c == dec_digit(d as nat),
{
    let c = (48 + d) as char;
    c
}

/// Renders `n` in decimal, most significant digit first.
pub fn format_u64(n: u64) -> (r: String)
    ensures
        r@ == dec_of(n as nat),
    decreases n,
{
    if n < 10 {
        let mut s = String::new();
        push_char(&mut s, dec_digit_char(n as u8));
        proof {
            assert(s@ =~= dec_of(n as nat));
        }
        s
    } else {
        let mut s = format_u64(n / 10);
        push_char(&mut s, dec_digit_char((n % 10) as u8));
        proof {
            assert(s@ =~= dec_of(n as nat));
        }
        s
    }
}

/// Whether `c` is a decimal digit character.
pub open spec fn is_dec_digit(c: char) -> bool {
    48 <= c as u32 <= 57
}

/// The numeric value of a decimal digit character.
pub open spec fn dec_val(c: char) -> nat {
    (c as u32 - 48) as nat
}

/// The value of a sequence of decimal digit characters, read most
/// significant digit first.
pub open spec fn dec_value(s: Seq<char>) -> nat
    decreases s.len(),
{
    if s.len() == 0 {
        0
    } else {
        dec_value(s.drop_last()) * 10 + dec_val(s.last())
    }
}

/// Whether every character of `s` is a decimal digit.
pub open spec fn all_dec_digits(s: Seq<char>) -> bool {
    forall|i: int| 0 <= i < s.len() ==> is_dec_digit(#[trigger] s[i])
}

/// Reading back the decimal rendering of `n` yields `n`.
pub proof fn lemma_dec_round_trip(n: nat)
    ensures
        all_dec_digits(dec_of(n)),
        dec_value(dec_of(n)) == n,
        dec_of(n).len() >= 1,
    decreases n,
{
    if n < 10 {
        let s = dec_of(n);
        assert(s == seq![dec_digit(n)]);
        assert(s.drop_last() =~= Seq::<char>::empty());
        assert(dec_value(Seq::<char>::empty()) == 0);
        assert(dec_value(s) == dec_value(s.drop_last()) * 10 + dec_val(s.last()));
        assert(s.last() == dec_digit(n));
        assert(s[0] == dec_digit(n));
        assert(dec_val(dec_digit(n)) == n);
    } else {
        lemma_dec_round_trip(n / 10);
        let s = dec_of(n);
        assert(s == dec_of(n / 10).push(dec_digit(n % 10)));
        assert(s.drop_last() =~= dec_of(n / 10));
        assert(s.last() == dec_digit(n % 10));
        assert(dec_val(dec_digit(n % 10)) == n % 10);
        assert(dec_value(s) == (n / 10) * 10 + n % 10);
        assert((n / 10) * 10 + n % 10 == n) by (nonlinear_arith);
        assert forall|i: int| 0 <= i < s.len() implies is_dec_digit(#[trigger] s[i]) by {
            if i < s.len() - 1 {
                assert(s[i] == dec_of(n / 10)[i]);
            }
        }
    }
}

/// The position of the first character at or after `i` that is not a decimal
/// digit (the length of the text when all of the rest are digits).
pub open spec fn digits_end(s: Seq<char>, i: nat) -> nat
    decreases s.len() - i,
    when i <= s.len()
{
    if i < s.len() && is_dec_digit(s[i as int]) {
        digits_end(s, i + 1)
    } else {
        i
    }
}

/// Everything strictly before `digits_end` is a digit, and the character at
/// `digits_end` (when there is one) is not.
pub proof fn lemma_digits_end_props(s: Seq<char>, i: nat)
    requires
        i <= s.len(),
    ensures
        i <= digits_end(s, i) <= s.len(),
        forall|j: int| i <= j < digits_end(s, i) ==> is_dec_digit(#[trigger] s[j]),
        digits_end(s, i) < s.len() ==> !is_dec_digit(s[digits_end(s, i) as int]),
    decreases s.len() - i,
{
    if i < s.len() && is_dec_digit(s[i as int]) {
        lemma_digits_end_props(s, i + 1);
    }
}

/// `digits_end` is exactly the boundary between a digit run and a non-digit.
pub proof fn lemma_digits_end_exact(s: Seq<char>, i: nat, k: nat)
    requires
        i <= k <= s.len(),
        forall|j: int| i <= j < k ==> is_dec_digit(#[trigger] s[j]),
        k == s.len() || !is_dec_digit(s[k as int]),
    ensures
        digits_end(s, i) == k,
    decreases k - i,
{
    if i < k {
        assert(is_dec_digit(s[i as int]));
        lemma_digits_end_exact(s, i + 1, k);
    }
}

/// Whether `c` is JSON insignificant whitespace.
pub open spec fn is_json_ws(c: char) -> bool {
    c == ' ' || c == '\t' || c == '\n' || c == '\r'
}

/// The position of the first character at or after `i` that is not JSON
/// whitespace (the length of the text when all of the rest are).
pub open spec fn ws_end(s: Seq<char>, i: nat) -> nat
    decreases s.len() - i,
    when i <= s.len()
{
    if i < s.len() && is_json_ws(s[i as int]) {
        ws_end(s, i + 1)
    } else {
        i
    }
}

/// Everything strictly before `ws_end` (from `i` on) is whitespace, and the
/// character at `ws_end` (when there is one) is not.
pub proof fn lemma_ws_end_props(s: Seq<char>, i: nat)
    requires
        i <= s.len(),
    ensures
        i <= ws_end(s, i) <= s.len(),
        forall|j: int| i <= j < ws_end(s, i) ==> is_json_ws(#[trigger] s[j]),
        ws_end(s, i) < s.len() ==> !is_json_ws(s[ws_end(s, i) as int]),
    decreases s.len() - i,
{
    if i < s.len() && is_json_ws(s[i as int]) {
        lemma_ws_end_props(s, i + 1);
    }
}

/// Returns the position of the first character at or after `from` that is
/// not JSON whitespace.
pub fn skip_ws(s: &str, from: usize) -> (r: usize)
    requires
        from <= s@.len(),
    ensures
        r == ws_end(s@, from as nat),
        from <= r <= s@.len(),
{
    let len = s.unicode_len();
    let mut i: usize = from;
    while i < len
        invariant
            from <= i <= len,
            len == s@.len(),
            ws_end(s@, from as nat) == ws_end(s@, i as nat),
        ensures
            from <= i <= len,
            len == s@.len(),
            ws_end(s@, from as nat) == ws_end(s@, i as nat),
            i == len || !is_json_ws(s@[i as int]),
        decreases len - i,
    {
        let c = s.get_char(i);
        if !(c == ' ' || c == '\t' || c == '\n' || c == '\r') {
            break ;
        }
        i += 1;
    }
    proof {
        if i < len {
            assert(!is_json_ws(s@[i as int]));
        }
        assert(ws_end(s@, i as nat) == i);
    }
    i
}

/// The position reached by trimming JSON whitespace from the right end of
/// `s`'s first `j` characters.
pub open spec fn ws_start(s: Seq<char>, j: nat) -> nat
    decreases j,
    when j <= s.len()
{
    if j > 0 && is_json_ws(s[j - 1]) {
        ws_start(s, (j - 1) as nat)
    } else {
        j
    }
}

/// Everything from `ws_start` up to `j` is whitespace, and the character
/// just before `ws_start` (when there is one) is not.
pub proof fn lemma_ws_start_props(s: Seq<char>, j: nat)
    requires
        j <= s.len(),
    ensures
        ws_start(s, j) <= j,
        forall|k: int| ws_start(s, j) <= k < j ==> is_json_ws(#[trigger] s[k]),
        ws_start(s, j) > 0 ==> !is_json_ws(s[ws_start(s, j) as int - 1]),
    decreases j,
{
    if j > 0 && is_json_ws(s[j - 1]) {
        lemma_ws_start_props(s, (j - 1) as nat);
    }
}

/// Trims JSON whitespace from the right end of `s`'s first `from`
/// characters.
pub fn trim_ws_right(s: &str, from: usize) -> (r: usize)
    requires
        from <= s@.len(),
    ensures
        r == ws_start(s@, from as nat),
        r <= from,
{
    let mut j: usize = from;
    while j > 0
        invariant
            0 <= j <= from <= s@.len(),
            ws_start(s@, from as nat) == ws_start(s@, j as nat),
        ensures
            0 <= j <= from <= s@.len(),
            ws_start(s@, from as nat) == ws_start(s@, j as nat),
            j == 0 || !is_json_ws(s@[j - 1]),
        decreases j,
    {
        let c = s.get_char(j - 1);
        if !(c == ' ' || c == '\t' || c == '\n' || c == '\r') {
            break ;
        }
        j -= 1;
    }
    proof {
        if j > 0 {
            assert(!is_json_ws(s@[j - 1]));
        }
        assert(ws_start(s@, j as nat) == j);
    }
    j
}

/// The position reached by scanning decimal digits leftwards from `j`: the
/// start of the digit run that ends at `j`.
pub open spec fn digits_start(s: Seq<char>, j: nat) -> nat
    decreases j,
    when j <= s.len()
{
    if j > 0 && is_dec_digit(s[j - 1]) {
        digits_start(s, (j - 1) as nat)
    } else {
        j
    }
}

/// Everything from `digits_start` up to `j` is a digit, and the character
/// just before `digits_start` (when there is one) is not.
pub proof fn lemma_digits_start_props(s: Seq<char>, j: nat)
    requires
        j <= s.len(),
    ensures
        digits_start(s, j) <= j,
        forall|k: int| digits_start(s, j) <= k < j ==> is_dec_digit(#[trigger] s[k]),
        digits_start(s, j) > 0 ==> !is_dec_digit(s[digits_start(s, j) as int - 1]),
    decreases j,
{
    if j > 0 && is_dec_digit(s[j - 1]) {
        lemma_digits_start_props(s, (j - 1) as nat);
    }
}

/// Scans decimal digits leftwards from `from` and returns the start of the
/// digit run that ends there.
pub fn scan_digits_left(s: &str, from: usize) -> (r: usize)
    requires
        from <= s@.len(),
    ensures
        r == digits_start(s@, from as nat),
        r <= from,
{
    let mut j: usize = from;
    while j > 0
        invariant
            0 <= j <= from <= s@.len(),
            digits_start(s@, from as nat) == digits_start(s@, j as nat),
        ensures
            0 <= j <= from <= s@.len(),
            digits_start(s@, from as nat) == digits_start(s@, j as nat),
            j == 0 || !is_dec_digit(s@[j - 1]),
        decreases j,
    {
        let c = s.get_char(j - 1);
        let cu = c as u32;
        if cu < 48 || cu > 57 {
            break ;
        }
        j -= 1;
    }
    proof {
        if j > 0 {
            assert(!is_dec_digit(s@[j - 1]));
        }
        assert(digits_start(s@, j as nat) == j);
    }
    j
}

/// Appending digits to a digit string never decreases its value.
pub proof fn lemma_dec_value_extend(t: Seq<char>, w: Seq<char>)
    ensures
        dec_value(t + w) >= dec_value(t),
    decreases w.len(),
{
    if w.len() == 0 {
        assert(t + w =~= t);
    } else {
        lemma_dec_value_extend(t, w.drop_last());
        assert((t + w).drop_last() =~= t + w.drop_last());
        assert(dec_value(t + w) == dec_value((t + w).drop_last()) * 10 + dec_val((t + w).last()));
    }
}

/// Reads the decimal digit run starting at `from` and returns its value and
/// the position after its last digit. Returns nothing when no digit stands at
/// `from` or when the run's value does not fit in a `u64`.
pub fn parse_u64(s: &str, from: usize) -> (r: Option<(u64, usize)>)
    requires
        from <= s@.len(),
    ensures
        r matches Some((v, end)) ==> {
            &&& from < end <= s@.len()
            &&& end == digits_end(s@, from as nat)
            &&& v == dec_value(s@.subrange(from as int, end as int))
        },
        r is Some <==> (from < s@.len() && is_dec_digit(s@[from as int]) && dec_value(
            s@.subrange(from as int, digits_end(s@, from as nat) as int),
        ) <= u64::MAX),
{
    let len = s.unicode_len();
    let mut i: usize = from;
    let mut acc: u64 = 0;
    proof {
        assert(s@.subrange(from as int, from as int) =~= Seq::<char>::empty());
    }
    while i < len
        invariant
            from <= i <= len,
            len == s@.len(),
            forall|j: int| from <= j < i ==> is_dec_digit(#[trigger] s@[j]),
            digits_end(s@, from as nat) == digits_end(s@, i as nat),
            acc == dec_value(s@.subrange(from as int, i as int)),
        ensures
            from <= i <= len,
            len == s@.len(),
            forall|j: int| from <= j < i ==> is_dec_digit(#[trigger] s@[j]),
            digits_end(s@, from as nat) == digits_end(s@, i as nat),
            acc == dec_value(s@.subrange(from as int, i as int)),
            i == len || !is_dec_digit(s@[i as int]),
        decreases len - i,
    {
        let c = s.get_char(i);
        let cu = c as u32;
        if cu < 48 || cu > 57 {
            break ;
        }
        let d = ((cu - 48) as u64);
        proof {
            assert(is_dec_digit(s@[i as int]));
            assert(s@.subrange(from as int, i as int + 1).drop_last() =~= s@.subrange(
                from as int,
                i as int,
            ));
            assert(s@.subrange(from as int, i as int + 1).last() == s@[i as int]);
        }
        if acc > (u64::MAX - d) / 10 {
            proof {
                let de = digits_end(s@, from as nat) as int;
                lemma_digits_end_props(s@, i as nat);
                assert(de >= i + 1);
                assert(acc * 10 + d > u64::MAX) by (nonlinear_arith)
                    requires
                        acc > (u64::MAX - d) / 10,
                        d <= 9,
                ;
                assert(dec_value(s@.subrange(from as int, i as int + 1)) == acc * 10 + d);
                lemma_dec_value_extend(
                    s@.subrange(from as int, i as int + 1),
                    s@.subrange(i as int + 1, de),
                );
                assert(s@.subrange(from as int, i as int + 1) + s@.subrange(i as int + 1, de)
                    =~= s@.subrange(from as int, de));
            }
            return None;
        }
        acc = acc * 10 + d;
        i += 1;
    }
    proof {
        if i < len {
            assert(!is_dec_digit(s@[i as int]));
        }
        lemma_digits_end_exact(s@, i as nat, i as nat);
        assert(digits_end(s@, from as nat) == i as nat);
    }
    if i == from {
        return None;
    }
    Some((acc, i))
}

/// The lowercase hexadecimal digit character for a value below sixteen.
pub open spec fn hex_digit(d: nat) -> char {
    if d < 10 {
        ((48 + d) as u8) as char
    } else {
        ((87 + d) as u8) as char
    }
}

/// Whether `c` is a hexadecimal digit character (either case).
pub open spec fn is_hex_digit(c: char) -> bool {
    ||| 48 <= c as u32 <= 57
    ||| 97 <= c as u32 <= 102
    ||| 65 <= c as u32 <= 70
}

/// The numeric value of a hexadecimal digit character.
pub open spec fn hex_val(c: char) -> nat {
    if 48 <= c as u32 <= 57 {
        (c as u32 - 48) as nat
    } else if 97 <= c as u32 <= 102 {
        (c as u32 - 87) as nat
    } else {
        (c as u32 - 55) as nat
    }
}

/// Returns the lowercase hexadecimal digit character for `d`.
fn hex_digit_char(d: u8) -> (c: char)
    requires
        d < 16,
    ensures
        c == hex_digit(d as nat),
        is_hex_digit(c),
        hex_val(c) == d,
{
    if d < 10 {
        (48 + d) as char
    } else {
        (87 + d) as char
    }
}

/// The escape of one character inside a JSON string literal: the short
/// two-character escapes where they exist, `\u00XX` for the remaining control
/// characters, and the character itself otherwise.
pub open spec fn esc_char(c: char) -> Seq<char> {
    if c == '"' {
        seq!['\\', '"']
    } else if c == '\\' {
        seq!['\\', '\\']
    } else if c as u32 == 8 {
        seq!['\\', 'b']
    } else if c as u32 == 12 {
        seq!['\\', 'f']
    } else if c == '\n' {
        seq!['\\', 'n']
    } else if c == '\r' {
        seq!['\\', 'r']
    } else if c == '\t' {
        seq!['\\', 't']
    } else if (c as u32) < 32 {
        let hi = hex_digit(((c as u32) / 16) as nat);
        let lo = hex_digit(((c as u32) % 16) as nat);
        seq!['\\', 'u', '0', '0', hi, lo]
    } else {
        seq![c]
    }
}

/// The body of the JSON string literal for `s`: every character escaped as
/// the wire format asks, without the surrounding quotes.
pub open spec fn json_escape(s: Seq<char>) -> Seq<char>
    decreases s.len(),
{
    if s.len() == 0 {
        Seq::empty()
    } else {
        esc_char(s[0]) + json_escape(s.skip(1))
    }
}

/// Escaping distributes over appending one character at the end.
pub proof fn lemma_json_escape_push(s: Seq<char>, c: char)
    ensures
        json_escape(s.push(c)) == json_escape(s) + esc_char(c),
    decreases s.len(),
{
    if s.len() == 0 {
        assert(s.push(c)[0] == c);
        assert(s.push(c).skip(1) =~= Seq::<char>::empty());
        assert(json_escape(Seq::<char>::empty()) == Seq::<char>::empty());
        assert(json_escape(s.push(c)) == esc_char(c) + json_escape(Seq::<char>::empty()));
        assert(esc_char(c) + Seq::<char>::empty() =~= esc_char(c));
        assert(s =~= Seq::<char>::empty());
        assert(json_escape(s) + esc_char(c) =~= esc_char(c));
    } else {
        assert(s.push(c)[0] == s[0]);
        assert(s.push(c).skip(1) =~= s.skip(1).push(c));
        lemma_json_escape_push(s.skip(1), c);
        assert(json_escape(s.push(c)) == esc_char(s[0]) + (json_escape(s.skip(1)) + esc_char(c)));
        assert(esc_char(s[0]) + (json_escape(s.skip(1)) + esc_char(c)) =~= (esc_char(s[0])
            + json_escape(s.skip(1))) + esc_char(c));
    }
}

/// Appends the escape of one character to `out`.
fn push_escaped(out: &mut String, c: char)
    ensures
        final(out)@ == old(out)@ + esc_char(c),
{
    let cu = c as u32;
    if c == '"' {
        push_char(out, '\\');
        push_char(out, '"');
        proof {
            assert(out@ =~= old(out)@ + esc_char(c));
        }
    } else if c == '\\' {
        push_char(out, '\\');
        push_char(out, '\\');
        proof {
            assert(out@ =~= old(out)@ + esc_char(c));
        }
    } else if cu == 8 {
        push_char(out, '\\');
        push_char(out, 'b');
        proof {
            assert(out@ =~= old(out)@ + esc_char(c));
        }
    } else if cu == 12 {
        push_char(out, '\\');
        push_char(out, 'f');
        proof {
            assert(out@ =~= old(out)@ + esc_char(c));
        }
    } else if c == '\n' {
        push_char(out, '\\');
        push_char(out, 'n');
        proof {
            assert(out@ =~= old(out)@ + esc_char(c));
        }
    } else if c == '\r' {
        push_char(out, '\\');
        push_char(out, 'r');
        proof {
            assert(out@ =~= old(out)@ + esc_char(c));
        }
    } else if c == '\t' {
        push_char(out, '\\');
        push_char(out, 't');
        proof {
            assert(out@ =~= old(out)@ + esc_char(c));
        }
    } else if cu < 32 {
        push_char(out, '\\');
        push_char(out, 'u');
        push_char(out, '0');
        push_char(out, '0');
        push_char(out, hex_digit_char((cu / 16) as u8));
        push_char(out, hex_digit_char((cu % 16) as u8));
        proof {
            assert(out@ =~= old(out)@ + esc_char(c));
        }
    } else {
        push_char(out, c);
        proof {
            assert(out@ =~= old(out)@ + esc_char(c));
        }
    }
}

/// Escapes `s` for embedding between double quotes in a JSON text.
pub fn escape_json_string(s: &str) -> (r: String)
    ensures
        r@ == json_escape(s@),
{
    let len = s.unicode_len();
    let mut out = String::new();
    let mut i: usize = 0;
    proof {
        assert(s@.take(0) =~= Seq::<char>::empty());
    }
    while i < len
        invariant
            i <= len,
            len == s@.len(),
            out@ == json_escape(s@.take(i as int)),
        decreases len - i,
    {
        let c = s.get_char(i);
        push_escaped(&mut out, c);
        proof {
            lemma_json_escape_push(s@.take(i as int), c);
            assert(s@.take(i as int).push(c) =~= s@.take(i as int + 1));
        }
        i += 1;
    }
    proof {
        assert(s@.take(len as int) =~= s@);
    }
    out
}

/// The character denoted by a two-character escape `\e`.
pub open spec fn unesc_simple(e: char) -> char {
    if e == '"' {
        '"'
    } else if e == '\\' {
        '\\'
    } else if e == '/' {
        '/'
    } else if e == 'b' {
        (8 as u8) as char
    } else if e == 'f' {
        (12 as u8) as char
    } else if e == 'n' {
        '\n'
    } else if e == 'r' {
        '\r'
    } else {
        '\t'
    }
}

/// Whether `e` is one of the two-character escape letters.
pub open spec fn is_simple_escape(e: char) -> bool {
    e == '"' || e == '\\' || e == '/' || e == 'b' || e == 'f' || e == 'n' || e == 'r' || e == 't'
}

/// Reads a JSON string literal body starting at `i` (just after the opening
/// quote): the decoded characters, and the position after the closing quote.
/// Accepts the two-character escapes, `\uXXXX` for any code point of the
/// basic plane, and surrogate pairs for the rest; rejects raw control
/// characters, unknown escapes, and lone surrogates.
pub open spec fn unesc(s: Seq<char>, i: nat) -> Option<(Seq<char>, nat)>
    decreases s.len() - i,
    when i <= s.len()
{
    if i >= s.len() {
        None
    } else if s[i as int] == '"' {
        Some((Seq::empty(), (i + 1) as nat))
    } else if s[i as int] == '\\' {
        if i + 1 >= s.len() {
            None
        } else {
            let e = s[i as int + 1];
            if is_simple_escape(e) {
                match unesc(s, (i + 2) as nat) {
                    None => None,
                    Some((v, j)) => Some((seq![unesc_simple(e)] + v, j)),
                }
            } else if e == 'u' {
                if i + 6 <= s.len() && is_hex_digit(s[i as int + 2]) && is_hex_digit(
                    s[i as int + 3],
                ) && is_hex_digit(s[i as int + 4]) && is_hex_digit(s[i as int + 5]) {
                    let v = hex_val(s[i as int + 2]) * 4096 + hex_val(s[i as int + 3]) * 256
                        + hex_val(s[i as int + 4]) * 16 + hex_val(s[i as int + 5]);
                    if v < 0xD800 || v >= 0xE000 {
                        match unesc(s, (i + 6) as nat) {
                            None => None,
                            Some((w, j)) => Some((seq![((v as u32) as char)] + w, j)),
                        }
                    } else if v < 0xDC00 {
                        // a high surrogate: a low surrogate escape must follow
                        if i + 12 <= s.len() && s[i as int + 6] == '\\' && s[i as int + 7] == 'u'
                            && is_hex_digit(s[i as int + 8]) && is_hex_digit(s[i as int + 9])
                            && is_hex_digit(s[i as int + 10]) && is_hex_digit(s[i as int + 11]) {
                            let lo = hex_val(s[i as int + 8]) * 4096 + hex_val(s[i as int + 9])
                                * 256 + hex_val(s[i as int + 10]) * 16 + hex_val(s[i as int + 11]);
                            if 0xDC00 <= lo < 0xE000 {
                                let cp = 0x10000 + (v - 0xD800) * 0x400 + (lo - 0xDC00);
                                match unesc(s, (i + 12) as nat) {
                                    None => None,
                                    Some((w, j)) => Some((seq![((cp as u32) as char)] + w, j)),
                                }
                            } else {
                                None
                            }
                        } else {
                            None
                        }
                    } else {
                        // a lone low surrogate
                        None
                    }
                } else {
                    None
                }
            } else {
                None
            }
        }
    } else if (s[i as int] as u32) < 32 {
        None
    } else {
        match unesc(s, (i + 1) as nat) {
            None => None,
            Some((v, j)) => Some((seq![s[i as int]] + v, j)),
        }
    }
}

/// Prefixes the decoded characters of an unescape result.
pub open spec fn unesc_prepend(p: Seq<char>, o: Option<(Seq<char>, nat)>) -> Option<
    (Seq<char>, nat),
> {
    match o {
        None => None,
        Some((v, j)) => Some((p + v, j)),
    }
}

/// Prefixing twice is prefixing with the concatenation.
proof fn lemma_unesc_prepend_assoc(a: Seq<char>, b: Seq<char>, o: Option<(Seq<char>, nat)>)
    ensures
        unesc_prepend(a, unesc_prepend(b, o)) == unesc_prepend(a + b, o),
{
    match o {
        None => {
        },
        Some((v, j)) => {
            assert(a + (b + v) =~= (a + b) + v);
        },
    }
}

/// Returns the numeric value of a hexadecimal digit character.
fn hex_val_char(c: char) -> (r: Option<u8>)
    ensures
        r is Some <==> is_hex_digit(c),
        r matches Some(v) ==> v == hex_val(c) && v < 16,
{
    let cu = c as u32;
    if 48 <= cu && cu <= 57 {
        Some((cu - 48) as u8)
    } else if 97 <= cu && cu <= 102 {
        Some((cu - 87) as u8)
    } else if 65 <= cu && cu <= 70 {
        Some((cu - 55) as u8)
    } else {
        None
    }
}

/// Reads the body of a JSON string literal starting at `from` (just after the
/// opening quote), returning the decoded text and the position after the
/// closing quote. Accepts the standard escapes, surrogate pairs included.
pub fn parse_json_string_body(s: &str, from: usize) -> (r: Option<(String, usize)>)
    requires
        from <= s@.len(),
    ensures
        r matches Some((v, end)) ==> unesc(s@, from as nat) == Some((v@, end as nat)) && from < end
            <= s@.len(),
        r is None ==> unesc(s@, from as nat) is None,
{
    let len = s.unicode_len();
    let mut out = String::new();
    let mut i: usize = from;
    proof {
        assert(Seq::<char>::empty() + Seq::<char>::empty() =~= Seq::<char>::empty());
    }
    while i < len
        invariant
            from <= i <= len,
            len == s@.len(),
            unesc(s@, from as nat) == unesc_prepend(out@, unesc(s@, i as nat)),
        decreases len - i,
    {
        let c = s.get_char(i);
        let cu = c as u32;
        if c == '"' {
            proof {
                assert(unesc(s@, i as nat) == Some((Seq::<char>::empty(), (i + 1) as nat)));
                assert(out@ + Seq::<char>::empty() =~= out@);
            }
            return Some((out, i + 1));
        } else if c == '\\' {
            if i + 1 >= len {
                return None;
            }
            let e = s.get_char(i + 1);
            let ghost pre = out@;
            if e == '"' || e == '\\' || e == '/' || e == 'b' || e == 'f' || e == 'n' || e == 'r'
                || e == 't' {
                let d: char = if e == '"' {
                    '"'
                } else if e == '\\' {
                    '\\'
                } else if e == '/' {
                    '/'
                } else if e == 'b' {
                    (8 as u8) as char
                } else if e == 'f' {
                    (12 as u8) as char
                } else if e == 'n' {
                    '\n'
                } else if e == 'r' {
                    '\r'
                } else {
                    '\t'
                };
                push_char(&mut out, d);
                proof {
                    assert(d == unesc_simple(e));
                    assert(unesc(s@, i as nat) == unesc_prepend(
                        seq![unesc_simple(e)],
                        unesc(s@, (i + 2) as nat),
                    ));
                    lemma_unesc_prepend_assoc(
                        pre,
                        seq![unesc_simple(e)],
                        unesc(s@, (i + 2) as nat),
                    );
                    assert(pre + seq![unesc_simple(e)] =~= out@);
                }
                i = i + 2;
            } else if e == 'u' {
                if len - i < 6 {
                    return None;
                }
                let h2 = hex_val_char(s.get_char(i + 2));
                let h3 = hex_val_char(s.get_char(i + 3));
                let h4 = hex_val_char(s.get_char(i + 4));
                let h5 = hex_val_char(s.get_char(i + 5));
                match (h2, h3, h4, h5) {
                    (Some(a), Some(b), Some(cc), Some(dd)) => {
                        let v: u32 = (a as u32) * 4096 + (b as u32) * 256 + (cc as u32) * 16 + (
                        dd as u32);
                        if v < 0xD800 || v >= 0xE000 {
                            let d = match char::from_u32(v) {
                                Some(d) => d,
                                None => {
                                    proof {
                                        assert(false);
                                    }
                                    return None;
                                },
                            };
                            push_char(&mut out, d);
                            proof {
                                assert(unesc(s@, i as nat) == unesc_prepend(
                                    seq![d],
                                    unesc(s@, (i + 6) as nat),
                                ));
                                lemma_unesc_prepend_assoc(pre, seq![d], unesc(s@, (i + 6) as nat));
                                assert(pre + seq![d] =~= out@);
                            }
                            i = i + 6;
                        } else if v < 0xDC00 {
                            if len - i < 12 {
                                return None;
                            }
                            if s.get_char(i + 6) != '\\' || s.get_char(i + 7) != 'u' {
                                return None;
                            }
                            let g2 = hex_val_char(s.get_char(i + 8));
                            let g3 = hex_val_char(s.get_char(i + 9));
                            let g4 = hex_val_char(s.get_char(i + 10));
                            let g5 = hex_val_char(s.get_char(i + 11));
                            match (g2, g3, g4, g5) {
                                (Some(la), Some(lb), Some(lc), Some(ld)) => {
                                    let lo: u32 = (la as u32) * 4096 + (lb as u32) * 256 + (
                                    lc as u32) * 16 + (ld as u32);
                                    if !(0xDC00 <= lo && lo < 0xE000) {
                                        return None;
                                    }
                                    let cp: u32 = 0x10000 + (v - 0xD800) * 0x400 + (lo - 0xDC00);
                                    let d = match char::from_u32(cp) {
                                        Some(d) => d,
                                        None => {
                                            proof {
                                                assert(false);
                                            }
                                            return None;
                                        },
                                    };
                                    push_char(&mut out, d);
                                    proof {
                                        assert(unesc(s@, i as nat) == unesc_prepend(
                                            seq![d],
                                            unesc(s@, (i + 12) as nat),
                                        ));
                                        lemma_unesc_prepend_assoc(
                                            pre,
                                            seq![d],
                                            unesc(s@, (i + 12) as nat),
                                        );
                                        assert(pre + seq![d] =~= out@);
                                    }
                                    i = i + 12;
                                },
                                _ => {
                                    return None;
                                },
                            }
                        } else {
                            return None;
                        }
                    },
                    _ => {
                        return None;
                    },
                }
            } else {
                return None;
            }
        } else if cu < 32 {
            return None;
        } else {
            let ghost pre = out@;
            push_char(&mut out, c);
            proof {
                assert(unesc(s@, i as nat) == unesc_prepend(seq![c], unesc(s@, (i + 1) as nat)));
                lemma_unesc_prepend_assoc(pre, seq![c], unesc(s@, (i + 1) as nat));
                assert(pre + seq![c] =~= out@);
            }
            i = i + 1;
        }
    }
    None
}

/// Whether two texts hold the same characters.
pub fn str_eq(a: &str, b: &str) -> (r: bool)
    ensures
        r <==> a@ == b@,
{
    let la = a.unicode_len();
    let lb = b.unicode_len();
    if la != lb {
        return false;
    }
    let mut k: usize = 0;
    while k < la
        invariant
            0 <= k <= la,
            la == a@.len(),
            la == b@.len(),
            forall|j: int| 0 <= j < k ==> a@[j] == b@[j],
        decreases la - k,
    {
        if a.get_char(k) != b.get_char(k) {
            return false;
        }
        k += 1;
    }
    proof {
        assert(a@ =~= b@);
    }
    true
}

/// Characters with the same code point are the same character.
proof fn lemma_char_code_eq(c: char, d: char)
    requires
        c as u32 == d as u32,
    ensures
        c == d,
{
}

/// The hexadecimal digit character of `d` reads back as `d`.
proof fn lemma_hex_digit_val(d: nat)
    requires
        d < 16,
    ensures
        is_hex_digit(hex_digit(d)),
        hex_val(hex_digit(d)) == d,
{
    if d < 10 {
        assert(hex_digit(d) as u32 == 48 + d);
    } else {
        assert(hex_digit(d) as u32 == 87 + d);
    }
}

/// Unescaping reads back exactly what escaping wrote: when the text at `i`
/// is the escape of `v` followed by a closing quote, the string literal body
/// decodes to `v` and ends right after that quote.
#[verifier::rlimit(50)]
pub proof fn lemma_unesc_escape(s: Seq<char>, i: nat, v: Seq<char>)
    requires
        i + json_escape(v).len() + 1 <= s.len(),
        s.subrange(i as int, (i + json_escape(v).len()) as int) == json_escape(v),
        s[(i + json_escape(v).len()) as int] == '"',
    ensures
        unesc(s, i) == Some((v, (i + json_escape(v).len() + 1) as nat)),
    decreases v.len(),
{
    let e_v = json_escape(v);
    assert forall|j: int| 0 <= j < e_v.len() implies s[i as int + j] == e_v[j] by {
        assert(s.subrange(i as int, (i + e_v.len()) as int)[j] == e_v[j]);
    }
    if v.len() == 0 {
        assert(e_v == Seq::<char>::empty());
        assert(s[i as int] == '"');
        assert(unesc(s, i) == Some((Seq::<char>::empty(), (i + 1) as nat)));
        assert(v =~= Seq::<char>::empty());
    } else {
        let c = v[0];
        let rest = v.skip(1);
        let esc = esc_char(c);
        let k = esc.len();
        let e_r = json_escape(rest);
        assert(e_v == esc + e_r);
        assert(e_v.len() == k + e_r.len());
        assert forall|j: int| 0 <= j < k implies s[i as int + j] == esc[j] by {
            assert(e_v[j] == esc[j]);
        }
        assert(s.subrange((i + k) as int, ((i + k) + e_r.len()) as int) =~= e_r) by {
            assert forall|j: int|
                0 <= j < e_r.len() implies s.subrange(
                (i + k) as int,
                ((i + k) + e_r.len()) as int,
            )[j] == e_r[j] by {
                assert(e_v[k + j] == e_r[j]);
                assert(s[i as int + (k + j)] == e_v[k + j]);
            }
        }
        assert(s[((i + k) + e_r.len()) as int] == '"');
        lemma_unesc_escape(s, (i + k) as nat, rest);
        let end = (i + e_v.len() + 1) as nat;
        assert(unesc(s, (i + k) as nat) == Some((rest, end)));
        if c == '"' || c == '\\' || c as u32 == 8 || c as u32 == 12 || c == '\n' || c == '\r' || c
            == '\t' {
            // a two-character escape
            assert(k == 2);
            assert(s[i as int] == '\\');
            let e = s[i as int + 1];
            assert(e == esc[1]);
            assert(is_simple_escape(e));
            if c == '"' {
                assert(e == '"');
            } else if c == '\\' {
                assert(e == '\\');
            } else if c as u32 == 8 {
                assert(e == 'b');
                assert(unesc_simple(e) as u32 == 8);
            } else if c as u32 == 12 {
                assert(e == 'f');
                assert(unesc_simple(e) as u32 == 12);
            } else if c == '\n' {
                assert(e == 'n');
            } else if c == '\r' {
                assert(e == 'r');
            } else {
                assert(e == 't');
            }
            assert(unesc_simple(e) as u32 == c as u32);
            lemma_char_code_eq(unesc_simple(e), c);
            assert(unesc_simple(e) == c);
            assert(unesc(s, i) == Some((seq![c] + rest, end)));
            assert(seq![c] + rest =~= v);
        } else if (c as u32) < 32 {
            // the \u00XX form
            let cu = c as u32;
            let hi = (cu / 16) as nat;
            let lo = (cu % 16) as nat;
            lemma_hex_digit_val(hi);
            lemma_hex_digit_val(lo);
            assert(k == 6);
            assert(s[i as int] == '\\');
            assert(s[i as int + 1] == 'u');
            assert(s[i as int + 2] == '0');
            assert(s[i as int + 3] == '0');
            assert(s[i as int + 4] == hex_digit(hi));
            assert(s[i as int + 5] == hex_digit(lo));
            assert(!is_simple_escape('u'));
            assert(is_hex_digit('0') && hex_val('0') == 0);
            let w = hex_val(s[i as int + 2]) * 4096 + hex_val(s[i as int + 3]) * 256 + hex_val(
                s[i as int + 4],
            ) * 16 + hex_val(s[i as int + 5]);
            assert(w == hi * 16 + lo);
            assert(hi * 16 + lo == cu) by (nonlinear_arith)
                requires
                    hi == (cu / 16) as nat,
                    lo == (cu % 16) as nat,
                    cu < 32,
            ;
            assert(w < 0xD800);
            assert(w == cu);
            assert(((w as u32) as char) as u32 == c as u32);
            lemma_char_code_eq(((w as u32) as char), c);
            assert(((w as u32) as char) == c);
            assert(unesc(s, i) == Some((seq![c] + rest, end)));
            assert(seq![c] + rest =~= v);
        } else {
            // the character stands for itself
            assert(k == 1);
            assert(esc[0] == c);
            assert(s[i as int] == esc[0]);
            assert(s[i as int] == c);
            assert(c != '"' && c != '\\' && (c as u32) >= 32);
            assert(unesc(s, i) == Some((seq![c] + rest, end)));
            assert(seq![c] + rest =~= v);
        }
    }
}

} // verus!



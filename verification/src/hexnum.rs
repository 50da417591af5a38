//! Shared parsing and printing of hex-encoded numeric fields.
//!
//! JSON-RPC style transports carry numbers as `0x`-prefixed hex strings.
//! Decoding is lenient: a missing or (after trimming whitespace) empty string
//! yields `None`, an optional `0x` prefix is stripped, and any malformed hex
//! degrades to `None` instead of failing the whole decode. Encoding always
//! produces `0x`-prefixed lowercase hex.

use vstd::prelude::*;
use vstd::string::*;

verus! {

/// Whitespace characters removed from the ends of a numeric field.
pub open spec fn is_space(c: char) -> bool {
    c == ' ' || c == '\t' || c == '\n' || c == '\r' || c == '\u{c}'
}

/// Hexadecimal digits, either case.
pub open spec fn is_hex_digit(c: char) -> bool {
    ('0' <= c && c <= '9') || ('a' <= c && c <= 'f') || ('A' <= c && c <= 'F')
}

/// Numeric value of one hex digit.
pub open spec fn hex_digit_val(c: char) -> nat {
    if '0' <= c && c <= '9' {
        (c as nat - '0' as nat) as nat
    } else if 'a' <= c && c <= 'f' {
        (c as nat - 'a' as nat + 10) as nat
    } else if 'A' <= c && c <= 'F' {
        (c as nat - 'A' as nat + 10) as nat
    } else {
        0
    }
}

/// Every character of `s` is a hex digit.
pub open spec fn all_hex(s: Seq<char>) -> bool {
    forall|i: int| 0 <= i < s.len() ==> is_hex_digit(#[trigger] s[i])
}

/// Value of a big-endian sequence of hex digits.
pub open spec fn hex_val(s: Seq<char>) -> nat
    decreases s.len(),
{
    if s.len() == 0 {
        0
    } else {
        hex_val(s.drop_last()) * 16 + hex_digit_val(s.last())
    }
}

/// Drop leading whitespace.
pub open spec fn trim_front(s: Seq<char>) -> Seq<char>
    decreases s.len(),
{
    if s.len() > 0 && is_space(s[0]) {
        trim_front(s.skip(1))
    } else {
        s
    }
}

/// Drop trailing whitespace.
pub open spec fn trim_back(s: Seq<char>) -> Seq<char>
    decreases s.len(),
{
    if s.len() > 0 && is_space(s.last()) {
        trim_back(s.drop_last())
    } else {
        s
    }
}

/// Drop whitespace from both ends.
pub open spec fn trim(s: Seq<char>) -> Seq<char> {
    trim_back(trim_front(s))
}

/// Strip one optional leading `0x`.
pub open spec fn strip_hex_prefix(s: Seq<char>) -> Seq<char> {
    if s.len() >= 2 && s[0] == '0' && s[1] == 'x' {
        s.skip(2)
    } else {
        s
    }
}

/// Lenient parse of a hex numeric field into a 64-bit integer:
/// `None` when empty after trimming, malformed, or out of range.
pub open spec fn parse_hex_u64(s: Seq<char>) -> Option<u64> {
    let t = trim(s);
    if t.len() == 0 {
        None
    } else {
        let d = strip_hex_prefix(t);
        if d.len() > 0 && all_hex(d) && hex_val(d) <= u64::MAX {
            Some(hex_val(d) as u64)
        } else {
            None
        }
    }
}

/// Lenient parse of a hex numeric field into a 128-bit integer.
pub open spec fn parse_hex_u128(s: Seq<char>) -> Option<u128> {
    let t = trim(s);
    if t.len() == 0 {
        None
    } else {
        let d = strip_hex_prefix(t);
        if d.len() > 0 && all_hex(d) && hex_val(d) <= u128::MAX {
            Some(hex_val(d) as u128)
        } else {
            None
        }
    }
}

/// Lenient parse of an optional field: absent means `None`.
pub open spec fn parse_opt_u64(s: Option<String>) -> Option<u64> {
    match s {
        Option::None => Option::None,
        Option::Some(x) => parse_hex_u64(x@),
    }
}

/// Lenient parse of an optional field: absent means `None`.
pub open spec fn parse_opt_u128(s: Option<String>) -> Option<u128> {
    match s {
        Option::None => Option::None,
        Option::Some(x) => parse_hex_u128(x@),
    }
}

/// Lowercase hex digit for a value below sixteen.
pub open spec fn hex_digit_char(d: nat) -> char {
    if d == 0 { '0' } else if d == 1 { '1' } else if d == 2 { '2' } else if d == 3 { '3' }
    else if d == 4 { '4' } else if d == 5 { '5' } else if d == 6 { '6' } else if d == 7 { '7' }
    else if d == 8 { '8' } else if d == 9 { '9' } else if d == 10 { 'a' } else if d == 11 { 'b' }
    else if d == 12 { 'c' } else if d == 13 { 'd' } else if d == 14 { 'e' } else { 'f' }
}

/// Shortest big-endian lowercase hex digit sequence for `n`.
pub open spec fn hex_digits_of(n: nat) -> Seq<char>
    decreases n,
{
    if n < 16 {
        seq![hex_digit_char(n)]
    } else {
        hex_digits_of(n / 16).push(hex_digit_char(n % 16))
    }
}

/// Canonical wire form of a number: `0x` plus shortest lowercase hex.
pub open spec fn hex_quantity(n: nat) -> Seq<char> {
    seq!['0', 'x'] + hex_digits_of(n)
}

/// Collect the characters of a string slice.
pub(crate) fn chars_of(s: &str) -> (r: Vec<char>)
    ensures
        r@ == s@,
{
    let n = s.unicode_len();
    let mut r: Vec<char> = Vec::new();
    let mut i: usize = 0;
    while i < n
        invariant
            i <= n,
            n == s@.len(),
            r@ == s@.take(i as int),
        decreases n - i,
    {
        let c = s.get_char(i);
        r.push(c);
        i = i + 1;
        proof {
            assert(r@ =~= s@.take(i as int));
        }
    }
    proof {
        assert(s@.take(n as int) =~= s@);
    }
    r
}

/// Whether `c` is trimmed whitespace.
fn is_space_char(c: char) -> (r: bool)
    ensures
        r == is_space(c),
{
    c == ' ' || c == '\t' || c == '\n' || c == '\r' || c == '\u{c}'
}

proof fn lemma_trim_front_skip(s: Seq<char>, i: int)
    requires
        0 <= i <= s.len(),
        forall|k: int| 0 <= k < i ==> is_space(#[trigger] s[k]),
        i == s.len() || !is_space(s[i]),
    ensures
        trim_front(s) == s.skip(i),
    decreases i,
{
    if i == 0 {
        assert(s.skip(0) =~= s);
    } else {
        lemma_trim_front_skip(s.skip(1), i - 1);
        assert(s.skip(1).skip(i - 1) =~= s.skip(i));
    }
}

proof fn lemma_trim_back_take(s: Seq<char>, j: int)
    requires
        0 <= j <= s.len(),
        forall|k: int| j <= k < s.len() ==> is_space(#[trigger] s[k]),
        j == 0 || !is_space(s[j - 1]),
    ensures
        trim_back(s) == s.take(j),
    decreases s.len() - j,
{
    if j == s.len() {
        assert(s.take(j) =~= s);
    } else {
        lemma_trim_back_take(s.drop_last(), j);
        assert(s.drop_last().take(j) =~= s.take(j));
    }
}

/// Index range that survives trimming: `trim(v@) == v@.subrange(r.0, r.1)`.
pub(crate) fn trim_range(v: &Vec<char>) -> (r: (usize, usize))
    ensures
        r.0 <= r.1 <= v@.len(),
        trim(v@) == v@.subrange(r.0 as int, r.1 as int),
{
    let n = v.len();
    let mut start: usize = 0;
    while start < n && is_space_char(v[start])
        invariant
            start <= n,
            n == v@.len(),
            forall|k: int| 0 <= k < start ==> is_space(#[trigger] v@[k]),
        decreases n - start,
    {
        start = start + 1;
    }
    proof {
        lemma_trim_front_skip(v@, start as int);
    }
    if start == n {
        proof {
            assert(trim_front(v@) =~= v@.subrange(start as int, n as int));
            lemma_trim_back_take(trim_front(v@), 0);
            assert(trim_front(v@).take(0) =~= v@.subrange(start as int, start as int));
        }
        return (n, n);
    }
    let mut end: usize = n;
    while end > start && is_space_char(v[end - 1])
        invariant
            start <= end <= n,
            n == v@.len(),
            !is_space(v@[start as int]),
            forall|k: int| end <= k < n ==> is_space(#[trigger] v@[k]),
        decreases end,
    {
        end = end - 1;
    }
    proof {
        let t = trim_front(v@);
        assert(t =~= v@.subrange(start as int, n as int));
        assert(end > start) by {
            if end == start {
                assert(is_space(v@[start as int]));
            }
        }
        assert(forall|k: int| end - start <= k < t.len() ==> is_space(#[trigger] t[k])) by {
            assert(forall|k: int| end - start <= k < t.len() ==> t[k] == v@[k + start as int]);
        }
        assert(t[end - start - 1] == v@[end - 1]);
        lemma_trim_back_take(t, end - start);
        assert(t.take(end - start) =~= v@.subrange(start as int, end as int));
    }
    (start, end)
}

/// Numeric value of a hex digit character, if it is one.
fn hex_digit_value(c: char) -> (r: Option<u8>)
    ensures
        match r {
            Option::Some(x) => is_hex_digit(c) && x < 16 && x as nat == hex_digit_val(c),
            Option::None => !is_hex_digit(c),
        },
{
    if '0' <= c && c <= '9' {
        Some((c as u32 - '0' as u32) as u8)
    } else if 'a' <= c && c <= 'f' {
        Some((c as u32 - 'a' as u32 + 10) as u8)
    } else if 'A' <= c && c <= 'F' {
        Some((c as u32 - 'A' as u32 + 10) as u8)
    } else {
        None
    }
}

proof fn lemma_hex_val_monotone(s: Seq<char>, a: int, b: int)
    requires
        0 <= a <= b <= s.len(),
    ensures
        hex_val(s.take(a)) <= hex_val(s.take(b)),
    decreases b - a,
{
    if a < b {
        lemma_hex_val_monotone(s, a, b - 1);
        assert(s.take(b).drop_last() =~= s.take(b - 1));
        assert(hex_val(s.take(b)) == hex_val(s.take(b - 1)) * 16 + hex_digit_val(s.take(b).last()));
        assert(hex_val(s.take(b - 1)) * 16 >= hex_val(s.take(b - 1))) by (nonlinear_arith);
    }
}

/// Lenient hex parse of a 64-bit field, shared by every numeric field site.
pub fn parse_hex_str_u64(s: &str) -> (r: Option<u64>)
    ensures
        r == parse_hex_u64(s@),
{
    let v = chars_of(s);
    let (start, end) = trim_range(&v);
    let ghost t = trim(s@);
    if start == end {
        return None;
    }
    let mut i: usize = start;
    if end - start >= 2 {
        let c0 = v[start];
        let c1 = v[start + 1];
        if c0 == '0' && c1 == 'x' {
            i = start + 2;
        }
    }
    let ghost d = strip_hex_prefix(t);
    proof {
        assert(t.len() == end - start);
        if i == start + 2 {
            assert(t[0] == v@[start as int] && t[1] == v@[start as int + 1]);
            assert(t.skip(2) =~= v@.subrange(i as int, end as int));
        } else {
            if t.len() >= 2 && t[0] == '0' && t[1] == 'x' {
                assert(t[0] == v@[start as int] && t[1] == v@[start as int + 1]);
                assert(false);
            }
        }
        assert(d =~= v@.subrange(i as int, end as int));
    }
    if i == end {
        return None;
    }
    let mut acc: u64 = 0;
    let mut j: usize = i;
    while j < end
        invariant
            i <= j <= end,
            start < end <= v@.len(),
            i < end,
            v@ == s@,
            trim(s@) == v@.subrange(start as int, end as int),
            d == strip_hex_prefix(trim(s@)),
            d == v@.subrange(i as int, end as int),
            all_hex(d.take(j - i)),
            acc as nat == hex_val(d.take(j - i)),
        decreases end - j,
    {
        let c = v[j];
        proof {
            assert(d[j - i] == v@[j as int]);
        }
        match hex_digit_value(c) {
            Option::None => {
                proof {
                    assert(!is_hex_digit(d[j - i]));
                    assert(!all_hex(d));
                }
                return None;
            },
            Option::Some(x) => {
                if acc > (u64::MAX - x as u64) / 16 {
                    proof {
                        let jj = (j - i) as int;
                        assert(d.take(jj + 1).drop_last() =~= d.take(jj));
                        assert(d.take(jj + 1).last() == d[jj]);
                        assert(hex_val(d.take(jj + 1)) == acc as nat * 16 + x as nat);
                        let m = (u64::MAX - x as u64) as nat;
                        assert(acc as nat * 16 > m) by (nonlinear_arith)
                            requires
                                acc as nat > m / 16,
                        ;
                        lemma_hex_val_monotone(d, jj + 1, d.len() as int);
                        assert(d.take(d.len() as int) =~= d);
                        assert(hex_val(d) > u64::MAX);
                    }
                    return None;
                }
                proof {
                    let m = (u64::MAX - x as u64) as nat;
                    assert(acc as nat * 16 <= m - m % 16) by (nonlinear_arith)
                        requires
                            acc as nat <= m / 16,
                    ;
                    let jj = (j - i) as int;
                    assert(d.take(jj + 1).drop_last() =~= d.take(jj));
                    assert(d.take(jj + 1).last() == d[jj]);
                }
                acc = acc * 16 + x as u64;
                j = j + 1;
            },
        }
    }
    proof {
        assert(d.take(d.len() as int) =~= d);
    }
    Some(acc)
}

/// Lenient hex parse of a 128-bit field, shared by every numeric field site.
pub fn parse_hex_str_u128(s: &str) -> (r: Option<u128>)
    ensures
        r == parse_hex_u128(s@),
{
    let v = chars_of(s);
    let (start, end) = trim_range(&v);
    let ghost t = trim(s@);
    if start == end {
        return None;
    }
    let mut i: usize = start;
    if end - start >= 2 {
        let c0 = v[start];
        let c1 = v[start + 1];
        if c0 == '0' && c1 == 'x' {
            i = start + 2;
        }
    }
    let ghost d = strip_hex_prefix(t);
    proof {
        assert(t.len() == end - start);
        if i == start + 2 {
            assert(t[0] == v@[start as int] && t[1] == v@[start as int + 1]);
            assert(t.skip(2) =~= v@.subrange(i as int, end as int));
        } else {
            if t.len() >= 2 && t[0] == '0' && t[1] == 'x' {
                assert(t[0] == v@[start as int] && t[1] == v@[start as int + 1]);
                assert(false);
            }
        }
        assert(d =~= v@.subrange(i as int, end as int));
    }
    if i == end {
        return None;
    }
    let mut acc: u128 = 0;
    let mut j: usize = i;
    while j < end
        invariant
            i <= j <= end,
            start < end <= v@.len(),
            i < end,
            v@ == s@,
            trim(s@) == v@.subrange(start as int, end as int),
            d == strip_hex_prefix(trim(s@)),
            d == v@.subrange(i as int, end as int),
            all_hex(d.take(j - i)),
            acc as nat == hex_val(d.take(j - i)),
        decreases end - j,
    {
        let c = v[j];
        proof {
            assert(d[j - i] == v@[j as int]);
        }
        match hex_digit_value(c) {
            Option::None => {
                proof {
                    assert(!is_hex_digit(d[j - i]));
                    assert(!all_hex(d));
                }
                return None;
            },
            Option::Some(x) => {
                if acc > (u128::MAX - x as u128) / 16 {
                    proof {
                        let jj = (j - i) as int;
                        assert(d.take(jj + 1).drop_last() =~= d.take(jj));
                        assert(d.take(jj + 1).last() == d[jj]);
                        assert(hex_val(d.take(jj + 1)) == acc as nat * 16 + x as nat);
                        let m = (u128::MAX - x as u128) as nat;
                        assert(acc as nat * 16 > m) by (nonlinear_arith)
                            requires
                                acc as nat > m / 16,
                        ;
                        lemma_hex_val_monotone(d, jj + 1, d.len() as int);
                        assert(d.take(d.len() as int) =~= d);
                        assert(hex_val(d) > u128::MAX);
                    }
                    return None;
                }
                proof {
                    let m = (u128::MAX - x as u128) as nat;
                    assert(acc as nat * 16 <= m - m % 16) by (nonlinear_arith)
                        requires
                            acc as nat <= m / 16,
                    ;
                    let jj = (j - i) as int;
                    assert(d.take(jj + 1).drop_last() =~= d.take(jj));
                    assert(d.take(jj + 1).last() == d[jj]);
                }
                acc = acc * 16 + x as u128;
                j = j + 1;
            },
        }
    }
    proof {
        assert(d.take(d.len() as int) =~= d);
    }
    Some(acc)
}

/// Parse an optional 64-bit numeric field; absent means `None`.
pub fn parse_u64_opt_hex(s: &Option<String>) -> (r: Option<u64>)
    ensures
        r == parse_opt_u64(*s),
{
    match s {
        Option::None => None,
        Option::Some(x) => parse_hex_str_u64(x.as_str()),
    }
}

/// Parse an optional 128-bit numeric field; absent means `None`.
pub fn parse_u128_opt_hex(s: &Option<String>) -> (r: Option<u128>)
    ensures
        r == parse_opt_u128(*s),
{
    match s {
        Option::None => None,
        Option::Some(x) => parse_hex_str_u128(x.as_str()),
    }
}


/// The hex digits of a value parse back to that value.
pub proof fn lemma_hex_digits_wf(n: nat)
    ensures
        hex_digits_of(n).len() >= 1,
        all_hex(hex_digits_of(n)),
        hex_val(hex_digits_of(n)) == n,
    decreases n,
{
    if n < 16 {
        let d = hex_digits_of(n);
        assert(d =~= seq![hex_digit_char(n)]);
        assert(d.len() == 1);
        assert(d.last() == hex_digit_char(n));
        assert(d.drop_last() =~= Seq::<char>::empty());
        assert(hex_val(Seq::<char>::empty()) == 0);
        assert(hex_val(d) == hex_val(d.drop_last()) * 16 + hex_digit_val(d.last()));
        assert(hex_digit_val(hex_digit_char(n)) == n);
    } else {
        lemma_hex_digits_wf(n / 16);
        let d = hex_digits_of(n);
        assert(d.drop_last() =~= hex_digits_of(n / 16));
        assert(d.last() == hex_digit_char(n % 16));
        assert(hex_digit_val(hex_digit_char(n % 16)) == n % 16);
        assert(hex_val(d) == (n / 16) * 16 + n % 16);
        assert((n / 16) * 16 + n % 16 == n) by (nonlinear_arith);
        assert(forall|i: int| 0 <= i < d.len() ==> is_hex_digit(#[trigger] d[i]));
    }
}

/// A hex digit is never whitespace.
pub proof fn lemma_hex_digit_not_space(c: char)
    requires
        is_hex_digit(c),
    ensures
        !is_space(c),
{
}

/// Decoding inverts canonical encoding on 64-bit values.
pub proof fn lemma_parse_hex_quantity_u64(n: u64)
    ensures
        parse_hex_u64(hex_quantity(n as nat)) == Some(n),
{
    let q = hex_quantity(n as nat);
    let digits = hex_digits_of(n as nat);
    lemma_hex_digits_wf(n as nat);
    assert(q[0] == '0' && q[1] == 'x');
    assert(q.last() == digits.last());
    assert(is_hex_digit(digits.last()));
    lemma_hex_digit_not_space(q.last());
    assert(trim_front(q) == q);
    assert(trim_back(q) == q);
    assert(q.skip(2) =~= digits);
    assert(strip_hex_prefix(q) == digits);
}

/// Decoding inverts canonical encoding on 128-bit values.
pub proof fn lemma_parse_hex_quantity_u128(n: u128)
    ensures
        parse_hex_u128(hex_quantity(n as nat)) == Some(n),
{
    let q = hex_quantity(n as nat);
    let digits = hex_digits_of(n as nat);
    lemma_hex_digits_wf(n as nat);
    assert(q[0] == '0' && q[1] == 'x');
    assert(q.last() == digits.last());
    assert(is_hex_digit(digits.last()));
    lemma_hex_digit_not_space(q.last());
    assert(trim_front(q) == q);
    assert(trim_back(q) == q);
    assert(q.skip(2) =~= digits);
    assert(strip_hex_prefix(q) == digits);
}

/// One lowercase hex digit as a string slice.
fn hex_digit_str(d: u8) -> (r: &'static str)
    requires
        d < 16,
    ensures
        r@ == seq![hex_digit_char(d as nat)],
{
    proof {
        reveal_strlit("0");
        reveal_strlit("1");
        reveal_strlit("2");
        reveal_strlit("3");
        reveal_strlit("4");
        reveal_strlit("5");
        reveal_strlit("6");
        reveal_strlit("7");
        reveal_strlit("8");
        reveal_strlit("9");
        reveal_strlit("a");
        reveal_strlit("b");
        reveal_strlit("c");
        reveal_strlit("d");
        reveal_strlit("e");
        reveal_strlit("f");
    }
    let r: &'static str = if d == 0 { "0" } else if d == 1 { "1" } else if d == 2 { "2" }
        else if d == 3 { "3" } else if d == 4 { "4" } else if d == 5 { "5" }
        else if d == 6 { "6" } else if d == 7 { "7" } else if d == 8 { "8" }
        else if d == 9 { "9" } else if d == 10 { "a" } else if d == 11 { "b" }
        else if d == 12 { "c" } else if d == 13 { "d" } else if d == 14 { "e" }
        else { "f" };
    proof {
        assert(r@ =~= seq![hex_digit_char(d as nat)]);
    }
    r
}

/// Append the shortest lowercase hex form of `n`.
fn push_hex_digits_u64(out: &mut String, n: u64)
    ensures
        final(out)@ == old(out)@ + hex_digits_of(n as nat),
    decreases n,
{
    if n < 16 {
        out.append(hex_digit_str(n as u8));
        proof {
            assert(out@ =~= old(out)@ + hex_digits_of(n as nat));
        }
    } else {
        push_hex_digits_u64(out, n / 16);
        out.append(hex_digit_str((n % 16) as u8));
        proof {
            assert(out@ =~= old(out)@ + hex_digits_of(n as nat));
        }
    }
}

/// Append the shortest lowercase hex form of `n`.
fn push_hex_digits_u128(out: &mut String, n: u128)
    ensures
        final(out)@ == old(out)@ + hex_digits_of(n as nat),
    decreases n,
{
    if n < 16 {
        out.append(hex_digit_str(n as u8));
        proof {
            assert(out@ =~= old(out)@ + hex_digits_of(n as nat));
        }
    } else {
        push_hex_digits_u128(out, n / 16);
        out.append(hex_digit_str((n % 16) as u8));
        proof {
            assert(out@ =~= old(out)@ + hex_digits_of(n as nat));
        }
    }
}

/// Canonical `0x`-prefixed lowercase hex encoding of a 64-bit value.
pub fn encode_hex_u64(n: u64) -> (r: String)
    ensures
        r@ == hex_quantity(n as nat),
{
    let mut s = String::from_str("0x");
    proof {
        reveal_strlit("0x");
    }
    push_hex_digits_u64(&mut s, n);
    proof {
        assert(s@ =~= hex_quantity(n as nat));
    }
    s
}

/// Canonical `0x`-prefixed lowercase hex encoding of a 128-bit value.
pub fn encode_hex_u128(n: u128) -> (r: String)
    ensures
        r@ == hex_quantity(n as nat),
{
    let mut s = String::from_str("0x");
    proof {
        reveal_strlit("0x");
    }
    push_hex_digits_u128(&mut s, n);
    proof {
        assert(s@ =~= hex_quantity(n as nat));
    }
    s
}

/// An optional wire string is the canonical encoding of an optional value:
/// absent maps to absent, present to `0x`-prefixed lowercase hex.
pub open spec fn encoded_opt_u64(r: Option<String>, v: Option<u64>) -> bool {
    match (r, v) {
        (Option::None, Option::None) => true,
        (Option::Some(s), Option::Some(x)) => s@ == hex_quantity(x as nat),
        _ => false,
    }
}

/// An optional wire string is the canonical encoding of an optional value.
pub open spec fn encoded_opt_u128(r: Option<String>, v: Option<u128>) -> bool {
    match (r, v) {
        (Option::None, Option::None) => true,
        (Option::Some(s), Option::Some(x)) => s@ == hex_quantity(x as nat),
        _ => false,
    }
}

/// Re-encode an optional 64-bit field; `None` is omitted, not emitted.
pub fn encode_u64_opt_hex(v: &Option<u64>) -> (r: Option<String>)
    ensures
        encoded_opt_u64(r, *v),
{
    match v {
        Option::None => None,
        Option::Some(x) => Some(encode_hex_u64(*x)),
    }
}

/// Re-encode an optional 128-bit field; `None` is omitted, not emitted.
pub fn encode_u128_opt_hex(v: &Option<u128>) -> (r: Option<String>)
    ensures
        encoded_opt_u128(r, *v),
{
    match v {
        Option::None => None,
        Option::Some(x) => Some(encode_hex_u128(*x)),
    }
}

/// Canonically encoded optional fields decode to what they encoded.
pub proof fn lemma_opt_round_trip_u64(r: Option<String>, v: Option<u64>)
    requires
        encoded_opt_u64(r, v),
    ensures
        parse_opt_u64(r) == v,
{
    match (r, v) {
        (Option::Some(s), Option::Some(x)) => {
            lemma_parse_hex_quantity_u64(x);
        },
        _ => {},
    }
}

/// Canonically encoded optional fields decode to what they encoded.
pub proof fn lemma_opt_round_trip_u128(r: Option<String>, v: Option<u128>)
    requires
        encoded_opt_u128(r, v),
    ensures
        parse_opt_u128(r) == v,
{
    match (r, v) {
        (Option::Some(s), Option::Some(x)) => {
            lemma_parse_hex_quantity_u128(x);
        },
        _ => {},
    }
}


/// Strict parse of a numeric field as the fully-specified shape reads it:
/// a mandatory `0x` prefix, at least one hex digit, nothing else.
pub open spec fn strict_quantity_u64(s: Seq<char>) -> Option<u64> {
    if s.len() >= 3 && s[0] == '0' && s[1] == 'x' && all_hex(s.skip(2)) && hex_val(s.skip(2))
        <= u64::MAX {
        Some(hex_val(s.skip(2)) as u64)
    } else {
        None
    }
}

/// Strict parse of a numeric field into a 128-bit integer.
pub open spec fn strict_quantity_u128(s: Seq<char>) -> Option<u128> {
    if s.len() >= 3 && s[0] == '0' && s[1] == 'x' && all_hex(s.skip(2)) && hex_val(s.skip(2))
        <= u128::MAX {
        Some(hex_val(s.skip(2)) as u128)
    } else {
        None
    }
}

/// Strict parse of an optional field: the outer `None` means the field is
/// present but not strictly well-formed, so the strict shape is not fit.
pub open spec fn strict_opt_u64(s: Option<String>) -> Option<Option<u64>> {
    match s {
        Option::None => Some(Option::None),
        Option::Some(x) => match strict_quantity_u64(x@) {
            Option::Some(v) => Some(Option::Some(v)),
            Option::None => None,
        },
    }
}

/// Strict parse of an optional 128-bit field.
pub open spec fn strict_opt_u128(s: Option<String>) -> Option<Option<u128>> {
    match s {
        Option::None => Some(Option::None),
        Option::Some(x) => match strict_quantity_u128(x@) {
            Option::Some(v) => Some(Option::Some(v)),
            Option::None => None,
        },
    }
}

/// Strict hex parse of a 64-bit field.
pub fn parse_strict_quantity_u64(s: &str) -> (r: Option<u64>)
    ensures
        r == strict_quantity_u64(s@),
{
    let v = chars_of(s);
    let n = v.len();
    if n < 3 {
        return None;
    }
    let c0 = v[0];
    let c1 = v[1];
    if !(c0 == '0' && c1 == 'x') {
        return None;
    }
    let ghost d = s@.skip(2);
    proof {
        assert(d =~= v@.subrange(2, n as int));
    }
    let mut acc: u64 = 0;
    let mut j: usize = 2;
    while j < n
        invariant
            2 <= j <= n,
            3 <= n == v@.len(),
            v@ == s@,
            s@[0] == '0' && s@[1] == 'x',
            d == s@.skip(2),
            d == v@.subrange(2, n as int),
            all_hex(d.take(j - 2)),
            acc as nat == hex_val(d.take(j - 2)),
        decreases n - j,
    {
        let c = v[j];
        proof {
            assert(d[j - 2] == v@[j as int]);
        }
        match hex_digit_value(c) {
            Option::None => {
                proof {
                    assert(!is_hex_digit(d[j - 2]));
                    assert(!all_hex(d));
                }
                return None;
            },
            Option::Some(x) => {
                if acc > (u64::MAX - x as u64) / 16 {
                    proof {
                        let jj = (j - 2) as int;
                        assert(d.take(jj + 1).drop_last() =~= d.take(jj));
                        assert(d.take(jj + 1).last() == d[jj]);
                        assert(hex_val(d.take(jj + 1)) == acc as nat * 16 + x as nat);
                        let m = (u64::MAX - x as u64) as nat;
                        assert(acc as nat * 16 > m) by (nonlinear_arith)
                            requires
                                acc as nat > m / 16,
                        ;
                        lemma_hex_val_monotone(d, jj + 1, d.len() as int);
                        assert(d.take(d.len() as int) =~= d);
                        assert(hex_val(d) > u64::MAX);
                    }
                    return None;
                }
                proof {
                    let m = (u64::MAX - x as u64) as nat;
                    assert(acc as nat * 16 <= m - m % 16) by (nonlinear_arith)
                        requires
                            acc as nat <= m / 16,
                    ;
                    let jj = (j - 2) as int;
                    assert(d.take(jj + 1).drop_last() =~= d.take(jj));
                    assert(d.take(jj + 1).last() == d[jj]);
                }
                acc = acc * 16 + x as u64;
                j = j + 1;
            },
        }
    }
    proof {
        assert(d.take(d.len() as int) =~= d);
    }
    Some(acc)
}

/// Strict hex parse of a 128-bit field.
pub fn parse_strict_quantity_u128(s: &str) -> (r: Option<u128>)
    ensures
        r == strict_quantity_u128(s@),
{
    let v = chars_of(s);
    let n = v.len();
    if n < 3 {
        return None;
    }
    let c0 = v[0];
    let c1 = v[1];
    if !(c0 == '0' && c1 == 'x') {
        return None;
    }
    let ghost d = s@.skip(2);
    proof {
        assert(d =~= v@.subrange(2, n as int));
    }
    let mut acc: u128 = 0;
    let mut j: usize = 2;
    while j < n
        invariant
            2 <= j <= n,
            3 <= n == v@.len(),
            v@ == s@,
            s@[0] == '0' && s@[1] == 'x',
            d == s@.skip(2),
            d == v@.subrange(2, n as int),
            all_hex(d.take(j - 2)),
            acc as nat == hex_val(d.take(j - 2)),
        decreases n - j,
    {
        let c = v[j];
        proof {
            assert(d[j - 2] == v@[j as int]);
        }
        match hex_digit_value(c) {
            Option::None => {
                proof {
                    assert(!is_hex_digit(d[j - 2]));
                    assert(!all_hex(d));
                }
                return None;
            },
            Option::Some(x) => {
                if acc > (u128::MAX - x as u128) / 16 {
                    proof {
                        let jj = (j - 2) as int;
                        assert(d.take(jj + 1).drop_last() =~= d.take(jj));
                        assert(d.take(jj + 1).last() == d[jj]);
                        assert(hex_val(d.take(jj + 1)) == acc as nat * 16 + x as nat);
                        let m = (u128::MAX - x as u128) as nat;
                        assert(acc as nat * 16 > m) by (nonlinear_arith)
                            requires
                                acc as nat > m / 16,
                        ;
                        lemma_hex_val_monotone(d, jj + 1, d.len() as int);
                        assert(d.take(d.len() as int) =~= d);
                        assert(hex_val(d) > u128::MAX);
                    }
                    return None;
                }
                proof {
                    let m = (u128::MAX - x as u128) as nat;
                    assert(acc as nat * 16 <= m - m % 16) by (nonlinear_arith)
                        requires
                            acc as nat <= m / 16,
                    ;
                    let jj = (j - 2) as int;
                    assert(d.take(jj + 1).drop_last() =~= d.take(jj));
                    assert(d.take(jj + 1).last() == d[jj]);
                }
                acc = acc * 16 + x as u128;
                j = j + 1;
            },
        }
    }
    proof {
        assert(d.take(d.len() as int) =~= d);
    }
    Some(acc)
}

/// Strict parse of an optional 64-bit field.
pub fn parse_strict_opt_u64(s: &Option<String>) -> (r: Option<Option<u64>>)
    ensures
        r == strict_opt_u64(*s),
{
    match s {
        Option::None => Some(None),
        Option::Some(x) => match parse_strict_quantity_u64(x.as_str()) {
            Option::Some(v) => Some(Some(v)),
            Option::None => None,
        },
    }
}

/// Strict parse of an optional 128-bit field.
pub fn parse_strict_opt_u128(s: &Option<String>) -> (r: Option<Option<u128>>)
    ensures
        r == strict_opt_u128(*s),
{
    match s {
        Option::None => Some(None),
        Option::Some(x) => match parse_strict_quantity_u128(x.as_str()) {
            Option::Some(v) => Some(Some(v)),
            Option::None => None,
        },
    }
}

/// Canonical encodings satisfy the strict parse.
pub proof fn lemma_strict_quantity_round_trip_u64(n: u64)
    ensures
        strict_quantity_u64(hex_quantity(n as nat)) == Some(n),
{
    let q = hex_quantity(n as nat);
    lemma_hex_digits_wf(n as nat);
    assert(q.skip(2) =~= hex_digits_of(n as nat));
}

/// Canonical encodings satisfy the strict parse.
pub proof fn lemma_strict_quantity_round_trip_u128(n: u128)
    ensures
        strict_quantity_u128(hex_quantity(n as nat)) == Some(n),
{
    let q = hex_quantity(n as nat);
    lemma_hex_digits_wf(n as nat);
    assert(q.skip(2) =~= hex_digits_of(n as nat));
}

/// Canonically encoded optional fields are strictly well-formed and
/// strictly decode to what they encoded.
pub proof fn lemma_strict_opt_round_trip_u64(r: Option<String>, v: Option<u64>)
    requires
        encoded_opt_u64(r, v),
    ensures
        strict_opt_u64(r) == Some(v),
{
    match (r, v) {
        (Option::Some(s), Option::Some(x)) => {
            lemma_strict_quantity_round_trip_u64(x);
        },
        _ => {},
    }
}

/// Canonically encoded optional fields are strictly well-formed and
/// strictly decode to what they encoded.
pub proof fn lemma_strict_opt_round_trip_u128(r: Option<String>, v: Option<u128>)
    requires
        encoded_opt_u128(r, v),
    ensures
        strict_opt_u128(r) == Some(v),
{
    match (r, v) {
        (Option::Some(s), Option::Some(x)) => {
            lemma_strict_quantity_round_trip_u128(x);
        },
        _ => {},
    }
}

} // verus!

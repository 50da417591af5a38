//! Parity derivation from the `yParity` and legacy `v` wire fields.
//!
//! `yParity` wins when present: after trimming and stripping an optional
//! `0x`, exactly the digit strings `1` and `01` mean true. Otherwise a
//! present `v` is parsed as hex and an even value means true. When neither
//! is present or parseable the parity defaults to false — a lenient
//! fallback preserved exactly, not a cryptographic derivation.

use crate::hexnum::{
    chars_of, is_space, parse_hex_str_u64, parse_hex_u64, strip_hex_prefix, trim, trim_back,
    trim_front, trim_range,
};
use vstd::prelude::*;

verus! {

/// A parity digit string means true exactly when it is `1` or `01`.
pub open spec fn parity_yes(s: Seq<char>) -> bool {
    s == seq!['1'] || s == seq!['0', '1']
}

/// The resolved parity of the optional `yParity` and `v` fields.
pub open spec fn spec_parity(y_parity: Option<String>, v: Option<String>) -> bool {
    match y_parity {
        Option::Some(ys) => parity_yes(strip_hex_prefix(trim(ys@))),
        Option::None => match v {
            Option::Some(vs) => match parse_hex_u64(vs@) {
                Option::Some(x) => x % 2 == 0,
                Option::None => false,
            },
            Option::None => false,
        },
    }
}

/// Resolve the parity bit, shared by every signature-bearing wire shape.
pub fn parse_parity(y_parity: &Option<String>, v: &Option<String>) -> (r: bool)
    ensures
        r == spec_parity(*y_parity, *v),
{
    match y_parity {
        Option::Some(ys) => {
            let cs = chars_of(ys.as_str());
            let (start, end) = trim_range(&cs);
            let ghost t = trim(ys@);
            let mut i: usize = start;
            if end - start >= 2 {
                let c0 = cs[start];
                let c1 = cs[start + 1];
                if c0 == '0' && c1 == 'x' {
                    i = start + 2;
                }
            }
            let ghost d = strip_hex_prefix(t);
            proof {
                assert(t.len() == end - start);
                if i == start + 2 {
                    assert(t[0] == cs@[start as int] && t[1] == cs@[start as int + 1]);
                    assert(t.skip(2) =~= cs@.subrange(i as int, end as int));
                } else {
                    if t.len() >= 2 && t[0] == '0' && t[1] == 'x' {
                        assert(t[0] == cs@[start as int] && t[1] == cs@[start as int + 1]);
                        assert(false);
                    }
                }
                assert(d =~= cs@.subrange(i as int, end as int));
            }
            let n = end - i;
            let r = if n == 1 {
                let c = cs[i];
                c == '1'
            } else if n == 2 {
                let c0 = cs[i];
                let c1 = cs[i + 1];
                c0 == '0' && c1 == '1'
            } else {
                false
            };
            proof {
                assert(d.len() == n);
                if n == 1 {
                    assert(d[0] == cs@[i as int]);
                    if cs@[i as int] == '1' {
                        assert(d =~= seq!['1']);
                    } else {
                        assert(d != seq!['1']) by {
                            if d == seq!['1'] {
                                assert(d[0] == '1');
                            }
                        }
                        assert(d != seq!['0', '1']) by {
                            if d == seq!['0', '1'] {
                                assert(d.len() == 2);
                            }
                        }
                    }
                } else if n == 2 {
                    assert(d[0] == cs@[i as int] && d[1] == cs@[i as int + 1]);
                    if cs@[i as int] == '0' && cs@[i as int + 1] == '1' {
                        assert(d =~= seq!['0', '1']);
                    } else {
                        assert(d != seq!['1']) by {
                            if d == seq!['1'] {
                                assert(d.len() == 1);
                            }
                        }
                        assert(d != seq!['0', '1']) by {
                            if d == seq!['0', '1'] {
                                assert(d[0] == '0' && d[1] == '1');
                            }
                        }
                    }
                } else {
                    assert(d != seq!['1']) by {
                        if d == seq!['1'] {
                            assert(d.len() == 1);
                        }
                    }
                    assert(d != seq!['0', '1']) by {
                        if d == seq!['0', '1'] {
                            assert(d.len() == 2);
                        }
                    }
                }
            }
            r
        },
        Option::None => match v {
            Option::Some(vs) => match parse_hex_str_u64(vs.as_str()) {
                Option::Some(x) => x % 2 == 0,
                Option::None => false,
            },
            Option::None => false,
        },
    }
}

/// Canonical wire form of a resolved parity bit: `0x1` or `0x0`.
pub open spec fn parity_quantity(b: bool) -> Seq<char> {
    seq!['0', 'x', if b { '1' } else { '0' }]
}

/// Re-encode a parity bit for the wire.
pub fn encode_parity(b: bool) -> (r: String)
    ensures
        r@ == parity_quantity(b),
{
    if b {
        let s = String::from_str("0x1");
        proof {
            reveal_strlit("0x1");
            assert(s@ =~= parity_quantity(true));
        }
        s
    } else {
        let s = String::from_str("0x0");
        proof {
            reveal_strlit("0x0");
            assert(s@ =~= parity_quantity(false));
        }
        s
    }
}

/// A canonically encoded parity field resolves back to the same bit,
/// whatever the legacy `v` field holds.
pub proof fn lemma_parity_round_trip(ps: String, b: bool, v: Option<String>)
    requires
        ps@ == parity_quantity(b),
    ensures
        spec_parity(Option::Some(ps), v) == b,
{
    let q = ps@;
    assert(q.len() == 3);
    assert(q[0] == '0' && q[1] == 'x');
    assert(!is_space(q[0]) && !is_space(q[2]));
    assert(q.last() == q[2]);
    assert(trim_front(q) == q);
    assert(trim_back(q) == q);
    assert(trim(q) == q);
    let d = strip_hex_prefix(q);
    assert(d =~= q.skip(2));
    assert(d.len() == 1 && d[0] == (if b { '1' } else { '0' }));
    if b {
        assert(d =~= seq!['1']);
    } else {
        assert(d != seq!['1']) by {
            if d == seq!['1'] {
                assert(d[0] == '1');
            }
        }
        assert(d != seq!['0', '1']) by {
            if d == seq!['0', '1'] {
                assert(d.len() == 2);
            }
        }
    }
}

} // verus!

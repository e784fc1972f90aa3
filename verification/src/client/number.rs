//! Numbers typed into the request forms.
use vstd::prelude::*;
use vstd::std_specs::iter::IteratorSpec;

verus! {

/// Whether `c` is one of the ASCII digits `0` to `9`.
pub open spec fn is_ascii_digit(c: char) -> bool {
    '0' <= c && c <= '9'
}

/// The value of an ASCII digit.
pub open spec fn digit_value(c: char) -> int {
    (c as int) - ('0' as int)
}

/// The value of a string of decimal digits (0 for the empty string).
pub open spec fn decimal_value(ds: Seq<char>) -> int
    decreases ds.len(),
{
    if ds.len() == 0 {
        0
    } else {
        decimal_value(ds.drop_last()) * 10 + digit_value(ds.last())
    }
}

/// Whether `s` starts with a minus sign.
pub open spec fn has_minus(s: Seq<char>) -> bool {
    s.len() > 0 && s[0] == '-'
}

/// The digits of `s` after an optional leading `+` or `-`.
pub open spec fn unsigned_part(s: Seq<char>) -> Seq<char> {
    if s.len() > 0 && (s[0] == '-' || s[0] == '+') {
        s.skip(1)
    } else {
        s
    }
}

/// The value `s` stands for as an `i64`: an optional sign followed by at
/// least one ASCII digit, with the value in the range of `i64`; none for
/// any other text (as `i64::from_str` decides).
pub open spec fn i64_literal(s: Seq<char>) -> Option<int> {
    let ds = unsigned_part(s);
    if ds.len() > 0 && forall|i: int| 0 <= i < ds.len() ==> is_ascii_digit(#[trigger] ds[i]) {
        let v = if has_minus(s) {
            -decimal_value(ds)
        } else {
            decimal_value(ds)
        };
        if i64::MIN <= v <= i64::MAX {
            Some(v)
        } else {
            None
        }
    } else {
        None
    }
}

/// Magnitudes are tracked up to this bound; anything at or above it is out
/// of range for an `i64` whatever the sign.
const MAGNITUDE_CAP: u128 = 9223372036854775809;

proof fn lemma_decimal_nonneg(ds: Seq<char>)
    requires
        forall|i: int| 0 <= i < ds.len() ==> is_ascii_digit(#[trigger] ds[i]),
    ensures
        decimal_value(ds) >= 0,
    decreases ds.len(),
{
    if ds.len() > 0 {
        let p = ds.drop_last();
        assert forall|i: int| 0 <= i < p.len() implies is_ascii_digit(#[trigger] p[i]) by {
            assert(p[i] == ds[i]);
        }
        lemma_decimal_nonneg(p);
        assert(is_ascii_digit(ds[ds.len() - 1]));
    }
}

/// Parses `s` as `i64::from_str` does: an optional sign, then decimal
/// digits; none when the text is not such a number or is out of range.
pub fn parse_i64(s: &str) -> (r: Option<i64>)
    ensures
        r matches Some(v) ==> i64_literal(s@) == Some(v as int),
        r is None ==> i64_literal(s@) is None,
{
    broadcast use vstd::string::group_string_axioms;

    let ghost text = s@;
    let mut chars = s.chars();
    let ghost mut consumed: Seq<char> = Seq::empty();
    let mut negative = false;
    let mut at_start = true;
    let mut any_digits = false;
    let mut all_digits = true;
    let mut magnitude: u128 = 0;
    loop
        invariant
            text == s@,
            consumed + chars.remaining() == text,
            chars.obeys_prophetic_iter_laws(),
            chars.decrease() is Some,
            negative == has_minus(consumed),
            any_digits == (unsigned_part(consumed).len() > 0),
            all_digits == forall|i: int|
                0 <= i < unsigned_part(consumed).len() ==> is_ascii_digit(#[trigger] unsigned_part(consumed)[i]),
            all_digits ==> magnitude == if decimal_value(unsigned_part(consumed)) < MAGNITUDE_CAP {
                decimal_value(unsigned_part(consumed))
            } else {
                MAGNITUDE_CAP as int
            },
            at_start == (consumed.len() == 0),
        ensures
            consumed == text,
            negative == has_minus(text),
            any_digits == (unsigned_part(text).len() > 0),
            all_digits == forall|i: int|
                0 <= i < unsigned_part(text).len() ==> is_ascii_digit(#[trigger] unsigned_part(text)[i]),
            all_digits ==> magnitude == if decimal_value(unsigned_part(text)) < MAGNITUDE_CAP {
                decimal_value(unsigned_part(text))
            } else {
                MAGNITUDE_CAP as int
            },
        decreases chars.decrease()->0,
    {
        let ghost before = consumed;
        match chars.next() {
            None => {
                proof {
                    assert(consumed =~= text);
                }
                break;
            },
            Some(c) => {
                proof {
                    consumed = before.push(c);
                    assert(consumed + chars.remaining() =~= text);
                }
                if at_start && (c == '-' || c == '+') {
                    negative = c == '-';
                    proof {
                        assert(unsigned_part(consumed) =~= Seq::<char>::empty());
                    }
                } else {
                    proof {
                        let ds0 = unsigned_part(before);
                        let ds1 = unsigned_part(consumed);
                        assert(ds1 =~= ds0.push(c));
                        assert(ds1.drop_last() =~= ds0);
                        assert(has_minus(consumed) == has_minus(before));
                    }
                    if '0' <= c && c <= '9' {
                        if all_digits {
                            let d = (c as u32 - '0' as u32) as u128;
                            proof {
                                let ds0 = unsigned_part(before);
                                lemma_decimal_nonneg(ds0);
                            }
                            let next = magnitude * 10 + d;
                            magnitude = if next < MAGNITUDE_CAP {
                                next
                            } else {
                                MAGNITUDE_CAP
                            };
                        }
                    } else {
                        all_digits = false;
                    }
                    proof {
                        let ds0 = unsigned_part(before);
                        let ds1 = unsigned_part(consumed);
                        assert forall|i: int| 0 <= i < ds0.len() implies ds1[i] == ds0[i] by {}
                        assert(ds1[ds0.len() as int] == c);
                        if !is_ascii_digit(c) {
                            assert(!is_ascii_digit(ds1[ds0.len() as int]));
                        }
                        if !(forall|i: int| 0 <= i < ds0.len() ==> is_ascii_digit(#[trigger] ds0[i])) {
                            let w = choose|i: int| 0 <= i < ds0.len() && !is_ascii_digit(#[trigger] ds0[i]);
                            assert(!is_ascii_digit(ds1[w]));
                        }
                    }
                    any_digits = true;
                }
                at_start = false;
            },
        }
    }
    if !any_digits || !all_digits {
        return None;
    }
    proof {
        lemma_decimal_nonneg(unsigned_part(text));
    }
    if negative {
        if magnitude <= 9223372036854775808 {
            if magnitude == 9223372036854775808 {
                Some(i64::MIN)
            } else {
                Some(-(magnitude as i64))
            }
        } else {
            None
        }
    } else {
        if magnitude <= 9223372036854775807 {
            Some(magnitude as i64)
        } else {
            None
        }
    }
}

/// The number in an optional form field: none when the field is missing or
/// empty, its value otherwise. The text must be a valid number when it is
/// not empty.
pub fn optional_number(first_line: Option<&str>) -> (r: Option<i64>)
    requires
        first_line matches Some(x) ==> x@.len() == 0 || i64_literal(x@) is Some,
    ensures
        r == match first_line {
            Some(x) => if x@.len() == 0 {
                None
            } else {
                Some(i64_literal(x@)->0 as i64)
            },
            None => None,
        },
{
    match first_line {
        Some(x) => {
            if x.is_empty() {
                None
            } else {
                parse_i64(x)
            }
        },
        None => None,
    }
}

/// What a number literal is worth: a single digit its own value; a digit
/// added at the end of an unsigned literal ten times the value plus that
/// digit (as long as it fits); a leading `+` changes nothing and a leading
/// `-` negates; the empty text, a lone sign and any text with a character
/// other than a digit after the sign are no number.
pub proof fn lemma_literal_values(ds: Seq<char>, d: char)
    requires
        ds.len() > 0,
        forall|i: int| 0 <= i < ds.len() ==> is_ascii_digit(#[trigger] ds[i]),
    ensures
        is_ascii_digit(d) ==> i64_literal(seq![d]) == Some((d as int) - ('0' as int)),
        i64_literal(seq!['+'] + ds) == i64_literal(ds),
        i64_literal(ds) matches Some(v) ==> i64_literal(seq!['-'] + ds) == Some(-v),
        i64_literal(ds) matches Some(v) ==> v >= 0,
        is_ascii_digit(d) ==> (i64_literal(ds.push(d)) matches Some(w) ==> (i64_literal(ds) matches Some(v) && w == v
            * 10 + ((d as int) - ('0' as int)))),
        !is_ascii_digit(d) ==> i64_literal(ds.push(d)) is None,
        i64_literal(Seq::<char>::empty()) is None,
        i64_literal(seq!['-']) is None,
        i64_literal(seq!['+']) is None,
{
    lemma_decimal_nonneg(ds);
    assert((seq!['+'] + ds).skip(1) =~= ds);
    assert((seq!['-'] + ds).skip(1) =~= ds);
    assert((seq!['+'] + ds)[0] == '+');
    assert((seq!['-'] + ds)[0] == '-');
    assert(unsigned_part(ds) == ds);
    assert(!has_minus(ds));
    let e = ds.push(d);
    assert(e[0] == ds[0]);
    assert(unsigned_part(e) == e);
    assert(!has_minus(e));
    assert(e.drop_last() =~= ds);
    if !is_ascii_digit(d) {
        assert(!is_ascii_digit(e[e.len() - 1]));
    }
    if is_ascii_digit(d) {
        assert forall|i: int| 0 <= i < e.len() implies is_ascii_digit(#[trigger] e[i]) by {
            if i < ds.len() {
                assert(e[i] == ds[i]);
            }
        }
        let one = seq![d];
        assert(one.drop_last() =~= Seq::<char>::empty());
        assert(unsigned_part(one) == one);
        assert(one.last() == d);
        assert(decimal_value(Seq::<char>::empty()) == 0);
        assert(decimal_value(one) == digit_value(d));
        assert forall|i: int| 0 <= i < one.len() implies is_ascii_digit(#[trigger] one[i]) by {
            assert(one[i] == d);
        }
        assert(!has_minus(one));
    }
    assert(seq!['-'].skip(1) =~= Seq::<char>::empty());
    assert(seq!['+'].skip(1) =~= Seq::<char>::empty());
}

} // verus!

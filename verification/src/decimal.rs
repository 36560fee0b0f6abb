//! Decimal text: writing integers in base ten, and reading them back the way
//! the integer `FromStr` implementations of std read them.
use vstd::prelude::*;

verus! {

/// The character of a decimal digit `d` (`0 <= d < 10`).
pub open spec fn digit_char(d: nat) -> char {
    if d == 0 {
        '0'
    } else if d == 1 {
        '1'
    } else if d == 2 {
        '2'
    } else if d == 3 {
        '3'
    } else if d == 4 {
        '4'
    } else if d == 5 {
        '5'
    } else if d == 6 {
        '6'
    } else if d == 7 {
        '7'
    } else if d == 8 {
        '8'
    } else {
        '9'
    }
}

/// The decimal representation of `n`, without leading zeros.
pub open spec fn dec_str(n: nat) -> Seq<char>
    decreases n,
{
    if n < 10 {
        seq![digit_char(n)]
    } else {
        dec_str(n / 10).push(digit_char(n % 10))
    }
}

/// The decimal representation of `i`, with a leading `-` when it is negative.
pub open spec fn int_str(i: int) -> Seq<char> {
    if i < 0 {
        seq!['-'] + dec_str((-i) as nat)
    } else {
        dec_str(i as nat)
    }
}

/// The bytes of a text made of ASCII characters.
pub open spec fn ascii_bytes(s: Seq<char>) -> Seq<u8> {
    s.map_values(|c: char| c as u8)
}

pub open spec fn is_digit(b: u8) -> bool {
    48 <= b <= 57
}

pub open spec fn all_digits(s: Seq<u8>) -> bool {
    forall|i: int| 0 <= i < s.len() ==> is_digit(#[trigger] s[i])
}

/// The number that a run of decimal digits stands for.
pub open spec fn digits_value(s: Seq<u8>) -> nat
    decreases s.len(),
{
    if s.len() == 0 {
        0
    } else {
        digits_value(s.drop_last()) * 10 + (s.last() - 48) as nat
    }
}

/// What std's `FromStr` gives for an integer type whose values are `min..=max`:
/// an optional `+` (or `-` where the type is signed, `min < 0`), then one or more
/// decimal digits, whose value must lie in the range. `None` is any error.
pub open spec fn parse_int_spec(s: Seq<u8>, min: int, max: int) -> Option<int> {
    if s.len() == 0 {
        None
    } else if s.len() == 1 && (s[0] == 43u8 || s[0] == 45u8) {
        None
    } else {
        let neg = s[0] == 45u8 && min < 0;
        let body = if s[0] == 43u8 || neg {
            s.drop_first()
        } else {
            s
        };
        if !all_digits(body) {
            None
        } else {
            let v: int = if neg {
                -(digits_value(body) as int)
            } else {
                digits_value(body) as int
            };
            if min <= v && v <= max {
                Some(v)
            } else {
                None
            }
        }
    }
}

/// Appends the digit `d` to `s`.
fn push_digit(s: &mut String, d: u64)
    requires
        d < 10,
    ensures
        final(s)@ == old(s)@.push(digit_char(d as nat)),
{
    proof {
        reveal_strlit("0");
        reveal_strlit("1");
        reveal_strlit("2");
        reveal_strlit("3");
        reveal_strlit("4");
        reveal_strlit("5");
        reveal_strlit("6");
        reveal_strlit("7");
        reveal_strlit("8");
        reveal_strlit("9");
    }
    if d == 0 {
        s.append("0");
    } else if d == 1 {
        s.append("1");
    } else if d == 2 {
        s.append("2");
    } else if d == 3 {
        s.append("3");
    } else if d == 4 {
        s.append("4");
    } else if d == 5 {
        s.append("5");
    } else if d == 6 {
        s.append("6");
    } else if d == 7 {
        s.append("7");
    } else if d == 8 {
        s.append("8");
    } else {
        s.append("9");
    }
}

/// Appends the decimal representation of `n` to `s`.
pub fn push_u64(s: &mut String, n: u64)
    ensures
        final(s)@ == old(s)@ + dec_str(n as nat),
    decreases n,
{
    if n >= 10 {
        push_u64(s, n / 10);
    }
    push_digit(s, n % 10);
    proof {
        if n < 10 {
            assert(old(s)@ + dec_str(n as nat) =~= old(s)@.push(digit_char(n as nat)));
        } else {
            assert(old(s)@ + dec_str(n as nat) =~= (old(s)@ + dec_str((n / 10) as nat)).push(
                digit_char((n % 10) as nat),
            ));
        }
    }
}

/// Appends the decimal representation of `n` to `s`, with a `-` when it is negative.
pub fn push_i64(s: &mut String, n: i64)
    ensures
        final(s)@ == old(s)@ + int_str(n as int),
{
    if n < 0 {
        proof {
            reveal_strlit("-");
        }
        s.append("-");
        let m: u64 = ((-(n + 1)) as u64) + 1;
        push_u64(s, m);
        assert(final(s)@ =~= old(s)@ + int_str(n as int));
    } else {
        push_u64(s, n as u64);
    }
}

/// The decimal representation of `n`.
pub fn u64_to_string(n: u64) -> (r: String)
    ensures
        r@ == dec_str(n as nat),
{
    let mut s = String::new();
    push_u64(&mut s, n);
    assert(s@ =~= dec_str(n as nat));
    s
}

/// The decimal representation of `n`, with a `-` when it is negative.
pub fn i64_to_string(n: i64) -> (r: String)
    ensures
        r@ == int_str(n as int),
{
    let mut s = String::new();
    push_i64(&mut s, n);
    assert(s@ =~= int_str(n as int));
    s
}

proof fn lemma_digit_char(d: nat)
    requires
        d < 10,
    ensures
        digit_char(d) as u8 == d + 48,
        is_digit(digit_char(d) as u8),
{
}

proof fn lemma_digits_value_prefix(s: Seq<u8>, k: int)
    requires
        all_digits(s),
        0 <= k <= s.len(),
    ensures
        digits_value(s.take(k)) <= digits_value(s),
    decreases s.len(),
{
    if k < s.len() {
        assert(s.drop_last().take(k) =~= s.take(k));
        assert(all_digits(s.drop_last())) by {
            assert forall|i: int| 0 <= i < s.drop_last().len() implies is_digit(
                #[trigger] s.drop_last()[i],
            ) by {
                assert(s.drop_last()[i] == s[i]);
            }
        }
        lemma_digits_value_prefix(s.drop_last(), k);
    } else {
        assert(s.take(k) =~= s);
    }
}

/// Reads `text` as a decimal integer of the range `min..=max`, as std's `FromStr`
/// does for the integer type of that range; `None` where it reports an error.
#[verifier::loop_isolation(false)]
pub fn parse_int(text: &[u8], min: i128, max: i128) -> (r: Option<i128>)
    requires
        -0x1_0000_0000_0000_0000 <= min <= 0,
        0 <= max <= 0x1_0000_0000_0000_0000,
    ensures
        r matches Some(v) ==> parse_int_spec(text@, min as int, max as int) == Some(v as int),
        r is None ==> parse_int_spec(text@, min as int, max as int) is None,
{
    let n = text.len();
    if n == 0 {
        return None;
    }
    if n == 1 && (text[0] == 43 || text[0] == 45) {
        return None;
    }
    let neg = text[0] == 45 && min < 0;
    let start: usize = if text[0] == 43 || neg {
        1
    } else {
        0
    };
    let bound: i128 = if neg {
        -min
    } else {
        max
    };
    let ghost body = if start == 1 {
        text@.drop_first()
    } else {
        text@
    };
    assert(body =~= text@.subrange(start as int, n as int));
    let mut acc: i128 = 0;
    let mut i: usize = start;
    assert(text@.subrange(start as int, start as int) =~= Seq::<u8>::empty());
    while i < n
        invariant
            start <= i <= n,
            n == text@.len(),
            body == text@.subrange(start as int, n as int),
            0 <= bound <= 0x1_0000_0000_0000_0000,
            all_digits(text@.subrange(start as int, i as int)),
            acc as int == digits_value(text@.subrange(start as int, i as int)),
            0 <= acc <= bound,
        decreases n - i,
    {
        let b = text[i];
        let ghost pre = text@.subrange(start as int, i as int);
        let ghost post = text@.subrange(start as int, i + 1);
        assert(post.drop_last() =~= pre);
        assert(body.take(i - start) =~= pre);
        if b < 48 || b > 57 {
            assert(!is_digit(body[i - start]));
            return None;
        }
        assert(all_digits(post)) by {
            assert forall|j: int| 0 <= j < post.len() implies is_digit(#[trigger] post[j]) by {
                if j < pre.len() {
                    assert(post[j] == pre[j]);
                }
            }
        }
        assert(acc * 10 <= 0x1_0000_0000_0000_0000 * 10) by (nonlinear_arith)
            requires
                0 <= acc <= 0x1_0000_0000_0000_0000,
        ;
        acc = acc * 10 + (b - 48) as i128;
        assert(body.take(i + 1 - start) =~= post);
        if acc > bound {
            proof {
                if all_digits(body) {
                    lemma_digits_value_prefix(body, i + 1 - start);
                }
            }
            return None;
        }
        i = i + 1;
    }
    assert(text@.subrange(start as int, n as int) =~= body);
    if neg {
        Some(-acc)
    } else {
        Some(acc)
    }
}

proof fn lemma_dec_str_digits(n: nat)
    ensures
        all_digits(ascii_bytes(dec_str(n))),
        digits_value(ascii_bytes(dec_str(n))) == n,
        dec_str(n).len() >= 1,
        is_digit(ascii_bytes(dec_str(n))[0]),
    decreases n,
{
    let b = ascii_bytes(dec_str(n));
    lemma_digit_char(n % 10);
    if n < 10 {
        assert(b.drop_last() =~= Seq::<u8>::empty());
        assert(b.last() == digit_char(n) as u8);
        assert(digits_value(b) == digits_value(b.drop_last()) * 10 + (b.last() - 48) as nat);
        assert(digits_value(b.drop_last()) == 0);
    } else {
        lemma_dec_str_digits(n / 10);
        let p = ascii_bytes(dec_str(n / 10));
        assert(b.drop_last() =~= p);
        assert(b.last() == digit_char(n % 10) as u8);
        assert(digits_value(b) == digits_value(p) * 10 + (b.last() - 48) as nat);
        assert(n == (n / 10) * 10 + n % 10);
        assert forall|i: int| 0 <= i < b.len() implies is_digit(#[trigger] b[i]) by {
            if i < p.len() {
                assert(b[i] == p[i]);
            }
        }
        assert(b[0] == p[0]);
    }
}

/// Reading back what was written: the decimal text of any `v` of the range
/// `min..=max` reads as `v` again.
pub proof fn law_parse_of_format(v: int, min: int, max: int)
    requires
        min <= v <= max,
    ensures
        parse_int_spec(ascii_bytes(int_str(v)), min, max) == Some(v),
{
    let s = ascii_bytes(int_str(v));
    if v < 0 {
        let m = (-v) as nat;
        lemma_dec_str_digits(m);
        let d = ascii_bytes(dec_str(m));
        assert(s =~= seq![45u8] + d);
        assert(s.drop_first() =~= d);
        assert(s[0] == 45u8);
    } else {
        lemma_dec_str_digits(v as nat);
    }
}

} // verus!

//! Tokens and keys are 128-bit numbers written as hexadecimal text.
use vstd::prelude::*;

verus! {

/// The lowercase hexadecimal digit for `d` (0 to 15).
pub open spec fn hex_digit_char(d: int) -> char {
    if d < 10 {
        (d + 48) as char
    } else {
        (d + 87) as char
    }
}

/// The value of a hexadecimal digit in either case, as `char::to_digit(16)` reads it.
pub open spec fn hex_value(c: char) -> Option<int> {
    if '0' <= c <= '9' {
        Some(c as int - 48)
    } else if 'a' <= c <= 'f' {
        Some(c as int - 87)
    } else if 'A' <= c <= 'F' {
        Some(c as int - 55)
    } else {
        None
    }
}

/// Whether every character of `s` is a hexadecimal digit.
pub open spec fn all_hex(s: Seq<char>) -> bool {
    forall|i: int| 0 <= i < s.len() ==> #[trigger] hex_value(s[i]) is Some
}

/// The number that the hexadecimal digits `s` write, most significant first.
pub open spec fn hex_number(s: Seq<char>) -> int
    decreases s.len(),
{
    if s.len() == 0 {
        0
    } else {
        hex_number(s.drop_last()) * 16 + hex_value(s.last())->0
    }
}

/// The digits that `u128::from_str_radix(s, 16)` reads: `s` without one leading '+'.
pub open spec fn hex_digits_part(s: Seq<char>) -> Seq<char> {
    if s.len() > 0 && s[0] == '+' {
        s.drop_first()
    } else {
        s
    }
}

/// Whether `u128::from_str_radix(s, 16)` accepts `s`: an optional '+' and at least one
/// hexadecimal digit, whose number fits in 128 bits.
pub open spec fn parses_as_hex_u128(s: Seq<char>) -> bool {
    let d = hex_digits_part(s);
    &&& d.len() > 0
    &&& all_hex(d)
    &&& hex_number(d) <= u128::MAX
}

/// The last `k` hexadecimal digits of `n`, most significant first.
pub open spec fn hex_digits(n: nat, k: nat) -> Seq<char>
    decreases k,
{
    if k == 0 {
        Seq::empty()
    } else {
        hex_digits(n / 16, (k - 1) as nat).push(hex_digit_char((n % 16) as int))
    }
}

/// `n` in lowercase hexadecimal, zero-padded to 32 digits, as `format!("{:032x}", n)` writes it.
pub open spec fn hex32(n: u128) -> Seq<char> {
    hex_digits(n as nat, 32)
}

/// Sixteen to the power `k`.
pub open spec fn pow16(k: nat) -> nat
    decreases k,
{
    if k == 0 {
        1
    } else {
        16 * pow16((k - 1) as nat)
    }
}

/// The digit character of `d` reads back as `d`.
proof fn lemma_hex_digit_roundtrip(d: int)
    requires
        0 <= d < 16,
    ensures
        hex_value(hex_digit_char(d)) == Some(d),
        hex_digit_char(d) != '+',
{
}

/// The digits that `hex_digits` writes read back as the number modulo the power of 16.
proof fn lemma_hex_digits_value(n: nat, k: nat)
    ensures
        hex_digits(n, k).len() == k,
        all_hex(hex_digits(n, k)),
        hex_number(hex_digits(n, k)) == (n as int) % (pow16(k) as int),
        pow16(k) > 0,
    decreases k,
{
    if k > 0 {
        let k1 = (k - 1) as nat;
        lemma_hex_digits_value(n / 16, k1);
        let s = hex_digits(n, k);
        let p = hex_digits(n / 16, k1);
        assert(s.drop_last() =~= p);
        lemma_hex_digit_roundtrip((n % 16) as int);
        assert forall|i: int| 0 <= i < s.len() implies #[trigger] hex_value(s[i]) is Some by {
            if i < p.len() {
                assert(s[i] == p[i]);
            }
        }
        vstd::arithmetic::div_mod::lemma_mod_breakdown(n as int, 16, pow16(k1) as int);
    }
}

/// The 32 digits of `n` read back as `n`, and `from_str_radix` accepts them.
pub proof fn lemma_hex32_parses(n: u128)
    ensures
        hex32(n).len() == 32,
        parses_as_hex_u128(hex32(n)),
        all_hex(hex32(n)),
        hex_number(hex32(n)) == n,
{
    lemma_hex_digits_value(n as nat, 32);
    assert(pow16(32) == 0x1_0000_0000_0000_0000_0000_0000_0000_0000nat) by {
        reveal_with_fuel(pow16, 33);
    }
    let s = hex32(n);
    lemma_hex_digit_roundtrip((n % 16) as int);
    assert(s[0] != '+') by {
        assert(hex_value(s[0]) is Some);
    }
    assert(hex_digits_part(s) == s);
}

/// `n` in lowercase hexadecimal, zero-padded to 32 digits.
pub fn hex32_string(n: u128) -> (s: String)
    ensures
        s@ == hex32(n),
{
    let mut v: Vec<char> = vec!['0'; 32];
    let mut cur: u128 = n;
    let mut i: usize = 0;
    while i < 32
        invariant
            i <= 32,
            v@.len() == 32,
            hex32(n) == hex_digits(cur as nat, (32 - i) as nat) + v@.subrange(32 - i, 32),
        decreases 32 - i,
    {
        let d = cur % 16;
        let c = if d < 10 {
            ((d as u8) + 48) as char
        } else {
            ((d as u8) + 87) as char
        };
        assert(c == hex_digit_char(d as int));
        let ghost before = v@;
        v.set(31 - i, c);
        proof {
            let k = (32 - i) as nat;
            assert(hex_digits(cur as nat, k) == hex_digits((cur / 16) as nat, (k - 1) as nat).push(c));
            assert(v@.subrange(31 - i, 32) =~= seq![c] + before.subrange(32 - i, 32));
            assert(hex_digits(cur as nat, k) + before.subrange(32 - i, 32) =~= hex_digits(
                (cur / 16) as nat,
                (k - 1) as nat,
            ) + v@.subrange(31 - i, 32));
        }
        cur = cur / 16;
        i = i + 1;
    }
    assert(hex_digits(cur as nat, 0) + v@.subrange(0, 32) =~= v@);
    crate::text::string_of(&v)
}

/// The value of one hexadecimal digit.
fn hex_digit_value(c: char) -> (r: Option<u128>)
    ensures
        match hex_value(c) {
            Some(d) => r == Some(d as u128),
            None => r is None,
        },
{
    if '0' <= c && c <= '9' {
        Some((c as u32 - 48) as u128)
    } else if 'a' <= c && c <= 'f' {
        Some((c as u32 - 87) as u128)
    } else if 'A' <= c && c <= 'F' {
        Some((c as u32 - 55) as u128)
    } else {
        None
    }
}

proof fn lemma_hex_number_grows(s: Seq<char>, k: int)
    requires
        0 <= k <= s.len(),
        all_hex(s),
    ensures
        hex_number(s.subrange(0, k)) <= hex_number(s),
        hex_number(s) >= 0,
    decreases s.len(),
{
    if s.len() > 0 {
        let d = s.drop_last();
        assert forall|i: int| 0 <= i < d.len() implies #[trigger] hex_value(d[i]) is Some by {
            assert(d[i] == s[i]);
        }
        assert(hex_value(s[s.len() - 1]) is Some);
        if k < s.len() {
            lemma_hex_number_grows(d, k);
            assert(s.subrange(0, k) =~= d.subrange(0, k));
        } else {
            lemma_hex_number_grows(d, 0);
            assert(s.subrange(0, k) =~= s);
        }
    } else {
        assert(s.subrange(0, k) =~= s);
    }
}

/// Whether `u128::from_str_radix(s, 16)` would accept `s`.
pub fn hex_u128_accepts(s: &str) -> (b: bool)
    ensures
        b == parses_as_hex_u128(s@),
{
    let v = crate::text::chars_of(s);
    let start: usize = if v.len() > 0 && v[0] == '+' {
        1
    } else {
        0
    };
    let ghost d = hex_digits_part(s@);
    assert(d =~= v@.subrange(start as int, v@.len() as int));
    if start >= v.len() {
        return false;
    }
    let mut acc: u128 = 0;
    let mut i = start;
    while i < v.len()
        invariant
            start <= i <= v.len(),
            d == hex_digits_part(s@),
            d == v@.subrange(start as int, v@.len() as int),
            all_hex(v@.subrange(start as int, i as int)),
            acc as int == hex_number(v@.subrange(start as int, i as int)),
        decreases v.len() - i,
    {
        let ghost prefix = v@.subrange(start as int, i as int);
        let ghost next = v@.subrange(start as int, i + 1);
        assert(next.drop_last() =~= prefix);
        match hex_digit_value(v[i]) {
            None => {
                proof {
                    assert(d[i - start] == v@[i as int]);
                    assert(!(hex_value(d[i - start]) is Some));
                }
                return false;
            },
            Some(x) => {
                assert forall|j: int| 0 <= j < next.len() implies #[trigger] hex_value(next[j]) is Some by {
                    if j < prefix.len() {
                        assert(next[j] == prefix[j]);
                    }
                }
                if acc > 0x0fff_ffff_ffff_ffff_ffff_ffff_ffff_ffffu128 {
                    proof {
                        assert(hex_number(next) == acc * 16 + x);
                        if all_hex(d) {
                            lemma_hex_number_grows(d, i + 1 - start);
                            assert(d.subrange(0, i + 1 - start) =~= next);
                        }
                    }
                    return false;
                }
                acc = acc * 16 + x;
            },
        }
        i = i + 1;
    }
    assert(v@.subrange(start as int, i as int) == d);
    true
}

/// A fresh random token: a random `u128` in lowercase hexadecimal, 32 digits.
pub fn random_hex_token() -> (s: String)
    ensures
        exists|n: u128| s@ == #[trigger] hex32(n),
        s@.len() == 32,
        parses_as_hex_u128(s@),
{
    let n = crate::models::crypto::random_u128();
    let s = hex32_string(n);
    proof {
        lemma_hex32_parses(n);
    }
    s
}

/// The reason a token or key is refused: it is not a 128-bit hexadecimal number.
#[derive(Debug, PartialEq, Eq, Structural)]
pub struct TokenParseError;

} // verus!

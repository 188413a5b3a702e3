use vstd::prelude::*;

verus! {

broadcast use vstd::string::group_string_axioms;

// Comparing ---------------------------------------------------------------------------------

/// Whether two strings hold the same characters.
pub fn str_equal(a: &str, b: &str) -> (r: bool)
    ensures
        r == (a@ == b@),
{
    let n: usize = a.unicode_len();
    if n != b.unicode_len() {
        return false;
    }
    let mut i: usize = 0;
    while i < n
        invariant
            n == a@.len(),
            n == b@.len(),
            i <= n,
            forall|t: int| 0 <= t < i ==> a@[t] == b@[t],
        decreases n - i,
    {
        if a.get_char(i) != b.get_char(i) {
            return false;
        }
        i = i + 1;
    }
    assert(a@ =~= b@);
    true
}

// Writing numbers ---------------------------------------------------------------------------

/// The digit characters, by value.
pub open spec fn digit_chars() -> Seq<char> {
    seq!['0', '1', '2', '3', '4', '5', '6', '7', '8', '9', 'A', 'B', 'C', 'D', 'E', 'F']
}

/// The digits of `n` in base `radix`, most significant first, without
/// leading zeros ("0" for zero), upper-case letters above nine.
pub open spec fn radix_digits(n: nat, radix: nat) -> Seq<char>
    recommends
        2 <= radix <= 16,
    decreases n,
{
    if n < radix || radix < 2 {
        seq![digit_chars()[n as int]]
    } else {
        proof {
            assert(n / radix < n) by (nonlinear_arith)
                requires
                    radix >= 2,
                    n >= radix,
            ;
        }
        radix_digits(n / radix, radix).push(digit_chars()[(n % radix) as int])
    }
}

fn append_radix_digits(out: &mut String, n: u64, radix: u64)
    requires
        2 <= radix <= 16,
    ensures
        final(out)@ == old(out)@ + radix_digits(n as nat, radix as nat),
    decreases n,
{
    let digits = "0123456789ABCDEF";
    proof {
        reveal_strlit("0123456789ABCDEF");
        assert(digits@ =~= digit_chars());
    }
    if n >= radix {
        append_radix_digits(out, n / radix, radix);
    }
    let d: usize = (n % radix) as usize;
    out.append(digits.substring_char(d, d + 1));
    assert(digits@.subrange(d as int, d + 1) =~= seq![digit_chars()[d as int]]);
}

/// The decimal text of `n`, as `to_string` writes it.
pub fn decimal_text(n: usize) -> (s: String)
    ensures
        s@ == radix_digits(n as nat, 10),
{
    let mut s = String::new();
    append_radix_digits(&mut s, n as u64, 10);
    assert(s@ =~= radix_digits(n as nat, 10));
    s
}

// Reading numbers ---------------------------------------------------------------------------

/// The value of a hexadecimal digit (either case), if `c` is one.
pub open spec fn hex_digit_value(c: char) -> Option<nat> {
    if '0' <= c && c <= '9' {
        Some((c as int - '0' as int) as nat)
    } else if 'a' <= c && c <= 'f' {
        Some((c as int - 'a' as int + 10) as nat)
    } else if 'A' <= c && c <= 'F' {
        Some((c as int - 'A' as int + 10) as nat)
    } else {
        None
    }
}

pub open spec fn all_hex_digits(s: Seq<char>) -> bool {
    forall|i: int| 0 <= i < s.len() ==> (#[trigger] hex_digit_value(s[i])) is Some
}

/// The value of a sequence of hexadecimal digits, most significant first.
pub open spec fn hex_value(s: Seq<char>) -> nat
    decreases s.len(),
{
    if s.len() == 0 {
        0
    } else {
        hex_value(s.drop_last()) * 16 + hex_digit_value(s.last()).unwrap_or(0)
    }
}

/// The digits of a number text: the text after an optional leading `+`.
pub open spec fn unsigned_digits(s: Seq<char>) -> Seq<char> {
    if s.len() > 0 && s[0] == '+' {
        s.drop_first()
    } else {
        s
    }
}

/// What `u32::from_str_radix(s, 16)` gives: the value of an optional `+`
/// followed by at least one hexadecimal digit, when it fits in a `u32`.
pub open spec fn hex_u32(s: Seq<char>) -> Option<u32> {
    let digits = unsigned_digits(s);
    if digits.len() > 0 && all_hex_digits(digits) && hex_value(digits) <= u32::MAX {
        Some(hex_value(digits) as u32)
    } else {
        None
    }
}

proof fn lemma_hex_value_monotone(s: Seq<char>, k: int)
    requires
        0 <= k <= s.len(),
    ensures
        hex_value(s.take(k)) <= hex_value(s),
    decreases s.len(),
{
    if k < s.len() {
        assert(s.drop_last().take(k) =~= s.take(k));
        lemma_hex_value_monotone(s.drop_last(), k);
    } else {
        assert(s.take(k) =~= s);
    }
}

fn hex_digit(c: char) -> (d: Option<u32>)
    ensures
        match hex_digit_value(c) {
            Some(v) => d == Some(v as u32),
            None => d is None,
        },
{
    if '0' <= c && c <= '9' {
        Some((c as u32) - ('0' as u32))
    } else if 'a' <= c && c <= 'f' {
        Some((c as u32) - ('a' as u32) + 10)
    } else if 'A' <= c && c <= 'F' {
        Some((c as u32) - ('A' as u32) + 10)
    } else {
        None
    }
}

/// Reads a hexadecimal `u32` as `u32::from_str_radix(s, 16)` does.
pub fn parse_hex_u32(s: &str) -> (r: Option<u32>)
    ensures
        r == hex_u32(s@),
{
    let n: usize = s.unicode_len();
    let mut start: usize = 0;
    if n > 0 && s.get_char(0) == '+' {
        start = 1;
    }
    let ghost digits = unsigned_digits(s@);
    assert(digits =~= s@.subrange(start as int, n as int));
    if start == n {
        return None;
    }
    let mut value: u64 = 0;
    let mut i: usize = start;
    while i < n
        invariant
            n == s@.len(),
            start <= i <= n,
            start < n,
            digits == s@.subrange(start as int, n as int),
            digits == unsigned_digits(s@),
            all_hex_digits(digits.take(i - start)),
            value == hex_value(digits.take(i - start)),
            value <= u32::MAX,
        decreases n - i,
    {
        let c = s.get_char(i);
        let ghost t = digits.take(i + 1 - start);
        assert(t.drop_last() =~= digits.take(i - start));
        assert(t.last() == c);
        match hex_digit(c) {
            Some(d) => {
                value = value * 16 + d as u64;
                assert(value == hex_value(t));
                if value > u32::MAX as u64 {
                    proof {
                        lemma_hex_value_monotone(digits, i + 1 - start);
                        assert(hex_value(digits) > u32::MAX);
                    }
                    return None;
                }
            },
            None => {
                assert(digits[i - start] == c);
                assert(!all_hex_digits(digits));
                return None;
            },
        }
        i = i + 1;
    }
    assert(digits.take(n - start) =~= digits);
    Some(value as u32)
}

// Background color --------------------------------------------------------------------------

/// The text after the leading `#` characters.
pub open spec fn without_leading_hashes(s: Seq<char>) -> Seq<char>
    decreases s.len(),
{
    if s.len() > 0 && s[0] == '#' {
        without_leading_hashes(s.drop_first())
    } else {
        s
    }
}

/// The value of a color picker: leading `#` characters, then a hexadecimal `u32`.
pub open spec fn color_value(s: Seq<char>) -> Option<u32> {
    hex_u32(without_leading_hashes(s))
}

/// The red, green and blue bytes of a color value (its three low bytes).
pub open spec fn color_channels(v: u32) -> [u8; 3] {
    [((v as nat / 65536) % 256) as u8, ((v as nat / 256) % 256) as u8, (v as nat % 256) as u8]
}

proof fn lemma_skip_hashes(s: Seq<char>, i: int)
    requires
        0 <= i <= s.len(),
        forall|t: int| 0 <= t < i ==> s[t] == '#',
    ensures
        without_leading_hashes(s) == without_leading_hashes(s.subrange(i, s.len() as int)),
    decreases i,
{
    if i > 0 {
        lemma_skip_hashes(s.drop_first(), i - 1);
        assert(s.drop_first().subrange(i - 1, s.drop_first().len() as int) =~= s.subrange(
            i,
            s.len() as int,
        ));
    } else {
        assert(s.subrange(0, s.len() as int) =~= s);
    }
}

/// Reads the value of the background color picker.
pub fn parse_color_value(value: &str) -> (r: Option<u32>)
    ensures
        r == color_value(value@),
{
    let n: usize = value.unicode_len();
    let mut i: usize = 0;
    while i < n && value.get_char(i) == '#'
        invariant
            n == value@.len(),
            i <= n,
            forall|t: int| 0 <= t < i ==> value@[t] == '#',
        decreases n - i,
    {
        i = i + 1;
    }
    proof {
        lemma_skip_hashes(value@, i as int);
    }
    let rest = value.substring_char(i, n);
    assert(without_leading_hashes(rest@) == rest@);
    parse_hex_u32(rest)
}

/// The red, green and blue bytes that the background color picker's value
/// stands for: the three low bytes of its big-endian `u32` value.
pub fn background_color_channels(value: &str) -> (rgb: [u8; 3])
    requires
        color_value(value@) is Some,
    ensures
        rgb == color_channels(color_value(value@).unwrap()),
{
    match parse_color_value(value) {
        Some(v) => {
            let r: u8 = ((v >> 16) & 0xff) as u8;
            let g: u8 = ((v >> 8) & 0xff) as u8;
            let b: u8 = (v & 0xff) as u8;
            assert(((v >> 16) & 0xff) == (v / 65536) % 256) by (bit_vector);
            assert(((v >> 8) & 0xff) == (v / 256) % 256) by (bit_vector);
            assert((v & 0xff) == v % 256) by (bit_vector);
            [r, g, b]
        },
        None => [0, 0, 0],
    }
}

/// The background color picker's initial value: `#` followed by the
/// upper-case hexadecimal text of each channel, unpadded.
pub fn background_color_text(rgb: [u32; 3]) -> (s: String)
    ensures
        s@ == seq!['#'] + radix_digits(rgb[0] as nat, 16) + radix_digits(rgb[1] as nat, 16)
            + radix_digits(rgb[2] as nat, 16),
{
    let mut s = String::from_str("#");
    proof {
        reveal_strlit("#");
    }
    append_radix_digits(&mut s, rgb[0] as u64, 16);
    append_radix_digits(&mut s, rgb[1] as u64, 16);
    append_radix_digits(&mut s, rgb[2] as u64, 16);
    assert(s@ =~= seq!['#'] + radix_digits(rgb[0] as nat, 16) + radix_digits(rgb[1] as nat, 16)
        + radix_digits(rgb[2] as nat, 16));
    s
}

} // verus!

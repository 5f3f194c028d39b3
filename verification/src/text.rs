//! Verified numeral helpers: decimal and lowercase-hex rendering of
//! unsigned integers, and decimal parsing, with exact specifications.

use vstd::prelude::*;
use vstd::string::*;

verus! {

/// The character for one decimal digit value.
pub open spec fn dec_digit(d: nat) -> char {
    if d == 0 {
        '0'
    } else if d == 1 {
        '1'
    } else if d == 2 {
        '2'
    } else if d == 3 {
        '3'
    } else if d == 4 {
        '4'
    } else if d == 5 {
        '5'
    } else if d == 6 {
        '6'
    } else if d == 7 {
        '7'
    } else if d == 8 {
        '8'
    } else {
        '9'
    }
}

/// The usual decimal rendering of `n`, most significant digit first,
/// with no leading zeros (a single `'0'` for zero).
pub open spec fn dec_digits(n: nat) -> Seq<char>
    decreases n,
{
    if n < 10 {
        seq![dec_digit(n)]
    } else {
        dec_digits(n / 10).push(dec_digit(n % 10))
    }
}

/// The character for one hexadecimal digit value, lowercase.
pub open spec fn hex_digit(d: nat) -> char {
    if d < 10 {
        dec_digit(d)
    } else if d == 10 {
        'a'
    } else if d == 11 {
        'b'
    } else if d == 12 {
        'c'
    } else if d == 13 {
        'd'
    } else if d == 14 {
        'e'
    } else {
        'f'
    }
}

/// The usual lowercase hexadecimal rendering of `n`, most significant
/// digit first, with no leading zeros (a single `'0'` for zero).
pub open spec fn hex_digits(n: nat) -> Seq<char>
    decreases n,
{
    if n < 16 {
        seq![hex_digit(n)]
    } else {
        hex_digits(n / 16).push(hex_digit(n % 16))
    }
}

fn dec_digit_str(d: u32) -> (r: &'static str)
    requires
        d < 10,
    ensures
        r@ == seq![dec_digit(d as nat)],
{
    let r: &'static str = if d == 0 {
        "0"
    } else if d == 1 {
        "1"
    } else if d == 2 {
        "2"
    } else if d == 3 {
        "3"
    } else if d == 4 {
        "4"
    } else if d == 5 {
        "5"
    } else if d == 6 {
        "6"
    } else if d == 7 {
        "7"
    } else if d == 8 {
        "8"
    } else {
        "9"
    };
    proof {
        reveal_strlit("0");
        reveal_strlit("1");
        reveal_strlit("2");
        reveal_strlit("3");
        reveal_strlit("4");
        reveal_strlit("5");
        reveal_strlit("6");
        reveal_strlit("7");
        reveal_strlit("8");
        reveal_strlit("9");
        assert(r@ =~= seq![dec_digit(d as nat)]);
    }
    r
}

fn hex_digit_str(d: u64) -> (r: &'static str)
    requires
        d < 16,
    ensures
        r@ == seq![hex_digit(d as nat)],
{
    if d < 10 {
        dec_digit_str(d as u32)
    } else {
        let r: &'static str = if d == 10 {
            "a"
        } else if d == 11 {
            "b"
        } else if d == 12 {
            "c"
        } else if d == 13 {
            "d"
        } else if d == 14 {
            "e"
        } else {
            "f"
        };
        proof {
            reveal_strlit("a");
            reveal_strlit("b");
            reveal_strlit("c");
            reveal_strlit("d");
            reveal_strlit("e");
            reveal_strlit("f");
            assert(r@ =~= seq![hex_digit(d as nat)]);
        }
        r
    }
}

/// Renders `n` in decimal.
pub fn u32_to_dec(n: u32) -> (r: String)
    ensures
        r@ == dec_digits(n as nat),
    decreases n,
{
    if n < 10 {
        dec_digit_str(n).to_owned()
    } else {
        let mut s = u32_to_dec(n / 10);
        s.append(dec_digit_str(n % 10));
        s
    }
}

/// Renders `n` in lowercase hexadecimal.
pub fn u64_to_hex(n: u64) -> (r: String)
    ensures
        r@ == hex_digits(n as nat),
    decreases n,
{
    if n < 16 {
        hex_digit_str(n).to_owned()
    } else {
        let mut s = u64_to_hex(n / 16);
        s.append(hex_digit_str(n % 16));
        s
    }
}

/// Whether `c` is an ASCII decimal digit.
pub open spec fn is_dec_char(c: char) -> bool {
    48 <= c as u32 <= 57
}

/// Whether every character of `s` is an ASCII decimal digit.
pub open spec fn all_dec_chars(s: Seq<char>) -> bool {
    forall|i: int| 0 <= i < s.len() ==> is_dec_char(#[trigger] s[i])
}

/// The numeric value of a digit string, most significant digit first.
pub open spec fn dec_val(s: Seq<char>) -> nat
    decreases s.len(),
{
    if s.len() == 0 {
        0
    } else {
        dec_val(s.drop_last()) * 10 + ((s.last() as u32 - 48) as nat)
    }
}

proof fn lemma_dec_val_step(s: Seq<char>, i: int)
    requires
        0 <= i < s.len(),
        is_dec_char(s[i]),
    ensures
        dec_val(s.subrange(0, i + 1)) == dec_val(s.subrange(0, i)) * 10 + (s[i] as u32 - 48),
{
    assert(s.subrange(0, i + 1).drop_last() =~= s.subrange(0, i));
    assert(s.subrange(0, i + 1).last() == s[i]);
}

proof fn lemma_dec_val_mono(s: Seq<char>, i: int, j: int)
    requires
        0 <= i <= j <= s.len(),
    ensures
        dec_val(s.subrange(0, i)) <= dec_val(s.subrange(0, j)),
    decreases j - i,
{
    if i < j {
        lemma_dec_val_mono(s, i, j - 1);
        assert(s.subrange(0, j).drop_last() =~= s.subrange(0, j - 1));
        assert(dec_val(s.subrange(0, j)) == dec_val(s.subrange(0, j - 1)) * 10 + ((s.subrange(
            0,
            j,
        ).last() as u32 - 48) as nat));
    }
}

/// Parses a non-empty, all-digit decimal string into a `u32`; returns
/// `None` exactly when the string is empty, holds a non-digit, or the
/// value does not fit.
pub fn parse_u32(s: &str) -> (r: Option<u32>)
    ensures
        r is Some <==> s@.len() > 0 && all_dec_chars(s@) && dec_val(s@) <= u32::MAX,
        r is Some ==> r->0 as nat == dec_val(s@),
{
    let len = s.unicode_len();
    if len == 0 {
        return None;
    }
    let mut acc: u32 = 0;
    let mut i: usize = 0;
    while i < len
        invariant
            0 <= i <= len,
            len == s@.len(),
            all_dec_chars(s@.subrange(0, i as int)),
            acc as nat == dec_val(s@.subrange(0, i as int)),
        decreases len - i,
    {
        let c = s.get_char(i);
        let cv = c as u32;
        if cv < 48 || cv > 57 {
            return None;
        }
        let d = cv - 48;
        if acc > (u32::MAX - d) / 10 {
            proof {
                lemma_dec_val_step(s@, i as int);
                assert(dec_val(s@.subrange(0, i as int + 1)) > u32::MAX);
                lemma_dec_val_mono(s@, i as int + 1, s@.len() as int);
                assert(s@.subrange(0, s@.len() as int) =~= s@);
            }
            return None;
        }
        acc = acc * 10 + d;
        proof {
            lemma_dec_val_step(s@, i as int);
            assert(all_dec_chars(s@.subrange(0, i as int + 1)));
        }
        i = i + 1;
    }
    proof {
        assert(s@.subrange(0, len as int) =~= s@);
    }
    Some(acc)
}

/// The first index at or after `from` holding a dot, or -1.
pub open spec fn first_dot(s: Seq<char>, from: int) -> int
    decreases s.len() - from,
{
    if from < 0 || from >= s.len() {
        -1
    } else if s[from] == '.' {
        from
    } else {
        first_dot(s, from + 1)
    }
}

/// The first index at or after `from` holding the zone mark 'Z' or
/// '+', or -1.
pub open spec fn first_zone(s: Seq<char>, from: int) -> int
    decreases s.len() - from,
{
    if from < 0 || from >= s.len() {
        -1
    } else if s[from] == 'Z' || s[from] == '+' {
        from
    } else {
        first_zone(s, from + 1)
    }
}

/// A timestamp with its fractional seconds cut to at most six
/// digits: the digits between the first dot and the first zone mark
/// after it are truncated; a timestamp without both marks is kept as
/// it is.
pub open spec fn simplified_ts(s: Seq<char>) -> Seq<char> {
    let d = first_dot(s, 0);
    if d < 0 {
        s
    } else {
        let z = first_zone(s, d);
        if z < 0 {
            s
        } else {
            let frac = s.subrange(d + 1, z);
            let lim = if frac.len() > 6 {
                frac.subrange(0, 6)
            } else {
                frac
            };
            s.subrange(0, d) + "."@ + lim + s.subrange(z, s.len() as int)
        }
    }
}

fn find_first_dot(s: &str) -> (r: Option<usize>)
    ensures
        r matches Some(j) ==> j as int == first_dot(s@, 0) && j < s@.len() && s@[j as int] == '.',
        r is None ==> first_dot(s@, 0) == -1,
{
    let len = s.unicode_len();
    let mut i: usize = 0;
    while i < len
        invariant
            0 <= i <= len,
            len == s@.len(),
            first_dot(s@, 0) == first_dot(s@, i as int),
        decreases len - i,
    {
        if s.get_char(i) == '.' {
            return Some(i);
        }
        i = i + 1;
    }
    None
}

fn find_first_zone(s: &str, from: usize) -> (r: Option<usize>)
    requires
        from <= s@.len(),
    ensures
        r matches Some(j) ==> j as int == first_zone(s@, from as int) && from <= j < s@.len() && (
        s@[j as int] == 'Z' || s@[j as int] == '+'),
        r is None ==> first_zone(s@, from as int) == -1,
{
    let len = s.unicode_len();
    let mut i: usize = from;
    while i < len
        invariant
            from <= i <= len,
            len == s@.len(),
            first_zone(s@, from as int) == first_zone(s@, i as int),
        decreases len - i,
    {
        let c = s.get_char(i);
        if c == 'Z' || c == '+' {
            return Some(i);
        }
        i = i + 1;
    }
    None
}

/// Cuts a timestamp's fractional seconds to at most six digits, so
/// that over-precise stored timestamps still parse; a timestamp
/// without a fraction or a zone mark is returned unchanged.
pub fn simplify_timestamp(s: &str) -> (r: String)
    ensures
        r@ == simplified_ts(s@),
{
    let len = s.unicode_len();
    let d = match find_first_dot(s) {
        None => {
            return s.to_owned();
        },
        Some(d) => d,
    };
    let z = match find_first_zone(s, d) {
        None => {
            return s.to_owned();
        },
        Some(z) => z,
    };
    proof {
        assert(s@[z as int] != '.');
        assert(z != d);
    }
    let lim_end = if z - d - 1 > 6 {
        d + 7
    } else {
        z
    };
    let mut out = s.substring_char(0, d).to_owned();
    out.append(".");
    out.append(s.substring_char(d + 1, lim_end));
    out.append(s.substring_char(z, len));
    proof {
        let frac = s@.subrange(d as int + 1, z as int);
        if frac.len() > 6 {
            assert(s@.subrange(d as int + 1, lim_end as int) =~= frac.subrange(0, 6));
        }
        assert(out@ == simplified_ts(s@));
    }
    out
}

} // verus!

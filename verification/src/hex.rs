//! Hexadecimal quantities.

use crate::failure::{Failure, in_context, plain};
use crate::text::{
    begins_with, digit_char, hex, join2, repeated, str_strip_prefix, str_trim_start_matches,
    trimmed_start,
};
use vstd::prelude::*;

verus! {

/// The value of a hexadecimal digit, of either case.
pub open spec fn hex_digit(c: char) -> Option<nat> {
    if '0' <= c && c <= '9' {
        Some((c as int - '0' as int) as nat)
    } else if 'a' <= c && c <= 'f' {
        Some((c as int - 'a' as int + 10) as nat)
    } else if 'A' <= c && c <= 'F' {
        Some((c as int - 'A' as int + 10) as nat)
    } else {
        None
    }
}

/// All characters are hexadecimal digits.
pub open spec fn all_hex(s: Seq<char>) -> bool {
    forall|i: int| 0 <= i < s.len() ==> hex_digit(#[trigger] s[i]) is Some
}

/// The number that a row of hexadecimal digits stands for.
pub open spec fn hex_value(s: Seq<char>) -> nat
    decreases s.len(),
{
    if s.len() == 0 {
        0
    } else {
        16 * hex_value(s.drop_last()) + hex_digit(s.last())->0
    }
}

/// `s` without a plus sign in front.
pub open spec fn unsigned_part(s: Seq<char>) -> Seq<char> {
    if s.len() > 0 && s[0] == '+' {
        s.skip(1)
    } else {
        s
    }
}

/// The 64-bit number that `s` writes in hexadecimal: at least one digit, and
/// perhaps a plus sign in front.
pub open spec fn u64_of_hex(s: Seq<char>) -> Option<u64> {
    let d = unsigned_part(s);
    if d.len() > 0 && all_hex(d) && hex_value(d) <= u64::MAX {
        Some(hex_value(d) as u64)
    } else {
        None
    }
}

/// The message of the error that `u64::from_str_radix` gives, in base sixteen,
/// for a text that it refuses.
pub uninterp spec fn hex_error_text(s: Seq<char>) -> Seq<char>;

/// `u64::from_str_radix` in base sixteen: an optional plus sign and digits of
/// either case, whose value must fit; an error is given by its message.
#[verifier::external_body]
fn from_hex(s: &str) -> (r: Result<u64, String>)
    ensures
        r matches Ok(n) ==> u64_of_hex(s@) == Some(n),
        r matches Err(message) ==> u64_of_hex(s@) is None && message@ == hex_error_text(s@),
{
    u64::from_str_radix(s, 16).map_err(|e| e.to_string())
}

/// The number that a quantity such as "0x1b4" stands for.
pub open spec fn quantity(s: Seq<char>) -> Option<u64> {
    u64_of_hex(trimmed_start(s, "0x"@))
}

/// How the reading of a quantity fails.
pub open spec fn quantity_failure(s: Seq<char>) -> Seq<Seq<char>> {
    plain(hex_error_text(trimmed_start(s, "0x"@)))
}

/// Reads a quantity; "0x" may stand in front, more than once too.
pub fn parse_quantity(s: &str) -> (r: Result<u64, Failure>)
    ensures
        r matches Ok(n) ==> quantity(s@) == Some(n),
        r matches Err(f) ==> quantity(s@) is None && f@ == quantity_failure(s@),
{
    proof {
        reveal_strlit("0x");
    }
    match from_hex(str_trim_start_matches(s, "0x")) {
        Ok(n) => Ok(n),
        Err(message) => Err(Failure::new(message)),
    }
}

/// `s` without "0x" in front.
pub open spec fn without_prefix(s: Seq<char>) -> Seq<char> {
    if begins_with(s, "0x"@) {
        s.skip("0x"@.len() as int)
    } else {
        s
    }
}

/// The number that a hex string such as "0x185b6ee" stands for.
pub open spec fn hex_number(s: Seq<char>) -> Option<u64> {
    u64_of_hex(without_prefix(s))
}

/// How the reading of a hex string fails.
pub open spec fn hex_number_failure(s: Seq<char>) -> Seq<Seq<char>> {
    in_context("invalid hex number: "@ + s, plain(hex_error_text(without_prefix(s))))
}

/// Parses a hex string like "0x185b6ee" into a number.
pub fn parse_hex_u64(s: &str) -> (r: Result<u64, Failure>)
    ensures
        r matches Ok(n) ==> hex_number(s@) == Some(n),
        r matches Err(f) ==> hex_number(s@) is None && f@ == hex_number_failure(s@),
{
    let trimmed = match str_strip_prefix(s, "0x") {
        Some(rest) => rest,
        None => s,
    };
    match from_hex(trimmed) {
        Ok(n) => Ok(n),
        Err(message) => Err(Failure::new(message).context(join2("invalid hex number: ", s))),
    }
}

/// The hexadecimal writing of a number is a row of digits whose value is the
/// number.
pub proof fn law_hex_reads_back(n: nat)
    ensures
        hex(n).len() > 0,
        all_hex(hex(n)),
        hex_value(hex(n)) == n,
    decreases n,
{
    if n < 16 {
        let s = hex(n);
        assert(s =~= seq![digit_char(n)]);
        assert(s.drop_last() =~= Seq::empty());
        assert(hex_digit(digit_char(n)) == Some(n));
        assert(hex_value(s.drop_last()) == 0);
    } else {
        law_hex_reads_back(n / 16);
        let s = hex(n);
        assert(s.drop_last() =~= hex(n / 16));
        assert(hex_digit(digit_char(n % 16)) == Some(n % 16));
    }
}

/// A row of digits whose value fits 64 bits reads as that value, with "0x" in
/// front and without, as a hex string and as a quantity.
pub proof fn law_digits_read(d: Seq<char>)
    requires
        d.len() > 0,
        all_hex(d),
        hex_value(d) <= u64::MAX,
    ensures
        hex_number(d) == Some(hex_value(d) as u64),
        hex_number("0x"@ + d) == Some(hex_value(d) as u64),
        quantity(d) == Some(hex_value(d) as u64),
        quantity("0x"@ + d) == Some(hex_value(d) as u64),
{
    reveal_strlit("0x");
    let s = "0x"@ + d;
    assert(hex_digit(d[0]) is Some);
    assert(s.subrange(0, 2) =~= "0x"@);
    assert(s.skip(2) =~= d);
    assert(!begins_with(d, "0x"@)) by {
        if begins_with(d, "0x"@) {
            assert(d.subrange(0, 2)[1] == d[1]);
            assert(hex_digit(d[1]) is Some);
        }
    }
    reveal_with_fuel(trimmed_start, 2);
}

/// A 64-bit number written with "0x" in front reads back as itself, as a hex
/// string and as a quantity.
pub proof fn law_hex_number_reads_back(n: u64)
    ensures
        hex_number("0x"@ + hex(n as nat)) == Some(n),
        quantity("0x"@ + hex(n as nat)) == Some(n),
{
    law_hex_reads_back(n as nat);
    law_digits_read(hex(n as nat));
}

/// A row of digits with the letters among them as capitals.
pub open spec fn in_capitals(s: Seq<char>) -> Seq<char> {
    s.map_values(
        |c: char|
            if 'a' <= c && c <= 'f' {
                (c as int - 32) as char
            } else {
                c
            },
    )
}

/// Neither capitals nor zeros in front change what a row of digits stands for.
pub proof fn law_other_writings_mean_the_same(s: Seq<char>, zeros: nat)
    requires
        all_hex(s),
    ensures
        all_hex(in_capitals(s)),
        hex_value(in_capitals(s)) == hex_value(s),
        all_hex(repeated('0', zeros) + s),
        hex_value(repeated('0', zeros) + s) == hex_value(s),
    decreases s.len(), zeros,
{
    let capitals = in_capitals(s);
    let padded = repeated('0', zeros) + s;
    assert(all_hex(padded)) by {
        assert forall|i: int| 0 <= i < padded.len() implies hex_digit(
            #[trigger] padded[i],
        ) is Some by {
            if i >= zeros {
                assert(padded[i] == s[i - zeros]);
            }
        }
    }
    assert(all_hex(capitals)) by {
        assert forall|i: int| 0 <= i < capitals.len() implies hex_digit(
            #[trigger] capitals[i],
        ) is Some by {
            assert(hex_digit(s[i]) is Some);
        }
    }
    if s.len() > 0 {
        let rest = s.drop_last();
        assert(all_hex(rest));
        law_other_writings_mean_the_same(rest, zeros);
        assert(capitals.drop_last() =~= in_capitals(rest));
        assert(padded.drop_last() =~= repeated('0', zeros) + rest);
        assert(hex_digit(s.last()) is Some);
        assert(hex_digit(capitals.last()) == hex_digit(s.last()));
        assert(padded.last() == s.last());
    } else if zeros > 0 {
        law_other_writings_mean_the_same(s, (zeros - 1) as nat);
        assert(padded.drop_last() =~= repeated('0', (zeros - 1) as nat) + s);
        assert(padded.last() == '0');
    }
}

/// A 64-bit number reads back from each of its writings: with zeros in front, in
/// capitals, and with or without "0x" before them.
pub proof fn law_every_writing_reads_back(n: u64, zeros: nat)
    ensures
        ({
            let small = repeated('0', zeros) + hex(n as nat);
            let large = repeated('0', zeros) + in_capitals(hex(n as nat));
            &&& hex_number(small) == Some(n)
            &&& hex_number("0x"@ + small) == Some(n)
            &&& quantity(small) == Some(n)
            &&& quantity("0x"@ + small) == Some(n)
            &&& hex_number(large) == Some(n)
            &&& hex_number("0x"@ + large) == Some(n)
            &&& quantity(large) == Some(n)
            &&& quantity("0x"@ + large) == Some(n)
        }),
{
    let h = hex(n as nat);
    law_hex_reads_back(n as nat);
    law_other_writings_mean_the_same(h, zeros);
    law_other_writings_mean_the_same(in_capitals(h), zeros);
    law_digits_read(repeated('0', zeros) + h);
    law_digits_read(repeated('0', zeros) + in_capitals(h));
}

} // verus!

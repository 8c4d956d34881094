//! What holds of the text primitives, said by way of the texts that they take
//! apart and put together.

use crate::failure::{chained, in_context, plain};
use crate::text::{
    ascii_lowercase, begins_with, contains, decimal, hex, occurs_at, padded, repeated, replaced,
    signed_decimal, trimmed_start,
};
use vstd::prelude::*;

verus! {

/// A text stands in another exactly if the other is made of something, the text,
/// and something more.
pub proof fn law_contains_is_in_between(s: Seq<char>, pattern: Seq<char>)
    ensures
        contains(s, pattern) <==> exists|a: Seq<char>, b: Seq<char>| s == #[trigger] (a + pattern + b),
{
    if contains(s, pattern) {
        let i = choose|i: int| occurs_at(s, pattern, i);
        let a = s.take(i);
        let b = s.skip(i + pattern.len());
        assert(s =~= a + pattern + b) by {
            assert(s.subrange(i, i + pattern.len()) == pattern);
            assert forall|k: int| 0 <= k < s.len() implies s[k] == (a + pattern + b)[k] by {
                if i <= k < i + pattern.len() {
                    assert(s.subrange(i, i + pattern.len())[k - i] == s[k]);
                }
            }
        }
    }
    if exists|a: Seq<char>, b: Seq<char>| s == #[trigger] (a + pattern + b) {
        let (a, b) = choose|a: Seq<char>, b: Seq<char>| s == #[trigger] (a + pattern + b);
        assert(s.subrange(a.len() as int, (a.len() + pattern.len()) as int) =~= pattern);
        assert(occurs_at(s, pattern, a.len() as int));
    }
}

/// A text put between two others stands in the whole.
pub proof fn law_between_is_contained(a: Seq<char>, pattern: Seq<char>, b: Seq<char>)
    ensures
        contains(a + pattern + b, pattern),
{
    let s = a + pattern + b;
    assert(s.subrange(a.len() as int, (a.len() + pattern.len()) as int) =~= pattern);
    assert(occurs_at(s, pattern, a.len() as int));
}

/// A text begins with another exactly if the other comes first in it.
pub proof fn law_begins_with_comes_first(s: Seq<char>, pattern: Seq<char>)
    ensures
        begins_with(s, pattern) <==> exists|b: Seq<char>| s == #[trigger] (pattern + b),
{
    if begins_with(s, pattern) {
        let b = s.skip(pattern.len() as int);
        assert(s =~= pattern + b) by {
            assert forall|k: int| 0 <= k < s.len() implies s[k] == (pattern + b)[k] by {
                if k < pattern.len() {
                    assert(s.subrange(0, pattern.len() as int)[k] == s[k]);
                }
            }
        }
    }
    if exists|b: Seq<char>| s == #[trigger] (pattern + b) {
        let b = choose|b: Seq<char>| s == #[trigger] (pattern + b);
        assert(s.subrange(0, pattern.len() as int) =~= pattern);
    }
}

/// What is trimmed does not begin with the pattern, a pattern more in front makes
/// no difference to it, and a text that does not begin with the pattern is kept.
pub proof fn law_trimming_takes_all_off(s: Seq<char>, pattern: Seq<char>)
    requires
        pattern.len() > 0,
    ensures
        !begins_with(trimmed_start(s, pattern), pattern),
        trimmed_start(pattern + s, pattern) == trimmed_start(s, pattern),
        !begins_with(s, pattern) ==> trimmed_start(s, pattern) == s,
    decreases s.len(),
{
    assert((pattern + s).subrange(0, pattern.len() as int) =~= pattern);
    assert((pattern + s).skip(pattern.len() as int) =~= s);
    if begins_with(s, pattern) {
        law_trimming_takes_all_off(s.skip(pattern.len() as int), pattern);
    }
}

/// Replacing leaves a text without the pattern as it is.
pub proof fn law_nothing_to_replace(s: Seq<char>, from: Seq<char>, to: Seq<char>)
    requires
        from.len() > 0,
        !contains(s, from),
    ensures
        replaced(s, from, to) == s,
    decreases s.len(),
{
    if s.len() > 0 {
        let rest = s.skip(1);
        assert(!contains(rest, from)) by {
            if contains(rest, from) {
                let i = choose|i: int| occurs_at(rest, from, i);
                assert(s.subrange(i + 1, i + 1 + from.len()) =~= rest.subrange(i, i + from.len()));
                assert(occurs_at(s, from, i + 1));
            }
        }
        law_nothing_to_replace(rest, from, to);
        assert(!occurs_at(s, from, 0));
        assert(s.take(1) + rest =~= s);
    }
}

/// Where the pattern first stands, replacing puts the other text in its place and
/// goes on behind it.
pub proof fn law_replacing_goes_from_the_left(
    a: Seq<char>,
    from: Seq<char>,
    b: Seq<char>,
    to: Seq<char>,
)
    requires
        from.len() > 0,
        forall|i: int| 0 <= i < a.len() ==> !occurs_at(a + from + b, from, i),
    ensures
        replaced(a + from + b, from, to) == a + to + replaced(b, from, to),
    decreases a.len(),
{
    let s = a + from + b;
    let end = replaced(b, from, to);
    if a.len() == 0 {
        assert(s.subrange(0, from.len() as int) =~= from);
        assert(s.skip(from.len() as int) =~= b);
        assert(a + to + end =~= to + end);
    } else {
        let rest = a.skip(1);
        let rest_s = rest + from + b;
        assert(s.skip(1) =~= rest_s);
        assert forall|i: int| 0 <= i < rest.len() implies !occurs_at(rest_s, from, i) by {
            assert(!occurs_at(s, from, i + 1));
            if occurs_at(rest_s, from, i) {
                assert(s.subrange(i + 1, i + 1 + from.len()) =~= rest_s.subrange(
                    i,
                    i + from.len(),
                ));
            }
        }
        law_replacing_goes_from_the_left(rest, from, b, to);
        assert(!occurs_at(s, from, 0));
        assert(replaced(s, from, to) == s.take(1) + replaced(rest_s, from, to));
        assert(s.take(1) =~= a.take(1));
        assert(a =~= a.take(1) + rest);
        assert(a.take(1) + (rest + to + end) =~= (a.take(1) + rest) + to + end);
    }
}

/// The number that a row of decimal digits stands for.
pub open spec fn decimal_value(s: Seq<char>) -> int
    decreases s.len(),
{
    if s.len() == 0 {
        0
    } else {
        10 * decimal_value(s.drop_last()) + (s.last() as int - '0' as int)
    }
}

/// The decimal writing of a number is a row of decimal digits that stands for it,
/// without a zero in front.
pub proof fn law_decimal_reads_back(n: nat)
    ensures
        decimal(n).len() > 0,
        forall|i: int| 0 <= i < decimal(n).len() ==> '0' <= #[trigger] decimal(n)[i] <= '9',
        decimal_value(decimal(n)) == n,
        decimal(n).len() > 1 ==> decimal(n)[0] != '0',
        n > 0 ==> decimal(n)[0] != '0',
    decreases n,
{
    let s = decimal(n);
    if n < 10 {
        assert(s.drop_last() =~= Seq::empty());
        assert(decimal_value(s.drop_last()) == 0);
    } else {
        law_decimal_reads_back(n / 10);
        assert(s.drop_last() =~= decimal(n / 10));
        assert forall|i: int| 0 <= i < s.len() implies '0' <= #[trigger] s[i] <= '9' by {
            if i < s.len() - 1 {
                assert(s[i] == decimal(n / 10)[i]);
            }
        }
        assert(s[0] == decimal(n / 10)[0]);
    }
}

/// The hexadecimal writing of a number has no zero in front, and small letters.
pub proof fn law_hex_is_plain(n: nat)
    ensures
        hex(n).len() > 1 ==> hex(n)[0] != '0',
        n > 0 ==> hex(n)[0] != '0',
        forall|i: int|
            0 <= i < hex(n).len() ==> ('0' <= #[trigger] hex(n)[i] <= '9') || ('a' <= hex(n)[i]
                <= 'f'),
    decreases n,
{
    let s = hex(n);
    if n >= 16 {
        law_hex_is_plain(n / 16);
        assert(s.drop_last() =~= hex(n / 16));
        assert forall|i: int| 0 <= i < s.len() implies ('0' <= #[trigger] s[i] <= '9') || ('a'
            <= s[i] <= 'f') by {
            if i < s.len() - 1 {
                assert(s[i] == hex(n / 16)[i]);
            }
        }
        assert(s[0] == hex(n / 16)[0]);
    }
}

/// A number that is not negative is written as a decimal number, and the opposite
/// of a positive one as the same with a minus sign in front.
pub proof fn law_signs_are_shown(n: nat)
    ensures
        signed_decimal(n as int) == decimal(n),
        n > 0 ==> signed_decimal(-(n as int)) == seq!['-'] + decimal(n),
{
    reveal_strlit("-");
    assert("-"@ =~= seq!['-']);
}

/// A padded text begins with the text, reaches the width, and has only blanks
/// behind; a text that is wide enough is kept.
pub proof fn law_padding_is_blank(s: Seq<char>, width: nat)
    ensures
        padded(s, width).len() == if s.len() < width {
            width
        } else {
            s.len()
        },
        padded(s, width).take(s.len() as int) == s,
        forall|i: int|
            s.len() <= i < padded(s, width).len() ==> #[trigger] padded(s, width)[i] == ' ',
{
    assert(padded(s, width).take(s.len() as int) =~= s);
}

/// A repeated character stands everywhere, as often as it is repeated.
pub proof fn law_repetition(c: char, n: nat)
    ensures
        repeated(c, n).len() == n,
        forall|i: int| 0 <= i < n ==> #[trigger] repeated(c, n)[i] == c,
{
}

/// Lower case has no capital letter, keeps what is no capital letter, and is
/// blind to the case of what it is made of: a capital becomes the letter that
/// comes as far behind 'a' as it comes behind 'A'.
pub proof fn law_lowercase_is_blind_to_case(s: Seq<char>, i: int)
    requires
        0 <= i < s.len(),
    ensures
        ascii_lowercase(s).len() == s.len(),
        !('A' <= ascii_lowercase(s)[i] <= 'Z'),
        !('A' <= s[i] <= 'Z') ==> ascii_lowercase(s)[i] == s[i],
        'A' <= s[i] <= 'Z' ==> ascii_lowercase(s)[i] as int - 'a' as int == s[i] as int
            - 'A' as int,
{
}

/// The text of a failure is its message, and in a context the message of the
/// context, a colon and the text of the failure.
pub proof fn law_causes_come_behind_a_colon(message: Seq<char>, failure: Seq<Seq<char>>)
    ensures
        plain(message).len() == 1,
        plain(message)[0] == message,
        in_context(message, failure).len() == failure.len() + 1,
        in_context(message, failure)[0] == message,
        in_context(message, failure).skip(1) == failure,
        chained(plain(message)) == message,
        failure.len() > 0 ==> chained(in_context(message, failure)) == message + seq![':', ' ']
            + chained(failure),
    decreases failure.len(),
{
    reveal_strlit(": ");
    assert(": "@ =~= seq![':', ' ']);
    let all = in_context(message, failure);
    assert(all.skip(1) =~= failure);
    if failure.len() == 1 {
        assert(all.drop_last() =~= plain(message));
        assert(chained(all.drop_last()) == message);
    } else if failure.len() > 1 {
        law_causes_come_behind_a_colon(message, failure.drop_last());
        assert(all.drop_last() =~= in_context(message, failure.drop_last()));
        assert(chained(all) =~= message + seq![':', ' '] + chained(failure));
    }
}

} // verus!

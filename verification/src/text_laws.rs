//! What numerals, splitting and trimming do to a text.

use crate::text::{
    decimal, decimal_of, decimal_round_trip, digit_value, digits_value, is_white_space,
    parse_number, split_at_char, split_has_piece, trimmed, without_leading,
    without_trailing,
};
use vstd::prelude::*;

verus! {

/// A numeral has digits alone, and does not start with a zero unless it is zero.
pub proof fn numerals_are_digits(n: nat)
    ensures
        forall|i: int| 0 <= i < decimal(n).len() ==> '0' <= #[trigger] decimal(n)[i] <= '9',
        decimal(n).len() > 0,
        decimal(n)[0] == '0' <==> n == 0,
    decreases n,
{
    if n >= 10 {
        numerals_are_digits(n / 10);
        let head = decimal(n / 10);
        assert forall|i: int| 0 <= i < decimal(n).len() implies '0' <= #[trigger] decimal(n)[i]
            <= '9' by {
            if i < head.len() {
                assert(decimal(n)[i] == head[i]);
            }
        }
        assert(decimal(n)[0] == head[0]);
    }
}

/// The last digit of a numeral is worth the remainder by ten, and the digits
/// before it are the numeral of the quotient.
pub proof fn numerals_end_in_the_remainder(n: nat)
    requires
        n >= 10,
    ensures
        decimal(n).last() as int - '0' as int == n % 10,
        decimal(n).drop_last() == decimal(n / 10),
{
    assert(decimal(n).drop_last() =~= decimal(n / 10));
}

/// A number is read back from its numeral, with or without a plus sign, where it
/// fits into 64 bits; where it does not, nothing is read.
pub proof fn numerals_are_read_back(n: nat, s: &str, r: Option<u64>)
    requires
        s@ == decimal(n) || s@ == seq!['+'] + decimal(n),
        call_ensures(parse_number, (s,), r),
    ensures
        n <= u64::MAX ==> (r matches Some(v) && v == n),
        n > u64::MAX ==> r is None,
{
    decimal_round_trip(n);
    numerals_are_digits(n);
    assert((seq!['+'] + decimal(n)).drop_first() =~= decimal(n));
    assert(decimal(n)[0] != '+');
}

/// What was written for a number is its numeral, and reads back as the number.
pub proof fn written_numbers_are_read_back(n: u64, w: String, s: &str, r: Option<u64>)
    requires
        call_ensures(decimal_of, (n,), w),
        s@ == w@,
        call_ensures(parse_number, (s,), r),
    ensures
        r == Some(n),
{
    decimal_round_trip(n as nat);
    numerals_are_digits(n as nat);
    assert(decimal(n as nat)[0] != '+');
}

/// A text that is empty, or holds anything but digits behind an optional plus
/// sign, is no number.
pub proof fn other_texts_are_no_numbers(s: &str, i: int, r: Option<u64>)
    requires
        call_ensures(parse_number, (s,), r),
        s@.len() == 0 || (0 <= i < s@.len() && !('0' <= s@[i] <= '9') && !(i == 0 && s@[0]
            == '+')) || s@ == seq!['+'],
    ensures
        r is None,
{
    let digits = if s@.len() > 0 && s@[0] == '+' {
        s@.drop_first()
    } else {
        s@
    };
    if digits.len() > 0 {
        let k = if s@[0] == '+' {
            i - 1
        } else {
            i
        };
        assert(digits[k] == s@[i]);
        one_other_is_enough(digits, k);
    }
}

proof fn one_other_is_enough(s: Seq<char>, k: int)
    requires
        0 <= k < s.len(),
        digit_value(s[k]) is None,
    ensures
        digits_value(s) is None,
    decreases s.len(),
{
    if k < s.len() - 1 {
        assert(s.drop_last()[k] == s[k]);
        one_other_is_enough(s.drop_last(), k);
    }
}

/// The pieces of a text with separators between them.
pub open spec fn glued(pieces: Seq<Seq<char>>, sep: char) -> Seq<char>
    decreases pieces.len(),
{
    if pieces.len() == 0 {
        Seq::empty()
    } else if pieces.len() == 1 {
        pieces[0]
    } else {
        glued(pieces.drop_last(), sep).push(sep) + pieces.last()
    }
}

/// No piece of a text holds a separator, and the pieces with separators between
/// them are the text.
pub proof fn pieces_make_up_the_text(s: Seq<char>, sep: char)
    ensures
        glued(split_at_char(s, sep), sep) == s,
        forall|i: int|
            0 <= i < split_at_char(s, sep).len() ==> !(#[trigger] split_at_char(
                s,
                sep,
            )[i]).contains(sep),
    decreases s.len(),
{
    let pieces = split_at_char(s, sep);
    split_has_piece(s, sep);
    if s.len() == 0 {
        assert(glued(pieces, sep) =~= s);
    } else {
        let t = s.drop_last();
        let head = split_at_char(t, sep);
        split_has_piece(t, sep);
        pieces_make_up_the_text(t, sep);
        if s.last() == sep {
            assert(pieces.drop_last() =~= head);
            assert(glued(pieces, sep) =~= s);
            assert forall|i: int| 0 <= i < pieces.len() implies !(
            #[trigger] pieces[i]).contains(sep) by {
                if i < head.len() {
                    assert(pieces[i] == head[i]);
                }
            }
        } else {
            let c = s.last();
            assert(pieces.drop_last() =~= head.drop_last());
            assert(pieces.last() == head.last().push(c));
            assert(glued(pieces, sep) =~= glued(head, sep).push(c));
            assert(t.push(c) =~= s);
            assert forall|i: int| 0 <= i < pieces.len() implies !(
            #[trigger] pieces[i]).contains(sep) by {
                if i < head.len() - 1 {
                    assert(pieces[i] == head[i]);
                } else {
                    assert(!head[head.len() - 1].contains(sep));
                    assert forall|k: int| 0 <= k < pieces[i].len() implies pieces[i][k] != sep by {
                        if k < head.last().len() {
                            assert(head.last()[k] == pieces[i][k]);
                        }
                    }
                }
            }
        }
    }
}

/// Trimming takes white space off the two ends and nothing else: what is left
/// stood together in the text, with nothing but white space around it, and
/// neither starts nor ends with white space.
pub proof fn trimming_takes_white_space_off(s: Seq<char>) -> (ends: (int, int))
    ensures
        0 <= ends.0 <= ends.1 <= s.len(),
        trimmed(s) == s.subrange(ends.0, ends.1),
        forall|i: int| 0 <= i < ends.0 ==> is_white_space(#[trigger] s[i]),
        forall|i: int| ends.1 <= i < s.len() ==> is_white_space(#[trigger] s[i]),
        trimmed(s).len() > 0 ==> !is_white_space(trimmed(s)[0]) && !is_white_space(
            trimmed(s).last(),
        ),
{
    let a = leading(s);
    let t = without_leading(s);
    let b = trailing(t);
    assert(trimmed(s) =~= s.subrange(a, a + b));
    assert forall|i: int| a + b <= i < s.len() implies is_white_space(#[trigger] s[i]) by {
        assert(t[i - a] == s[i]);
    }
    if trimmed(s).len() > 0 {
        assert(trimmed(s)[0] == t[0]);
    }
    (a, a + b)
}

proof fn leading(s: Seq<char>) -> (n: int)
    ensures
        0 <= n <= s.len(),
        without_leading(s) == s.skip(n),
        forall|i: int| 0 <= i < n ==> is_white_space(#[trigger] s[i]),
        without_leading(s).len() > 0 ==> !is_white_space(without_leading(s)[0]),
    decreases s.len(),
{
    if s.len() > 0 && is_white_space(s[0]) {
        let rest = s.drop_first();
        let m = leading(rest);
        assert(rest.skip(m) =~= s.skip(m + 1));
        assert forall|i: int| 0 <= i < m + 1 implies is_white_space(#[trigger] s[i]) by {
            if i > 0 {
                assert(rest[i - 1] == s[i]);
            }
        }
        m + 1
    } else {
        assert(s.skip(0) =~= s);
        0
    }
}

proof fn trailing(s: Seq<char>) -> (n: int)
    ensures
        0 <= n <= s.len(),
        without_trailing(s) == s.take(n),
        forall|i: int| n <= i < s.len() ==> is_white_space(#[trigger] s[i]),
        without_trailing(s).len() > 0 ==> !is_white_space(without_trailing(s).last()),
    decreases s.len(),
{
    if s.len() > 0 && is_white_space(s.last()) {
        let rest = s.drop_last();
        let m = trailing(rest);
        assert(rest.take(m) =~= s.take(m));
        assert forall|i: int| m <= i < s.len() implies is_white_space(#[trigger] s[i]) by {
            if i < s.len() - 1 {
                assert(rest[i] == s[i]);
            }
        }
        m
    } else {
        assert(s.take(s.len() as int) =~= s);
        s.len() as int
    }
}

} // verus!

//! What holds of the texts that are written, read and searched.
use vstd::prelude::*;
use crate::memory::{is_line, tells_rss};
use crate::text::{
    decimal, digits_value, has_infix, has_prefix, is_digit, joined, occurs_at, signed_decimal,
    u64_of_text, without_plus,
};

verus! {

/// A text begins with another exactly where it is that other with something behind it.
pub proof fn law_prefix_is_what_stands_in_front(hay: Seq<char>, needle: Seq<char>)
    ensures
        has_prefix(hay, needle) <==> exists|rest: Seq<char>| hay == #[trigger] (needle + rest),
{
    if has_prefix(hay, needle) {
        let rest = hay.skip(needle.len() as int);
        assert(hay =~= needle + rest) by {
            assert(hay.subrange(0, needle.len() as int) == needle);
            assert forall|i: int| 0 <= i < needle.len() implies hay[i] == needle[i] by {
                assert(hay.subrange(0, needle.len() as int)[i] == hay[i]);
            }
        }
    }
    if exists|rest: Seq<char>| hay == #[trigger] (needle + rest) {
        let rest = choose|rest: Seq<char>| hay == #[trigger] (needle + rest);
        assert(hay.subrange(0, needle.len() as int) =~= needle);
    }
}

/// A text holds another exactly where it is that other with something before it and something
/// behind it.
pub proof fn law_infix_is_what_stands_between(hay: Seq<char>, needle: Seq<char>)
    ensures
        has_infix(hay, needle) <==> exists|a: Seq<char>, b: Seq<char>|
            hay == #[trigger] (a + needle + b),
{
    if has_infix(hay, needle) {
        let at = choose|at: int| #[trigger] occurs_at(hay, needle, at);
        let a = hay.take(at);
        let b = hay.skip(at + needle.len());
        assert(hay =~= a + needle + b) by {
            assert(hay.subrange(at, at + needle.len()) == needle);
            assert forall|i: int| 0 <= i < needle.len() implies hay[at + i] == needle[i] by {
                assert(hay.subrange(at, at + needle.len())[i] == hay[at + i]);
            }
        }
    }
    if exists|a: Seq<char>, b: Seq<char>| hay == #[trigger] (a + needle + b) {
        let (a, b) = choose|a: Seq<char>, b: Seq<char>| hay == #[trigger] (a + needle + b);
        let at = a.len() as int;
        assert(hay.subrange(at, at + needle.len()) =~= needle);
        assert(occurs_at(hay, needle, at));
    }
}

/// A number written in decimal is digits only, has no needless zero in front, and ends with the
/// digit of its ones.
pub proof fn law_decimal_is_digits(n: nat)
    ensures
        decimal(n).len() >= 1,
        forall|i: int| 0 <= i < decimal(n).len() ==> '0' <= #[trigger] decimal(n)[i] <= '9',
        n > 0 ==> decimal(n)[0] != '0',
        decimal(n).last() as int == '0' as int + n % 10,
        decimal(n).len() == 1 <==> n < 10,
    decreases n,
{
    if n >= 10 {
        law_decimal_is_digits(n / 10);
    }
}

/// The value of digits is ten times that of all but the last, and the last.
pub proof fn law_digits_count_by_tens(s: Seq<char>, c: char)
    requires
        '0' <= c <= '9',
    ensures
        digits_value(Seq::empty()) == 0,
        digits_value(s.push(c)) == 10 * digits_value(s) + (c as int - '0' as int),
{
    assert(s.push(c).drop_last() =~= s);
}

/// A number that is written in decimal is read back, with or without a plus before it.
pub proof fn law_decimal_reads_back(n: u64)
    ensures
        digits_value(decimal(n as nat)) == n,
        u64_of_text(decimal(n as nat)) == Some(n),
        u64_of_text(seq!['+'] + decimal(n as nat)) == Some(n),
{
    lemma_decimal_value(n as nat);
    law_decimal_is_digits(n as nat);
    let d = decimal(n as nat);
    let all = seq!['+'] + d;
    assert(without_plus(d) == d);
    assert(without_plus(all) =~= d);
}

/// The digits of a number have its value.
proof fn lemma_decimal_value(n: nat)
    ensures
        digits_value(decimal(n)) == n,
    decreases n,
{
    if n < 10 {
        assert(decimal(n).drop_last() =~= Seq::empty());
        assert(digits_value(Seq::empty()) == 0);
    } else {
        lemma_decimal_value(n / 10);
        assert(decimal(n).drop_last() =~= decimal(n / 10));
    }
}

/// What is read as a number is digits, perhaps behind one plus, and their value; nothing else is.
pub proof fn law_only_digits_are_numbers(s: Seq<char>)
    ensures
        match u64_of_text(s) {
            Some(n) => exists|d: Seq<char>|
                (s == d || s == seq!['+'] + d) && d.len() > 0 && #[trigger] digits_value(d) == n
                    && forall|i: int| 0 <= i < d.len() ==> '0' <= #[trigger] d[i] <= '9',
            None => {
                ||| s.len() == 0
                ||| s == seq!['+']
                ||| exists|i: int|
                    0 <= i < s.len() && !('0' <= #[trigger] s[i] <= '9') && (i > 0 || s[i] != '+')
                ||| digits_value(s) > u64::MAX
                ||| s[0] == '+' && digits_value(s.skip(1)) > u64::MAX
            },
        },
{
    let d = without_plus(s);
    if s.len() > 0 && s[0] == '+' {
        assert(s =~= seq!['+'] + d);
    }
    if u64_of_text(s) is None {
        if d.len() == 0 {
            if s.len() > 0 {
                assert(s =~= seq!['+']);
            }
        } else if !(forall|i: int| 0 <= i < d.len() ==> is_digit(#[trigger] d[i])) {
            let i = choose|i: int| 0 <= i < d.len() && !is_digit(#[trigger] d[i]);
            if s[0] == '+' {
                assert(s[i + 1] == d[i]);
            } else {
                assert(s[i] == d[i]);
            }
        }
    } else {
        assert(digits_value(d) == u64_of_text(s)->0);
    }
}

/// A negative number is written as its opposite with a minus before it.
pub proof fn law_minus_stands_in_front(n: nat)
    ensures
        signed_decimal(n as int) == decimal(n),
        n > 0 ==> signed_decimal(-(n as int)) == seq!['-'] + decimal(n),
{
}

/// Joined texts are the first one, the separator and the others joined; one text alone is itself,
/// and none is nothing.
pub proof fn law_join_puts_the_separator_between(
    first: Seq<char>,
    rest: Seq<Seq<char>>,
    sep: Seq<char>,
)
    ensures
        joined(Seq::empty(), sep) == Seq::<char>::empty(),
        joined(seq![first], sep) == first,
        rest.len() > 0 ==> joined(seq![first] + rest, sep) == first + sep + joined(rest, sep),
    decreases rest.len(),
{
    if rest.len() > 0 {
        let all = seq![first] + rest;
        let shorter = rest.drop_last();
        assert(all.drop_last() =~= seq![first] + shorter);
        assert(all.last() == rest.last());
        if shorter.len() > 0 {
            law_join_puts_the_separator_between(first, shorter, sep);
            assert(joined(all, sep) =~= first + sep + joined(rest, sep));
        } else {
            assert(all.drop_last() =~= seq![first]);
            assert(joined(seq![first], sep) == first);
            assert(joined(rest, sep) == rest.last());
            assert(joined(all, sep) =~= first + sep + joined(rest, sep));
        }
    }
}

/// What stands between two line ends is a line, and so is what stands at either end of the text.
pub proof fn law_lines_stand_between_line_ends(
    before: Seq<char>,
    line: Seq<char>,
    behind: Seq<char>,
)
    requires
        before.len() == 0 || before.last() == '\n',
        behind.len() == 0 || behind[0] == '\n',
        forall|i: int| 0 <= i < line.len() ==> #[trigger] line[i] != '\n',
    ensures
        is_line(
            before + line + behind,
            before.len() as int,
            (before.len() + line.len()) as int,
        ),
        (before + line + behind).subrange(
            before.len() as int,
            (before.len() + line.len()) as int,
        ) == line,
{
    let all = before + line + behind;
    let i = before.len() as int;
    let j = i + line.len();
    if i > 0 {
        assert(all[i - 1] == before.last());
    }
    if j < all.len() {
        assert(all[j] == behind[0]);
    }
    assert forall|k: int| i <= k < j implies #[trigger] all[k] != '\n' by {
        assert(all[k] == line[k - i]);
    }
    assert(all.subrange(i, j) =~= line);
}

/// A line tells the resident set size exactly where `VmRSS:` stands in front.
pub proof fn law_rss_line_begins_so(line: Seq<char>)
    ensures
        tells_rss(line) <==> exists|rest: Seq<char>| line == #[trigger] ("VmRSS:"@ + rest),
{
    law_prefix_is_what_stands_in_front(line, "VmRSS:"@);
}

} // verus!

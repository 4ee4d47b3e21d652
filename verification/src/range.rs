//! Byte ranges of a file, and the text form in which the service names them.

use crate::text::{
    chars_of, decimal_digits, is_digit, lemma_decimal_digits, lemma_parse_decimal_digits,
    number_in, parse_number, push_decimal, unsigned_part,
};
use vstd::prelude::*;

verus! {

/// A half-open byte range `start..end`, or `start..` when `end` is absent.
///
/// On the wire the upper bound is inclusive: the text `42-196` names the
/// range `42..197`, and `418-` names `418..`.
#[derive(Debug, Clone, Copy, PartialEq, Eq, Structural)]
pub struct ExpectRange {
    /// The lower bound of the range (inclusive).
    pub start: u64,
    /// The optional upper bound of the range (exclusive).
    pub end: Option<u64>,
}

/// What a range text means.
///
/// The text is cut at its first `-`. What stands before it must be a number,
/// the lower bound. What stands after it is either empty, for a range without
/// an upper bound, or a number not below the lower bound and below
/// `u64::MAX`: the inclusive upper bound. A text without `-`, or with a
/// second one, therefore means nothing.
pub open spec fn parse_range(s: Seq<char>) -> Option<ExpectRange> {
    match s.index_of_first('-') {
        None => None,
        Some(dash) => {
            let upper = s.skip(dash + 1);
            match parse_number(s.take(dash)) {
                None => None,
                Some(start) => if upper.len() == 0 {
                    Some(ExpectRange { start, end: None })
                } else {
                    match parse_number(upper) {
                        None => None,
                        Some(last) => if start <= last && last < u64::MAX {
                            Some(ExpectRange { start, end: Some((last + 1) as u64) })
                        } else {
                            None
                        },
                    }
                },
            }
        },
    }
}

/// The text that names `r`: the lower bound, `-`, and the inclusive upper
/// bound if there is one, each as the shortest decimal number.
pub open spec fn range_text(r: ExpectRange) -> Seq<char> {
    match r.end {
        None => decimal_digits(r.start as nat).push('-'),
        Some(end) => decimal_digits(r.start as nat).push('-') + decimal_digits((end - 1) as nat),
    }
}

impl ExpectRange {
    /// A range with an upper bound is not empty.
    pub open spec fn well_formed(&self) -> bool {
        self.end matches Some(end) ==> self.start < end
    }

    /// Whether the byte at `offset` lies in the range.
    pub open spec fn contains(&self, offset: int) -> bool {
        self.start <= offset && (self.end matches Some(end) ==> offset < end)
    }

    /// Whether every byte of `other` lies in the range.
    pub open spec fn includes(&self, other: ExpectRange) -> bool {
        self.start <= other.start && match (self.end, other.end) {
            (None, _) => true,
            (Some(_), None) => false,
            (Some(end), Some(other_end)) => other_end <= end,
        }
    }

    /// Whether every byte of `other` lies in the range.
    pub fn covers(&self, other: &ExpectRange) -> (r: bool)
        ensures
            r == self.includes(*other),
    {
        self.start <= other.start && match (self.end, other.end) {
            (None, _) => true,
            (Some(_), None) => false,
            (Some(end), Some(other_end)) => other_end <= end,
        }
    }

    /// Reads a range from its text form, `{lower}-{upper}` or `{lower}-`.
    pub fn parse(s: &str) -> (r: Option<ExpectRange>)
        ensures
            r == parse_range(s@),
            r matches Some(range) ==> range.well_formed(),
    {
        let v = chars_of(s);
        let n: usize = v.len();
        let mut dash: usize = 0;
        while dash < n && v[dash] != '-'
            invariant
                dash <= n == v.len(),
                forall|j: int| 0 <= j < dash ==> v@[j] != '-',
            decreases n - dash,
        {
            dash += 1;
        }
        proof {
            v@.index_of_first_ensures('-');
            if dash < n {
                assert(v@.contains('-'));
                assert(v@.index_of_first('-') == Some(dash as int));
            }
        }
        if dash == n {
            return None;
        }
        assert(v@.subrange(0, dash as int) =~= v@.take(dash as int));
        assert(v@.subrange(dash + 1, n as int) =~= v@.skip(dash + 1));
        let start: u64 = match number_in(&v, 0, dash) {
            Some(start) => start,
            None => {
                return None;
            },
        };
        if dash + 1 == n {
            return Some(ExpectRange { start, end: None });
        }
        match number_in(&v, dash + 1, n) {
            None => None,
            Some(last) => {
                if start <= last && last < u64::MAX {
                    Some(ExpectRange { start, end: Some(last + 1) })
                } else {
                    None
                }
            },
        }
    }

    /// Writes the range in its text form.
    pub fn wire_text(&self) -> (text: String)
        requires
            self.well_formed(),
        ensures
            text@ == range_text(*self),
    {
        let mut text = String::new();
        push_decimal(&mut text, self.start);
        text.push('-');
        match self.end {
            None => {},
            Some(end) => {
                push_decimal(&mut text, end - 1);
            },
        }
        assert(Seq::<char>::empty() + decimal_digits(self.start as nat) =~= decimal_digits(
            self.start as nat,
        ));
        text
    }
}

/// What a range text means is a well-formed range.
pub proof fn lemma_parse_range_well_formed(s: Seq<char>)
    ensures
        parse_range(s) matches Some(range) ==> range.well_formed(),
{
}

/// A number text holds no `-`.
proof fn lemma_number_has_no_dash(s: Seq<char>)
    requires
        parse_number(s) is Some,
    ensures
        !s.contains('-'),
{
    let digits = unsigned_part(s);
    assert forall|i: int| 0 <= i < s.len() implies s[i] != '-' by {
        if s[0] == '+' {
            if i > 0 {
                assert(digits[i - 1] == s[i]);
                assert(is_digit(digits[i - 1]));
            }
        } else {
            assert(is_digit(digits[i]));
        }
    }
}

/// Where a text is a dash-free `lower`, then `-`, then `upper`, the text is
/// cut into exactly these two.
proof fn lemma_cut_at_dash(lower: Seq<char>, upper: Seq<char>)
    requires
        !lower.contains('-'),
    ensures
        ({
            let s = lower.push('-') + upper;
            &&& s.index_of_first('-') == Some(lower.len() as int)
            &&& s.take(lower.len() as int) == lower
            &&& s.skip(lower.len() as int + 1) == upper
        }),
{
    let s = lower.push('-') + upper;
    let dash = lower.len() as int;
    s.index_of_first_ensures('-');
    assert(s[dash] == '-');
    assert(s.contains('-'));
    assert forall|j: int| 0 <= j < dash implies s[j] != '-' by {
        assert(s[j] == lower[j]);
        assert(lower.contains(s[j]));
    }
    assert(s.take(dash) =~= lower);
    assert(s.skip(dash + 1) =~= upper);
}

/// Reading back what was written gives the same range: for every
/// well-formed range, the text that names it means that range.
pub proof fn lemma_parse_range_text(r: ExpectRange)
    requires
        r.well_formed(),
    ensures
        parse_range(range_text(r)) == Some(r),
{
    let lower = decimal_digits(r.start as nat);
    lemma_parse_decimal_digits(r.start);
    lemma_number_has_no_dash(lower);
    match r.end {
        None => {
            lemma_cut_at_dash(lower, Seq::<char>::empty());
            assert(lower.push('-') + Seq::<char>::empty() =~= lower.push('-'));
        },
        Some(end) => {
            let last = (end - 1) as u64;
            lemma_parse_decimal_digits(last);
            lemma_decimal_digits(last as nat);
            lemma_cut_at_dash(lower, decimal_digits(last as nat));
        },
    }
}

/// The wire text `{a}-{b}` with `a <= b` means the range from `a` up to and
/// including `b`, as long as the bound after `b` still is a 64-bit number.
pub proof fn lemma_parse_bounded_text(a: u64, b: u64)
    requires
        a <= b < u64::MAX,
    ensures
        parse_range(decimal_digits(a as nat).push('-') + decimal_digits(b as nat)) == Some(
            ExpectRange { start: a, end: Some((b + 1) as u64) },
        ),
{
    lemma_parse_range_text(ExpectRange { start: a, end: Some((b + 1) as u64) });
}

/// The wire text `{a}-` means the range from `a` on, without an upper bound.
pub proof fn lemma_parse_open_text(a: u64)
    ensures
        parse_range(decimal_digits(a as nat).push('-')) == Some(
            ExpectRange { start: a, end: None },
        ),
{
    lemma_parse_range_text(ExpectRange { start: a, end: None });
}

/// A text whose upper bound is below its lower bound means nothing.
pub proof fn lemma_reversed_text_rejected(a: u64, b: u64)
    requires
        b < a,
    ensures
        parse_range(decimal_digits(a as nat).push('-') + decimal_digits(b as nat)) is None,
{
    let lower = decimal_digits(a as nat);
    lemma_parse_decimal_digits(a);
    lemma_number_has_no_dash(lower);
    lemma_parse_decimal_digits(b);
    lemma_decimal_digits(b as nat);
    lemma_cut_at_dash(lower, decimal_digits(b as nat));
}

/// A text with two dashes means nothing, and neither does one with none.
pub proof fn lemma_dash_count_rejected(s: Seq<char>)
    requires
        !s.contains('-') || exists|i: int, j: int|
            0 <= i < j < s.len() && s[i] == '-' && s[j] == '-',
    ensures
        parse_range(s) is None,
{
    s.index_of_first_ensures('-');
    if s.contains('-') {
        let (i, j) = choose|i: int, j: int| 0 <= i < j < s.len() && s[i] == '-' && s[j] == '-';
        let dash = s.index_of_first('-').unwrap();
        assert(dash <= i);
        let upper = s.skip(dash + 1);
        assert(upper[j - dash - 1] == '-');
        assert(upper.contains('-'));
        if parse_number(upper) is Some {
            lemma_number_has_no_dash(upper);
        }
    }
}

} // verus!

//! Structured versions, `major.minor.patch`, and their order.

use crate::text::{chars_of, find_char};
use core::cmp::Ordering;
use vstd::prelude::*;

verus! {

/// A version of three numeric components, ordered by the first, then the
/// second, then the third.
#[derive(Debug, Clone, Copy, PartialEq, Eq, Ord, Structural)]
pub struct Version {
    major: u32,
    minor: u32,
    patch: u32,
}

impl View for Version {
    type V = (nat, nat, nat);

    closed spec fn view(&self) -> (nat, nat, nat) {
        (self.major as nat, self.minor as nat, self.patch as nat)
    }
}

/// `c` is one of the ten decimal digits.
pub open spec fn is_digit(c: char) -> bool {
    '0' <= c <= '9'
}

/// The number that the digit `c` stands for.
pub open spec fn digit_value(c: char) -> nat {
    (c as int - '0' as int) as nat
}

/// Every character of `text` is a decimal digit.
pub open spec fn all_digits(text: Seq<char>) -> bool {
    forall|i: int| 0 <= i < text.len() ==> is_digit(text[i])
}

/// The number that a string of decimal digits stands for.
pub open spec fn decimal(digits: Seq<char>) -> nat
    decreases digits.len(),
{
    if digits.len() == 0 {
        0
    } else {
        decimal(digits.drop_last()) * 10 + digit_value(digits.last())
    }
}

/// `text` without the plus sign that may lead it.
pub open spec fn unsigned(text: Seq<char>) -> Seq<char> {
    if text.len() > 0 && text[0] == '+' {
        text.skip(1)
    } else {
        text
    }
}

/// `text` is one component of a version: decimal digits, at least one, with
/// an optional leading plus sign, standing for a number that fits 32 bits.
pub open spec fn is_component(text: Seq<char>) -> bool {
    &&& unsigned(text).len() > 0
    &&& all_digits(unsigned(text))
    &&& decimal(unsigned(text)) <= u32::MAX
}

/// The number that a component stands for.
pub open spec fn component(text: Seq<char>) -> nat {
    decimal(unsigned(text))
}

/// `text` has its two separators at `first` and `second`, and a component
/// before, between and after them.
pub open spec fn version_splits_at(text: Seq<char>, first: int, second: int) -> bool {
    &&& 0 <= first < second < text.len()
    &&& text[first] == '.'
    &&& text[second] == '.'
    &&& is_component(text.take(first))
    &&& is_component(text.subrange(first + 1, second))
    &&& is_component(text.skip(second + 1))
}

/// `text` is exactly three components separated by `.`.
pub open spec fn is_version(text: Seq<char>) -> bool {
    exists|first: int, second: int| version_splits_at(text, first, second)
}

/// The three numbers of a version string.
pub open spec fn version_number(text: Seq<char>) -> (nat, nat, nat) {
    let (first, second) = choose|first: int, second: int| version_splits_at(text, first, second);
    (
        component(text.take(first)),
        component(text.subrange(first + 1, second)),
        component(text.skip(second + 1)),
    )
}

/// How two versions compare: by major, then minor, then patch number.
pub open spec fn compare(left: (nat, nat, nat), right: (nat, nat, nat)) -> Ordering {
    if left.0 < right.0 {
        Ordering::Less
    } else if left.0 > right.0 {
        Ordering::Greater
    } else if left.1 < right.1 {
        Ordering::Less
    } else if left.1 > right.1 {
        Ordering::Greater
    } else if left.2 < right.2 {
        Ordering::Less
    } else if left.2 > right.2 {
        Ordering::Greater
    } else {
        Ordering::Equal
    }
}

proof fn lemma_decimal_grows(digits: Seq<char>, shorter: int)
    requires
        0 <= shorter <= digits.len(),
    ensures
        decimal(digits.take(shorter)) <= decimal(digits),
    decreases digits.len(),
{
    if shorter == digits.len() {
        assert(digits.take(shorter) =~= digits);
    } else {
        assert(digits.drop_last().take(shorter) =~= digits.take(shorter));
        lemma_decimal_grows(digits.drop_last(), shorter);
    }
}

proof fn lemma_component_has_no_separator(text: Seq<char>)
    requires
        is_component(text),
    ensures
        forall|i: int| 0 <= i < text.len() ==> text[i] != '.',
{
    assert forall|i: int| 0 <= i < text.len() implies text[i] != '.' by {
        if text[0] == '+' {
            if i > 0 {
                assert(is_digit(unsigned(text)[i - 1]));
            }
        } else {
            assert(is_digit(unsigned(text)[i]));
        }
    }
}

/// A version string splits in one way only.
pub proof fn version_split_is_unique(text: Seq<char>, a: int, b: int, c: int, d: int)
    requires
        version_splits_at(text, a, b),
        version_splits_at(text, c, d),
    ensures
        a == c,
        b == d,
{
    lemma_component_has_no_separator(text.take(a));
    lemma_component_has_no_separator(text.take(c));
    lemma_component_has_no_separator(text.subrange(a + 1, b));
    lemma_component_has_no_separator(text.subrange(c + 1, d));
    if a < c {
        assert(text.take(c)[a] == '.');
    }
    if c < a {
        assert(text.take(a)[c] == '.');
    }
    if b < d {
        assert(text.subrange(c + 1, d)[b - c - 1] == '.');
    }
    if d < b {
        assert(text.subrange(a + 1, b)[d - a - 1] == '.');
    }
}

/// The number that `chars[from..to]` stands for as a component.
fn read_component(chars: &Vec<char>, from: usize, to: usize) -> (value: Option<u32>)
    requires
        from <= to <= chars@.len(),
    ensures
        match value {
            Some(number) => is_component(chars@.subrange(from as int, to as int)) && number
                == component(chars@.subrange(from as int, to as int)),
            None => !is_component(chars@.subrange(from as int, to as int)),
        },
{
    let start = if from < to && chars[from] == '+' {
        from + 1
    } else {
        from
    };
    let ghost digits = chars@.subrange(start as int, to as int);
    if start == to {
        return None;
    }
    let mut number: u64 = 0;
    let mut i: usize = start;
    while i < to
        invariant
            from <= start <= i <= to <= chars@.len(),
            digits == chars@.subrange(start as int, to as int),
            digits == unsigned(chars@.subrange(from as int, to as int)),
            all_digits(digits.take(i - start)),
            number == decimal(digits.take(i - start)),
            number <= u32::MAX,
        decreases to - i,
    {
        let c = chars[i];
        if c < '0' || c > '9' {
            assert(!is_digit(digits[i - start]));
            return None;
        }
        let ghost longer = digits.take(i - start + 1);
        proof {
            assert(longer.drop_last() =~= digits.take(i - start));
            assert(longer.last() == c);
            assert forall|j: int| 0 <= j < longer.len() implies is_digit(longer[j]) by {
                if j < i - start {
                    assert(digits.take(i - start)[j] == longer[j]);
                }
            }
        }
        number = number * 10 + (c as u64 - '0' as u64);
        if number > u32::MAX as u64 {
            proof {
                lemma_decimal_grows(digits, i - start + 1);
            }
            return None;
        }
        i += 1;
    }
    assert(digits.take(i - start) =~= digits);
    Some(number as u32)
}

/// The version that `version` spells out, if it spells one.
pub fn try_parse(version: &str) -> (parsed: Option<Version>)
    ensures
        match parsed {
            Some(found) => is_version(version@) && found@ == version_number(version@),
            None => !is_version(version@),
        },
{
    let chars = chars_of(version);
    let end = chars.len();
    let ghost text = chars@;
    let first = match find_char(&chars, 0, '.') {
        Some(at) => at,
        None => {
            return None;
        },
    };
    let second = match find_char(&chars, first + 1, '.') {
        Some(at) => at,
        None => {
            assert forall|a: int, b: int| !version_splits_at(text, a, b) by {
                if version_splits_at(text, a, b) {
                    lemma_component_has_no_separator(text.take(a));
                    if a > first {
                        assert(text.take(a)[first as int] == '.');
                    }
                }
            }
            return None;
        },
    };
    proof {
        assert forall|a: int, b: int| version_splits_at(text, a, b) implies a == first && b
            == second by {
            lemma_component_has_no_separator(text.take(a));
            lemma_component_has_no_separator(text.subrange(a + 1, b));
            if a > first {
                assert(text.take(a)[first as int] == '.');
            }
            if b > second {
                assert(text.subrange(a + 1, b)[second - a - 1] == '.');
            }
        }
    }
    let major = match read_component(&chars, 0, first) {
        Some(number) => number,
        None => {
            return None;
        },
    };
    let minor = match read_component(&chars, first + 1, second) {
        Some(number) => number,
        None => {
            return None;
        },
    };
    let patch = match read_component(&chars, second + 1, end) {
        Some(number) => number,
        None => {
            return None;
        },
    };
    proof {
        let (a, b) = choose|a: int, b: int| version_splits_at(text, a, b);
        version_split_is_unique(text, first as int, second as int, a, b);
    }
    Some(Version { major, minor, patch })
}

/// The version that `version` spells out, which has to be three components
/// separated by `.`.
pub fn parse(version: &str) -> (parsed: Version)
    requires
        is_version(version@),
    ensures
        parsed@ == version_number(version@),
{
    match try_parse(version) {
        Some(found) => found,
        None => vstd::pervasive::unreached(),
    }
}

impl Version {
    /// The first number.
    pub fn major(&self) -> (number: u32)
        ensures
            number == self@.0,
    {
        self.major
    }

    /// The second number.
    pub fn minor(&self) -> (number: u32)
        ensures
            number == self@.1,
    {
        self.minor
    }

    /// The third number.
    pub fn patch(&self) -> (number: u32)
        ensures
            number == self@.2,
    {
        self.patch
    }

    /// How this version compares with `other`.
    pub fn cmp(&self, other: &Self) -> (order: Ordering)
        ensures
            order == compare(self@, other@),
    {
        if self.major != other.major {
            if self.major < other.major {
                Ordering::Less
            } else {
                Ordering::Greater
            }
        } else if self.minor != other.minor {
            if self.minor < other.minor {
                Ordering::Less
            } else {
                Ordering::Greater
            }
        } else if self.patch < other.patch {
            Ordering::Less
        } else if self.patch > other.patch {
            Ordering::Greater
        } else {
            Ordering::Equal
        }
    }
}

impl PartialOrd for Version {
    fn partial_cmp(&self, other: &Self) -> (order: Option<Ordering>) {
        Some(self.cmp(other))
    }
}

impl vstd::std_specs::cmp::PartialOrdSpecImpl for Version {
    open spec fn obeys_partial_cmp_spec() -> bool {
        true
    }

    open spec fn partial_cmp_spec(&self, other: &Self) -> Option<Ordering> {
        Some(compare(self@, other@))
    }
}

/// Two versions compare as equal exactly when their numbers are the same.
pub proof fn compare_equal_iff_same(left: (nat, nat, nat), right: (nat, nat, nat))
    ensures
        compare(left, right) == Ordering::Equal <==> left == right,
{
}

/// Of two different versions one is less than the other.
pub proof fn compare_is_connected(left: (nat, nat, nat), right: (nat, nat, nat))
    ensures
        left != right ==> compare(left, right) == Ordering::Less || compare(right, left)
            == Ordering::Less,
{
}

/// Swapping the two sides swaps `Less` and `Greater`.
pub proof fn compare_is_antisymmetric(left: (nat, nat, nat), right: (nat, nat, nat))
    ensures
        compare(left, right) == Ordering::Less <==> compare(right, left) == Ordering::Greater,
{
}

/// The order is transitive, through `Less` and through `Equal`.
pub proof fn compare_is_transitive(
    low: (nat, nat, nat),
    middle: (nat, nat, nat),
    high: (nat, nat, nat),
)
    requires
        compare(low, middle) != Ordering::Greater,
        compare(middle, high) != Ordering::Greater,
    ensures
        compare(low, high) != Ordering::Greater,
        compare(low, middle) == Ordering::Less || compare(middle, high) == Ordering::Less
            ==> compare(low, high) == Ordering::Less,
{
}

} // verus!

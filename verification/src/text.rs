//! Character-level helpers on strings, stated over their views.

use vstd::prelude::*;
use vstd::std_specs::iter::IteratorSpec;
use vstd::string::*;

verus! {

/// The view of an optional string: the characters it holds, if any.
pub open spec fn optional_text(value: Option<String>) -> Option<Seq<char>> {
    match value {
        Some(text) => Some(text@),
        None => None,
    }
}

/// The view of an optional string slice.
pub open spec fn optional_str(value: Option<&str>) -> Option<Seq<char>> {
    match value {
        Some(text) => Some(text@),
        None => None,
    }
}

/// The characters of `text`, in order.
pub fn chars_of(text: &str) -> (chars: Vec<char>)
    ensures
        chars@ == text@,
{
    let mut chars: Vec<char> = Vec::new();
    for c in it: text.chars()
        invariant
            chars@ == it.seq().take(it.index() as int),
    {
        chars.push(c);
    }
    chars
}

/// Whether two strings hold the same characters.
pub fn same_text(left: &str, right: &str) -> (same: bool)
    ensures
        same == (left@ == right@),
{
    broadcast use vstd::string::group_string_axioms;

    let mut a = left.chars();
    let mut b = right.chars();
    let ghost mut n: int = 0;
    loop
        invariant
            a.obeys_prophetic_iter_laws(),
            b.obeys_prophetic_iter_laws(),
            0 <= n <= left@.len(),
            n <= right@.len(),
            a.remaining() == left@.skip(n),
            b.remaining() == right@.skip(n),
            left@.take(n) == right@.take(n),
            a.decrease() is Some,
        decreases a.decrease()->0,
    {
        let x = a.next();
        let y = b.next();
        match (x, y) {
            (None, None) => {
                assert(left@ =~= left@.take(n));
                assert(right@ =~= right@.take(n));
                return true;
            },
            (Some(c), Some(d)) => {
                if c != d {
                    assert(left@[n] != right@[n]);
                    return false;
                }
                proof {
                    assert(left@.take(n + 1) =~= left@.take(n).push(c));
                    assert(right@.take(n + 1) =~= right@.take(n).push(d));
                    assert(left@.skip(n).drop_first() =~= left@.skip(n + 1));
                    assert(right@.skip(n).drop_first() =~= right@.skip(n + 1));
                    n = n + 1;
                }
            },
            _ => {
                assert(left@.len() != right@.len());
                return false;
            },
        }
    }
}

/// Whether two optional strings are both absent or hold the same characters.
pub fn same_optional_text(left: &Option<String>, right: &Option<String>) -> (same: bool)
    ensures
        same == (optional_text(*left) == optional_text(*right)),
{
    match (left, right) {
        (None, None) => true,
        (Some(a), Some(b)) => same_text(a.as_str(), b.as_str()),
        _ => false,
    }
}

/// An owned copy of `text`.
pub fn owned(text: &str) -> (copy: String)
    ensures
        copy@ == text@,
{
    String::from_str(text)
}

/// Position of the first `wanted` at or after `from`.
pub fn find_char(chars: &Vec<char>, from: usize, wanted: char) -> (found: Option<usize>)
    requires
        from <= chars@.len(),
    ensures
        match found {
            Some(at) => {
                &&& from <= at < chars@.len()
                &&& chars@[at as int] == wanted
                &&& forall|i: int| from <= i < at ==> chars@[i] != wanted
            },
            None => forall|i: int| from <= i < chars@.len() ==> chars@[i] != wanted,
        },
{
    let mut at: usize = from;
    while at < chars.len()
        invariant
            from <= at <= chars@.len(),
            forall|i: int| from <= i < at ==> chars@[i] != wanted,
        decreases chars@.len() - at,
    {
        if chars[at] == wanted {
            return Some(at);
        }
        at += 1;
    }
    None
}

/// What either part contains, the whole contains, and nothing else.
pub proof fn lemma_contains_in_part(left: Seq<char>, right: Seq<char>, c: char)
    ensures
        (left + right).contains(c) <==> left.contains(c) || right.contains(c),
{
    let whole = left + right;
    if whole.contains(c) {
        let at = choose|at: int| 0 <= at < whole.len() && whole[at] == c;
        if at < left.len() {
            assert(left[at] == c);
        } else {
            assert(right[at - left.len()] == c);
        }
    }
    if left.contains(c) {
        let at = choose|at: int| 0 <= at < left.len() && left[at] == c;
        assert(whole[at] == c);
    }
    if right.contains(c) {
        let at = choose|at: int| 0 <= at < right.len() && right[at] == c;
        assert(whole[left.len() + at] == c);
    }
}

/// `text` holds `mark` from position `at` on.
pub open spec fn holds_at(text: Seq<char>, mark: Seq<char>, at: int) -> bool {
    0 <= at && at + mark.len() <= text.len() && text.subrange(at, at + mark.len()) == mark
}

/// `text` holds `mark` somewhere.
pub open spec fn holds(text: Seq<char>, mark: Seq<char>) -> bool {
    exists|at: int| holds_at(text, mark, at)
}

/// What either part holds, the whole holds.
pub proof fn lemma_holds_in_part(left: Seq<char>, right: Seq<char>, mark: Seq<char>)
    ensures
        holds(left, mark) ==> holds(left + right, mark),
        holds(right, mark) ==> holds(left + right, mark),
{
    if holds(left, mark) {
        let at = choose|at: int| holds_at(left, mark, at);
        assert((left + right).subrange(at, at + mark.len()) =~= left.subrange(
            at,
            at + mark.len(),
        ));
        assert(holds_at(left + right, mark, at));
    }
    if holds(right, mark) {
        let at = choose|at: int| holds_at(right, mark, at);
        assert((left + right).subrange(left.len() + at, left.len() + at + mark.len())
            =~= right.subrange(at, at + mark.len()));
        assert(holds_at(left + right, mark, left.len() + at));
    }
}

/// A mark that begins with a character which `left` lacks, and that the
/// whole holds, is held by `right`.
pub proof fn lemma_holds_after(left: Seq<char>, right: Seq<char>, mark: Seq<char>)
    requires
        mark.len() > 0,
        !left.contains(mark[0]),
        holds(left + right, mark),
    ensures
        holds(right, mark),
{
    let whole = left + right;
    let at = choose|at: int| holds_at(whole, mark, at);
    assert(whole.subrange(at, at + mark.len())[0] == mark[0]);
    if at < left.len() {
        assert(left[at] == mark[0]);
    }
    assert(right.subrange(at - left.len(), at - left.len() + mark.len()) =~= whole.subrange(
        at,
        at + mark.len(),
    ));
    assert(holds_at(right, mark, at - left.len()));
}

/// A mark that the whole holds is held by `left` or by `right`, where
/// `right` begins with a character that the mark lacks.
pub proof fn lemma_holds_before_or_after(left: Seq<char>, right: Seq<char>, mark: Seq<char>)
    requires
        right.len() > 0,
        !mark.contains(right[0]),
        holds(left + right, mark),
    ensures
        holds(left, mark) || holds(right, mark),
{
    let whole = left + right;
    let at = choose|at: int| holds_at(whole, mark, at);
    let found = whole.subrange(at, at + mark.len());
    if at >= left.len() {
        assert(right.subrange(at - left.len(), at - left.len() + mark.len()) =~= found);
        assert(holds_at(right, mark, at - left.len()));
    } else if at + mark.len() <= left.len() {
        assert(left.subrange(at, at + mark.len()) =~= found);
        assert(holds_at(left, mark, at));
    } else {
        assert(found[left.len() - at] == right[0]);
        assert(mark[left.len() - at] == right[0]);
    }
}

/// A text holds a mark of one character exactly when it contains the
/// character.
pub proof fn lemma_holds_char(text: Seq<char>, c: char)
    ensures
        holds(text, seq![c]) <==> text.contains(c),
{
    if holds(text, seq![c]) {
        let at = choose|at: int| holds_at(text, seq![c], at);
        assert(text.subrange(at, at + 1)[0] == c);
        assert(text[at] == c);
    }
    if text.contains(c) {
        let at = choose|at: int| 0 <= at < text.len() && text[at] == c;
        assert(text.subrange(at, at + 1) =~= seq![c]);
        assert(holds_at(text, seq![c], at));
    }
}

} // verus!

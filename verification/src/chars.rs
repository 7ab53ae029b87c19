//! Texts as sequences of characters.

use vstd::prelude::*;

verus! {

/// The characters of `text`, in order.
pub fn chars_of(text: &str) -> (chars: Vec<char>)
    ensures
        chars@ == text@,
{
    let mut chars: Vec<char> = Vec::new();
    for c in it: text.chars()
        invariant
            it.seq() == text@,
            chars@ == it.seq().take(it.index() as int),
    {
        chars.push(c);
    }
    chars
}

/// Whether `c` is white space: the code points that Unicode gives the property White_Space.
pub open spec fn is_space(c: char) -> bool {
    let p = c as u32;
    ||| 0x09 <= p <= 0x0D
    ||| p == 0x20
    ||| p == 0x85
    ||| p == 0xA0
    ||| p == 0x1680
    ||| 0x2000 <= p <= 0x200A
    ||| p == 0x2028
    ||| p == 0x2029
    ||| p == 0x202F
    ||| p == 0x205F
    ||| p == 0x3000
}

/// Tests a character for white space.
pub fn space(c: char) -> (yes: bool)
    ensures
        yes == is_space(c),
{
    let p: u32 = c as u32;
    (0x09 <= p && p <= 0x0D) || p == 0x20 || p == 0x85 || p == 0xA0 || p == 0x1680 || (0x2000 <= p
        && p <= 0x200A) || p == 0x2028 || p == 0x2029 || p == 0x202F || p == 0x205F || p == 0x3000
}

/// `s` without the white space at its end.
pub open spec fn trimmed(s: Seq<char>) -> Seq<char>
    decreases s.len(),
{
    if s.len() > 0 && is_space(s.last()) {
        trimmed(s.drop_last())
    } else {
        s
    }
}

/// How many characters of `chars` are left when the white space at its end is taken off.
pub fn trimmed_len(chars: &[char]) -> (end: usize)
    ensures
        end <= chars.len(),
        chars@.take(end as int) == trimmed(chars@),
{
    let mut end: usize = chars.len();
    assert(chars@.take(end as int) =~= chars@);
    while end > 0 && space(chars[end - 1])
        invariant
            end <= chars.len(),
            trimmed(chars@.take(end as int)) == trimmed(chars@),
        decreases end,
    {
        assert(chars@.take(end as int).drop_last() =~= chars@.take(end - 1));
        end -= 1;
    }
    end
}

/// Whether `marker` stands in `text` at position `at`.
pub open spec fn occurs_at(text: Seq<char>, marker: Seq<char>, at: int) -> bool {
    &&& 0 <= at
    &&& at + marker.len() <= text.len()
    &&& text.subrange(at, at + marker.len()) == marker
}

/// Whether `marker` stands somewhere in `text`.
pub open spec fn mentions(text: Seq<char>, marker: Seq<char>) -> bool {
    exists|at: int| occurs_at(text, marker, at)
}

/// Tests for `marker` at one position of `text`.
fn found_at(text: &[char], marker: &[char], at: usize) -> (yes: bool)
    requires
        at + marker.len() <= text.len(),
    ensures
        yes == occurs_at(text@, marker@, at as int),
{
    let mut j: usize = 0;
    while j < marker.len()
        invariant
            j <= marker.len(),
            at + marker.len() <= text.len(),
            forall|k: int| 0 <= k < j ==> text@[at + k] == marker@[k],
        decreases marker.len() - j,
    {
        if text[at + j] != marker[j] {
            assert(text@.subrange(at as int, at + marker@.len())[j as int] == text@[at + j]);
            return false;
        }
        j += 1;
    }
    assert(text@.subrange(at as int, at + marker@.len()) =~= marker@);
    true
}

/// Searches `text` for `marker`.
pub fn contains(text: &[char], marker: &[char]) -> (yes: bool)
    ensures
        yes == mentions(text@, marker@),
{
    if marker.len() > text.len() {
        return false;
    }
    let last: usize = text.len() - marker.len();
    let mut at: usize = 0;
    loop
        invariant
            at <= last,
            last == text.len() - marker.len(),
            forall|k: int| 0 <= k < at ==> !occurs_at(text@, marker@, k),
        decreases last - at,
    {
        if found_at(text, marker, at) {
            return true;
        }
        if at == last {
            return false;
        }
        at += 1;
    }
}

} // verus!

//! Building texts: numbers in decimal notation, lists with separators,
//! padding. With them, what holds of lists that are built piece by piece.

use vstd::prelude::*;
use vstd::string::{StrSliceExecFns, StringExecFns};

verus! {

/// Whether `pattern` occurs in `text` as a run of consecutive characters.
pub open spec fn contains_text(text: Seq<char>, pattern: Seq<char>) -> bool {
    exists|i: int|
        0 <= i <= text.len() - pattern.len() && #[trigger] text.subrange(i, i + pattern.len())
            == pattern
}

/// The place of the first `marker` in `text`, or the length of `text` where
/// there is none.
pub open spec fn first_index_of(text: Seq<char>, marker: char) -> int
    decreases text.len(),
{
    if text.len() == 0 || text[0] == marker {
        0
    } else {
        1 + first_index_of(text.drop_first(), marker)
    }
}

/// The text before the first `marker` of `text`; all of it where there is
/// none.
pub open spec fn text_before(text: Seq<char>, marker: char) -> Seq<char> {
    text.take(first_index_of(text, marker))
}

/// The decimal digit of a value below ten.
pub open spec fn digit(d: int) -> char {
    "0123456789"@[d]
}

/// The decimal notation of a number, without leading zeros.
pub open spec fn decimal(n: nat) -> Seq<char>
    decreases n,
{
    if n < 10 {
        seq![digit(n as int)]
    } else {
        decimal(n / 10).push(digit((n % 10) as int))
    }
}

/// The items of a list with a separator between each two of them.
pub open spec fn joined_with(items: Seq<Seq<char>>, separator: Seq<char>) -> Seq<char>
    decreases items.len(),
{
    if items.len() == 0 {
        Seq::empty()
    } else if items.len() == 1 {
        items[0]
    } else {
        joined_with(items.drop_last(), separator) + separator + items.last()
    }
}

/// A run of `count` copies of a character.
pub open spec fn repeated(c: char, count: nat) -> Seq<char> {
    Seq::new(count, |i: int| c)
}

/// A text filled up with spaces on the right to `width` characters; a text
/// that is at least that long stays as it is.
pub open spec fn padded(text: Seq<char>, width: nat) -> Seq<char> {
    if text.len() >= width {
        text
    } else {
        text + repeated(' ', (width - text.len()) as nat)
    }
}

/// The place after the last `marker` in `text`; 0 where there is none.
pub open spec fn after_last(text: Seq<char>, marker: char) -> int
    decreases text.len(),
{
    if text.len() == 0 {
        0
    } else if text.last() == marker {
        text.len() as int
    } else {
        after_last(text.drop_last(), marker)
    }
}

/// The last component of a path: what follows its last `/`, or all of it
/// where it has none.
pub open spec fn last_component(path: Seq<char>) -> Seq<char> {
    path.skip(after_last(path, '/'))
}

/// The first place of a marker lies within the text, holds the marker unless
/// it is the end, and no earlier place holds it.
pub proof fn lemma_first_index_of(text: Seq<char>, marker: char)
    ensures
        0 <= first_index_of(text, marker) <= text.len(),
        first_index_of(text, marker) < text.len() ==> text[first_index_of(text, marker)]
            == marker,
        forall|i: int| 0 <= i < first_index_of(text, marker) ==> text[i] != marker,
    decreases text.len(),
{
    if text.len() > 0 && text[0] != marker {
        let rest = text.drop_first();
        lemma_first_index_of(rest, marker);
        let k = first_index_of(rest, marker);
        assert forall|i: int| 0 <= i < 1 + k implies text[i] != marker by {
            if i > 0 {
                assert(rest[i - 1] == text[i]);
            }
        }
    }
}

/// Splits off the text before the first `marker`. The flag tells whether the
/// marker occurs at all.
pub fn split_before(text: &str, marker: char) -> (r: (String, bool))
    ensures
        r.0@ == text_before(text@, marker),
        r.1 == text@.contains(marker),
{
    let len = text.unicode_len();
    let mut cut: usize = 0;
    let mut found = false;
    for c in it: text.chars()
        invariant
            it.seq() == text@,
            len == text@.len(),
            cut <= it.index(),
            !found ==> cut == it.index(),
            found ==> cut < it.index() && text@[cut as int] == marker,
            forall|k: int| 0 <= k < cut ==> text@[k] != marker,
    {
        if !found {
            if c == marker {
                found = true;
            } else {
                cut = cut + 1;
            }
        }
    }
    proof {
        lemma_first_index_of(text@, marker);
    }
    (text.substring_char(0, cut).to_owned(), found)
}

/// `str::contains` with a text as pattern: whether the pattern occurs in the
/// text as a run of consecutive characters.
#[verifier::external_body]
pub(crate) fn text_contains(text: &str, pattern: &str) -> (found: bool)
    ensures
        found == contains_text(text@, pattern@),
{
    text.contains(pattern)
}

/// Selecting from two runs of items, one after the other, selects from the
/// first and then from the second.
pub proof fn lemma_filter_map_distributes<A, B>(a: Seq<A>, b: Seq<A>, f: spec_fn(A) -> Option<B>)
    ensures
        (a + b).filter_map(f) == a.filter_map(f) + b.filter_map(f),
    decreases b.len(),
{
    if b.len() > 0 {
        lemma_filter_map_distributes(a, b.drop_last(), f);
        assert((a + b).drop_last() =~= a + b.drop_last());
    }
}

/// Flattening one list more adds that list.
pub proof fn lemma_flatten_step<B>(lists: Seq<Seq<B>>, i: int)
    requires
        0 <= i < lists.len(),
    ensures
        lists.take(i + 1).flatten() == lists.take(i).flatten() + lists[i],
{
    let shorter = lists.take(i);
    let longer = lists.take(i + 1);
    assert(longer.drop_last() =~= shorter);
    shorter.lemma_flatten_and_flatten_alt_are_equivalent();
    longer.lemma_flatten_and_flatten_alt_are_equivalent();
}

/// Mapping and flattening one item more adds what that item maps to.
pub proof fn lemma_flat_map_step<A, B>(s: Seq<A>, f: spec_fn(A) -> Seq<B>, i: int)
    requires
        0 <= i < s.len(),
    ensures
        s.take(i + 1).map_values(f).flatten() == s.take(i).map_values(f).flatten() + f(s[i]),
{
    let shorter = s.take(i).map_values(f);
    let longer = s.take(i + 1).map_values(f);
    assert(longer.drop_last() =~= shorter);
    shorter.lemma_flatten_and_flatten_alt_are_equivalent();
    longer.lemma_flatten_and_flatten_alt_are_equivalent();
}

/// Mapping and flattening nothing gives nothing.
pub proof fn lemma_flat_map_none<A, B>(s: Seq<A>, f: spec_fn(A) -> Seq<B>)
    ensures
        s.take(0).map_values(f).flatten() == Seq::<B>::empty(),
        s.take(s.len() as int) == s,
{
}

/// The text of one decimal digit.
fn digit_text(d: u128) -> (t: &'static str)
    requires
        d < 10,
    ensures
        t@ == seq![digit(d as int)],
{
    proof {
        reveal_strlit("0123456789");
        reveal_strlit("0");
        reveal_strlit("1");
        reveal_strlit("2");
        reveal_strlit("3");
        reveal_strlit("4");
        reveal_strlit("5");
        reveal_strlit("6");
        reveal_strlit("7");
        reveal_strlit("8");
        reveal_strlit("9");
    }
    let t = if d == 0 {
        "0"
    } else if d == 1 {
        "1"
    } else if d == 2 {
        "2"
    } else if d == 3 {
        "3"
    } else if d == 4 {
        "4"
    } else if d == 5 {
        "5"
    } else if d == 6 {
        "6"
    } else if d == 7 {
        "7"
    } else if d == 8 {
        "8"
    } else {
        "9"
    };
    t
}

/// Writes a number in decimal notation.
pub fn decimal_text(n: u128) -> (t: String)
    ensures
        t@ == decimal(n as nat),
    decreases n,
{
    if n < 10 {
        digit_text(n).to_owned()
    } else {
        let mut t = decimal_text(n / 10);
        t.append(digit_text(n % 10));
        t
    }
}

/// Writes the items of a list with a separator between each two of them.
pub fn join_texts(items: &Vec<String>, separator: &str) -> (text: String)
    ensures
        text@ == joined_with(items.deep_view(), separator@),
{
    let mut text = String::new();
    let ghost all = items.deep_view();
    let mut i: usize = 0;
    while i < items.len()
        invariant
            i <= items.len(),
            all == items.deep_view(),
            text@ == joined_with(all.take(i as int), separator@),
        decreases items.len() - i,
    {
        proof {
            let next = all.take(i as int + 1);
            assert(next.drop_last() =~= all.take(i as int));
        }
        if i > 0 {
            text.append(separator);
        }
        text.append(items[i].as_str());
        i += 1;
    }
    assert(all.take(all.len() as int) =~= all);
    text
}

/// Fills a text up with spaces on the right to `width` characters.
pub fn pad_right(text: &str, width: usize) -> (filled: String)
    ensures
        filled@ == padded(text@, width as nat),
{
    let mut filled = text.to_owned();
    let len = text.unicode_len();
    if len >= width {
        return filled;
    }
    let mut i: usize = len;
    while i < width
        invariant
            len <= i <= width,
            len == text@.len(),
            filled@ == text@ + repeated(' ', (i - len) as nat),
        decreases width - i,
    {
        proof {
            reveal_strlit(" ");
        }
        filled.append(" ");
        i += 1;
    }
    filled
}

/// Cuts the last component out of a path.
pub fn file_name(path: &str) -> (name: String)
    ensures
        name@ == last_component(path@),
{
    let len = path.unicode_len();
    let mut start: usize = 0;
    let mut i: usize = 0;
    for c in it: path.chars()
        invariant
            it.seq() == path@,
            len == path@.len(),
            i == it.index(),
            start == after_last(path@.take(it.index() as int), '/'),
            start <= i,
    {
        proof {
            let k = it.index() as int;
            let next = path@.take(k + 1);
            assert(next.drop_last() =~= path@.take(k));
        }
        i += 1;
        if c == '/' {
            start = i;
        }
    }
    assert(path@.take(path@.len() as int) =~= path@);
    path.substring_char(start, i).to_owned()
}

} // verus!

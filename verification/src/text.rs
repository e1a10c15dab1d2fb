//! Small verified helpers on strings and lists of strings.

use vstd::prelude::*;
use vstd::string::*;
use vstd::utf8::*;

verus! {

/// The texts held by a list of strings.
pub open spec fn texts(strings: Seq<String>) -> Seq<Seq<char>> {
    Seq::new(strings.len(), |i: int| strings[i]@)
}

/// The texts held by a list of string slices.
pub open spec fn slice_texts(strings: Seq<&str>) -> Seq<Seq<char>> {
    Seq::new(strings.len(), |i: int| strings[i]@)
}

/// The parts of `items` joined with `separator` between neighbours.
pub open spec fn joined(items: Seq<Seq<char>>, separator: Seq<char>) -> Seq<char>
    decreases items.len(),
{
    if items.len() == 0 {
        Seq::empty()
    } else if items.len() == 1 {
        items[0]
    } else {
        joined(items.drop_last(), separator) + separator + items.last()
    }
}

/// The position of the last occurrence of `wanted` in `text`, or -1.
pub open spec fn last_position(text: Seq<char>, wanted: char) -> int
    decreases text.len(),
{
    if text.len() == 0 {
        -1
    } else if text.last() == wanted {
        text.len() - 1
    } else {
        last_position(text.drop_last(), wanted)
    }
}

/// `last_position` is the greatest index that holds `wanted`.
pub proof fn lemma_last_position(text: Seq<char>, wanted: char)
    ensures
        -1 <= last_position(text, wanted) < text.len(),
        last_position(text, wanted) >= 0 ==> text[last_position(text, wanted)] == wanted,
        forall|j: int| last_position(text, wanted) < j < text.len() ==> text[j] != wanted,
    decreases text.len(),
{
    if text.len() > 0 && text.last() != wanted {
        let front = text.drop_last();
        lemma_last_position(front, wanted);
        assert forall|j: int| last_position(text, wanted) < j < text.len() implies text[j]
            != wanted by {
            if j < front.len() {
                assert(front[j] == text[j]);
            }
        }
    }
}

/// Whether two string slices hold the same text.
pub fn same_text(a: &str, b: &str) -> (same: bool)
    ensures
        same == (a@ == b@),
{
    let x = a.as_bytes();
    let y = b.as_bytes();
    proof {
        encode_utf8_decode_utf8(a@);
        encode_utf8_decode_utf8(b@);
    }
    if x.len() != y.len() {
        return false;
    }
    let mut i: usize = 0;
    while i < x.len()
        invariant
            i <= x@.len(),
            x@.len() == y@.len(),
            x@ == encode_utf8(a@),
            y@ == encode_utf8(b@),
            forall|j: int| 0 <= j < i ==> x@[j] == y@[j],
        decreases x@.len() - i,
    {
        if x[i] != y[i] {
            return false;
        }
        i += 1;
    }
    assert(x@ =~= y@);
    true
}

/// Whether two byte strings are equal.
pub fn same_bytes(a: &[u8], b: &[u8]) -> (same: bool)
    ensures
        same == (a@ == b@),
{
    if a.len() != b.len() {
        return false;
    }
    let mut i: usize = 0;
    while i < a.len()
        invariant
            i <= a@.len(),
            a@.len() == b@.len(),
            forall|j: int| 0 <= j < i ==> a@[j] == b@[j],
        decreases a@.len() - i,
    {
        if a[i] != b[i] {
            return false;
        }
        i += 1;
    }
    assert(a@ =~= b@);
    true
}

/// A copy of a list of strings.
pub fn copy_strings(list: &[String]) -> (copy: Vec<String>)
    ensures
        texts(copy@) == texts(list@),
{
    let mut copy: Vec<String> = Vec::new();
    let mut i: usize = 0;
    while i < list.len()
        invariant
            i <= list@.len(),
            copy@.len() == i,
            forall|j: int| 0 <= j < i ==> copy@[j]@ == list@[j]@,
        decreases list@.len() - i,
    {
        copy.push(list[i].clone());
        i += 1;
    }
    assert(texts(copy@) =~= texts(list@));
    copy
}

/// Whether `list` holds `item`.
pub fn list_has(list: &[String], item: &str) -> (found: bool)
    ensures
        found == texts(list@).contains(item@),
{
    let mut i: usize = 0;
    while i < list.len()
        invariant
            i <= list@.len(),
            forall|j: int| 0 <= j < i ==> texts(list@)[j] != item@,
        decreases list@.len() - i,
    {
        if same_text(list[i].as_str(), item) {
            assert(texts(list@)[i as int] == item@);
            return true;
        }
        i += 1;
    }
    false
}

/// Whether `list` holds `item`.
pub fn slice_list_has(list: &[&str], item: &str) -> (found: bool)
    ensures
        found == slice_texts(list@).contains(item@),
{
    let mut i: usize = 0;
    while i < list.len()
        invariant
            i <= list@.len(),
            forall|j: int| 0 <= j < i ==> slice_texts(list@)[j] != item@,
        decreases list@.len() - i,
    {
        if same_text(list[i], item) {
            assert(slice_texts(list@)[i as int] == item@);
            return true;
        }
        i += 1;
    }
    false
}

/// Some entry of `picked` is `index`.
pub open spec fn picked_has(picked: Seq<usize>, index: int) -> bool {
    exists|k: int| 0 <= k < picked.len() && picked[k] as int == index
}

/// Whether `picked` holds `index`.
pub fn index_list_has(picked: &[usize], index: usize) -> (found: bool)
    ensures
        found == picked_has(picked@, index as int),
{
    let mut i: usize = 0;
    while i < picked.len()
        invariant
            i <= picked@.len(),
            forall|k: int| 0 <= k < i ==> picked@[k] as int != index as int,
        decreases picked@.len() - i,
    {
        if picked[i] == index {
            return true;
        }
        i += 1;
    }
    false
}

/// Joins `items` with `separator` between neighbours.
pub fn join(items: &[&str], separator: &str) -> (text: String)
    ensures
        text@ == joined(slice_texts(items@), separator@),
{
    let mut text = String::new();
    let mut i: usize = 0;
    while i < items.len()
        invariant
            i <= items@.len(),
            text@ == joined(slice_texts(items@).take(i as int), separator@),
        decreases items@.len() - i,
    {
        if i > 0 {
            text.append(separator);
        }
        text.append(items[i]);
        proof {
            let all = slice_texts(items@);
            assert(all.take(i + 1).drop_last() == all.take(i as int));
            assert(all.take(i + 1).last() == items@[i as int]@);
            if i == 0 {
                assert(all.take(1)[0] == items@[0]@);
            }
        }
        i += 1;
    }
    proof {
        assert(slice_texts(items@).take(i as int) == slice_texts(items@));
    }
    text
}

/// The position of the last occurrence of `wanted` in `text`, if any.
pub fn find_last(text: &str, wanted: char) -> (found: Option<usize>)
    ensures
        match found {
            Some(i) => i as int == last_position(text@, wanted) && i < text@.len(),
            None => last_position(text@, wanted) == -1,
        },
{
    let length = text.unicode_len();
    let mut i: usize = length;
    proof {
        lemma_last_position(text@, wanted);
    }
    while i > 0
        invariant
            i <= length,
            length as nat == text@.len(),
            last_position(text@, wanted) < i,
        decreases i,
    {
        i -= 1;
        proof {
            lemma_last_position(text@, wanted);
        }
        if text.get_char(i) == wanted {
            proof {
                lemma_last_is(text@, wanted, i as int);
            }
            return Some(i);
        }
    }
    None
}

/// An index that holds `wanted` with none behind it is the last position.
proof fn lemma_last_is(text: Seq<char>, wanted: char, i: int)
    requires
        0 <= i < text.len(),
        text[i] == wanted,
        last_position(text, wanted) <= i,
    ensures
        last_position(text, wanted) == i,
{
    lemma_last_position(text, wanted);
}

} // verus!

//! The order of texts by their UTF-8 bytes, which is the order of `str`; the
//! order of header lines, which goes by the name of the header first; and
//! sorting header lines.

use crate::text::{before_first, lemma_same_bytes_same_text, part_before, same_text, texts};
use vstd::multiset::*;
use vstd::prelude::*;
use vstd::relations::*;
use vstd::seq_lib::*;
use vstd::string::*;
use vstd::utf8::*;

verus! {

/// Whether `a` comes before `b`, or is `b`, in the order of the dictionary:
/// the first byte in which they differ decides, and a text comes before its
/// continuations.
pub open spec fn bytes_le(a: Seq<u8>, b: Seq<u8>) -> bool
    decreases a.len(),
{
    if a.len() == 0 {
        true
    } else if b.len() == 0 {
        false
    } else if a[0] != b[0] {
        a[0] < b[0]
    } else {
        bytes_le(a.drop_first(), b.drop_first())
    }
}

/// Whether the text `a` comes before the text `b`, or is `b`, by their UTF-8
/// bytes.
pub open spec fn text_le(a: Seq<char>, b: Seq<char>) -> bool {
    bytes_le(encode_utf8(a), encode_utf8(b))
}

/// The name of a header line: what stands before its first colon, and the
/// whole line where it holds none.
pub open spec fn header_name(line: Seq<char>) -> Seq<char> {
    before_first(line, ':')
}

/// Whether the header line `a` comes before the header line `b`, or is `b`:
/// the names decide, by their bytes, and between lines of one name the whole
/// lines do.
pub open spec fn line_le(a: Seq<char>, b: Seq<char>) -> bool {
    if header_name(a) == header_name(b) {
        text_le(a, b)
    } else {
        text_le(header_name(a), header_name(b))
    }
}

/// The order of header lines as a relation.
pub open spec fn line_order() -> spec_fn(Seq<char>, Seq<char>) -> bool {
    |a: Seq<char>, b: Seq<char>| line_le(a, b)
}

/// A list of header lines in order: the same lines, each as often as before,
/// none before one that it comes after.
pub open spec fn sorted_lines(list: Seq<Seq<char>>) -> Seq<Seq<char>> {
    list.sort_by(line_order())
}

proof fn lemma_bytes_le_reflexive(a: Seq<u8>)
    ensures
        bytes_le(a, a),
    decreases a.len(),
{
    if a.len() > 0 {
        lemma_bytes_le_reflexive(a.drop_first());
    }
}

proof fn lemma_bytes_le_antisymmetric(a: Seq<u8>, b: Seq<u8>)
    requires
        bytes_le(a, b),
        bytes_le(b, a),
    ensures
        a == b,
    decreases a.len(),
{
    if a.len() > 0 {
        lemma_bytes_le_antisymmetric(a.drop_first(), b.drop_first());
        assert(a =~= seq![a[0]] + a.drop_first());
        assert(b =~= seq![b[0]] + b.drop_first());
    } else {
        assert(a =~= b);
    }
}

proof fn lemma_bytes_le_transitive(a: Seq<u8>, b: Seq<u8>, c: Seq<u8>)
    requires
        bytes_le(a, b),
        bytes_le(b, c),
    ensures
        bytes_le(a, c),
    decreases a.len(),
{
    if a.len() > 0 && a[0] == b[0] && b[0] == c[0] {
        lemma_bytes_le_transitive(a.drop_first(), b.drop_first(), c.drop_first());
    }
}

proof fn lemma_bytes_le_total(a: Seq<u8>, b: Seq<u8>)
    ensures
        bytes_le(a, b) || bytes_le(b, a),
    decreases a.len(),
{
    if a.len() > 0 && b.len() > 0 && a[0] == b[0] {
        lemma_bytes_le_total(a.drop_first(), b.drop_first());
    }
}

/// Every text comes before itself or is itself.
pub proof fn lemma_text_le_reflexive(a: Seq<char>)
    ensures
        text_le(a, a),
{
    lemma_bytes_le_reflexive(encode_utf8(a));
}

/// Two texts of which each comes before the other or is it are one text.
pub proof fn lemma_text_le_antisymmetric(a: Seq<char>, b: Seq<char>)
    requires
        text_le(a, b),
        text_le(b, a),
    ensures
        a == b,
{
    lemma_bytes_le_antisymmetric(encode_utf8(a), encode_utf8(b));
    lemma_same_bytes_same_text(a, b);
}

/// What comes before a text that comes before a third comes before the third.
pub proof fn lemma_text_le_transitive(a: Seq<char>, b: Seq<char>, c: Seq<char>)
    requires
        text_le(a, b),
        text_le(b, c),
    ensures
        text_le(a, c),
{
    lemma_bytes_le_transitive(encode_utf8(a), encode_utf8(b), encode_utf8(c));
}

/// Of two texts one comes before the other or is it.
pub proof fn lemma_text_le_total(a: Seq<char>, b: Seq<char>)
    ensures
        text_le(a, b) || text_le(b, a),
{
    lemma_bytes_le_total(encode_utf8(a), encode_utf8(b));
}

/// The order of header lines is a total order.
pub proof fn lemma_line_order_is_total()
    ensures
        total_ordering(line_order()),
{
    let order = line_order();
    assert forall|x: Seq<char>| #[trigger] order(x, x) by {
        lemma_text_le_reflexive(x);
    }
    assert forall|x: Seq<char>, y: Seq<char>| #[trigger] order(x, y) && #[trigger] order(
        y,
        x,
    ) implies x == y by {
        if header_name(x) == header_name(y) {
            lemma_text_le_antisymmetric(x, y);
        } else {
            lemma_text_le_antisymmetric(header_name(x), header_name(y));
        }
    }
    assert forall|x: Seq<char>, y: Seq<char>, z: Seq<char>|
        #[trigger] order(x, y) && #[trigger] order(y, z) implies order(x, z) by {
        let (nx, ny, nz) = (header_name(x), header_name(y), header_name(z));
        if nx == ny && ny == nz {
            lemma_text_le_transitive(x, y, z);
        } else if nx != ny && ny != nz {
            lemma_text_le_transitive(nx, ny, nz);
            if nx == nz {
                lemma_text_le_antisymmetric(nx, ny);
            }
        }
    }
    assert forall|x: Seq<char>, y: Seq<char>| #[trigger] order(x, y) || #[trigger] order(y, x) by {
        lemma_text_le_total(x, y);
        lemma_text_le_total(header_name(x), header_name(y));
    }
}

/// A sorted list holds the lines of the list it was made from, each as often,
/// and none of them stands before one that it comes after.
pub proof fn lemma_sorted_lines(list: Seq<Seq<char>>)
    ensures
        sorted_lines(list).to_multiset() == list.to_multiset(),
        sorted_lines(list).len() == list.len(),
        forall|i: int, j: int|
            0 <= i < j < list.len() ==> line_le(
                #[trigger] sorted_lines(list)[i],
                #[trigger] sorted_lines(list)[j],
            ),
{
    lemma_line_order_is_total();
    list.lemma_sort_by_ensures(line_order());
    list.to_multiset_ensures();
    sorted_lines(list).to_multiset_ensures();
    assert forall|i: int, j: int| 0 <= i < j < list.len() implies line_le(
        #[trigger] sorted_lines(list)[i],
        #[trigger] sorted_lines(list)[j],
    ) by {
        assert(line_order()(sorted_lines(list)[i], sorted_lines(list)[j]));
    }
}

/// A list that is in order already stays as it is.
pub proof fn lemma_sorted_stays(list: Seq<Seq<char>>)
    requires
        forall|i: int, j: int| 0 <= i < j < list.len() ==> line_le(list[i], list[j]),
    ensures
        sorted_lines(list) == list,
{
    lemma_line_order_is_total();
    list.lemma_sort_by_ensures(line_order());
    assert(sorted_by(list, line_order()));
    lemma_sorted_unique(sorted_lines(list), list, line_order());
}

/// Lines whose names differ from each other and stand in the order of their
/// bytes are in order.
pub proof fn lemma_sorted_by_name(list: Seq<Seq<char>>)
    requires
        forall|i: int, j: int|
            0 <= i < j < list.len() ==> header_name(list[i]) != header_name(list[j]) && text_le(
                header_name(list[i]),
                header_name(list[j]),
            ),
    ensures
        sorted_lines(list) == list,
{
    lemma_sorted_stays(list);
}

/// A text comes before every text that continues it.
pub proof fn lemma_prefix_comes_first(a: Seq<char>, b: Seq<char>)
    requires
        a.len() <= b.len(),
        b.take(a.len() as int) == a,
    ensures
        text_le(a, b),
    decreases a.len(),
{
    if a.len() > 0 {
        let rest_a = a.drop_first();
        let rest_b = b.drop_first();
        assert(a[0] == b.take(a.len() as int)[0]);
        assert(rest_b.take(rest_a.len() as int) =~= rest_a) by {
            assert forall|i: int| 0 <= i < rest_a.len() implies rest_b.take(
                rest_a.len() as int,
            )[i] == rest_a[i] by {
                assert(b.take(a.len() as int)[i + 1] == a[i + 1]);
            }
        }
        lemma_prefix_comes_first(rest_a, rest_b);
        lemma_bytes_le_same_head(
            encode_scalar(a[0] as u32),
            encode_utf8(rest_a),
            encode_utf8(rest_b),
        );
    }
}

/// A header line whose name is continued by the name of another comes before
/// the other, whatever stands after the colons.
pub proof fn lemma_continued_name_comes_later(a: Seq<char>, b: Seq<char>)
    requires
        header_name(a).len() < header_name(b).len(),
        header_name(b).take(header_name(a).len() as int) == header_name(a),
    ensures
        line_le(a, b),
        !line_le(b, a),
{
    lemma_prefix_comes_first(header_name(a), header_name(b));
    if text_le(header_name(b), header_name(a)) {
        lemma_text_le_antisymmetric(header_name(a), header_name(b));
    }
}

/// Putting the same bytes before two sequences does not change their order.
proof fn lemma_bytes_le_same_head(head: Seq<u8>, a: Seq<u8>, b: Seq<u8>)
    requires
        bytes_le(a, b),
    ensures
        bytes_le(head + a, head + b),
    decreases head.len(),
{
    if head.len() > 0 {
        lemma_bytes_le_same_head(head.drop_first(), a, b);
        assert((head + a).drop_first() =~= head.drop_first() + a);
        assert((head + b).drop_first() =~= head.drop_first() + b);
    } else {
        assert(head + a =~= a);
        assert(head + b =~= b);
    }
}

/// The bytes of a text that begins with an ASCII character begin with the code
/// of that character, and go on with the bytes of the rest.
proof fn lemma_ascii_head(text: Seq<char>)
    requires
        text.len() > 0,
        (text[0] as u32) < 128,
    ensures
        encode_utf8(text).len() > 0,
        encode_utf8(text)[0] == (text[0] as u32) as u8,
        encode_utf8(text).drop_first() == encode_utf8(text.drop_first()),
{
    let c = text[0] as u32;
    assert(has_width_1_encoding(c));
    assert(c as u8 == leading_byte_width_1(c)) by (bit_vector)
        requires
            c < 128,
    ;
    assert(encode_scalar(c) =~= seq![c as u8]);
    assert(encode_utf8(text).drop_first() =~= encode_utf8(text.drop_first()));
}

/// Of two texts that begin with the same ASCII characters, the one whose next
/// character is the smaller ASCII character comes first.
pub proof fn lemma_first_difference_decides(a: Seq<char>, b: Seq<char>, k: int)
    requires
        0 <= k < a.len(),
        k < b.len(),
        forall|i: int| 0 <= i < k ==> a[i] == b[i] && (a[i] as u32) < 128,
        (a[k] as u32) < (b[k] as u32) < 128,
    ensures
        text_le(a, b),
    decreases k,
{
    lemma_ascii_head(a);
    lemma_ascii_head(b);
    if k > 0 {
        let rest_a = a.drop_first();
        let rest_b = b.drop_first();
        assert forall|i: int| 0 <= i < k - 1 implies rest_a[i] == rest_b[i] && (rest_a[i] as u32)
            < 128 by {
            assert(rest_a[i] == a[i + 1]);
            assert(rest_b[i] == b[i + 1]);
        }
        lemma_first_difference_decides(rest_a, rest_b, k - 1);
    }
}

/// Whether `a` comes before `b` or is `b`.
pub fn text_leq(a: &str, b: &str) -> (r: bool)
    ensures
        r == text_le(a@, b@),
{
    let x = a.as_bytes();
    let y = b.as_bytes();
    let mut i: usize = 0;
    assert(x@.skip(0) =~= x@);
    assert(y@.skip(0) =~= y@);
    loop
        invariant
            i <= x@.len(),
            i <= y@.len(),
            x@ == a.spec_bytes(),
            y@ == b.spec_bytes(),
            text_le(a@, b@) == bytes_le(x@.skip(i as int), y@.skip(i as int)),
        decreases x@.len() - i,
    {
        if i >= x.len() {
            return true;
        }
        if i >= y.len() {
            return false;
        }
        assert(x@.skip(i as int)[0] == x@[i as int]);
        assert(y@.skip(i as int)[0] == y@[i as int]);
        if x[i] != y[i] {
            return x[i] < y[i];
        }
        assert(x@.skip(i as int).drop_first() =~= x@.skip(i + 1));
        assert(y@.skip(i as int).drop_first() =~= y@.skip(i + 1));
        i += 1;
    }
}

/// Whether the header line `a` comes before the header line `b` or is `b`.
pub fn line_leq(a: &str, b: &str) -> (r: bool)
    ensures
        r == line_le(a@, b@),
{
    let name_a = part_before(a, ':');
    let name_b = part_before(b, ':');
    if same_text(name_a.as_str(), name_b.as_str()) {
        text_leq(a, b)
    } else {
        text_leq(name_a.as_str(), name_b.as_str())
    }
}

/// Inserting into a list adds one occurrence of what is inserted.
proof fn lemma_insert_to_multiset(list: Seq<Seq<char>>, place: int, text: Seq<char>)
    requires
        0 <= place <= list.len(),
    ensures
        list.insert(place, text).to_multiset() == list.to_multiset().insert(text),
{
    broadcast use group_to_multiset_ensures;

    let before = list.take(place);
    let after = list.skip(place);
    assert(list =~= before + after);
    assert(list.insert(place, text) =~= before.push(text) + after);
    lemma_multiset_commutative(before, after);
    lemma_multiset_commutative(before.push(text), after);
    assert(before.push(text).to_multiset() =~= before.to_multiset().insert(text));
    assert(list.insert(place, text).to_multiset() =~= list.to_multiset().insert(text));
}

/// Sorts header lines: by the bytes of their names, and lines of one name by
/// the bytes of the whole line.
pub fn sort_lines(list: &[String]) -> (r: Vec<String>)
    ensures
        texts(r@) == sorted_lines(texts(list@)),
{
    let mut out: Vec<String> = Vec::new();
    let mut i: usize = 0;
    proof {
        lemma_line_order_is_total();
        assert(texts(list@).take(0) =~= Seq::<Seq<char>>::empty());
        assert(texts(out@) =~= Seq::<Seq<char>>::empty());
    }
    while i < list.len()
        invariant
            i <= list@.len(),
            total_ordering(line_order()),
            sorted_by(texts(out@), line_order()),
            texts(out@).to_multiset() == texts(list@).take(i as int).to_multiset(),
        decreases list@.len() - i,
    {
        let ghost sorted = texts(out@);
        let ghost text = list@[i as int]@;
        let mut place: usize = 0;
        while place < out.len() && line_leq(out[place].as_str(), list[i].as_str())
            invariant
                place <= out@.len(),
                i < list@.len(),
                sorted == texts(out@),
                text == list@[i as int]@,
                forall|j: int| 0 <= j < place ==> line_le(#[trigger] sorted[j], text),
            decreases out@.len() - place,
        {
            assert(sorted[place as int] == out@[place as int]@);
            place += 1;
        }
        assert(place < sorted.len() ==> !line_le(sorted[place as int], text)) by {
            if place < sorted.len() {
                assert(sorted[place as int] == out@[place as int]@);
            }
        }
        out.insert(place, list[i].clone());
        proof {
            let grown = texts(out@);
            assert(grown =~= sorted.insert(place as int, text));
            assert forall|a: int, b: int| 0 <= a < b < grown.len() implies #[trigger] line_order()(
                grown[a],
                grown[b],
            ) by {
                let order = line_order();
                if b < place {
                    assert(order(sorted[a], sorted[b]));
                } else if b == place {
                    assert(line_le(sorted[a], text));
                } else if a == place {
                    // What stood at `place` before the insertion comes after `text`.
                    assert(!line_le(sorted[place as int], text));
                    assert(order(sorted[place as int], text) || order(text, sorted[place as int]));
                    if b - 1 > place {
                        assert(order(sorted[place as int], sorted[b - 1]));
                        assert(order(text, sorted[place as int]) && order(
                            sorted[place as int],
                            sorted[b - 1],
                        ) ==> order(text, sorted[b - 1]));
                    }
                } else if a < place {
                    assert(order(sorted[a], sorted[b - 1]));
                } else {
                    assert(order(sorted[a - 1], sorted[b - 1]));
                }
            }
            lemma_insert_to_multiset(sorted, place as int, text);
            let all = texts(list@);
            assert(all.take(i + 1) =~= all.take(i as int).push(text));
            all.take(i as int).to_multiset_ensures();
        }
        i += 1;
    }
    proof {
        let all = texts(list@);
        assert(all.take(i as int) =~= all);
        all.lemma_sort_by_ensures(line_order());
        lemma_sorted_unique(texts(out@), sorted_lines(all), line_order());
    }
    out
}

} // verus!

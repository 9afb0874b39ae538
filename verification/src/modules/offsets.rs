//! Where a character position lies in the UTF-8 storage of a text.

use vstd::prelude::*;
use vstd::utf8::*;

verus! {

/// The number of bytes that the first `count` characters of `text` take in
/// its UTF-8 storage; past the end, the size of the whole storage.
pub open spec fn storage_offset(text: Seq<char>, count: nat) -> nat {
    if count <= text.len() {
        encode_utf8(text.take(count as int)).len()
    } else {
        encode_utf8(text).len()
    }
}

/// `char::len_utf8`: the number of bytes that the UTF-8 encoding of the
/// character takes.
pub assume_specification[ char::len_utf8 ](c: char) -> (width: usize)
    ensures
        width == encode_scalar(c as u32).len(),
;

/// `String::insert`: puts the bytes of `ch` into the storage at byte
/// position `idx` and moves what stood there behind them. It panics where
/// `idx` is no character boundary of the storage, so callers must show one.
pub assume_specification[ String::insert ](s: &mut String, idx: usize, ch: char)
    requires
        is_char_boundary(encode_utf8(old(s)@), idx as int),
    ensures
        encode_utf8(final(s)@) == encode_utf8(old(s)@).subrange(0, idx as int) + encode_scalar(
            ch as u32,
        ) + encode_utf8(old(s)@).subrange(idx as int, encode_utf8(old(s)@).len() as int),
;

/// The storage of two texts joined is their storages joined.
pub proof fn lemma_storage_of_joined(a: Seq<char>, b: Seq<char>)
    ensures
        encode_utf8(a + b) == encode_utf8(a) + encode_utf8(b),
    decreases a.len(),
{
    if a.len() == 0 {
        assert(a + b =~= b);
        assert(encode_utf8(a) + encode_utf8(b) =~= encode_utf8(b));
    } else {
        assert((a + b).drop_first() =~= a.drop_first() + b);
        lemma_storage_of_joined(a.drop_first(), b);
        assert(encode_utf8(a + b) =~= encode_utf8(a) + encode_utf8(b));
    }
}

/// A character takes at least one byte and at most four.
pub proof fn lemma_width_of_char(c: char)
    ensures
        1 <= encode_scalar(c as u32).len() <= 4,
{
}

/// The storage of a text with one more character at its end.
pub proof fn lemma_storage_of_pushed(text: Seq<char>, c: char)
    ensures
        encode_utf8(text.push(c)) == encode_utf8(text) + encode_scalar(c as u32),
{
    let last = seq![c];
    assert(text.push(c) =~= text + last);
    lemma_storage_of_joined(text, last);
    assert(last.drop_first() =~= Seq::<char>::empty());
    assert(encode_utf8(last.drop_first()) =~= Seq::<u8>::empty());
    assert(encode_utf8(last) =~= encode_scalar(c as u32));
}

/// The storage of a prefix is a prefix of the storage, and it ends where a
/// character of the whole text begins.
pub proof fn lemma_prefix_ends_on_boundary(a: Seq<char>, b: Seq<char>)
    ensures
        is_char_boundary(encode_utf8(a + b), encode_utf8(a).len() as int),
    decreases a.len(),
{
    broadcast use encode_utf8_valid_utf8;

    let whole = a + b;
    let bytes = encode_utf8(whole);
    if a.len() != 0 {
        lemma_storage_of_joined(a, b);
        lemma_width_of_char(a[0]);
        encode_utf8_first_scalar(whole);
        assert(whole.drop_first() =~= a.drop_first() + b);
        assert(pop_first_scalar(bytes) =~= encode_utf8(whole.drop_first()));
        lemma_prefix_ends_on_boundary(a.drop_first(), b);
    }
}

/// Splitting a text at a character position splits its storage at the
/// offset of that position.
pub proof fn lemma_storage_split(text: Seq<char>, count: nat)
    requires
        count <= text.len(),
    ensures
        storage_offset(text, count) <= encode_utf8(text).len(),
        is_char_boundary(encode_utf8(text), storage_offset(text, count) as int),
        encode_utf8(text).subrange(0, storage_offset(text, count) as int) == encode_utf8(
            text.take(count as int),
        ),
        encode_utf8(text).subrange(
            storage_offset(text, count) as int,
            encode_utf8(text).len() as int,
        ) == encode_utf8(text.skip(count as int)),
{
    let head = text.take(count as int);
    let tail = text.skip(count as int);
    assert(text =~= head + tail);
    lemma_storage_of_joined(head, tail);
    lemma_prefix_ends_on_boundary(head, tail);
    let bytes = encode_utf8(text);
    let cut = encode_utf8(head).len() as int;
    assert(bytes.subrange(0, cut) =~= encode_utf8(head));
    assert(bytes.subrange(cut, bytes.len() as int) =~= encode_utf8(tail));
}

/// A text is known by its storage: where the storage of `after` is that of
/// `text` with the bytes of `c` put in at the offset of position `at`,
/// `after` is `text` with `c` put in at `at`.
pub proof fn lemma_insert_into_storage(text: Seq<char>, at: nat, c: char, after: Seq<char>)
    requires
        at <= text.len(),
        encode_utf8(after) == encode_utf8(text).subrange(0, storage_offset(text, at) as int)
            + encode_scalar(c as u32) + encode_utf8(text).subrange(
            storage_offset(text, at) as int,
            encode_utf8(text).len() as int,
        ),
    ensures
        after == text.insert(at as int, c),
{
    broadcast use encode_utf8_decode_utf8;

    let head = text.take(at as int);
    let tail = text.skip(at as int);
    lemma_storage_split(text, at);
    lemma_storage_of_pushed(head, c);
    lemma_storage_of_joined(head.push(c), tail);
    let wanted = text.insert(at as int, c);
    assert(wanted =~= head.push(c) + tail);
    assert(encode_utf8(after) == encode_utf8(wanted));
    assert(decode_utf8(encode_utf8(after)) == after);
    assert(decode_utf8(encode_utf8(wanted)) == wanted);
}

} // verus!

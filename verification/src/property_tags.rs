//! The word layout of a firmware property-tag message, shared by every
//! mailbox message type of the system.
//!
//! Word 0 holds the size of the request in bytes, word 1 the request or
//! response code; tags follow from word 2 on. Each tag is a code, a size of
//! its value buffer in bytes, a second size word, and then the value buffer.
//! A zero word ends the list of tags.

use vstd::prelude::*;

verus! {

/// The word index that the byte size in word 0 names.
pub open spec fn fill_index(b: Seq<u32>) -> int {
    (b[0] / 4) as int
}

/// Word 0 holds a whole number of words and the header (words 0 and 1) lies
/// before the slot it names.
pub open spec fn header_sane(b: Seq<u32>) -> bool {
    &&& b.len() >= 1
    &&& b[0] % 4 == 0
    &&& b[0] >= 8
}

/// `b` after one word is written to the slot named by word 0 and word 0
/// then grows by four bytes. Where that slot is word 0 itself, the grown
/// value is the written word plus four.
pub open spec fn pushed(b: Seq<u32>, data: u32) -> Seq<u32> {
    let b1 = b.update(fill_index(b), data);
    b1.update(0, (b1[0] + 4) as u32)
}

/// Writing `data` stays within `n` words: the slot exists and the grown size
/// does not pass `4 * n` bytes.
pub open spec fn can_push(b: Seq<u32>, n: int, data: u32) -> bool {
    &&& b.len() == n
    &&& 0 <= fill_index(b) < n
    &&& b.update(fill_index(b), data)[0] + 4 <= 4 * n
}

/// `b`, with a sane header, after the words `w` are appended at the slot
/// named by word 0, and word 0 grown to match.
pub open spec fn appended(b: Seq<u32>, w: Seq<u32>) -> Seq<u32> {
    Seq::new(
        b.len(),
        |i: int|
            if i == 0 {
                (b[0] + 4 * w.len()) as u32
            } else if fill_index(b) <= i < fill_index(b) + w.len() {
                w[i - fill_index(b)]
            } else {
                b[i]
            },
    )
}

/// `n` zero words.
pub open spec fn zeros(n: int) -> Seq<u32> {
    Seq::new(if n < 0 {
        0
    } else {
        n as nat
    }, |i: int| 0u32)
}

/// The words of one tag: its three header words, the request data, then
/// zeros up to `value_words` words of value buffer.
pub open spec fn tag_words(header: Seq<u32>, data: Seq<u32>, value_words: int) -> Seq<u32> {
    header + data + zeros(value_words - data.len())
}

/// The larger of two sizes.
pub open spec fn max_u32(a: u32, b: u32) -> u32 {
    if a < b {
        b
    } else {
        a
    }
}

/// The value buffer words of a tag with `data_words` words of request data
/// and a response of `response` bytes: room for whichever is longer.
pub open spec fn value_words(data_words: int, response: u32) -> int {
    if data_words < (response / 4) as int {
        (response / 4) as int
    } else {
        data_words
    }
}

/// Writes `data` to the slot that word 0 names, and grows word 0 by four
/// bytes.
pub fn push_word(buffer: &mut Vec<u32>, data: u32)
    requires
        old(buffer)@.len() < 0x4000_0000,
        header_sane(old(buffer)@),
        fill_index(old(buffer)@) < old(buffer)@.len(),
    ensures
        final(buffer)@ == appended(old(buffer)@, seq![data]),
        final(buffer)@ == pushed(old(buffer)@, data),
{
    let index = (buffer[0] / 4) as usize;
    buffer.set(index, data);
    let size = buffer[0] + 4;
    buffer.set(0, size);
    assert(buffer@ =~= appended(old(buffer)@, seq![data]));
}

/// Writes `data` like `push_word` for any word 0: the slot it names may be
/// word 0 itself.
pub fn push_word_anywhere(buffer: &mut Vec<u32>, data: u32)
    requires
        old(buffer)@.len() < 0x4000_0000,
        can_push(old(buffer)@, old(buffer)@.len() as int, data),
    ensures
        final(buffer)@ == pushed(old(buffer)@, data),
{
    let index = (buffer[0] / 4) as usize;
    buffer.set(index, data);
    let size = buffer[0] + 4;
    buffer.set(0, size);
}

/// Appends one tag: its three header words, the request data, then zeros
/// until the response (of `response` bytes) fits.
pub fn push_tag_words(buffer: &mut Vec<u32>, header: (u32, u32, u32), data: &[u32], response: u32)
    requires
        old(buffer)@.len() < 0x4000_0000,
        header_sane(old(buffer)@),
        fill_index(old(buffer)@) + 3 + value_words(data@.len() as int, response) <= old(buffer)@.len(),
    ensures
        final(buffer)@ == appended(
            old(buffer)@,
            tag_words(seq![header.0, header.1, header.2], data@, value_words(data@.len() as int, response)),
        ),
{
    let ghost start = buffer@;
    let ghost words = tag_words(
        seq![header.0, header.1, header.2],
        data@,
        value_words(data@.len() as int, response),
    );
    push_word(buffer, header.0);
    push_word(buffer, header.1);
    push_word(buffer, header.2);
    proof {
        assert(appended(appended(appended(start, seq![header.0]), seq![header.1]), seq![header.2])
            =~= appended(start, words.subrange(0, 3)));
    }
    let mut index: usize = 0;
    while index < data.len()
        invariant
            buffer@.len() == start.len(),
            start.len() < 0x4000_0000,
            header_sane(buffer@),
            header_sane(start),
            fill_index(start) + 3 + value_words(data@.len() as int, response) <= start.len(),
            words == tag_words(seq![header.0, header.1, header.2], data@, value_words(data@.len() as int, response)),
            index <= data@.len(),
            buffer@ == appended(start, words.subrange(0, 3 + index)),
        decreases data@.len() - index,
    {
        push_word(buffer, data[index]);
        proof {
            assert(appended(appended(start, words.subrange(0, 3 + index)), seq![data@[index as int]])
                =~= appended(start, words.subrange(0, 3 + index + 1)));
        }
        index += 1;
    }
    let mut count: u32 = data.len() as u32;
    while count < response / 4
        invariant
            buffer@.len() == start.len(),
            start.len() < 0x4000_0000,
            header_sane(buffer@),
            header_sane(start),
            fill_index(start) + 3 + value_words(data@.len() as int, response) <= start.len(),
            words == tag_words(seq![header.0, header.1, header.2], data@, value_words(data@.len() as int, response)),
            data@.len() <= count <= value_words(data@.len() as int, response),
            buffer@ == appended(start, words.subrange(0, 3 + count)),
        decreases response / 4 - count,
    {
        push_word(buffer, 0);
        proof {
            assert(appended(appended(start, words.subrange(0, 3 + count)), seq![0u32])
                =~= appended(start, words.subrange(0, 3 + count + 1)));
        }
        count += 1;
    }
    assert(words.subrange(0, 3 + count) =~= words);
}

/// The first tag with the given `code` found by walking the tag list of `b`
/// (of `n` words) from word `index`, stopping at a zero word or at the end of
/// the buffer. A walk that would read past the end yields `None` here; the
/// walk is only run where `tag_search_safe` holds.
pub open spec fn tag_search(b: Seq<u32>, n: int, code: u32, index: int) -> Option<int>
    decreases n - index,
{
    if index < 0 || index >= n {
        None
    } else if b[index] == 0 {
        None
    } else if b[index] == code {
        Some(index)
    } else if index + 1 >= n {
        None
    } else {
        let next = index + 3 + (b[index + 1] / 4) as int;
        if next >= n {
            None
        } else {
            tag_search(b, n, code, next)
        }
    }
}

/// A tag the walk finds lies inside the buffer, at or after where the walk
/// started.
pub proof fn lemma_tag_search_in_range(b: Seq<u32>, n: int, code: u32, index: int)
    ensures
        tag_search(b, n, code, index) matches Some(i) ==> index <= i < n && 0 <= i,
    decreases n - index,
{
    if 0 <= index < n && b[index] != 0 && b[index] != code && index + 1 < n {
        let next = index + 3 + (b[index + 1] / 4) as int;
        if next < n {
            lemma_tag_search_in_range(b, n, code, next);
        }
    }
}

/// The walk of `tag_search` never reads the size word past the end.
pub open spec fn tag_search_safe(b: Seq<u32>, n: int, code: u32, index: int) -> bool
    decreases n - index,
{
    if index < 0 || index >= n {
        true
    } else if b[index] == 0 {
        true
    } else if b[index] == code {
        true
    } else if index + 1 >= n {
        false
    } else {
        let next = index + 3 + (b[index + 1] / 4) as int;
        next >= n || tag_search_safe(b, n, code, next)
    }
}

/// The tags of `b` form a chain from word `index` to exactly word `end`:
/// each has a nonzero code other than `code`, and its size word leads to the
/// next.
pub open spec fn chain_to(b: Seq<u32>, n: int, index: int, end: int, code: u32) -> bool
    decreases end - index,
{
    if index == end {
        true
    } else if index > end {
        false
    } else {
        &&& 0 <= index
        &&& index + 1 < n
        &&& b[index] != 0
        &&& b[index] != code
        &&& index + 3 + (b[index + 1] / 4) as int <= end
        &&& chain_to(b, n, index + 3 + (b[index + 1] / 4) as int, end, code)
    }
}

/// A chain is read only from its own words: another buffer that agrees with
/// `b` before `end` has the same chain.
proof fn lemma_chain_same_prefix(b: Seq<u32>, c: Seq<u32>, n: int, index: int, end: int, code: u32)
    requires
        chain_to(b, n, index, end, code),
        b.len() == n,
        c.len() == n,
        end <= n,
        forall|j: int| 0 <= j < end && j >= 2 ==> c[j] == b[j],
        index >= 2,
    ensures
        chain_to(c, n, index, end, code),
    decreases end - index,
{
    if index < end {
        lemma_chain_same_prefix(b, c, n, index + 3 + (b[index + 1] / 4) as int, end, code);
    }
}

/// Walking a chain that ends at a tag with `code` finds that tag.
proof fn lemma_chain_finds(b: Seq<u32>, n: int, index: int, end: int, code: u32)
    requires
        chain_to(b, n, index, end, code),
        0 <= end < n,
        b[end] == code,
        code != 0,
        b.len() == n,
    ensures
        tag_search(b, n, code, index) == Some(end),
        tag_search_safe(b, n, code, index),
    decreases end - index,
{
    if index < end {
        lemma_chain_finds(b, n, index + 3 + (b[index + 1] / 4) as int, end, code);
    }
}

/// A chain extended by one more tag whose size word spans exactly its value
/// buffer.
proof fn lemma_chain_extend(b: Seq<u32>, n: int, index: int, end: int, next: int, code: u32)
    requires
        chain_to(b, n, index, end, code),
        0 <= end,
        end + 1 < n,
        b[end] != 0,
        b[end] != code,
        next == end + 3 + (b[end + 1] / 4) as int,
    ensures
        chain_to(b, n, index, next, code),
    decreases end - index,
{
    if index < end {
        lemma_chain_extend(b, n, index + 3 + (b[index + 1] / 4) as int, end, next, code);
    } else {
        assert(chain_to(b, n, next, next, code));
    }
}

/// The request for a tag, appended at the end of a tag chain that holds no
/// tag with the same code, is found by the tag walk exactly where it was
/// written: the walk from word 2 over the extended message yields the old
/// fill position.
pub proof fn lemma_appended_tag_found(b: Seq<u32>, n: int, w: Seq<u32>)
    requires
        b.len() == n,
        n < 0x4000_0000,
        header_sane(b),
        w.len() >= 1,
        w[0] != 0,
        fill_index(b) + w.len() <= n,
        chain_to(b, n, 2, fill_index(b), w[0]),
    ensures
        tag_search(appended(b, w), n, w[0], 2) == Some(fill_index(b)),
        tag_search_safe(appended(b, w), n, w[0], 2),
{
    let c = appended(b, w);
    lemma_chain_same_prefix(b, c, n, 2, fill_index(b), w[0]);
    lemma_chain_finds(c, n, 2, fill_index(b), w[0]);
}

/// Appending a tag whose second header word gives the byte size of its value
/// buffer keeps the tag list a chain, now ending after the new tag, for
/// every code other than the new tag's.
pub proof fn lemma_appended_tag_extends_chain(b: Seq<u32>, n: int, w: Seq<u32>, code: u32)
    requires
        b.len() == n,
        n < 0x4000_0000,
        header_sane(b),
        w.len() >= 3,
        w[0] != 0,
        w[0] != code,
        w.len() == 3 + (w[1] / 4) as int,
        fill_index(b) + w.len() <= n,
        chain_to(b, n, 2, fill_index(b), code),
    ensures
        chain_to(appended(b, w), n, 2, fill_index(appended(b, w)), code),
{
    let c = appended(b, w);
    lemma_chain_same_prefix(b, c, n, 2, fill_index(b), code);
    assert(c[0] == b[0] + 4 * w.len());
    assert(fill_index(c) == fill_index(b) + w.len());
    assert(c[fill_index(b)] == w[0]);
    assert(c[fill_index(b) + 1] == w[1]);
    lemma_chain_extend(c, n, 2, fill_index(b), fill_index(c), code);
}

} // verus!

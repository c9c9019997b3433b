//! The content of a file that is received in chunks.
//!
//! Each chunk is written at its own offset, whatever came before: a later
//! chunk overwrites an earlier one where they overlap, and a chunk beyond
//! the end leaves a gap of zero bytes. So the order in which the chunks of a
//! file come does not matter, as long as they do not overlap.

use vstd::prelude::*;

verus! {

/// A piece of a file: some bytes and the offset at which they belong.
pub struct Chunk {
    pub offset: nat,
    pub data: Seq<u8>,
}

impl Chunk {
    /// The offset behind the last byte of the chunk.
    pub open spec fn end(self) -> nat {
        self.offset + self.data.len()
    }

    /// Whether the chunk holds the byte at a position of the file.
    pub open spec fn covers(self, position: int) -> bool {
        self.offset <= position < self.offset + self.data.len()
    }

    /// Whether two chunks have no position in common.
    pub open spec fn apart_from(self, other: Chunk) -> bool {
        self.data.len() == 0 || other.data.len() == 0 || self.end() <= other.offset || other.end()
            <= self.offset
    }
}

/// The content of a file after `data` was written at `offset`: the bytes are
/// in place, what lay beside them is as before, and a gap between the old
/// end and the offset reads as zero bytes. Writing nothing changes nothing.
pub open spec fn write_at(content: Seq<u8>, offset: nat, data: Seq<u8>) -> Seq<u8> {
    if data.len() == 0 {
        content
    } else {
        Seq::new(
            if content.len() >= offset + data.len() {
                content.len()
            } else {
                offset + data.len()
            },
            |i: int|
                if offset <= i < offset + data.len() {
                    data[i - offset]
                } else if i < content.len() {
                    content[i]
                } else {
                    0u8
                },
        )
    }
}

/// The content of a file that was created empty and then received the
/// chunks in the given order.
pub open spec fn received(chunks: Seq<Chunk>) -> Seq<u8>
    decreases chunks.len(),
{
    if chunks.len() == 0 {
        Seq::empty()
    } else {
        write_at(received(chunks.drop_last()), chunks.last().offset, chunks.last().data)
    }
}

/// The bytes of the chunks, one chunk after the other.
pub open spec fn joined(chunks: Seq<Chunk>) -> Seq<u8>
    decreases chunks.len(),
{
    if chunks.len() == 0 {
        Seq::empty()
    } else {
        joined(chunks.drop_last()) + chunks.last().data
    }
}

/// Whether no two chunks of a list have a position in common.
pub open spec fn pairwise_apart(chunks: Seq<Chunk>) -> bool {
    forall|i: int, j: int|
        0 <= i < chunks.len() && 0 <= j < chunks.len() && i != j ==> (#[trigger] chunks[i]).apart_from(
            #[trigger] chunks[j],
        )
}

/// Whether the chunks of a list lie in the file one behind the other, from
/// the start of the file on: the list is sorted by offset, and the chunks
/// cover the file without gap or overlap.
pub open spec fn in_sequence(chunks: Seq<Chunk>) -> bool {
    forall|k: int| 0 <= k < chunks.len() ==> #[trigger] follows_on(chunks, k)
}

/// Whether the chunk at a place of a list begins where the bytes of the
/// chunks before it end.
pub open spec fn follows_on(chunks: Seq<Chunk>, k: int) -> bool {
    chunks[k].offset == joined(chunks.take(k)).len()
}

/// Whether some chunk of a list holds the byte at a position of the file.
pub open spec fn covered(chunks: Seq<Chunk>, position: int) -> bool {
    exists|k: int| 0 <= k < chunks.len() && #[trigger] chunks[k].covers(position)
}

/// Whether `chunks` holds the chunks of `sorted` in another order: `order`
/// says where each chunk of `chunks` stands in `sorted`, and `place` where
/// each chunk of `sorted` stands in `chunks`.
pub open spec fn rearranges(
    chunks: Seq<Chunk>,
    sorted: Seq<Chunk>,
    order: Seq<int>,
    place: Seq<int>,
) -> bool {
    &&& chunks.len() == sorted.len()
    &&& order.len() == chunks.len()
    &&& place.len() == sorted.len()
    &&& forall|i: int|
        0 <= i < chunks.len() ==> 0 <= #[trigger] order[i] < sorted.len() && sorted[order[i]]
            == chunks[i] && place[order[i]] == i
    &&& forall|k: int|
        0 <= k < sorted.len() ==> 0 <= #[trigger] place[k] < chunks.len() && chunks[place[k]]
            == sorted[k] && order[place[k]] == k
}

/// A file holds no more than the farthest end of the chunks it received.
pub proof fn lemma_received_length(chunks: Seq<Chunk>, size: nat)
    requires
        forall|i: int| 0 <= i < chunks.len() ==> (#[trigger] chunks[i]).end() <= size,
    ensures
        received(chunks).len() <= size,
    decreases chunks.len(),
{
    if chunks.len() > 0 {
        let earlier = chunks.drop_last();
        assert forall|i: int| 0 <= i < earlier.len() implies (#[trigger] earlier[i]).end() <= size by {
            assert(earlier[i] == chunks[i]);
        }
        lemma_received_length(earlier, size);
        assert(chunks.last() == chunks[chunks.len() - 1]);
    }
}

/// A file that received chunks without overlap holds each byte of each
/// chunk at its place.
pub proof fn lemma_received_byte(chunks: Seq<Chunk>, i: int, j: int)
    requires
        pairwise_apart(chunks),
        0 <= i < chunks.len(),
        0 <= j < chunks[i].data.len(),
    ensures
        chunks[i].offset + j < received(chunks).len(),
        received(chunks)[chunks[i].offset + j] == chunks[i].data[j],
    decreases chunks.len(),
{
    let last = chunks.len() - 1;
    let earlier = chunks.drop_last();
    if i < last {
        assert forall|a: int, b: int|
            0 <= a < earlier.len() && 0 <= b < earlier.len() && a != b implies (#[trigger] earlier[a]).apart_from(
            #[trigger] earlier[b],
        ) by {
            assert(earlier[a] == chunks[a]);
            assert(earlier[b] == chunks[b]);
        }
        assert(earlier[i] == chunks[i]);
        lemma_received_byte(earlier, i, j);
        assert(chunks[i].apart_from(chunks[last]));
    }
}

/// The bytes of chunks joined one after the other are as many as the chunks
/// hold together, and a longer list of chunks begins with the bytes of each
/// of its beginnings.
pub proof fn lemma_joined_prefix(chunks: Seq<Chunk>, k: int)
    requires
        0 <= k <= chunks.len(),
    ensures
        joined(chunks.take(k)).len() <= joined(chunks).len(),
        joined(chunks).take(joined(chunks.take(k)).len() as int) == joined(chunks.take(k)),
    decreases chunks.len(),
{
    if k == chunks.len() {
        assert(chunks.take(k) =~= chunks);
        assert(joined(chunks).take(joined(chunks).len() as int) =~= joined(chunks));
    } else {
        let earlier = chunks.drop_last();
        assert(earlier.take(k) =~= chunks.take(k));
        lemma_joined_prefix(earlier, k);
        let head = joined(chunks.take(k));
        assert(joined(chunks).take(head.len() as int) =~= joined(earlier).take(head.len() as int));
    }
}

/// Chunks that lie one behind the other hold each of their bytes at its
/// place in the bytes joined.
pub proof fn lemma_joined_byte(chunks: Seq<Chunk>, k: int, j: int)
    requires
        in_sequence(chunks),
        0 <= k < chunks.len(),
        0 <= j < chunks[k].data.len(),
    ensures
        chunks[k].offset + j < joined(chunks).len(),
        joined(chunks)[chunks[k].offset + j] == chunks[k].data[j],
{
    let upto = chunks.take(k + 1);
    let at = chunks[k].offset + j;
    assert(follows_on(chunks, k));
    assert(upto.drop_last() =~= chunks.take(k));
    assert(upto.last() == chunks[k]);
    assert(joined(upto) == joined(chunks.take(k)) + chunks[k].data);
    lemma_joined_prefix(chunks, k + 1);
    assert(joined(upto)[at] == chunks[k].data[j]);
    assert(joined(chunks).take(joined(upto).len() as int)[at] == joined(chunks)[at]);
}

/// Chunks that lie one behind the other end no farther than their bytes
/// joined, have no position in common, and leave no position out.
pub proof fn lemma_sequence_tiles(chunks: Seq<Chunk>)
    requires
        in_sequence(chunks),
    ensures
        forall|k: int| 0 <= k < chunks.len() ==> (#[trigger] chunks[k]).end() <= joined(chunks).len(),
        pairwise_apart(chunks),
        forall|p: int| 0 <= p < joined(chunks).len() ==> #[trigger] covered(chunks, p),
    decreases chunks.len(),
{
    assert forall|k: int| 0 <= k < chunks.len() implies (#[trigger] chunks[k]).end() <= joined(
        chunks,
    ).len() by {
        lemma_chunk_ends(chunks, k);
        lemma_joined_prefix(chunks, k + 1);
    }
    assert forall|a: int, b: int|
        0 <= a < chunks.len() && 0 <= b < chunks.len() && a != b implies (#[trigger] chunks[a]).apart_from(
        #[trigger] chunks[b],
    ) by {
        if a < b {
            lemma_chunk_ends(chunks, a);
            lemma_joined_prefix(chunks.take(b), a + 1);
            assert(chunks.take(b).take(a + 1) =~= chunks.take(a + 1));
            assert(follows_on(chunks, b));
        } else {
            lemma_chunk_ends(chunks, b);
            lemma_joined_prefix(chunks.take(a), b + 1);
            assert(chunks.take(a).take(b + 1) =~= chunks.take(b + 1));
            assert(follows_on(chunks, a));
        }
    }
    if chunks.len() > 0 {
        let last = chunks.len() - 1;
        let earlier = chunks.drop_last();
        assert forall|k: int| 0 <= k < earlier.len() implies #[trigger] follows_on(earlier, k) by {
            assert(follows_on(chunks, k));
            assert(earlier[k] == chunks[k]);
            assert(earlier.take(k) =~= chunks.take(k));
        }
        lemma_sequence_tiles(earlier);
        assert(chunks.take(last) =~= earlier);
        assert forall|p: int| 0 <= p < joined(chunks).len() implies #[trigger] covered(
            chunks,
            p,
        ) by {
            if p < joined(earlier).len() {
                assert(covered(earlier, p));
                let k = choose|k: int| 0 <= k < earlier.len() && #[trigger] earlier[k].covers(p);
                assert(chunks[k] == earlier[k]);
                assert(chunks[k].covers(p));
            } else {
                assert(follows_on(chunks, last));
                assert(chunks[last].covers(p));
            }
        }
    }
}

/// A chunk in a list of chunks that lie one behind the other ends where the
/// bytes up to and with it end.
proof fn lemma_chunk_ends(chunks: Seq<Chunk>, k: int)
    requires
        in_sequence(chunks),
        0 <= k < chunks.len(),
    ensures
        chunks[k].end() == joined(chunks.take(k + 1)).len(),
{
    let upto = chunks.take(k + 1);
    assert(follows_on(chunks, k));
    assert(upto.drop_last() =~= chunks.take(k));
    assert(upto.last() == chunks[k]);
}

/// A transfer gives the file back whatever the order of its chunks: a file
/// that was created empty and received, in any order, chunks that lie one
/// behind the other from the start of the file on, holds exactly the bytes
/// of the chunks joined in the order of their offsets.
pub proof fn lemma_transfer_round_trip(
    chunks: Seq<Chunk>,
    sorted: Seq<Chunk>,
    order: Seq<int>,
    place: Seq<int>,
)
    requires
        in_sequence(sorted),
        rearranges(chunks, sorted, order, place),
    ensures
        received(chunks) == joined(sorted),
{
    let size = joined(sorted).len();
    lemma_sequence_tiles(sorted);
    assert forall|i: int| 0 <= i < chunks.len() implies (#[trigger] chunks[i]).end() <= size by {
        assert(chunks[i] == sorted[order[i]]);
    }
    assert(pairwise_apart(chunks)) by {
        assert forall|i: int, j: int|
            0 <= i < chunks.len() && 0 <= j < chunks.len() && i != j implies (#[trigger] chunks[i]).apart_from(
            #[trigger] chunks[j],
        ) by {
            assert(place[order[i]] == i);
            assert(place[order[j]] == j);
            assert(order[i] != order[j]);
            assert(sorted[order[i]].apart_from(sorted[order[j]]));
        }
    }
    lemma_received_length(chunks, size);
    assert forall|p: int| 0 <= p < size implies p < received(chunks).len() && #[trigger] received(
        chunks,
    )[p] == joined(sorted)[p] by {
        lemma_received_position(chunks, sorted, place, p);
    }
    if size > 0 {
        lemma_received_position(chunks, sorted, place, size - 1);
    }
    assert(received(chunks) =~= joined(sorted));
}

/// The byte at a position that the sorted chunks cover is in the file what
/// it is in the bytes joined.
proof fn lemma_received_position(chunks: Seq<Chunk>, sorted: Seq<Chunk>, place: Seq<int>, p: int)
    requires
        in_sequence(sorted),
        pairwise_apart(chunks),
        covered(sorted, p),
        place.len() == sorted.len(),
        forall|k: int|
            0 <= k < sorted.len() ==> 0 <= #[trigger] place[k] < chunks.len() && chunks[place[k]]
                == sorted[k],
    ensures
        0 <= p < received(chunks).len(),
        p < joined(sorted).len(),
        received(chunks)[p] == joined(sorted)[p],
{
    let k = choose|k: int| 0 <= k < sorted.len() && #[trigger] sorted[k].covers(p);
    let i = place[k];
    assert(chunks[i] == sorted[k]);
    lemma_received_byte(chunks, i, p - sorted[k].offset);
    lemma_joined_byte(sorted, k, p - sorted[k].offset);
}

/// Writes `data` into `content` at `offset`, as a file would take it.
pub fn write_at_offset(content: &mut Vec<u8>, offset: usize, data: &Vec<u8>)
    requires
        offset + data.len() <= usize::MAX,
    ensures
        final(content)@ == write_at(old(content)@, offset as nat, data@),
{
    if data.len() == 0 {
        return ;
    }
    let ghost before = content@;
    while content.len() < offset + data.len()
        invariant
            offset + data.len() <= usize::MAX,
            before.len() <= content.len(),
            content.len() <= before.len() || content.len() <= offset + data.len(),
            forall|i: int| 0 <= i < before.len() ==> content@[i] == before[i],
            forall|i: int| before.len() <= i < content.len() ==> content@[i] == 0u8,
        decreases offset + data.len() - content.len(),
    {
        content.push(0u8);
    }
    let mut j: usize = 0;
    while j < data.len()
        invariant
            j <= data.len(),
            offset + data.len() <= content.len(),
            content.len() == write_at(before, offset as nat, data@).len(),
            forall|i: int|
                0 <= i < content.len() && !(offset <= i < offset + j) ==> content@[i] == (
                if i < before.len() {
                    before[i]
                } else {
                    0u8
                }),
            forall|i: int| offset <= i < offset + j ==> content@[i] == data@[i - offset],
        decreases data.len() - j,
    {
        content.set(offset + j, data[j]);
        j = j + 1;
    }
    assert(content@ =~= write_at(before, offset as nat, data@));
}

} // verus!

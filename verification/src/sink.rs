//! The output sink adapter: the chunks that the encoder pushes out are
//! gathered, in the order they arrive, in one growable buffer.

use vstd::prelude::*;

verus! {

/// The status that tells the encoder that a chunk was taken whole.
pub const CHUNK_ACCEPTED: i32 = 0;

/// The status that tells the encoder that a chunk was not taken.
pub const CHUNK_REFUSED: i32 = 1;

/// All of `chunks`, one after the other.
pub open spec fn concat(chunks: Seq<Seq<u8>>) -> Seq<u8>
    decreases chunks.len(),
{
    if chunks.len() == 0 {
        Seq::empty()
    } else {
        concat(chunks.drop_last()) + chunks.last()
    }
}

/// The bytes that one encode call has produced so far.
pub struct Accumulator {
    bytes: Vec<u8>,
}

impl View for Accumulator {
    type V = Seq<u8>;

    closed spec fn view(&self) -> Seq<u8> {
        self.bytes@
    }
}

impl Accumulator {
    /// What the accumulator holds after taking each of `chunks` in turn.
    pub open spec fn after(held: Seq<u8>, chunks: Seq<Seq<u8>>) -> Seq<u8>
        decreases chunks.len(),
    {
        if chunks.len() == 0 {
            held
        } else {
            Self::after(held, chunks.drop_last()) + chunks.last()
        }
    }

    /// An accumulator that holds nothing yet.
    pub fn new() -> (acc: Accumulator)
        ensures
            acc@ == Seq::<u8>::empty(),
    {
        Accumulator { bytes: Vec::new() }
    }

    /// Appends `chunk` whole, behind everything taken before, and reports
    /// that it was accepted.
    pub fn accept_chunk(&mut self, chunk: &[u8]) -> (status: i32)
        ensures
            status == CHUNK_ACCEPTED,
            final(self)@ == old(self)@ + chunk@,
    {
        self.bytes.extend_from_slice(chunk);
        assert(self.bytes@ =~= old(self).bytes@ + chunk@);
        CHUNK_ACCEPTED
    }

    /// The bytes taken so far, in the order they came.
    pub fn as_slice(&self) -> (bytes: &[u8])
        ensures
            bytes@ == self@,
    {
        self.bytes.as_slice()
    }

    /// Gives up the accumulator for its bytes.
    pub fn into_bytes(self) -> (bytes: Vec<u8>)
        ensures
            bytes@ == self@,
    {
        self.bytes
    }
}

/// Chunks come out as they went in: an accumulator that takes `chunks` one by
/// one holds what it held before, followed by the chunks in their order, with
/// nothing lost and nothing between them.
pub proof fn lemma_chunks_in_order(held: Seq<u8>, chunks: Seq<Seq<u8>>)
    ensures
        Accumulator::after(held, chunks) == held + concat(chunks),
    decreases chunks.len(),
{
    if chunks.len() == 0 {
        assert(held + concat(chunks) =~= held);
    } else {
        lemma_chunks_in_order(held, chunks.drop_last());
        assert((held + concat(chunks.drop_last())) + chunks.last() =~= held + (concat(
            chunks.drop_last(),
        ) + chunks.last()));
    }
}

/// Three chunks taken by an empty accumulator give the first, then the
/// second, then the third.
pub proof fn lemma_three_chunks(c1: Seq<u8>, c2: Seq<u8>, c3: Seq<u8>)
    ensures
        Accumulator::after(Seq::empty(), seq![c1, c2, c3]) == c1 + c2 + c3,
{
    let all = seq![c1, c2, c3];
    let two = seq![c1, c2];
    let one = seq![c1];
    assert(all.drop_last() =~= two);
    assert(two.drop_last() =~= one);
    let none = Seq::<Seq<u8>>::empty();
    assert(one.drop_last() =~= none);
    assert(Accumulator::after(Seq::empty(), none) =~= Seq::<u8>::empty());
    assert(Accumulator::after(Seq::empty(), one) =~= c1);
    assert(Accumulator::after(Seq::empty(), two) =~= c1 + c2);
}

} // verus!

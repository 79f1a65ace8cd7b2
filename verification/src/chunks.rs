//! Entity-body chunks for a follow-up send: the caller's buffers become
//! memory chunks — empty buffers are skipped, the kernel rejects them —
//! and the trailer headers, if any, become one trailing chunk.

use vstd::prelude::*;

use crate::headers::clone_bytes;

verus! {

/// One chunk of a follow-up send.
pub enum DataChunk {
    Memory { data: Vec<u8> },
    Trailers { trailers: Vec<(Vec<u8>, Vec<u8>)> },
}

/// Mathematical form of a chunk.
pub enum ChunkModel {
    Memory { data: Seq<u8> },
    Trailers { trailers: Seq<(Seq<u8>, Seq<u8>)> },
}

impl View for DataChunk {
    type V = ChunkModel;

    open spec fn view(&self) -> ChunkModel {
        match self {
            DataChunk::Memory { data } => ChunkModel::Memory { data: data@ },
            DataChunk::Trailers { trailers } => ChunkModel::Trailers {
                trailers: trailers@.map_values(|p: (Vec<u8>, Vec<u8>)| (p.0@, p.1@)),
            },
        }
    }
}

/// The views of a list of byte buffers.
pub open spec fn byte_models(buffers: Seq<Vec<u8>>) -> Seq<Seq<u8>> {
    buffers.map_values(|v: Vec<u8>| v@)
}

/// The views of a list of name/value pairs.
pub open spec fn pair_models(pairs: Seq<(Vec<u8>, Vec<u8>)>) -> Seq<(Seq<u8>, Seq<u8>)> {
    pairs.map_values(|p: (Vec<u8>, Vec<u8>)| (p.0@, p.1@))
}

/// The memory chunks of the supplied buffers: one per nonempty buffer, in
/// order; empty buffers are skipped.
pub open spec fn body_chunks(buffers: Seq<Seq<u8>>) -> Seq<ChunkModel>
    decreases buffers.len(),
{
    if buffers.len() == 0 {
        Seq::empty()
    } else {
        let prefix = body_chunks(buffers.drop_last());
        if buffers.last().len() > 0 {
            prefix.push(ChunkModel::Memory { data: buffers.last() })
        } else {
            prefix
        }
    }
}

/// The whole chunk list of a follow-up send: the memory chunks, then one
/// trailers chunk exactly when any trailer was supplied.
pub open spec fn chunk_plan(
    buffers: Seq<Seq<u8>>,
    trailers: Seq<(Seq<u8>, Seq<u8>)>,
) -> Seq<ChunkModel> {
    if trailers.len() > 0 {
        body_chunks(buffers).push(ChunkModel::Trailers { trailers })
    } else {
        body_chunks(buffers)
    }
}

/// Assembles the chunk list of a follow-up send, exactly as `chunk_plan`
/// describes.
pub fn build_data_chunks(buffers: &Vec<Vec<u8>>, trailers: &Vec<(Vec<u8>, Vec<u8>)>) -> (chunks:
    Vec<DataChunk>)
    ensures
        chunks@.map_values(|c: DataChunk| c@) == chunk_plan(
            byte_models(buffers@),
            pair_models(trailers@),
        ),
{
    let ghost all = byte_models(buffers@);
    let mut chunks: Vec<DataChunk> = Vec::new();
    let mut i: usize = 0;
    proof {
        assert(all.take(0) =~= Seq::<Seq<u8>>::empty());
        assert(chunks@.map_values(|c: DataChunk| c@) =~= body_chunks(all.take(0)));
    }
    while i < buffers.len()
        invariant
            i <= buffers@.len(),
            all == byte_models(buffers@),
            chunks@.map_values(|c: DataChunk| c@) == body_chunks(all.take(i as int)),
        decreases buffers@.len() - i,
    {
        proof {
            assert(all[i as int] == buffers@[i as int]@);
            assert(all.take(i + 1).drop_last() =~= all.take(i as int));
            assert(all.take(i + 1).last() == all[i as int]);
        }
        if buffers[i].len() > 0 {
            chunks.push(DataChunk::Memory { data: clone_bytes(&buffers[i]) });
            proof {
                assert(chunks@.map_values(|c: DataChunk| c@) =~= body_chunks(all.take(i + 1)));
            }
        } else {
            proof {
                assert(chunks@.map_values(|c: DataChunk| c@) =~= body_chunks(all.take(i + 1)));
            }
        }
        i = i + 1;
    }
    proof {
        assert(all.take(buffers@.len() as int) =~= all);
    }
    if trailers.len() > 0 {
        let mut copied: Vec<(Vec<u8>, Vec<u8>)> = Vec::new();
        let mut j: usize = 0;
        while j < trailers.len()
            invariant
                j <= trailers@.len(),
                copied@.len() == j,
                pair_models(copied@) == pair_models(trailers@).take(j as int),
            decreases trailers@.len() - j,
        {
            let first = clone_bytes(&trailers[j].0);
            let second = clone_bytes(&trailers[j].1);
            let ghost fv = first@;
            let ghost sv = second@;
            copied.push((first, second));
            proof {
                assert(pair_models(trailers@)[j as int] == (
                    trailers@[j as int].0@,
                    trailers@[j as int].1@,
                ));
                assert(copied@.len() == j + 1);
                assert(copied@[j as int] == copied@.last());
                assert(copied@.last().0@ == fv && copied@.last().1@ == sv);
                assert(pair_models(copied@)[j as int] == (copied@[j as int].0@, copied@[
                    j as int
                ].1@));
                assert(pair_models(copied@)[j as int] == (fv, sv));
                assert(pair_models(copied@) =~= pair_models(trailers@).take(j + 1));
            }
            j = j + 1;
        }
        proof {
            assert(pair_models(trailers@).take(trailers@.len() as int) =~= pair_models(
                trailers@,
            ));
        }
        let ghost before = chunks@.map_values(|c: DataChunk| c@);
        chunks.push(DataChunk::Trailers { trailers: copied });
        proof {
            assert(chunks@.map_values(|c: DataChunk| c@) =~= before.push(
                ChunkModel::Trailers { trailers: pair_models(trailers@) },
            ));
        }
        chunks
    } else {
        chunks
    }
}

/// An empty buffer never becomes a chunk, and every nonempty buffer
/// becomes exactly one memory chunk, in order.
pub proof fn lemma_empty_buffers_skipped(buffers: Seq<Seq<u8>>)
    ensures
        body_chunks(buffers).len() == buffers.filter(|b: Seq<u8>| b.len() > 0).len(),
    decreases buffers.len(),
{
    reveal(Seq::filter);
    if buffers.len() > 0 {
        lemma_empty_buffers_skipped(buffers.drop_last());
        assert(buffers.drop_last().push(buffers.last()) =~= buffers);
        assert(buffers.drop_last().push(buffers.last()).filter(|b: Seq<u8>| b.len() > 0)
            == buffers.filter(|b: Seq<u8>| b.len() > 0));
    }
}

} // verus!

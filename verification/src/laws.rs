//! Global laws of the report builder, each proved once and for all:
//! the batches cover the input exactly and in order, every batch has the
//! documented block structure, and the summary tallies never overcount.

use vstd::prelude::*;

use crate::report::BLOCK_LIMIT;
use crate::report::BlockModel;
use crate::report::MAX_RECORDS_PER_BATCH;
use crate::report::count_state;
use crate::report::lemma_num_batches_is_ceiling;
use crate::report::lemma_record_blocks_len;
use crate::report::spec_batch;
use crate::report::spec_batch_prefix_len;
use crate::report::spec_chunk;
use crate::report::spec_header_text;
use crate::report::spec_num_batches;
use crate::report::spec_record_blocks;
use crate::report::spec_summary_text;
use crate::silence::Silence;
use crate::silence::spec_render_silence;

verus! {

/// Whether a record's state is one of the three known literals; any
/// other state is counted in none of the summary tallies.
pub open spec fn known_state(s: Silence) -> bool {
    s.status.state@ == "active"@ || s.status.state@ == "pending"@ || s.status.state@ == "expired"@
}

/// The record blocks of a run hold, at offsets `2j` and `2j + 1`, the
/// section rendering record `j` and a divider.
pub proof fn lemma_record_blocks_index(rs: Seq<Silence>, j: int)
    requires
        0 <= j < rs.len(),
    ensures
        spec_record_blocks(rs)[2 * j] == (BlockModel::Section { text: spec_render_silence(rs[j]) }),
        spec_record_blocks(rs)[2 * j + 1] == BlockModel::Divider,
    decreases rs.len(),
{
    lemma_record_blocks_len(rs.drop_last());
    if j < rs.len() - 1 {
        lemma_record_blocks_index(rs.drop_last(), j);
    }
}

/// Flattening the chunks from `i0` on gives the input from the clipped
/// offset `i0 * MAX_RECORDS_PER_BATCH` on.
proof fn lemma_chunks_flatten_from(rs: Seq<Silence>, i0: int)
    requires
        0 <= i0 <= spec_num_batches(rs.len()),
    ensures
        Seq::new((spec_num_batches(rs.len()) - i0) as nat, |t: int| spec_chunk(rs, i0 + t)).flatten()
            == rs.subrange(
            vstd::math::min(i0 * MAX_RECORDS_PER_BATCH, rs.len() as int),
            rs.len() as int,
        ),
    decreases spec_num_batches(rs.len()) - i0,
{
    assert(MAX_RECORDS_PER_BATCH == 23);
    lemma_num_batches_is_ceiling(rs.len());
    let m = spec_num_batches(rs.len()) as int;
    let n = rs.len() as int;
    let cs = Seq::new((m - i0) as nat, |t: int| spec_chunk(rs, i0 + t));
    let lo = vstd::math::min(i0 * MAX_RECORDS_PER_BATCH, n);
    if i0 == m {
        assert(cs.flatten() =~= rs.subrange(n, n));
    } else {
        lemma_chunks_flatten_from(rs, i0 + 1);
        let cs1 = Seq::new((m - i0 - 1) as nat, |t: int| spec_chunk(rs, i0 + 1 + t));
        assert(cs.drop_first() =~= cs1);
        let lo1 = vstd::math::min((i0 + 1) * MAX_RECORDS_PER_BATCH, n);
        assert(spec_chunk(rs, i0) =~= rs.subrange(lo, lo1));
        assert(cs.flatten() == cs.first() + cs.drop_first().flatten());
        assert(rs.subrange(lo, lo1) + rs.subrange(lo1, n) =~= rs.subrange(lo, n));
    }
}

/// The chunks of the report, concatenated in batch order, are exactly
/// the input records: none dropped, duplicated, or reordered. Together
/// with `lemma_batch_structure`, which places each chunk's records in
/// its batch's section blocks in order, the rendered records across all
/// batches reproduce the input order exactly.
pub proof fn lemma_batches_cover_input(rs: Seq<Silence>)
    ensures
        Seq::new(spec_num_batches(rs.len()), |i: int| spec_chunk(rs, i)).flatten() == rs,
{
    lemma_chunks_flatten_from(rs, 0);
    let cs = Seq::new(spec_num_batches(rs.len()), |i: int| spec_chunk(rs, i));
    let cs0 = Seq::new((spec_num_batches(rs.len()) - 0) as nat, |t: int| spec_chunk(rs, 0 + t));
    assert(cs =~= cs0);
    assert(rs.subrange(0, rs.len() as int) =~= rs);
}

/// The exact block layout of batch `i`: one header first and nowhere
/// else; the summary section at position 1 of the first batch only (later
/// batches have a divider there); a divider closing the prefix; then,
/// per chunk record in order, one section rendering it and one divider;
/// and the whole batch within the display-block cap.
pub proof fn lemma_batch_structure(rs: Seq<Silence>, i: int)
    requires
        0 <= i < spec_num_batches(rs.len()),
    ensures
        spec_batch(rs, i).len() == spec_batch_prefix_len(i) + 2 * spec_chunk(rs, i).len(),
        spec_batch(rs, i).len() <= BLOCK_LIMIT,
        spec_batch(rs, i)[0] == (BlockModel::Header {
            text: spec_header_text(i, spec_num_batches(rs.len())),
        }),
        forall|k: int| 1 <= k < spec_batch(rs, i).len() ==> !((#[trigger] spec_batch(rs, i)[k])
            is Header),
        i == 0 ==> spec_batch(rs, i)[1] == (BlockModel::Section { text: spec_summary_text(rs) }),
        i != 0 ==> spec_batch(rs, i)[1] == BlockModel::Divider,
        spec_batch(rs, i)[spec_batch_prefix_len(i) - 1] == BlockModel::Divider,
        forall|j: int| 0 <= j < spec_chunk(rs, i).len() ==> (#[trigger] spec_batch(rs, i)[
            spec_batch_prefix_len(i) + 2 * j
        ]) == (BlockModel::Section { text: spec_render_silence(spec_chunk(rs, i)[j]) }),
        forall|j: int| 0 <= j < spec_chunk(rs, i).len() ==> #[trigger] spec_batch(rs, i)[
            spec_batch_prefix_len(i) + 2 * j + 1
        ] == BlockModel::Divider,
{
    assert(MAX_RECORDS_PER_BATCH == 23);
    lemma_num_batches_is_ceiling(rs.len());
    let chunk = spec_chunk(rs, i);
    lemma_record_blocks_len(chunk);
    assert(chunk.len() <= MAX_RECORDS_PER_BATCH);
    assert forall|j: int| 0 <= j < chunk.len() implies (#[trigger] spec_batch(rs, i)[
        spec_batch_prefix_len(i) + 2 * j
    ]) == (BlockModel::Section { text: spec_render_silence(chunk[j]) }) by {
        lemma_record_blocks_index(chunk, j);
    }
    assert forall|j: int| 0 <= j < chunk.len() implies #[trigger] spec_batch(rs, i)[
        spec_batch_prefix_len(i) + 2 * j + 1
    ] == BlockModel::Divider by {
        lemma_record_blocks_index(chunk, j);
    }
    assert forall|k: int| 1 <= k < spec_batch(rs, i).len() implies !((#[trigger] spec_batch(rs,
        i)[k]) is Header) by {
        if k >= spec_batch_prefix_len(i) {
            let j = (k - spec_batch_prefix_len(i)) / 2;
            lemma_record_blocks_index(chunk, j);
        }
    }
}

/// The summary tallies never overcount: their sum is at most the input
/// length, with equality exactly when every record's state is one of the
/// three known literals.
pub proof fn lemma_summary_counts(rs: Seq<Silence>)
    ensures
        count_state(rs, "active"@) + count_state(rs, "pending"@) + count_state(rs, "expired"@)
            <= rs.len(),
        (count_state(rs, "active"@) + count_state(rs, "pending"@) + count_state(rs, "expired"@)
            == rs.len()) <==> (forall|k: int| 0 <= k < rs.len() ==> known_state(
            #[trigger] rs[k],
        )),
    decreases rs.len(),
{
    reveal_strlit("active");
    reveal_strlit("pending");
    reveal_strlit("expired");
    assert("pending"@[0] != "expired"@[0]);
    if rs.len() > 0 {
        lemma_summary_counts(rs.drop_last());
        let prefix = rs.drop_last();
        let s0 = count_state(prefix, "active"@) + count_state(prefix, "pending"@) + count_state(
            prefix,
            "expired"@,
        );
        let s = count_state(rs, "active"@) + count_state(rs, "pending"@) + count_state(
            rs,
            "expired"@,
        );
        assert(s == s0 + (if known_state(rs.last()) {
            1int
        } else {
            0int
        }));
        if s == rs.len() {
            assert(s0 == prefix.len() && known_state(rs.last()));
            assert forall|k: int| 0 <= k < rs.len() implies known_state(#[trigger] rs[k]) by {
                if k < rs.len() - 1 {
                    assert(known_state(prefix[k]));
                    assert(prefix[k] == rs[k]);
                } else {
                    assert(rs[k] == rs.last());
                }
            }
        }
        if forall|k: int| 0 <= k < rs.len() ==> known_state(#[trigger] rs[k]) {
            assert forall|k: int| 0 <= k < prefix.len() implies known_state(
                #[trigger] prefix[k],
            ) by {
                assert(prefix[k] == rs[k]);
            }
            assert(known_state(rs.last()));
            assert(s0 == prefix.len());
        }
    }
}

} // verus!

//! The report builder: turns a sequence of silence records into an ordered
//! sequence of message batches. Each batch stays under the platform's
//! display-block cap; the first batch carries a summary section; together
//! the batches render every record exactly once, in input order.

use vstd::prelude::*;
use vstd::string::StringExecFns;

use crate::silence::Silence;
use crate::silence::render_silence;
use crate::silence::spec_render_silence;
use crate::text::spec_dec;
use crate::text::str_eq;
use crate::text::usize_to_string;

verus! {

/// The platform's maximum display-block count per published message.
pub const BLOCK_LIMIT: usize = 50;

/// Blocks reserved per batch: one header, one summary section (first
/// batch only), one divider.
pub const RESERVED_BLOCKS: usize = 3;

/// Blocks each rendered record costs: one section and one divider.
pub const BLOCKS_PER_RECORD: usize = 2;

/// The largest record count per batch that keeps a batch within
/// `BLOCK_LIMIT` blocks.
pub const MAX_RECORDS_PER_BATCH: usize = (BLOCK_LIMIT - RESERVED_BLOCKS) / BLOCKS_PER_RECORD;

/// Styled or plain text carried by a block.
pub struct SlackText {
    pub text_type: String,
    pub text: String,
}

/// One display block: a header, a styled section, or a divider.
pub enum SlackBlock {
    Header { text: SlackText },
    Section { text: SlackText },
    Divider,
}

/// One message batch, published atomically.
pub struct SlackMessage {
    pub blocks: Vec<SlackBlock>,
}

/// The mathematical shape of a display block: its kind and its text.
#[verifier::ext_equal]
pub ghost enum BlockModel {
    Header { text: Seq<char> },
    Section { text: Seq<char> },
    Divider,
}

/// The model of one block.
pub open spec fn block_model(b: SlackBlock) -> BlockModel {
    match b {
        SlackBlock::Header { text } => BlockModel::Header { text: text.text@ },
        SlackBlock::Section { text } => BlockModel::Section { text: text.text@ },
        SlackBlock::Divider => BlockModel::Divider,
    }
}

/// The model of a block sequence.
pub open spec fn blocks_model(bs: Seq<SlackBlock>) -> Seq<BlockModel> {
    bs.map_values(|b: SlackBlock| block_model(b))
}

/// Headers carry plain text; sections carry styled text.
pub open spec fn wf_block(b: SlackBlock) -> bool {
    match b {
        SlackBlock::Header { text } => text.text_type@ == "plain_text"@,
        SlackBlock::Section { text } => text.text_type@ == "mrkdwn"@,
        SlackBlock::Divider => true,
    }
}

/// The model of one message batch: its blocks, in order.
pub open spec fn message_model(m: SlackMessage) -> Seq<BlockModel> {
    blocks_model(m.blocks@)
}

/// Every block of the batch is well-formed.
pub open spec fn wf_message(m: SlackMessage) -> bool {
    forall|j: int| 0 <= j < m.blocks@.len() ==> wf_block(#[trigger] m.blocks@[j])
}

/// How many records of `rs` have exactly the state `st`.
pub open spec fn count_state(rs: Seq<Silence>, st: Seq<char>) -> nat
    decreases rs.len(),
{
    if rs.len() == 0 {
        0
    } else {
        count_state(rs.drop_last(), st) + (if rs.last().status.state@ == st {
            1nat
        } else {
            0nat
        })
    }
}

/// How many batches the builder returns for `n` input records: one even
/// for empty input, else the records divided into full chunks plus a
/// final partial one.
pub open spec fn spec_num_batches(n: nat) -> nat {
    if n == 0 {
        1
    } else {
        ((n + MAX_RECORDS_PER_BATCH - 1) as int / (MAX_RECORDS_PER_BATCH as int)) as nat
    }
}

/// The records of the `i`-th batch: consecutive runs of at most
/// `MAX_RECORDS_PER_BATCH`, input order preserved.
pub open spec fn spec_chunk(rs: Seq<Silence>, i: int) -> Seq<Silence> {
    let lo = i * MAX_RECORDS_PER_BATCH;
    let hi = if lo + MAX_RECORDS_PER_BATCH <= rs.len() {
        lo + MAX_RECORDS_PER_BATCH
    } else {
        rs.len() as int
    };
    rs.subrange(lo, hi)
}

/// The header text of batch `i` (0-based) out of `total`: the report
/// title, with a part marker when there is more than one batch.
pub open spec fn spec_header_text(i: int, total: nat) -> Seq<char> {
    if total > 1 {
        "Alertmanager Silences Report (Part "@ + spec_dec((i + 1) as nat) + "/"@ + spec_dec(total)
            + ")"@
    } else {
        "Alertmanager Silences Report"@
    }
}

/// The summary line of the first batch: the full input length and the
/// three known-state tallies.
pub open spec fn spec_summary_text(rs: Seq<Silence>) -> Seq<char> {
    "*Total:* "@ + spec_dec(rs.len()) + " | *Active:* "@ + spec_dec(count_state(rs, "active"@))
        + " | *Pending:* "@ + spec_dec(count_state(rs, "pending"@)) + " | *Expired:* "@
        + spec_dec(count_state(rs, "expired"@))
}

/// The blocks for a run of records: one section and one divider per
/// record, in order.
pub open spec fn spec_record_blocks(rs: Seq<Silence>) -> Seq<BlockModel>
    decreases rs.len(),
{
    if rs.len() == 0 {
        Seq::<BlockModel>::empty()
    } else {
        spec_record_blocks(rs.drop_last()) + seq![
            BlockModel::Section { text: spec_render_silence(rs.last()) },
            BlockModel::Divider,
        ]
    }
}

/// How many blocks stand before the record blocks of batch `i`: header
/// and divider, plus the summary section in the first batch.
pub open spec fn spec_batch_prefix_len(i: int) -> int {
    if i == 0 {
        3
    } else {
        2
    }
}

/// The blocks of batch `i` before its record blocks: the header, the
/// summary section for the first batch, and a divider.
pub open spec fn spec_batch_prefix(rs: Seq<Silence>, i: int) -> Seq<BlockModel> {
    seq![BlockModel::Header { text: spec_header_text(i, spec_num_batches(rs.len())) }] + (if i == 0 {
        seq![BlockModel::Section { text: spec_summary_text(rs) }]
    } else {
        Seq::<BlockModel>::empty()
    }) + seq![BlockModel::Divider]
}

/// The full block sequence of batch `i`.
pub open spec fn spec_batch(rs: Seq<Silence>, i: int) -> Seq<BlockModel> {
    spec_batch_prefix(rs, i) + spec_record_blocks(spec_chunk(rs, i))
}

/// The batch count is the ceiling of `n / MAX_RECORDS_PER_BATCH`, floored
/// at one: there is always a batch, every record fits in some batch, and
/// no batch short of the count would cover the input.
pub proof fn lemma_num_batches_is_ceiling(n: nat)
    ensures
        spec_num_batches(n) >= 1,
        n <= spec_num_batches(n) * MAX_RECORDS_PER_BATCH,
        n > 0 ==> (spec_num_batches(n) - 1) * MAX_RECORDS_PER_BATCH < n,
        n > 0 ==> spec_num_batches(n) <= n,
{
    assert(MAX_RECORDS_PER_BATCH == 23);
    if n > 0 {
        let m = MAX_RECORDS_PER_BATCH as int;
        vstd::arithmetic::div_mod::lemma_fundamental_div_mod(n + m - 1, m);
        vstd::arithmetic::div_mod::lemma_mod_bound(n + m - 1, m);
    }
}

/// Each record run renders two blocks per record.
pub proof fn lemma_record_blocks_len(rs: Seq<Silence>)
    ensures
        spec_record_blocks(rs).len() == 2 * rs.len(),
    decreases rs.len(),
{
    if rs.len() > 0 {
        lemma_record_blocks_len(rs.drop_last());
    }
}

/// Appending a block to a sequence appends its model.
proof fn lemma_blocks_model_push(bs: Seq<SlackBlock>, b: SlackBlock)
    ensures
        blocks_model(bs.push(b)) == blocks_model(bs).push(block_model(b)),
{
    assert(blocks_model(bs.push(b)) =~= blocks_model(bs).push(block_model(b)));
}

/// Counts the records in each of the three known states. A record whose
/// state is any other string is counted in none of the tallies.
#[verifier::loop_isolation(false)]
pub fn count_states(silences: &Vec<Silence>) -> (r: (usize, usize, usize))
    ensures
        r.0 == count_state(silences@, "active"@),
        r.1 == count_state(silences@, "pending"@),
        r.2 == count_state(silences@, "expired"@),
{
    proof {
        reveal_strlit("active");
        reveal_strlit("pending");
        reveal_strlit("expired");
        assert("pending"@[0] != "expired"@[0]);
    }
    let mut active: usize = 0;
    let mut pending: usize = 0;
    let mut expired: usize = 0;
    let mut i: usize = 0;
    while i < silences.len()
        invariant
            i <= silences@.len(),
            active == count_state(silences@.take(i as int), "active"@),
            pending == count_state(silences@.take(i as int), "pending"@),
            expired == count_state(silences@.take(i as int), "expired"@),
            active <= i,
            pending <= i,
            expired <= i,
        decreases silences@.len() - i,
    {
        let state = silences[i].status.state.as_str();
        if str_eq(state, "active") {
            active = active + 1;
        } else if str_eq(state, "pending") {
            pending = pending + 1;
        } else if str_eq(state, "expired") {
            expired = expired + 1;
        }
        proof {
            assert(silences@.take(i + 1 as int).drop_last() =~= silences@.take(i as int));
            assert(silences@.take(i + 1 as int).last() == silences@[i as int]);
        }
        i = i + 1;
    }
    proof {
        assert(silences@.take(silences@.len() as int) =~= silences@);
    }
    (active, pending, expired)
}

/// Builds the header text of batch `part` (0-based) out of `total`.
fn header_text(part: usize, total: usize) -> (r: String)
    requires
        part < total,
    ensures
        r@ == spec_header_text(part as int, total as nat),
{
    let mut r = String::from_str("Alertmanager Silences Report");
    if total > 1 {
        r.append(" (Part ");
        let p = usize_to_string(part + 1);
        r.append(p.as_str());
        r.append("/");
        let t = usize_to_string(total);
        r.append(t.as_str());
        r.append(")");
        proof {
            reveal_strlit("Alertmanager Silences Report");
            reveal_strlit(" (Part ");
            reveal_strlit("Alertmanager Silences Report (Part ");
            assert(r@ =~= spec_header_text(part as int, total as nat));
        }
    }
    r
}

/// Builds the summary line from the input length and the three tallies.
fn summary_text(
    total: usize,
    active: usize,
    pending: usize,
    expired: usize,
    silences: &Vec<Silence>,
) -> (r: String)
    requires
        total == silences@.len(),
        active == count_state(silences@, "active"@),
        pending == count_state(silences@, "pending"@),
        expired == count_state(silences@, "expired"@),
    ensures
        r@ == spec_summary_text(silences@),
{
    let mut r = String::from_str("*Total:* ");
    let t = usize_to_string(total);
    r.append(t.as_str());
    r.append(" | *Active:* ");
    let a = usize_to_string(active);
    r.append(a.as_str());
    r.append(" | *Pending:* ");
    let p = usize_to_string(pending);
    r.append(p.as_str());
    r.append(" | *Expired:* ");
    let e = usize_to_string(expired);
    r.append(e.as_str());
    proof {
        assert(r@ =~= spec_summary_text(silences@));
    }
    r
}

/// Builds the full report: one batch per chunk of at most
/// `MAX_RECORDS_PER_BATCH` records (one batch even for empty input), each
/// batch modelled exactly by `spec_batch`, every block well-formed, and
/// every batch within the display-block cap.
#[verifier::loop_isolation(false)]
pub fn format_slack_messages(silences: &Vec<Silence>) -> (msgs: Vec<SlackMessage>)
    ensures
        msgs@.len() == spec_num_batches(silences@.len()),
        forall|i: int| 0 <= i < msgs@.len() ==> message_model(#[trigger] msgs@[i]) == spec_batch(
            silences@,
            i,
        ),
        forall|i: int| 0 <= i < msgs@.len() ==> wf_message(#[trigger] msgs@[i]),
        forall|i: int| 0 <= i < msgs@.len() ==> (#[trigger] msgs@[i]).blocks@.len() <= BLOCK_LIMIT,
{
    let n = silences.len();
    let total_parts: usize = if n == 0 {
        1
    } else {
        (n - 1) / MAX_RECORDS_PER_BATCH + 1
    };
    proof {
        assert(MAX_RECORDS_PER_BATCH == 23);
        lemma_num_batches_is_ceiling(n as nat);
        if n > 0 {
            let m = MAX_RECORDS_PER_BATCH as int;
            vstd::arithmetic::div_mod::lemma_fundamental_div_mod(n - 1, m);
            vstd::arithmetic::div_mod::lemma_mod_bound(n - 1, m);
            vstd::arithmetic::div_mod::lemma_fundamental_div_mod(n + m - 1, m);
            vstd::arithmetic::div_mod::lemma_mod_bound(n + m - 1, m);
        }
        assert(total_parts == spec_num_batches(silences@.len()));
    }
    let (active, pending, expired) = count_states(silences);

    let mut msgs: Vec<SlackMessage> = Vec::new();
    let mut part: usize = 0;
    while part < total_parts
        invariant
            part <= total_parts,
            msgs@.len() == part,
            forall|i: int| 0 <= i < part ==> message_model(#[trigger] msgs@[i]) == spec_batch(
                silences@,
                i,
            ),
            forall|i: int| 0 <= i < part ==> wf_message(#[trigger] msgs@[i]),
            forall|i: int| 0 <= i < part ==> (#[trigger] msgs@[i]).blocks@.len() <= BLOCK_LIMIT,
        decreases total_parts - part,
    {
        let mut blocks: Vec<SlackBlock> = Vec::new();

        let header = header_text(part, total_parts);
        blocks.push(SlackBlock::Header {
            text: SlackText { text_type: String::from_str("plain_text"), text: header },
        });

        if part == 0 {
            let summary = summary_text(n, active, pending, expired, silences);
            blocks.push(SlackBlock::Section {
                text: SlackText { text_type: String::from_str("mrkdwn"), text: summary },
            });
        }

        blocks.push(SlackBlock::Divider);

        let ghost prefix = blocks_model(blocks@);
        proof {
            assert(prefix =~~= spec_batch_prefix(silences@, part as int));
            if n > 0 {
                assert(part * MAX_RECORDS_PER_BATCH <= (total_parts - 1)
                    * MAX_RECORDS_PER_BATCH);
            }
        }
        let start = part * MAX_RECORDS_PER_BATCH;
        let end = if n - start > MAX_RECORDS_PER_BATCH {
            start + MAX_RECORDS_PER_BATCH
        } else {
            n
        };
        proof {
            assert(spec_chunk(silences@, part as int) =~= silences@.subrange(
                start as int,
                end as int,
            ));
            assert(blocks_model(blocks@) =~~= prefix + spec_record_blocks(
                silences@.subrange(start as int, start as int),
            ));
        }
        let mut j = start;
        while j < end
            invariant
                start <= j <= end,
                blocks@.len() == spec_batch_prefix_len(part as int) + 2 * (j - start),
                blocks_model(blocks@) == prefix + spec_record_blocks(
                    silences@.subrange(start as int, j as int),
                ),
                forall|k: int| 0 <= k < blocks@.len() ==> wf_block(#[trigger] blocks@[k]),
            decreases end - j,
        {
            let ghost blocks_before = blocks@;
            let text = render_silence(&silences[j]);
            let section = SlackBlock::Section {
                text: SlackText { text_type: String::from_str("mrkdwn"), text },
            };
            proof {
                lemma_blocks_model_push(blocks_before, section);
                lemma_blocks_model_push(blocks_before.push(section), SlackBlock::Divider);
            }
            blocks.push(section);
            blocks.push(SlackBlock::Divider);
            proof {
                let sub1 = silences@.subrange(start as int, j + 1 as int);
                let sub0 = silences@.subrange(start as int, j as int);
                assert(sub1.drop_last() =~= sub0);
                assert(sub1.last() == silences@[j as int]);
                assert(spec_record_blocks(sub1) == spec_record_blocks(sub0) + seq![
                    BlockModel::Section { text: spec_render_silence(silences@[j as int]) },
                    BlockModel::Divider,
                ]);
                assert(blocks_model(blocks@) =~= (prefix + spec_record_blocks(sub0)).push(
                    BlockModel::Section { text: spec_render_silence(silences@[j as int]) },
                ).push(BlockModel::Divider));
                assert(blocks_model(blocks@) =~= prefix + spec_record_blocks(sub1));
            }
            j = j + 1;
        }
        proof {
            assert(blocks_model(blocks@) =~~= spec_batch(silences@, part as int));
        }
        msgs.push(SlackMessage { blocks });
        part = part + 1;
    }
    msgs
}

} // verus!

//! Filtering records that were captured earlier.
//!
//! A filter is a predicate on raw frame bytes. It is evaluated outside this
//! library, on the frames that `raw_frames` reads from the records, and
//! comes back as one verdict for each record.

use vstd::prelude::*;
use crate::record::{decode_raw_frame, raw_frame, PresentationRecord, RecordView};

verus! {

/// What each of `records` stands for.
pub open spec fn views(records: Seq<PresentationRecord>) -> Seq<RecordView> {
    records.map_values(|record: PresentationRecord| record@)
}

/// Whether a filter matches a record: the record keeps a frame, and the
/// filter accepts that frame.
pub open spec fn is_match(record: RecordView, accepts: spec_fn(Seq<u8>) -> bool) -> bool {
    raw_frame(record) matches Some(frame) && accepts(frame)
}

/// The records that a filter matches, in their order.
pub open spec fn replay(records: Seq<RecordView>, accepts: spec_fn(Seq<u8>) -> bool) -> Seq<
    RecordView,
>
    decreases records.len(),
{
    if records.len() == 0 {
        Seq::empty()
    } else {
        let before = replay(records.drop_last(), accepts);
        if is_match(records.last(), accepts) {
            before.push(records.last())
        } else {
            before
        }
    }
}

/// Whether the record at `at` stays: it keeps a frame, and there is a
/// verdict for it that says so.
pub open spec fn stays(records: Seq<RecordView>, verdicts: Seq<bool>, at: int) -> bool {
    raw_frame(records[at]) is Some && at < verdicts.len() && verdicts[at]
}

/// The records that stay, in their order.
pub open spec fn kept_by(records: Seq<RecordView>, verdicts: Seq<bool>) -> Seq<RecordView>
    decreases records.len(),
{
    if records.len() == 0 {
        Seq::empty()
    } else {
        let before = kept_by(records.drop_last(), verdicts);
        if stays(records, verdicts, records.len() - 1) {
            before.push(records.last())
        } else {
            before
        }
    }
}

/// Whether `verdicts` are those of a filter: for each record that keeps a
/// frame there is a verdict, and it says whether the filter accepts the
/// frame.
pub open spec fn verdicts_of(
    records: Seq<RecordView>,
    verdicts: Seq<bool>,
    accepts: spec_fn(Seq<u8>) -> bool,
) -> bool {
    forall|at: int|
        0 <= at < records.len() ==> (#[trigger] raw_frame(records[at]) matches Some(frame) ==> at
            < verdicts.len() && verdicts[at] == accepts(frame))
}

/// With the verdicts of a filter, the records that stay are the records
/// that the filter matches.
pub proof fn lemma_kept_by_verdicts(
    records: Seq<RecordView>,
    verdicts: Seq<bool>,
    accepts: spec_fn(Seq<u8>) -> bool,
)
    requires
        verdicts_of(records, verdicts, accepts),
    ensures
        kept_by(records, verdicts) == replay(records, accepts),
    decreases records.len(),
{
    if records.len() > 0 {
        let before = records.drop_last();
        let last = records.len() - 1;
        assert forall|at: int| 0 <= at < before.len() implies (#[trigger] raw_frame(
            before[at],
        ) matches Some(frame) ==> at < verdicts.len() && verdicts[at] == accepts(frame)) by {
            assert(before[at] == records[at]);
        }
        lemma_kept_by_verdicts(before, verdicts, accepts);
        assert(raw_frame(records[last]) matches Some(frame) ==> last < verdicts.len()
            && verdicts[last] == accepts(frame));
    }
}

/// Replay returns exactly the matching records: each record that it
/// returns is one of those given and matches the filter, and each of those
/// given that matches the filter is returned.
pub proof fn lemma_replay_is_the_matching_part(
    records: Seq<RecordView>,
    accepts: spec_fn(Seq<u8>) -> bool,
)
    ensures
        replay(records, accepts).len() <= records.len(),
        forall|at: int|
            0 <= at < replay(records, accepts).len() ==> is_match(
                #[trigger] replay(records, accepts)[at],
                accepts,
            ) && records.contains(replay(records, accepts)[at]),
        forall|at: int|
            0 <= at < records.len() && is_match(#[trigger] records[at], accepts) ==> replay(
                records,
                accepts,
            ).contains(records[at]),
    decreases records.len(),
{
    if records.len() > 0 {
        let before = records.drop_last();
        let last = records.last();
        let found = replay(records, accepts);
        lemma_replay_is_the_matching_part(before, accepts);
        assert forall|at: int| 0 <= at < found.len() implies is_match(#[trigger] found[at], accepts)
            && records.contains(found[at]) by {
            if at < replay(before, accepts).len() {
                let from = choose|from: int|
                    0 <= from < before.len() && before[from] == replay(before, accepts)[at];
                assert(records[from] == found[at]);
            } else {
                assert(records[records.len() - 1] == found[at]);
            }
        }
        assert forall|at: int|
            0 <= at < records.len() && is_match(#[trigger] records[at], accepts) implies found.contains(
            records[at],
        ) by {
            if at < before.len() {
                assert(before[at] == records[at]);
                let to = choose|to: int|
                    0 <= to < replay(before, accepts).len() && replay(before, accepts)[to]
                        == before[at];
                assert(found[to] == records[at]);
            } else {
                assert(found[found.len() - 1] == records[at]);
            }
        }
    }
}

/// Where every record matches the filter, replay returns them all.
pub proof fn lemma_replay_of_matches(records: Seq<RecordView>, accepts: spec_fn(Seq<u8>) -> bool)
    requires
        forall|at: int| 0 <= at < records.len() ==> is_match(#[trigger] records[at], accepts),
    ensures
        replay(records, accepts) == records,
    decreases records.len(),
{
    if records.len() > 0 {
        let before = records.drop_last();
        assert forall|at: int| 0 <= at < before.len() implies is_match(
            #[trigger] before[at],
            accepts,
        ) by {
            assert(before[at] == records[at]);
        }
        lemma_replay_of_matches(before, accepts);
        assert(is_match(records[records.len() - 1], accepts));
        assert(before.push(records.last()) =~= records);
    } else {
        assert(records =~= Seq::empty());
    }
}

/// Replay with one filter is idempotent: what it returned it returns
/// unchanged.
pub proof fn lemma_replay_is_idempotent(records: Seq<RecordView>, accepts: spec_fn(Seq<u8>) -> bool)
    ensures
        replay(replay(records, accepts), accepts) == replay(records, accepts),
{
    lemma_replay_is_the_matching_part(records, accepts);
    lemma_replay_of_matches(replay(records, accepts), accepts);
}

/// Reads from each record the frame that it keeps.
pub fn raw_frames(records: &Vec<PresentationRecord>) -> (frames: Vec<Option<Vec<u8>>>)
    ensures
        frames@.len() == records@.len(),
        forall|at: int|
            0 <= at < records@.len() ==> match #[trigger] frames@[at] {
                Some(bytes) => raw_frame(records@[at]@) == Some(bytes@),
                None => raw_frame(records@[at]@) is None,
            },
{
    let mut frames: Vec<Option<Vec<u8>>> = Vec::new();
    let mut at: usize = 0;
    while at < records.len()
        invariant
            at <= records@.len(),
            frames@.len() == at,
            forall|i: int|
                0 <= i < at ==> match #[trigger] frames@[i] {
                    Some(bytes) => raw_frame(records@[i]@) == Some(bytes@),
                    None => raw_frame(records@[i]@) is None,
                },
        decreases records@.len() - at,
    {
        frames.push(decode_raw_frame(&records[at]));
        at = at + 1;
    }
    frames
}

/// Keeps the records that the verdicts let stay, in their order: a record
/// stays where it keeps a frame and its verdict is `true`. A record
/// without a frame is dropped whatever its verdict, and so is one without
/// a verdict.
pub fn filter_packets(packets: Vec<PresentationRecord>, verdicts: &Vec<bool>) -> (kept: Vec<
    PresentationRecord,
>)
    ensures
        views(kept@) == kept_by(views(packets@), verdicts@),
{
    let ghost all = views(packets@);
    let mut kept: Vec<PresentationRecord> = Vec::new();
    let total: usize = packets.len();
    let mut at: usize = 0;
    assert(all.take(0) =~= Seq::empty());
    assert(views(kept@) =~= kept_by(all.take(0), verdicts@));
    for record in source: packets.into_iter()
        invariant
            all == views(packets@),
            source.seq() == packets@,
            packets@.len() == total,
            at == source.index(),
            views(kept@) == kept_by(all.take(at as int), verdicts@),
    {
        proof {
            let shown = all.take(at + 1);
            assert(shown.drop_last() =~= all.take(at as int));
            assert(shown.last() == record@);
        }
        let stays = at < verdicts.len() && verdicts[at] && decode_raw_frame(&record).is_some();
        let ghost before = views(kept@);
        if stays {
            kept.push(record);
            assert(views(kept@) =~= before.push(all[at as int]));
        }
        at = at + 1;
    }
    assert(all.take(at as int) =~= all);
    kept
}

} // verus!

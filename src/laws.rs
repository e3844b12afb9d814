use vstd::prelude::*;
use crate::chat::{decode, is_success, scan_records, prefixed, BodyShapes, Failure, RecordShapes};
use crate::ndjson::frames;

verus! {

/// The contents of the first `n` records, joined in order; each of them is
/// read as a chunk.
pub open spec fn joined_contents(records: Seq<RecordShapes>, n: nat) -> Seq<char>
    decreases n,
{
    if n == 0 {
        Seq::empty()
    } else {
        joined_contents(records, (n - 1) as nat) + records[n - 1].chunk->Ok_0.message.content@
    }
}

/// Records that read as chunks and not as errors, none of them marked done
/// before `last`, which is.
pub open spec fn chunks_done_at(records: Seq<RecordShapes>, last: int) -> bool {
    &&& 0 <= last < records.len()
    &&& forall|k: int| 0 <= k <= last ==> (#[trigger] records[k]).error is None && records[k].chunk is Ok
    &&& forall|k: int| 0 <= k < last ==> !(#[trigger] records[k]).chunk->Ok_0.done
    &&& records[last].chunk->Ok_0.done
}

proof fn lemma_joined_contents_shift(records: Seq<RecordShapes>, n: nat)
    requires
        records.len() > 0,
        n < records.len(),
    ensures
        joined_contents(records, n + 1) == records[0].chunk->Ok_0.message.content@
            + joined_contents(records.drop_first(), n),
    decreases n,
{
    if n > 0 {
        lemma_joined_contents_shift(records, (n - 1) as nat);
        let first = records[0].chunk->Ok_0.message.content@;
        let rest = joined_contents(records.drop_first(), (n - 1) as nat);
        let c = records[n as int].chunk->Ok_0.message.content@;
        assert(records.drop_first()[n - 1] == records[n as int]);
        assert((first + rest) + c == first + (rest + c));
    } else {
        assert(joined_contents(records.drop_first(), 0) == Seq::<char>::empty());
        assert(joined_contents(records, 0) == Seq::<char>::empty());
    }
}

proof fn lemma_scan_chunks(records: Seq<RecordShapes>, last: int, status: u16)
    requires
        chunks_done_at(records, last),
    ensures
        scan_records(records, status) == Ok::<Seq<char>, Failure>(joined_contents(records, (last + 1) as nat)),
    decreases last,
{
    let first = records[0];
    let c = first.chunk->Ok_0.message.content@;
    if last == 0 {
        assert(joined_contents(records, 0) == Seq::<char>::empty());
        assert(Seq::<char>::empty() + c == c);
    } else {
        let rest = records.drop_first();
        assert(chunks_done_at(rest, last - 1)) by {
            assert forall|k: int| 0 <= k <= last - 1 implies (#[trigger] rest[k]).error is None
                && rest[k].chunk is Ok by {
                assert(rest[k] == records[k + 1]);
            }
            assert forall|k: int| 0 <= k < last - 1 implies !(#[trigger] rest[k]).chunk->Ok_0.done by {
                assert(rest[k] == records[k + 1]);
            }
            assert(rest[last - 1] == records[last]);
        }
        lemma_scan_chunks(rest, last - 1, status);
        lemma_joined_contents_shift(records, last as nat);
    }
}

/// A streamed body whose records are all chunks reads as the contents of
/// the records joined in order, up to and including the first one marked
/// done; the records after it are not read.
pub proof fn lemma_stream_joins_chunks(status: u16, body: Seq<char>, shapes: BodyShapes, records: Seq<RecordShapes>, last: int)
    requires
        is_success(status),
        shapes.reply is None,
        shapes.error is None,
        chunks_done_at(records, last),
    ensures
        decode(status, body, shapes, records) == Ok::<Seq<char>, Failure>(joined_contents(records, (last + 1) as nat)),
{
    lemma_scan_chunks(records, last, status);
}

/// A record that is neither an error nor a chunk fails the exchange as
/// malformed, and the text of the chunks before it is dropped.
pub proof fn lemma_malformed_second_record(status: u16, body: Seq<char>, shapes: BodyShapes, records: Seq<RecordShapes>)
    requires
        is_success(status),
        shapes.reply is None,
        shapes.error is None,
        records.len() >= 2,
        records[0].error is None,
        records[0].chunk is Ok,
        !records[0].chunk->Ok_0.done,
        records[1].error is None,
        records[1].chunk is Err,
    ensures
        decode(status, body, shapes, records) == Err::<Seq<char>, Failure>(
            Failure::MalformedChunk { detail: records[1].chunk->Err_0@, status },
        ),
{
    let rest = records.drop_first();
    assert(rest[0] == records[1]);
    assert(scan_records(rest, status) == Err::<Seq<char>, Failure>(
        Failure::MalformedChunk { detail: records[1].chunk->Err_0@, status },
    ));
    assert(prefixed(records[0].chunk->Ok_0.message.content@, scan_records(rest, status)) == scan_records(rest, status));
}

/// With a success status, a body that reads as an error object fails the
/// exchange with the server's message.
pub proof fn lemma_error_body_is_upstream(status: u16, body: Seq<char>, shapes: BodyShapes, records: Seq<RecordShapes>)
    requires
        is_success(status),
        shapes.reply is None,
        shapes.error is Some,
    ensures
        decode(status, body, shapes, records) == Err::<Seq<char>, Failure>(Failure::Upstream(shapes.error->0.error@)),
{
}

/// A status outside the success range fails the exchange with that status
/// and the body as it came, whatever the body holds.
pub proof fn lemma_failed_status_keeps_body(status: u16, body: Seq<char>, shapes: BodyShapes, records: Seq<RecordShapes>)
    requires
        !is_success(status),
    ensures
        decode(status, body, shapes, records) == Err::<Seq<char>, Failure>(Failure::HttpStatus { status, body }),
{
}

/// An empty body with a success status, which reads as no shape and has no
/// records, is an unexpected response.
pub proof fn lemma_empty_body_unexpected(status: u16, body: Seq<char>, shapes: BodyShapes, records: Seq<RecordShapes>)
    requires
        is_success(status),
        body.len() == 0,
        shapes.reply is None,
        shapes.error is None,
        records.len() == frames(body).len(),
    ensures
        decode(status, body, shapes, records) == Err::<Seq<char>, Failure>(Failure::UnexpectedResponse { status, body }),
{
    reveal_with_fuel(crate::ndjson::nonblank_trimmed, 2);
    let lines = crate::ndjson::split_lines(body);
    assert(lines == seq![Seq::<char>::empty()]);
    assert(lines.drop_last().len() == 0);
    assert(crate::text::trim(Seq::<char>::empty()).len() == 0);
}

} // verus!

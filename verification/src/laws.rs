//! What holds of every flash job, whatever happens to it.
use vstd::prelude::*;

use crate::app::AppView;
use crate::archive;
use crate::archive::ZipStage;
use crate::copy;
use crate::copy::{CopyStage, Copying};
use crate::dd;
use crate::dd::{Closing, DdStage, Tool};
use crate::flasher;
use crate::flasher::{Flash, ImageType, RunView, StageView};
use crate::hashing;
use crate::hashing::HashView;
use crate::job::{ActionView, EventView, FactsView, Platform, Step};
use crate::message;
use crate::message::{MessageView, Share};
use crate::text;
use crate::verification;
use crate::verification::VerifyView;
use crate::xz;
use crate::xz::XzStage;

verus! {

/// Where a job stands after `events`, and all that it reported on them.
pub open spec fn after(run: RunView, events: Seq<EventView>) -> (RunView, Seq<MessageView>)
    decreases events.len(),
{
    if events.len() == 0 {
        (run, seq![])
    } else {
        let before = after(run, events.drop_last());
        let step = before.0.next(events.last());
        (step.0, before.1 + step.1)
    }
}

// ---------------------------------------------------------------------------
// A job ends once
// ---------------------------------------------------------------------------

/// None of `m` ends a job.
pub open spec fn none_ends(m: Seq<MessageView>) -> bool {
    forall|i: int| 0 <= i < m.len() ==> !(#[trigger] m[i]).ends_job()
}

/// The last of `m` ends a job, and no other does.
pub open spec fn last_ends(m: Seq<MessageView>) -> bool {
    &&& m.len() > 0
    &&& m.last().ends_job()
    &&& none_ends(m.drop_last())
}

proof fn flash_steps_end_nothing(run: RunView, event: EventView)
    ensures
        ({
            let f = run.facts;
            &&& forall|t: Tool, d: DdStage| none_ends((#[trigger] dd::dd_next(f, t, d, event)).1)
            &&& forall|c: CopyStage| none_ends((#[trigger] copy::copy_next(f, c, event)).1)
            &&& forall|x: XzStage| none_ends((#[trigger] xz::xz_next(f, x, event)).1)
            &&& forall|z: ZipStage| none_ends((#[trigger] archive::zip_next(f, z, event)).1)
        }),
{
}

proof fn step_ends_once(run: RunView, event: EventView)
    requires
        !run.over(),
    ensures
        ({
            let step = run.next(event);
            if step.0.over() {
                last_ends(step.1)
            } else {
                none_ends(step.1)
            }
        }),
{
    flash_steps_end_nothing(run, event);
    let step = run.next(event);
    match run.stage {
        StageView::Flash(f) => {
            let told = match f {
                Flash::Dd(tool, d) => dd::dd_next(run.facts, tool, d, event).1,
                Flash::Copy(c) => copy::copy_next(run.facts, c, event).1,
                Flash::Xz(x) => xz::xz_next(run.facts, x, event).1,
                Flash::Zip(z) => archive::zip_next(run.facts, z, event).1,
            };
            if step.0.over() {
                assert(step.1.drop_last() =~= told);
            }
        },
        _ => {
            if step.0.over() {
                assert(none_ends(step.1.drop_last()));
            }
        },
    }
}

/// Until a job is over it has sent no message that ends a job. Once it is over it has sent one, and
/// sent it last.
pub proof fn job_ends_once(run: RunView, events: Seq<EventView>)
    requires
        !run.over(),
    ensures
        ({
            let end = after(run, events);
            if end.0.over() {
                last_ends(end.1)
            } else {
                none_ends(end.1)
            }
        }),
    decreases events.len(),
{
    if events.len() > 0 {
        let before = after(run, events.drop_last());
        job_ends_once(run, events.drop_last());
        let end = after(run, events);
        if before.0.over() {
            assert(end.1 =~= before.1);
        } else {
            step_ends_once(before.0, events.last());
            let step = before.0.next(events.last());
            if step.0.over() {
                assert(end.1.drop_last() =~= before.1 + step.1.drop_last());
            }
        }
    }
}

/// The same holds of a job from its start on.
pub proof fn started_job_ends_once(
    facts: FactsView,
    image: ImageType,
    verify: bool,
    platform: Platform,
    events: Seq<EventView>,
)
    ensures
        ({
            let start = flasher::run_start(facts, image, verify, platform);
            let end = after(start.0, events);
            if end.0.over() {
                last_ends(start.1 + end.1)
            } else {
                none_ends(start.1 + end.1)
            }
        }),
{
    let start = flasher::run_start(facts, image, verify, platform);
    let end = after(start.0, events);
    if start.0.over() {
        over_stays_over(start.0, events);
        assert(start.1 + end.1 =~= start.1);
    } else {
        job_ends_once(start.0, events);
        assert(start.1 + end.1 =~= end.1);
    }
}

/// A job that is over stays over and reports nothing.
pub proof fn over_stays_over(run: RunView, events: Seq<EventView>)
    requires
        run.over(),
    ensures
        after(run, events) == (run, Seq::<MessageView>::empty()),
    decreases events.len(),
{
    if events.len() > 0 {
        over_stays_over(run, events.drop_last());
        assert(after(run, events).1 =~= seq![]);
    }
}

// ---------------------------------------------------------------------------
// Cancelling
// ---------------------------------------------------------------------------

/// The event tells that the user has asked to cancel.
pub open spec fn tells_cancel(event: EventView) -> bool {
    match event {
        EventView::Polled(c) => c,
        EventView::Line(c, _) => c,
        EventView::Stopped(c, _) => c,
        _ => false,
    }
}

/// The message reports a success.
pub open spec fn reports_success(m: MessageView) -> bool {
    match m {
        MessageView::Done(ok, _) => ok,
        MessageView::VerifyDone(ok, _) => ok,
        _ => false,
    }
}

/// None of `m` reports a success.
pub open spec fn no_success(m: Seq<MessageView>) -> bool {
    forall|i: int| 0 <= i < m.len() ==> !reports_success(#[trigger] m[i])
}

/// The job is over, or all that is left of it is to put `dd` and the device away.
pub open spec fn winding_up(run: RunView) -> bool {
    match run.stage {
        StageView::Over => true,
        StageView::Flash(Flash::Dd(_, DdStage::Kill)) => true,
        StageView::Flash(Flash::Dd(_, DdStage::Eject(why))) => !(why is Exited),
        _ => false,
    }
}

proof fn winding_up_stays(run: RunView, events: Seq<EventView>)
    requires
        winding_up(run),
    ensures
        winding_up(after(run, events).0),
        no_success(after(run, events).1),
    decreases events.len(),
{
    if events.len() > 0 {
        winding_up_stays(run, events.drop_last());
    }
}

/// A job that hears of the user's wish to cancel, in answer to what it asked for, never reports a
/// success.
pub proof fn cancelled_job_never_succeeds(run: RunView, event: EventView, later: Seq<EventView>)
    requires
        run.asks().answered_by(event),
        tells_cancel(event),
    ensures
        no_success(run.next(event).1),
        no_success(after(run.next(event).0, later).1),
{
    assert(winding_up(run.next(event).0));
    winding_up_stays(run.next(event).0, later);
}

/// A job that hears of the user's wish to cancel waits at most for `dd` to be killed and the device
/// to be ejected; then it is over.
pub proof fn cancelled_job_ends_soon(run: RunView, event: EventView)
    requires
        run.asks().answered_by(event),
        tells_cancel(event),
    ensures
        after(run.next(event).0, seq![EventView::Ran, EventView::Ran]).0.over(),
{
    assert(winding_up(run.next(event).0));
    two_events(run.next(event).0, EventView::Ran, EventView::Ran);
}

// ---------------------------------------------------------------------------
// Progress
// ---------------------------------------------------------------------------

/// The copy knows its total, or it is of an entry.
pub open spec fn copying_measured(c: Copying) -> bool {
    c.source is Image ==> c.total > 0
}

/// The job knows the total that it will report progress against.
pub open spec fn measured(run: RunView) -> bool {
    match run.stage {
        StageView::Flash(Flash::Dd(_, d)) => match d {
            DdStage::Unmount(t) => t > 0,
            DdStage::User(t) => t > 0,
            DdStage::Start(t, _) => t > 0,
            DdStage::Lines(t) => t > 0,
            _ => true,
        },
        StageView::Flash(Flash::Copy(c)) => copy_measured(c),
        StageView::Flash(Flash::Zip(ZipStage::Copy(c))) => copy_measured(c),
        _ => true,
    }
}

/// The copy knows the total that it will report progress against.
pub open spec fn copy_measured(c: CopyStage) -> bool {
    match c {
        CopyStage::Size => true,
        CopyStage::Image(t) => t > 0,
        CopyStage::Device(t) => t > 0,
        CopyStage::Poll(d) => copying_measured(d),
        CopyStage::Read(d) => copying_measured(d),
        CopyStage::Write(d, _) => copying_measured(d),
    }
}

/// Progress is a part of something: the total that it is reported against is not 0.
pub open spec fn sensible_progress(m: Seq<MessageView>) -> bool {
    forall|i: int|
        0 <= i < m.len() ==> ((#[trigger] m[i]) matches MessageView::Progress(_, total) ==> total
            > 0)
}

proof fn step_measured(run: RunView, event: EventView)
    requires
        measured(run),
    ensures
        measured(run.next(event).0),
        sensible_progress(run.next(event).1),
{
}

proof fn run_measured(run: RunView, events: Seq<EventView>)
    requires
        measured(run),
    ensures
        measured(after(run, events).0),
        sensible_progress(after(run, events).1),
    decreases events.len(),
{
    if events.len() > 0 {
        run_measured(run, events.drop_last());
        step_measured(after(run, events.drop_last()).0, events.last());
    }
}

/// No job ever reports progress against a total of 0.
pub proof fn progress_has_a_total(
    facts: FactsView,
    image: ImageType,
    verify: bool,
    platform: Platform,
    events: Seq<EventView>,
)
    ensures
        ({
            let start = flasher::run_start(facts, image, verify, platform);
            sensible_progress(start.1 + after(start.0, events).1)
        }),
{
    let start = flasher::run_start(facts, image, verify, platform);
    run_measured(start.0, events);
}

proof fn one_event(run: RunView, a: EventView)
    ensures
        after(run, seq![a]) == run.next(a),
{
    reveal_with_fuel(after, 2);
    assert(seq![a].drop_last() =~= seq![]);
    assert(after(run, seq![a]).1 =~= run.next(a).1);
}

proof fn two_events(run: RunView, a: EventView, b: EventView)
    ensures
        after(run, seq![a, b]).0 == run.next(a).0.next(b).0,
        after(run, seq![a, b]).1 == run.next(a).1 + run.next(a).0.next(b).1,
{
    one_event(run, a);
    assert(seq![a, b].drop_last() =~= seq![a]);
}

proof fn three_events(run: RunView, a: EventView, b: EventView, c: EventView)
    ensures
        after(run, seq![a, b, c]).0 == run.next(a).0.next(b).0.next(c).0,
        after(run, seq![a, b, c]).1 == run.next(a).1 + run.next(a).0.next(b).1 + run.next(a).0.next(
            b,
        ).0.next(c).1,
{
    two_events(run, a, b);
    assert(seq![a, b, c].drop_last() =~= seq![a, b]);
}

// ---------------------------------------------------------------------------
// Copying
// ---------------------------------------------------------------------------

/// The events of a copy whose pieces have these lengths: each is read and written without a fault,
/// then the end of the source is reached.
pub open spec fn copy_events(pieces: Seq<usize>) -> Seq<EventView>
    decreases pieces.len(),
{
    if pieces.len() == 0 {
        seq![EventView::Polled(false), EventView::Read(0)]
    } else {
        seq![EventView::Polled(false), EventView::Read(pieces[0]), EventView::Ran] + copy_events(
            pieces.drop_first(),
        )
    }
}

/// The copy with `n` more bytes written.
pub open spec fn further(c: Copying, n: usize) -> Copying {
    Copying { written: (c.written + n) as u64, ..c }
}

/// The reports of a copy whose pieces have these lengths, and how far it comes.
pub open spec fn copy_reports(c: Copying, pieces: Seq<usize>) -> (Copying, Seq<MessageView>)
    decreases pieces.len(),
{
    if pieces.len() == 0 {
        (c, seq![])
    } else {
        let d = further(c, pieces[0]);
        let rest = copy_reports(d, pieces.drop_first());
        (rest.0, copy::written_messages(d) + rest.1)
    }
}

/// The number of bytes in pieces of these lengths.
pub open spec fn total_len(pieces: Seq<usize>) -> nat
    decreases pieces.len(),
{
    if pieces.len() == 0 {
        0
    } else {
        pieces[0] as nat + total_len(pieces.drop_first())
    }
}

/// Each piece is one that a read can give.
pub open spec fn readable(c: Copying, pieces: Seq<usize>) -> bool {
    forall|i: int|
        0 <= i < pieces.len() ==> 0 < #[trigger] pieces[i] <= copy::piece_size(c.source)
}

/// Two runs of events, one behind the other.
pub proof fn after_concat(run: RunView, a: Seq<EventView>, b: Seq<EventView>)
    ensures
        after(run, a + b).0 == after(after(run, a).0, b).0,
        after(run, a + b).1 == after(run, a).1 + after(after(run, a).0, b).1,
    decreases b.len(),
{
    if b.len() == 0 {
        assert(a + b =~= a);
        assert(after(run, a).1 + Seq::<MessageView>::empty() =~= after(run, a).1);
    } else {
        after_concat(run, a, b.drop_last());
        assert((a + b).drop_last() =~= a + b.drop_last());
        let middle = after(run, a);
        let most = after(middle.0, b.drop_last());
        let step = most.0.next(b.last());
        assert(middle.1 + (most.1 + step.1) =~= (middle.1 + most.1) + step.1);
    }
}

/// A copy of pieces that are all read and written ends with success. It has counted every byte, and
/// reported on every piece with the bytes written so far.
pub proof fn copy_counts_every_byte(run: RunView, c: Copying, pieces: Seq<usize>)
    requires
        run.stage == StageView::Flash(Flash::Copy(CopyStage::Poll(c))),
        c.source is Image,
        readable(c, pieces),
        c.written + total_len(pieces) <= u64::MAX,
    ensures
        after(run, copy_events(pieces)).0.stage is Flashed,
        after(run, copy_events(pieces)).1 == copy_reports(c, pieces).1,
        copy_reports(c, pieces).0.written == c.written + total_len(pieces),
    decreases pieces.len(),
{
    if pieces.len() == 0 {
        let e = copy_events(pieces);
        two_events(run, EventView::Polled(false), EventView::Read(0));
        assert(after(run, e).1 =~= seq![]);
    } else {
        let n = pieces[0];
        let d = further(c, n);
        let head = seq![EventView::Polled(false), EventView::Read(n), EventView::Ran];
        let tail = pieces.drop_first();
        three_events(run, EventView::Polled(false), EventView::Read(n), EventView::Ran);
        let there = after(run, head);
        assert(there.0.stage == StageView::Flash(Flash::Copy(CopyStage::Poll(d))));
        assert(there.1 =~= copy::written_messages(d));
        copy_counts_every_byte(there.0, d, tail);
        after_concat(run, head, copy_events(tail));
    }
}

/// The same of an entry of an archive; at the end the number of bytes goes to the log.
pub proof fn extraction_counts_every_byte(run: RunView, c: Copying, pieces: Seq<usize>)
    requires
        run.stage == StageView::Flash(Flash::Zip(ZipStage::Copy(CopyStage::Poll(c)))),
        c.source is Entry,
        readable(c, pieces),
        c.written + total_len(pieces) <= u64::MAX,
    ensures
        after(run, copy_events(pieces)).0.stage is Flashed,
        after(run, copy_events(pieces)).1 == copy_reports(c, pieces).1.push(
            message::log_text(
                "Extraction done. "@ + text::decimal(c.written as nat + total_len(pieces))
                    + " bytes written."@,
            ),
        ),
    decreases pieces.len(),
{
    if pieces.len() == 0 {
        let e = copy_events(pieces);
        two_events(run, EventView::Polled(false), EventView::Read(0));
        assert(after(run, e).1 =~= copy_reports(c, pieces).1.push(
            message::log_text(
                "Extraction done. "@ + text::decimal(c.written as nat) + " bytes written."@,
            ),
        ));
    } else {
        let n = pieces[0];
        let d = further(c, n);
        let head = seq![EventView::Polled(false), EventView::Read(n), EventView::Ran];
        let tail = pieces.drop_first();
        three_events(run, EventView::Polled(false), EventView::Read(n), EventView::Ran);
        let there = after(run, head);
        assert(there.0.stage == StageView::Flash(Flash::Zip(ZipStage::Copy(CopyStage::Poll(d)))));
        assert(there.1 =~= copy::written_messages(d));
        extraction_counts_every_byte(there.0, d, tail);
        after_concat(run, head, copy_events(tail));
        assert(d.written as nat + total_len(tail) == c.written as nat + total_len(pieces));
        assert(after(run, copy_events(pieces)).1 =~= copy_reports(c, pieces).1.push(
            message::log_text(
                "Extraction done. "@ + text::decimal(c.written as nat + total_len(pieces))
                    + " bytes written."@,
            ),
        ));
    }
}

/// What is read is written: after a read of some bytes a copy waits for just those to be written,
/// and reads on only once they are.
pub proof fn copy_writes_what_it_reads(facts: FactsView, c: Copying, n: usize)
    requires
        0 < n <= copy::piece_size(c.source),
    ensures
        ({
            let read = copy::copy_next(facts, CopyStage::Read(c), EventView::Read(n));
            let written = copy::copy_next(facts, CopyStage::Write(c, n), EventView::Ran);
            &&& read.0 == Step::Next(CopyStage::Write(c, n))
            &&& copy::copy_asks(CopyStage::Write(c, n)) == ActionView::Write(n)
            &&& written.0 == Step::Next(CopyStage::Poll(further(c, n)))
        }),
{
}

// ---------------------------------------------------------------------------
// Verifying
// ---------------------------------------------------------------------------

/// The bytes of `chunks`, one behind the other.
pub open spec fn content(chunks: Seq<Seq<u8>>) -> Seq<u8>
    decreases chunks.len(),
{
    if chunks.len() == 0 {
        seq![]
    } else {
        chunks[0] + content(chunks.drop_first())
    }
}

/// `chunks` can be read of a file where `left` bytes are wanted of it.
pub open spec fn can_be_read(chunks: Seq<Seq<u8>>, left: int) -> bool
    decreases chunks.len(),
{
    chunks.len() > 0 ==> {
        &&& 0 < chunks[0].len() <= hashing::PIECE
        &&& chunks[0].len() <= left
        &&& can_be_read(chunks.drop_first(), left - chunks[0].len())
    }
}

/// The events of a file that is read as `chunks`, where `left` bytes are wanted of it: nothing
/// fails, and where the file is too short its end is met.
pub open spec fn hash_events(chunks: Seq<Seq<u8>>, left: int) -> Seq<EventView>
    decreases chunks.len(),
{
    if chunks.len() > 0 {
        seq![EventView::Polled(false), EventView::Chunk(chunks[0])] + hash_events(
            chunks.drop_first(),
            left - chunks[0].len(),
        )
    } else if left == 0 {
        seq![EventView::Polled(false)]
    } else {
        seq![EventView::Polled(false), EventView::Chunk(seq![])]
    }
}

/// An image that is read as `chunks` is hashed to the digest of its bytes, however they were cut.
pub proof fn source_is_hashed(run: RunView, h: HashView, chunks: Seq<Seq<u8>>)
    requires
        run.stage == StageView::Verify(VerifyView::PollSource(h)),
        h.data.len() <= h.total,
        can_be_read(chunks, h.total - h.data.len()),
    ensures
        ({
            let end = after(run, hash_events(chunks, h.total - h.data.len()));
            let whole = verification::source_hashed(h.with(content(chunks)));
            end == (run.verified_to(whole.0), whole.1)
        }),
    decreases chunks.len(),
{
    let left = h.total - h.data.len();
    if chunks.len() > 0 {
        let c = chunks[0];
        let rest = chunks.drop_first();
        let g = h.with(c);
        two_events(run, EventView::Polled(false), EventView::Chunk(c));
        let head = seq![EventView::Polled(false), EventView::Chunk(c)];
        let there = after(run, head);
        assert(there.0 == run.at(StageView::Verify(VerifyView::PollSource(g))));
        assert(there.1 =~= seq![]);
        source_is_hashed(there.0, g, rest);
        after_concat(run, head, hash_events(rest, left - c.len()));
        assert(g.with(content(rest)).data =~= h.with(content(chunks)).data);
        let whole = verification::source_hashed(h.with(content(chunks)));
        assert(after(run, hash_events(chunks, left)).1 =~= whole.1);
    } else {
        assert(h.data + content(chunks) =~= h.data);
        if left == 0 {
            one_event(run, EventView::Polled(false));
        } else {
            two_events(run, EventView::Polled(false), EventView::Chunk(seq![]));
            assert(after(run, hash_events(chunks, left)).1 =~= verification::source_hashed(h).1);
        }
    }
}

/// The reports on a device that is read as `chunks`, before its digest is known.
pub open spec fn device_reports(h: HashView, chunks: Seq<Seq<u8>>) -> Seq<MessageView>
    decreases chunks.len(),
{
    if chunks.len() == 0 {
        seq![]
    } else {
        let g = h.with(chunks[0]);
        seq![MessageView::VerifyProgress(g.share())] + device_reports(g, chunks.drop_first())
    }
}

/// A device that is read as `chunks` is judged by the digest of its bytes, however they were cut.
pub proof fn device_is_judged(run: RunView, h: HashView, source: Seq<u8>, chunks: Seq<Seq<u8>>)
    requires
        run.stage == StageView::Verify(VerifyView::PollDevice(h, source)),
        h.data.len() <= h.total,
        can_be_read(chunks, h.total - h.data.len()),
    ensures
        ({
            let end = after(run, hash_events(chunks, h.total - h.data.len()));
            let whole = verification::device_hashed(h.with(content(chunks)), source);
            end == (run.verified_to(whole.0), device_reports(h, chunks) + whole.1)
        }),
    decreases chunks.len(),
{
    let left = h.total - h.data.len();
    let whole = verification::device_hashed(h.with(content(chunks)), source);
    if chunks.len() > 0 {
        let c = chunks[0];
        let rest = chunks.drop_first();
        let g = h.with(c);
        two_events(run, EventView::Polled(false), EventView::Chunk(c));
        let head = seq![EventView::Polled(false), EventView::Chunk(c)];
        let there = after(run, head);
        assert(there.0 == run.at(StageView::Verify(VerifyView::PollDevice(g, source))));
        assert(there.1 =~= seq![MessageView::VerifyProgress(g.share())]);
        device_is_judged(there.0, g, source, rest);
        after_concat(run, head, hash_events(rest, left - c.len()));
        assert(g.with(content(rest)).data =~= h.with(content(chunks)).data);
        assert(after(run, hash_events(chunks, left)).1 =~= device_reports(h, chunks) + whole.1);
    } else {
        assert(h.data + content(chunks) =~= h.data);
        if left == 0 {
            one_event(run, EventView::Polled(false));
        } else {
            two_events(run, EventView::Polled(false), EventView::Chunk(seq![]));
        }
        assert(after(run, hash_events(chunks, left)).1 =~= device_reports(h, chunks) + whole.1);
    }
}

/// The events of a verification in which the image is read as `source` and the device as `device`.
pub open spec fn verify_events(
    size: u64,
    source: Seq<Seq<u8>>,
    device: Seq<Seq<u8>>,
) -> Seq<EventView> {
    seq![EventView::Ran] + hash_events(source, size as int) + (seq![EventView::Ran] + hash_events(
        device,
        size as int,
    ))
}

/// A verification that can read both files succeeds if and only if the digests of what was read of
/// the image and of the device are the same.
pub proof fn verification_compares_digests(
    run: RunView,
    size: u64,
    source: Seq<Seq<u8>>,
    device: Seq<Seq<u8>>,
)
    requires
        run.stage == StageView::Verify(VerifyView::OpenSource(size)),
        can_be_read(source, size as int),
        can_be_read(device, size as int),
    ensures
        ({
            let end = after(run, verify_events(size, source, device));
            let same = hashing::sha256(content(source)) == hashing::sha256(content(device));
            &&& end.0.over()
            &&& end.1.len() > 0
            &&& end.1.last() == MessageView::VerifyDone(
                same,
                if same {
                    "Flash verified successfully!"@
                } else {
                    "Verification FAILED - data may be corrupted"@
                },
            )
        }),
{
    let start = HashView::start(size);
    let open = seq![EventView::Ran];
    let first = open + hash_events(source, size as int);
    let second = open + hash_events(device, size as int);
    assert(start.data + content(source) =~= content(source));
    assert(start.data + content(device) =~= content(device));

    one_event(run, EventView::Ran);
    let a = after(run, open);
    source_is_hashed(a.0, start, source);
    after_concat(run, open, hash_events(source, size as int));
    let b = after(run, first);
    let digest = hashing::sha256(content(source));
    assert(b.0.stage == StageView::Verify(VerifyView::OpenDevice(size, digest)));

    one_event(b.0, EventView::Ran);
    let c = after(b.0, open);
    device_is_judged(c.0, start, digest, device);
    after_concat(b.0, open, hash_events(device, size as int));
    after_concat(run, first, second);
    let whole = verification::device_hashed(start.with(content(device)), digest);
    let end = after(run, verify_events(size, source, device));
    assert(end.1.last() == whole.1.last());
}

/// A device that begins with the bytes of the image passes, however either was cut into reads.
pub proof fn identical_contents_pass(
    run: RunView,
    size: u64,
    source: Seq<Seq<u8>>,
    device: Seq<Seq<u8>>,
)
    requires
        run.stage == StageView::Verify(VerifyView::OpenSource(size)),
        can_be_read(source, size as int),
        can_be_read(device, size as int),
        content(source) == content(device),
    ensures
        after(run, verify_events(size, source, device)).0.over(),
        after(run, verify_events(size, source, device)).1.last() == MessageView::VerifyDone(
            true,
            "Flash verified successfully!"@,
        ),
{
    verification_compares_digests(run, size, source, device);
}

/// Whatever happens, a verification passes only where the digest of what was read of the device is
/// that of the image.
pub proof fn only_equal_digests_pass(st: VerifyView, event: EventView, i: int)
    requires
        0 <= i < verification::verify_next(st, event).1.len(),
        reports_success(verification::verify_next(st, event).1[i]),
    ensures
        match st {
            VerifyView::PollDevice(h, source) => source == hashing::sha256(h.data),
            VerifyView::ReadDevice(h, source) => source == hashing::sha256(h.data),
            _ => false,
        },
{
}

// ---------------------------------------------------------------------------
// The progress of a verification
// ---------------------------------------------------------------------------

/// The share that a job has reached at least, and the most that it has reported.
pub open spec fn reached(run: RunView) -> Share {
    match run.stage {
        StageView::Verify(VerifyView::OpenDevice(_, _)) => Share { halves: 1, done: 0, total: 1 },
        StageView::Verify(VerifyView::PollDevice(h, _)) => h.share(),
        StageView::Verify(VerifyView::ReadDevice(h, _)) => h.share(),
        StageView::Over => Share { halves: 2, done: 0, total: 1 },
        _ => Share { halves: 0, done: 0, total: 1 },
    }
}

/// The verification hashes a number of bytes that is not 0, and hashed no more than those.
pub open spec fn hash_bounded(run: RunView) -> bool {
    match run.stage {
        StageView::Verify(VerifyView::OpenSource(n)) => n > 0,
        StageView::Verify(VerifyView::PollSource(h)) => h.total > 0 && h.data.len() <= h.total,
        StageView::Verify(VerifyView::ReadSource(h)) => h.total > 0 && h.data.len() <= h.total,
        StageView::Verify(VerifyView::OpenDevice(n, _)) => n > 0,
        StageView::Verify(VerifyView::PollDevice(h, _)) => h.total > 0 && h.data.len() <= h.total,
        StageView::Verify(VerifyView::ReadDevice(h, _)) => h.total > 0 && h.data.len() <= h.total,
        _ => true,
    }
}

/// Every share in `m` lies between nothing and the whole, and none is less than one before it.
pub open spec fn shares_rise(m: Seq<MessageView>) -> bool {
    &&& forall|i: int|
        0 <= i < m.len() ==> ((#[trigger] m[i]) matches MessageView::VerifyProgress(a)
            ==> a.valid())
    &&& forall|i: int, j: int|
        0 <= i < j < m.len() ==> ((#[trigger] m[i]) matches MessageView::VerifyProgress(a) ==> ((
        #[trigger] m[j]) matches MessageView::VerifyProgress(b) ==> a.at_most(b)))
}

/// No share in `m` is more than `top`.
pub open spec fn shares_below(m: Seq<MessageView>, top: Share) -> bool {
    forall|i: int|
        0 <= i < m.len() ==> ((#[trigger] m[i]) matches MessageView::VerifyProgress(a)
            ==> a.at_most(top))
}

proof fn at_most_chains(a: Share, b: Share, c: Share)
    requires
        a.total > 0,
        b.total > 0,
        c.total > 0,
        a.at_most(b),
        b.at_most(c),
    ensures
        a.at_most(c),
{
    let x: int = a.halves * a.total + a.done;
    let y: int = b.halves * b.total + b.done;
    let z: int = c.halves * c.total + c.done;
    let ta: int = a.total as int;
    let tb: int = b.total as int;
    let tc: int = c.total as int;
    assert(x * tc <= z * ta) by (nonlinear_arith)
        requires
            x * tb <= y * ta,
            y * tc <= z * tb,
            ta > 0,
            tb > 0,
            tc > 0,
    {
        assert((x * tb) * tc <= (y * ta) * tc);
        assert((y * tc) * ta <= (z * tb) * ta);
        assert((x * tc) * tb <= (z * ta) * tb);
    }
}

proof fn share_grows(h: HashView, g: HashView)
    requires
        h.total > 0,
        h.total == g.total,
        h.data.len() <= g.data.len() <= g.total,
    ensures
        h.share().valid(),
        h.share().at_most(g.share()),
        (Share { halves: 1, done: 0, total: 1 }).at_most(h.share()),
        h.share().at_most(Share { halves: 2, done: 0, total: 1 }),
{
    let t: int = h.total as int;
    let a: int = h.data.len() as int;
    let b: int = g.data.len() as int;
    assert((1 * t + a) * t <= (1 * t + b) * t) by (nonlinear_arith)
        requires
            a <= b,
            t > 0,
    ;
    assert((1 * t + a) * 1 <= (2 * 1 + 0) * t) by (nonlinear_arith)
        requires
            a <= t,
    ;
}

/// The start, the half and the whole stand in this order.
proof fn whole_shares_rise(a: u8, b: u8)
    requires
        a <= b <= 2,
    ensures
        (Share { halves: a, done: 0, total: 1 }).at_most(Share { halves: b, done: 0, total: 1 }),
{
    assert((a as int * 1 + 0) * 1 <= (b as int * 1 + 0) * 1);
}

proof fn step_share_rises(run: RunView, event: EventView)
    requires
        hash_bounded(run),
    ensures
        hash_bounded(run.next(event).0),
        reached(run).valid(),
        reached(run).at_most(reached(run.next(event).0)),
        forall|i: int|
            0 <= i < run.next(event).1.len() ==> ((#[trigger] run.next(event).1[i]) matches
                MessageView::VerifyProgress(b) ==> {
                &&& b.valid()
                &&& reached(run).at_most(b)
                &&& b.at_most(reached(run.next(event).0))
            }),
        forall|i: int, j: int|
            0 <= i < j < run.next(event).1.len() ==> !((#[trigger] run.next(event).1[i]) is VerifyProgress
                && (#[trigger] run.next(event).1[j]) is VerifyProgress),
{
    whole_shares_rise(0, 0);
    whole_shares_rise(0, 1);
    whole_shares_rise(0, 2);
    whole_shares_rise(1, 1);
    whole_shares_rise(1, 2);
    whole_shares_rise(2, 2);
    match run.stage {
        StageView::Flash(_) => {
            flash_steps_report_no_share(run, event);
        },
        StageView::Verify(VerifyView::PollDevice(h, _)) => {
            share_grows(h, h);
        },
        StageView::Verify(VerifyView::ReadDevice(h, _)) => {
            share_grows(h, h);
            if let EventView::Chunk(c) = event {
                if c.len() <= h.wants() {
                    share_grows(h, h.with(c));
                    share_grows(h.with(c), h.with(c));
                }
            }
        },
        StageView::Verify(VerifyView::OpenDevice(n, _)) => {
            share_grows(HashView::start(n), HashView::start(n));
        },
        _ => {},
    }
}

/// None of `m` is on the progress of a verification.
pub open spec fn no_share(m: Seq<MessageView>) -> bool {
    forall|i: int| 0 <= i < m.len() ==> !((#[trigger] m[i]) is VerifyProgress)
}

proof fn flash_steps_report_no_share(run: RunView, event: EventView)
    requires
        run.stage is Flash,
    ensures
        no_share(run.next(event).1),
{
}

proof fn run_shares_rise(run: RunView, events: Seq<EventView>)
    requires
        hash_bounded(run),
    ensures
        hash_bounded(after(run, events).0),
        reached(after(run, events).0).valid(),
        shares_rise(after(run, events).1),
        shares_below(after(run, events).1, reached(after(run, events).0)),
    decreases events.len(),
{
    if events.len() == 0 {
        step_share_rises(run, EventView::End);
    } else {
        run_shares_rise(run, events.drop_last());
        let before = after(run, events.drop_last());
        let event = events.last();
        let step = before.0.next(event);
        step_share_rises(before.0, event);
        step_share_rises(step.0, EventView::End);
        let m = before.1 + step.1;
        let n = before.1.len();
        assert forall|i: int| 0 <= i < m.len() implies ((#[trigger] m[i]) matches
            MessageView::VerifyProgress(a) ==> a.valid() && a.at_most(reached(step.0))) by {
            if i < n {
                assert(m[i] == before.1[i]);
                if let MessageView::VerifyProgress(a) = m[i] {
                    at_most_chains(a, reached(before.0), reached(step.0));
                }
            } else {
                assert(m[i] == step.1[i - n]);
            }
        }
        assert forall|i: int, j: int| 0 <= i < j < m.len() implies ((#[trigger] m[i]) matches
            MessageView::VerifyProgress(a) ==> ((#[trigger] m[j]) matches
            MessageView::VerifyProgress(b) ==> a.at_most(b))) by {
            if let MessageView::VerifyProgress(a) = m[i] {
                if let MessageView::VerifyProgress(b) = m[j] {
                    if j < n {
                        assert(m[i] == before.1[i] && m[j] == before.1[j]);
                    } else {
                        assert(m[j] == step.1[j - n]);
                        if i < n {
                            assert(m[i] == before.1[i]);
                            at_most_chains(a, reached(before.0), b);
                        } else {
                            assert(m[i] == step.1[i - n]);
                        }
                    }
                }
            }
        }
    }
}

/// The progress of a verification lies between nothing and the whole, and never falls.
pub proof fn verification_progress_never_falls(
    facts: FactsView,
    image: ImageType,
    verify: bool,
    platform: Platform,
    events: Seq<EventView>,
)
    ensures
        ({
            let start = flasher::run_start(facts, image, verify, platform);
            shares_rise(start.1 + after(start.0, events).1)
        }),
{
    let start = flasher::run_start(facts, image, verify, platform);
    run_shares_rise(start.0, events);
    if start.0.over() {
        over_stays_over(start.0, events);
        assert(start.1 + after(start.0, events).1 =~= start.1);
    } else {
        assert(start.1 + after(start.0, events).1 =~= after(start.0, events).1);
    }
}

// ---------------------------------------------------------------------------
// What a job waits for, and what its success takes
// ---------------------------------------------------------------------------

/// A job waits for something until it is over, and then for nothing.
pub proof fn job_waits_until_over(run: RunView)
    ensures
        run.asks() is Nothing <==> run.over(),
{
}

/// As long as the image is being flashed, no success is reported.
pub proof fn no_success_while_flashing(run: RunView, event: EventView)
    requires
        run.stage is Flash,
    ensures
        no_success(run.next(event).1),
{
    flash_steps_end_nothing(run, event);
}

/// A run of `dd` succeeds only once `dd` has ended with success; on macOS the device is ejected in
/// between.
pub proof fn dd_succeeds_only_by_its_exit(
    facts: FactsView,
    tool: Tool,
    st: DdStage,
    event: EventView,
)
    ensures
        dd::dd_next(facts, tool, st, event).0 == Step::<DdStage>::Ended(true) ==> {
            ||| tool is Linux && st is Wait && event == EventView::Exited(true)
            ||| st == DdStage::Eject(Closing::Exited(true)) && event is Ran
        },
        dd::dd_next(facts, tool, st, event).0 == Step::Next(DdStage::Eject(Closing::Exited(true)))
            ==> {
            ||| st is Wait && event == EventView::Exited(true)
            ||| st == DdStage::Eject(Closing::Exited(true))
        },
{
}

/// The message is one of a verification.
pub open spec fn of_verification(m: MessageView) -> bool {
    m is VerifyProgress || m is VerifyDone
}

proof fn xz_run_unverified(run: RunView, events: Seq<EventView>)
    requires
        run.image is Xz,
        !(run.stage is Size),
        !(run.stage is Verify),
    ensures
        after(run, events).0.image is Xz,
        !(after(run, events).0.stage is Size),
        !(after(run, events).0.stage is Verify),
        forall|i: int|
            0 <= i < after(run, events).1.len() ==> !of_verification(
                #[trigger] after(run, events).1[i],
            ),
    decreases events.len(),
{
    if events.len() > 0 {
        xz_run_unverified(run, events.drop_last());
        let before = after(run, events.drop_last());
        let step = before.0.next(events.last());
        flash_steps_end_nothing(before.0, events.last());
        if before.0.stage is Flash {
            flash_steps_report_no_share(before.0, events.last());
            step_ends_once(before.0, events.last());
            if step.0.over() {
                assert forall|i: int| 0 <= i < step.1.len() implies !of_verification(
                    #[trigger] step.1[i],
                ) by {
                    if i < step.1.len() - 1 {
                        assert(step.1.drop_last()[i] == step.1[i]);
                        assert(!step.1.drop_last()[i].ends_job());
                    }
                }
            }
        }
    }
}

/// A compressed image is never verified: how many bytes it has once decompressed is not known.
pub proof fn compressed_images_are_not_verified(
    facts: FactsView,
    verify: bool,
    platform: Platform,
    events: Seq<EventView>,
)
    ensures
        ({
            let start = flasher::run_start(facts, ImageType::Xz, verify, platform);
            let m = start.1 + after(start.0, events).1;
            forall|i: int| 0 <= i < m.len() ==> !of_verification(#[trigger] m[i])
        }),
{
    let start = flasher::run_start(facts, ImageType::Xz, verify, platform);
    xz_run_unverified(start.0, events);
    assert(start.1 + after(start.0, events).1 =~= after(start.0, events).1);
}

// ---------------------------------------------------------------------------
// A job and the window
// ---------------------------------------------------------------------------

/// The window after the messages `m`.
pub open spec fn told(app: AppView, m: Seq<MessageView>) -> AppView
    decreases m.len(),
{
    if m.len() == 0 {
        app
    } else {
        told(app, m.drop_last()).received(m.last())
    }
}

/// The status that the last message of a job leaves.
pub open spec fn last_status(m: MessageView) -> Seq<char> {
    match m {
        MessageView::Done(ok, _) => if ok {
            "Done!"@
        } else {
            "Failed!"@
        },
        MessageView::VerifyDone(ok, _) => if ok {
            "Verified!"@
        } else {
            "Verify failed!"@
        },
        _ => seq![],
    }
}

proof fn told_while_busy(app: AppView, m: Seq<MessageView>)
    requires
        none_ends(m),
    ensures
        told(app, m).flashing == app.flashing,
        told(app, m).cancel == app.cancel,
        told(app, m).show_dialog == app.show_dialog,
    decreases m.len(),
{
    if m.len() > 0 {
        assert(none_ends(m.drop_last())) by {
            assert forall|i: int| 0 <= i < m.drop_last().len() implies !(
            #[trigger] m.drop_last()[i]).ends_job() by {
                assert(m[i] == m.drop_last()[i]);
            }
        }
        told_while_busy(app, m.drop_last());
        assert(!m[m.len() - 1].ends_job());
    }
}

/// A window that has started a job stays busy, and opens no dialog, until the job is over. Then it
/// is free for the next: no wish to cancel is left over, and a dialog and the status tell how the
/// job went.
pub proof fn window_follows_job(
    app: AppView,
    facts: FactsView,
    image: ImageType,
    verify: bool,
    platform: Platform,
    events: Seq<EventView>,
)
    requires
        app.flashing,
    ensures
        ({
            let start = flasher::run_start(facts, image, verify, platform);
            let end = after(start.0, events);
            let m = start.1 + end.1;
            let w = told(app, m);
            if end.0.over() {
                &&& !w.busy()
                &&& !w.cancel
                &&& w.show_dialog
                &&& m.len() > 0
                &&& w.status == message::one_text(last_status(m.last()))
            } else {
                &&& w.busy()
                &&& w.cancel == app.cancel
                &&& w.show_dialog == app.show_dialog
            }
        }),
{
    let start = flasher::run_start(facts, image, verify, platform);
    let end = after(start.0, events);
    let m = start.1 + end.1;
    started_job_ends_once(facts, image, verify, platform, events);
    if !end.0.over() {
        told_while_busy(app, m);
    }
}

} // verus!

//! What a verification finds out, told by the bytes of the image and of the device.
use vstd::prelude::*;
use vstd::string::*;

use crate::flash_laws::says;
use crate::flasher::{RunView, StageView};
use crate::hashing;
use crate::hashing::HashView;
use crate::job::{ActionView, EventView, Step, Target};
use crate::laws;
use crate::laws::{after, after_concat, can_be_read, content, verify_events};
use crate::message::{MessageView, PieceView, Share};
use crate::verification;
use crate::verification::VerifyView;

verus! {

// ---------------------------------------------------------------------------
// Hexadecimal text
// ---------------------------------------------------------------------------

/// A byte is written with two of the sixteen digits, the high one first, and bytes one behind the
/// other.
pub proof fn bytes_are_written_in_hexadecimal(data: Seq<u8>, b: u8)
    ensures
        verification::hex_text(Seq::empty()) == Seq::<char>::empty(),
        verification::hex_text(data.push(b)) == verification::hex_text(data).push(
            "0123456789abcdef"@[b as int / 16],
        ).push("0123456789abcdef"@[b as int % 16]),
{
    reveal_strlit("0123456789abcdef");
    assert(data.push(b).drop_last() =~= data);
    let high = b / 16;
    let low = b % 16;
    assert(0 <= high < 16);
    assert(0 <= low < 16);
    digit_is_listed(high);
    digit_is_listed(low);
    assert(verification::hex_text(data.push(b)) =~= verification::hex_text(data).push(
        "0123456789abcdef"@[b as int / 16],
    ).push("0123456789abcdef"@[b as int % 16]));
}

proof fn digit_is_listed(n: u8)
    requires
        n < 16,
    ensures
        verification::hex_digit(n) == "0123456789abcdef"@[n as int],
{
    reveal_strlit("0123456789abcdef");
    assert(n == 0 || n == 1 || n == 2 || n == 3 || n == 4 || n == 5 || n == 6 || n == 7 || n == 8
        || n == 9 || n == 10 || n == 11 || n == 12 || n == 13 || n == 14 || n == 15);
}

// ---------------------------------------------------------------------------
// Step by step
// ---------------------------------------------------------------------------

/// The job where its verification stands at `st`.
pub open spec fn verifying(run: RunView, st: VerifyView) -> RunView {
    RunView { stage: StageView::Verify(st), ..run }
}

/// On `event` the verification goes to `st`, where it waits for `action`, and `told` is sent.
pub open spec fn proceeds(
    run: RunView,
    event: EventView,
    st: VerifyView,
    action: ActionView,
    told: Seq<MessageView>,
) -> bool {
    &&& run.next(event).0 == verifying(run, st)
    &&& run.next(event).0.asks() == action
    &&& run.next(event).1 == told
}

/// On `event` the verification is given up.
pub open spec fn gives_up(run: RunView, event: EventView) -> bool {
    &&& run.next(event).0.stage is Over
    &&& run.next(event).1 == seq![
        says("Verification cancelled or failed"@),
        MessageView::VerifyDone(false, "Verification failed"@),
    ]
}

/// A verification is of as many bytes as it is asked for; of none it is skipped.
pub proof fn verification_starts_for_its_size(run: RunView, n: u64)
    ensures
        verification::verify_start(0) == (
            Step::<VerifyView>::Ended(false),
            seq![
                says("Cannot verify: unknown size"@),
                MessageView::VerifyDone(false, "Verification skipped (unknown size)"@),
            ],
        ),
        n > 0 ==> verification::verify_start(n) == (
            Step::Next(VerifyView::OpenSource(n)),
            seq![
                says("Verifying flash..."@),
                MessageView::Status(seq![PieceView::Text("Verifying..."@)]),
                MessageView::VerifyProgress(Share { halves: 0, done: 0, total: 1 }),
            ],
        ),
        n > 0 ==> proceeds(
            RunView { stage: StageView::Size, ..run },
            EventView::Size(Some(n)),
            VerifyView::OpenSource(n),
            ActionView::OpenTarget(Target::Image),
            verification::verify_start(n).1,
        ),
{
}

/// The number of bytes to read next of a file of which `done` of `total` are hashed: all that are
/// left, but at most 1 MiB.
pub open spec fn piece_of(total: u64, done: nat) -> usize {
    if total - done < 1_048_576 {
        (total - done) as usize
    } else {
        1_048_576
    }
}

/// Either file is read from its start, piece by piece, up to the asked number of bytes or to its
/// end; each piece is hashed behind those before it, and of the device each is reported. A fault or
/// a wish to cancel gives the verification up.
pub proof fn both_files_are_hashed_piece_by_piece(
    run: RunView,
    n: u64,
    h: HashView,
    d: Seq<u8>,
    c: Seq<u8>,
    e: Seq<char>,
)
    requires
        h.data.len() <= h.total,
    ensures
        ({
            let start = HashView { data: seq![], total: n };
            let more = HashView { data: h.data + c, total: h.total };
            let left = h.data.len() < h.total;
            let fits = 0 < c.len() <= piece_of(h.total, h.data.len());
            &&& proceeds(
                verifying(run, VerifyView::OpenSource(n)),
                EventView::Ran,
                VerifyView::PollSource(start),
                ActionView::Poll,
                seq![],
            )
            &&& proceeds(
                verifying(run, VerifyView::OpenDevice(n, d)),
                EventView::Ran,
                VerifyView::PollDevice(start, d),
                ActionView::Poll,
                seq![],
            )
            &&& left ==> proceeds(
                verifying(run, VerifyView::PollSource(h)),
                EventView::Polled(false),
                VerifyView::ReadSource(h),
                ActionView::ReadTarget(piece_of(h.total, h.data.len())),
                seq![],
            )
            &&& left ==> proceeds(
                verifying(run, VerifyView::PollDevice(h, d)),
                EventView::Polled(false),
                VerifyView::ReadDevice(h, d),
                ActionView::ReadTarget(piece_of(h.total, h.data.len())),
                seq![],
            )
            &&& fits ==> proceeds(
                verifying(run, VerifyView::ReadSource(h)),
                EventView::Chunk(c),
                VerifyView::PollSource(more),
                ActionView::Poll,
                seq![],
            )
            &&& fits ==> proceeds(
                verifying(run, VerifyView::ReadDevice(h, d)),
                EventView::Chunk(c),
                VerifyView::PollDevice(more, d),
                ActionView::Poll,
                seq![
                    MessageView::VerifyProgress(
                        Share {
                            halves: 1,
                            done: (h.data.len() + c.len()) as u64,
                            total: h.total,
                        },
                    ),
                ],
            )
            &&& gives_up(verifying(run, VerifyView::OpenSource(n)), EventView::Failed(e))
            &&& gives_up(verifying(run, VerifyView::OpenDevice(n, d)), EventView::Failed(e))
            &&& gives_up(verifying(run, VerifyView::PollSource(h)), EventView::Polled(true))
            &&& gives_up(verifying(run, VerifyView::PollDevice(h, d)), EventView::Polled(true))
            &&& gives_up(verifying(run, VerifyView::ReadSource(h)), EventView::Failed(e))
            &&& gives_up(verifying(run, VerifyView::ReadDevice(h, d)), EventView::Failed(e))
        }),
{
}

/// Once the image is read, its digest goes to the log, and it is the turn of the device, for as many
/// bytes.
pub proof fn image_digest_is_logged(run: RunView, h: HashView)
    requires
        h.data.len() <= h.total,
    ensures
        ({
            let digest = hashing::sha256(h.data);
            let next = VerifyView::OpenDevice(h.total, digest);
            let action = ActionView::OpenTarget(Target::Device);
            let told = seq![
                says("Source SHA256: "@ + verification::hex_text(digest)),
                MessageView::VerifyProgress(Share { halves: 1, done: 0, total: 1 }),
            ];
            &&& h.data.len() == h.total ==> proceeds(
                verifying(run, VerifyView::PollSource(h)),
                EventView::Polled(false),
                next,
                action,
                told,
            )
            &&& proceeds(
                verifying(run, VerifyView::ReadSource(h)),
                EventView::Chunk(seq![]),
                next,
                action,
                told,
            )
        }),
{
}

/// Once the device is read too, its digest goes to the log, and the verification ends: with success
/// exactly where the digest is that of the image.
pub proof fn digests_decide(run: RunView, h: HashView, source: Seq<u8>)
    requires
        h.data.len() <= h.total,
    ensures
        ({
            let digest = hashing::sha256(h.data);
            let told = seq![
                says("Device SHA256: "@ + verification::hex_text(digest)),
                MessageView::VerifyProgress(Share { halves: 2, done: 0, total: 1 }),
            ] + (if source == digest {
                seq![
                    says("Verification PASSED - hashes match"@),
                    MessageView::VerifyDone(true, "Flash verified successfully!"@),
                ]
            } else {
                seq![
                    says("Verification FAILED - hashes differ"@),
                    MessageView::VerifyDone(false, "Verification FAILED - data may be corrupted"@),
                ]
            });
            let polled = verifying(run, VerifyView::PollDevice(h, source)).next(
                EventView::Polled(false),
            );
            let ended = verifying(run, VerifyView::ReadDevice(h, source)).next(
                EventView::Chunk(seq![]),
            );
            &&& h.data.len() == h.total ==> polled.0.stage is Over && polled.1 == told
            &&& ended.0.stage is Over && ended.1 == told
        }),
{
    let digest = hashing::sha256(h.data);
    let ended = verification::device_hashed(h, source).1;
    if source == digest {
        assert(ended =~= seq![
            says("Device SHA256: "@ + verification::hex_text(digest)),
            MessageView::VerifyProgress(Share { halves: 2, done: 0, total: 1 }),
        ] + seq![
            says("Verification PASSED - hashes match"@),
            MessageView::VerifyDone(true, "Flash verified successfully!"@),
        ]);
    } else {
        assert(ended =~= seq![
            says("Device SHA256: "@ + verification::hex_text(digest)),
            MessageView::VerifyProgress(Share { halves: 2, done: 0, total: 1 }),
        ] + seq![
            says("Verification FAILED - hashes differ"@),
            MessageView::VerifyDone(false, "Verification FAILED - data may be corrupted"@),
        ]);
    }
}

// ---------------------------------------------------------------------------
// The bytes of both files
// ---------------------------------------------------------------------------

/// Two files, and how far the one that was opened last is read.
#[verifier::ext_equal]
pub struct Files {
    pub image: Seq<u8>,
    pub device: Seq<u8>,
    pub open: Target,
    pub at: nat,
}

impl Files {
    /// The file that is open.
    pub open spec fn current(self) -> Seq<u8> {
        if self.open is Image {
            self.image
        } else {
            self.device
        }
    }

    /// `event`, in answer to `action`, tells the truth about a read: its bytes are the next of the
    /// open file, no more than asked for, and none only at its end.
    pub open spec fn allows(self, action: ActionView, event: EventView) -> bool {
        match (action, event) {
            (ActionView::ReadTarget(k), EventView::Chunk(c)) => {
                &&& c.len() <= k
                &&& self.at + c.len() <= self.current().len()
                &&& c == self.current().subrange(self.at as int, (self.at + c.len()) as int)
                &&& c.len() == 0 ==> self.at == self.current().len()
            },
            _ => true,
        }
    }

    /// How far the files are read once `action` was answered with `event`.
    pub open spec fn moved(self, action: ActionView, event: EventView) -> Files {
        match (action, event) {
            (ActionView::OpenTarget(t), EventView::Ran) => Files { open: t, at: 0, ..self },
            (ActionView::ReadTarget(_), EventView::Chunk(c)) => Files {
                at: self.at + c.len(),
                ..self
            },
            _ => self,
        }
    }
}

/// The first `n` bytes of a file, or all of it where it has fewer.
pub open spec fn first_bytes(file: Seq<u8>, n: u64) -> Seq<u8> {
    if file.len() < n {
        file
    } else {
        file.take(n as int)
    }
}

/// How far the files are read after `events`.
pub open spec fn files_after(run: RunView, files: Files, events: Seq<EventView>) -> Files
    decreases events.len(),
{
    if events.len() == 0 {
        files
    } else {
        files_after(run, files, events.drop_last()).moved(
            after(run, events.drop_last()).0.asks(),
            events.last(),
        )
    }
}

/// All of `events` tell the truth about the reads.
pub open spec fn truthful(run: RunView, files: Files, events: Seq<EventView>) -> bool
    decreases events.len(),
{
    events.len() > 0 ==> {
        &&& truthful(run, files, events.drop_last())
        &&& files_after(run, files, events.drop_last()).allows(
            after(run, events.drop_last()).0.asks(),
            events.last(),
        )
    }
}

/// Nothing fails, and the user does not ask to cancel.
pub open spec fn undisturbed(events: Seq<EventView>) -> bool {
    forall|i: int|
        0 <= i < events.len() ==> !((#[trigger] events[i]) is Failed) && events[i]
            != EventView::Polled(true)
}

/// The message on the outcome where the first `n` bytes of both files decide.
pub open spec fn outcome(files: Files, n: u64) -> MessageView {
    if hashing::sha256(first_bytes(files.image, n)) == hashing::sha256(
        first_bytes(files.device, n),
    ) {
        MessageView::VerifyDone(true, "Flash verified successfully!"@)
    } else {
        MessageView::VerifyDone(false, "Verification FAILED - data may be corrupted"@)
    }
}

/// What was hashed of the open file is what was read of it, and that is part of its first `n` bytes.
spec fn hashed_so_far(h: HashView, files: Files, n: u64) -> bool {
    &&& h.total == n
    &&& files.at == h.data.len()
    &&& files.at <= n
    &&& files.at <= files.current().len()
    &&& h.data == files.current().take(files.at as int)
}

spec fn on_track(run: RunView, files: Files, n: u64) -> bool {
    let digest = hashing::sha256(first_bytes(files.image, n));
    match run.stage {
        StageView::Verify(VerifyView::OpenSource(m)) => m == n,
        StageView::Verify(VerifyView::PollSource(h)) => files.open is Image && hashed_so_far(
            h,
            files,
            n,
        ),
        StageView::Verify(VerifyView::ReadSource(h)) => files.open is Image && hashed_so_far(
            h,
            files,
            n,
        ) && h.data.len() < n,
        StageView::Verify(VerifyView::OpenDevice(m, d)) => m == n && d == digest,
        StageView::Verify(VerifyView::PollDevice(h, d)) => files.open is Device && d == digest
            && hashed_so_far(h, files, n),
        StageView::Verify(VerifyView::ReadDevice(h, d)) => files.open is Device && d == digest
            && hashed_so_far(h, files, n) && h.data.len() < n,
        StageView::Over => true,
        _ => false,
    }
}

proof fn read_to_the_end(h: HashView, files: Files, n: u64)
    requires
        hashed_so_far(h, files, n),
        files.at == n || files.at == files.current().len(),
    ensures
        h.data == first_bytes(files.current(), n),
{
    assert(files.current().take(files.current().len() as int) =~= files.current());
}

proof fn chunk_is_hashed(h: HashView, files: Files, n: u64, k: usize, c: Seq<u8>)
    requires
        hashed_so_far(h, files, n),
        c.len() <= h.wants(),
        files.allows(ActionView::ReadTarget(k), EventView::Chunk(c)),
    ensures
        hashed_so_far(
            h.with(c),
            files.moved(ActionView::ReadTarget(k), EventView::Chunk(c)),
            n,
        ),
{
    let f = files.current();
    assert(f.take(files.at as int) + f.subrange(files.at as int, (files.at + c.len()) as int)
        =~= f.take((files.at + c.len()) as int));
}

proof fn step_on_track(run: RunView, files: Files, n: u64, event: EventView)
    requires
        n > 0,
        on_track(run, files, n),
        files.allows(run.asks(), event),
    ensures
        on_track(run.next(event).0, files.moved(run.asks(), event), n),
        !laws::no_success(run.next(event).1) ==> outcome(files, n)->VerifyDone_0,
        !run.over() && run.next(event).0.over() && !(event is Failed) && event
            != EventView::Polled(true) ==> run.next(event).1.len() > 0 && run.next(event).1.last()
            == outcome(files, n),
{
    assert(files.image.take(0) =~= seq![]);
    assert(files.device.take(0) =~= seq![]);
    match run.stage {
        StageView::Verify(VerifyView::PollSource(h)) => {
            if h.data.len() == n {
                read_to_the_end(h, files, n);
            }
        },
        StageView::Verify(VerifyView::PollDevice(h, _)) => {
            if h.data.len() == n {
                read_to_the_end(h, files, n);
            }
        },
        StageView::Verify(VerifyView::ReadSource(h)) => {
            if let EventView::Chunk(c) = event {
                if c.len() == 0 {
                    read_to_the_end(h, files, n);
                } else {
                    chunk_is_hashed(h, files, n, h.wants() as usize, c);
                }
            }
        },
        StageView::Verify(VerifyView::ReadDevice(h, _)) => {
            if let EventView::Chunk(c) = event {
                if c.len() == 0 {
                    read_to_the_end(h, files, n);
                } else {
                    chunk_is_hashed(h, files, n, h.wants() as usize, c);
                }
            }
        },
        _ => {},
    }
}

proof fn files_stay(run: RunView, files: Files, events: Seq<EventView>)
    ensures
        files_after(run, files, events).image == files.image,
        files_after(run, files, events).device == files.device,
    decreases events.len(),
{
    if events.len() > 0 {
        files_stay(run, files, events.drop_last());
    }
}

proof fn run_on_track(run: RunView, files: Files, n: u64, events: Seq<EventView>)
    requires
        n > 0,
        !run.over(),
        on_track(run, files, n),
        truthful(run, files, events),
    ensures
        on_track(after(run, events).0, files_after(run, files, events), n),
        !laws::no_success(after(run, events).1) ==> outcome(files, n)->VerifyDone_0,
        undisturbed(events) && after(run, events).0.over() ==> after(run, events).1.len() > 0
            && after(run, events).1.last() == outcome(files, n),
    decreases events.len(),
{
    if events.len() > 0 {
        let most = events.drop_last();
        run_on_track(run, files, n, most);
        files_stay(run, files, most);
        let before = after(run, most);
        let step = before.0.next(events.last());
        step_on_track(before.0, files_after(run, files, most), n, events.last());
        let m = before.1 + step.1;
        if !laws::no_success(m) {
            let i = choose|i: int| 0 <= i < m.len() && laws::reports_success(#[trigger] m[i]);
            if i < before.1.len() {
                assert(before.1[i] == m[i]);
            } else {
                assert(step.1[i - before.1.len()] == m[i]);
            }
        }
        if undisturbed(events) {
            assert forall|i: int| 0 <= i < most.len() implies !((#[trigger] most[i]) is Failed)
                && most[i] != EventView::Polled(true) by {
                assert(most[i] == events[i]);
            }
            assert(!(events[events.len() - 1] is Failed));
            if before.0.over() {
                assert(m =~= before.1);
            } else if step.0.over() {
                assert(m.last() == step.1.last());
            }
        }
    }
}

/// A verification of `n` bytes, from the answer to what is the size on, compares the first `n` bytes
/// of the image with the first `n` bytes of the device, or all of a file that has fewer, however
/// they are cut into reads. It reports a success only where the digests of these are the same; and
/// where nothing disturbs it, it ends with a success exactly then.
pub proof fn verification_compares_the_first_bytes(
    run: RunView,
    n: u64,
    files: Files,
    events: Seq<EventView>,
)
    requires
        n > 0,
        run.stage is Size,
        truthful(run.next(EventView::Size(Some(n))).0, files, events),
    ensures
        ({
            let end = after(run.next(EventView::Size(Some(n))).0, events);
            let same = hashing::sha256(first_bytes(files.image, n)) == hashing::sha256(
                first_bytes(files.device, n),
            );
            &&& !laws::no_success(end.1) ==> same
            &&& undisturbed(events) && end.0.stage is Over ==> end.1.len() > 0 && end.1.last()
                == if same {
                MessageView::VerifyDone(true, "Flash verified successfully!"@)
            } else {
                MessageView::VerifyDone(false, "Verification FAILED - data may be corrupted"@)
            }
        }),
{
    run_on_track(run.next(EventView::Size(Some(n))).0, files, n, events);
}

/// A verification of `n` bytes that reads both files undisturbed, up to `n` bytes or to the end,
/// comes to its end, and succeeds exactly where the digests of what was read are the same. Where
/// both files have `n` bytes, these are just the first `n` of each.
pub proof fn verification_comes_to_its_end(
    run: RunView,
    n: u64,
    source: Seq<Seq<u8>>,
    device: Seq<Seq<u8>>,
)
    requires
        n > 0,
        run.stage is Size,
        can_be_read(source, n as int),
        can_be_read(device, n as int),
    ensures
        ({
            let end = after(
                run,
                seq![EventView::Size(Some(n))] + verify_events(n, source, device),
            );
            let same = hashing::sha256(content(source)) == hashing::sha256(content(device));
            &&& end.0.stage is Over
            &&& end.1.len() > 0
            &&& end.1.last() == if same {
                MessageView::VerifyDone(true, "Flash verified successfully!"@)
            } else {
                MessageView::VerifyDone(false, "Verification FAILED - data may be corrupted"@)
            }
        }),
        content(source).len() <= n,
        content(device).len() <= n,
{
    let first = seq![EventView::Size(Some(n))];
    let rest = verify_events(n, source, device);
    reveal_with_fuel(after, 2);
    assert(first.drop_last() =~= seq![]);
    after_concat(run, first, rest);
    laws::verification_compares_digests(after(run, first).0, n, source, device);
    let end = after(run, first + rest);
    assert(end.1.last() == after(after(run, first).0, rest).1.last());
    read_within(source, n as int);
    read_within(device, n as int);
}

proof fn read_within(chunks: Seq<Seq<u8>>, left: int)
    requires
        can_be_read(chunks, left),
        left >= 0,
    ensures
        content(chunks).len() <= left,
    decreases chunks.len(),
{
    if chunks.len() > 0 {
        read_within(chunks.drop_first(), left - chunks[0].len());
    }
}

} // verus!

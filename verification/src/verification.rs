//! Verifying a flash: the image and the device must begin with the same bytes.
use vstd::prelude::*;
use vstd::string::*;

use crate::hashing;
use crate::hashing::{HashRun, HashView, MAX_HASHED};
use crate::job::{Action, ActionView, Event, EventView, Step, Target};
use crate::message;
use crate::message::{both, log, log_with, only, status, Message, MessageView, Share};

verus! {

// ---------------------------------------------------------------------------
// Hexadecimal text
// ---------------------------------------------------------------------------

/// The lower-case hexadecimal digit of `n`.
pub open spec fn hex_digit(n: u8) -> char {
    if n < 10 {
        (('0' as u8) + n) as char
    } else {
        (('a' as u8) + (n - 10)) as char
    }
}

/// `data` in hexadecimal, two digits a byte, the high one first.
pub open spec fn hex_text(data: Seq<u8>) -> Seq<char>
    decreases data.len(),
{
    if data.len() == 0 {
        seq![]
    } else {
        hex_text(data.drop_last()) + seq![
            hex_digit(data.last() / 16),
            hex_digit(data.last() % 16),
        ]
    }
}

/// Calls `hex::encode`: every byte becomes two lower-case hexadecimal digits, the high one first.
/// The text must not be longer than a text can be.
#[verifier::external_body]
fn encode_hex(data: &Vec<u8>) -> (r: String)
    requires
        2 * data@.len() <= isize::MAX,
    ensures
        r@ == hex_text(data@),
{
    hex::encode(data)
}

// ---------------------------------------------------------------------------
// The run
// ---------------------------------------------------------------------------

/// A verification that is under way, by what it waits for.
pub enum VerifyRun {
    /// The image being opened, to hash so many bytes of it.
    OpenSource(u64),
    /// A look at the user's wish to cancel.
    PollSource(HashRun),
    /// Bytes of the image.
    ReadSource(HashRun),
    /// The device being opened; the image has this digest.
    OpenDevice(u64, Vec<u8>),
    /// A look at the user's wish to cancel.
    PollDevice(HashRun, Vec<u8>),
    /// Bytes of the device.
    ReadDevice(HashRun, Vec<u8>),
}

/// The contents of a [`VerifyRun`].
pub enum VerifyView {
    OpenSource(u64),
    PollSource(HashView),
    ReadSource(HashView),
    OpenDevice(u64, Seq<u8>),
    PollDevice(HashView, Seq<u8>),
    ReadDevice(HashView, Seq<u8>),
}

impl View for VerifyRun {
    type V = VerifyView;

    open spec fn view(&self) -> VerifyView {
        match *self {
            VerifyRun::OpenSource(n) => VerifyView::OpenSource(n),
            VerifyRun::PollSource(h) => VerifyView::PollSource(h@),
            VerifyRun::ReadSource(h) => VerifyView::ReadSource(h@),
            VerifyRun::OpenDevice(n, d) => VerifyView::OpenDevice(n, d@),
            VerifyRun::PollDevice(h, d) => VerifyView::PollDevice(h@, d@),
            VerifyRun::ReadDevice(h, d) => VerifyView::ReadDevice(h@, d@),
        }
    }
}

impl VerifyRun {
    /// The run hashed no more than it was asked to.
    pub open spec fn valid(&self) -> bool {
        match *self {
            VerifyRun::OpenSource(_) => true,
            VerifyRun::PollSource(h) => h.valid() && h@.data.len() <= MAX_HASHED,
            VerifyRun::ReadSource(h) => h.valid() && h@.data.len() <= MAX_HASHED,
            VerifyRun::OpenDevice(_, _) => true,
            VerifyRun::PollDevice(h, _) => h.valid() && h@.data.len() <= MAX_HASHED,
            VerifyRun::ReadDevice(h, _) => h.valid() && h@.data.len() <= MAX_HASHED,
        }
    }
}

/// The lengths that a hasher can count are not left on `event`.
pub open spec fn verify_room(st: VerifyView, event: EventView) -> bool {
    match (st, event) {
        (VerifyView::ReadSource(h), EventView::Chunk(c)) => h.data.len() + c.len() <= MAX_HASHED,
        (VerifyView::ReadDevice(h, _), EventView::Chunk(c)) => h.data.len() + c.len()
            <= MAX_HASHED,
        _ => true,
    }
}

/// What a verification asks for.
pub open spec fn verify_asks(st: VerifyView) -> ActionView {
    match st {
        VerifyView::OpenSource(_) => ActionView::OpenTarget(Target::Image),
        VerifyView::PollSource(_) => ActionView::Poll,
        VerifyView::ReadSource(h) => ActionView::ReadTarget(h.wants() as usize),
        VerifyView::OpenDevice(_, _) => ActionView::OpenTarget(Target::Device),
        VerifyView::PollDevice(_, _) => ActionView::Poll,
        VerifyView::ReadDevice(h, _) => ActionView::ReadTarget(h.wants() as usize),
    }
}

/// How a verification of `size` bytes starts, and what it reports. Of no bytes there is nothing to
/// verify.
pub open spec fn verify_start(size: u64) -> (Step<VerifyView>, Seq<MessageView>) {
    if size == 0 {
        (
            Step::Ended(false),
            seq![
                message::log_text("Cannot verify: unknown size"@),
                MessageView::VerifyDone(false, "Verification skipped (unknown size)"@),
            ],
        )
    } else {
        (
            Step::Next(VerifyView::OpenSource(size)),
            seq![
                message::log_text("Verifying flash..."@),
                message::status_text("Verifying..."@),
                MessageView::VerifyProgress(Share { halves: 0, done: 0, total: 1 }),
            ],
        )
    }
}

/// The end of a verification that was cancelled or could not read a file.
pub open spec fn verify_broken() -> (Step<VerifyView>, Seq<MessageView>) {
    (
        Step::Ended(false),
        seq![
            message::log_text("Verification cancelled or failed"@),
            MessageView::VerifyDone(false, "Verification failed"@),
        ],
    )
}

/// What follows once the image is hashed.
pub open spec fn source_hashed(h: HashView) -> (Step<VerifyView>, Seq<MessageView>) {
    let digest = hashing::sha256(h.data);
    (
        Step::Next(VerifyView::OpenDevice(h.total, digest)),
        seq![
            message::log_text("Source SHA256: "@ + hex_text(digest)),
            MessageView::VerifyProgress(Share { halves: 1, done: 0, total: 1 }),
        ],
    )
}

/// What follows once the device is hashed, too: whether its digest is that of the image.
pub open spec fn device_hashed(h: HashView, source: Seq<u8>) -> (
    Step<VerifyView>,
    Seq<MessageView>,
) {
    let digest = hashing::sha256(h.data);
    let first = message::log_text("Device SHA256: "@ + hex_text(digest));
    let second = MessageView::VerifyProgress(Share { halves: 2, done: 0, total: 1 });
    if source == digest {
        (
            Step::Ended(true),
            seq![
                first,
                second,
                message::log_text("Verification PASSED - hashes match"@),
                MessageView::VerifyDone(true, "Flash verified successfully!"@),
            ],
        )
    } else {
        (
            Step::Ended(false),
            seq![
                first,
                second,
                message::log_text("Verification FAILED - hashes differ"@),
                MessageView::VerifyDone(false, "Verification FAILED - data may be corrupted"@),
            ],
        )
    }
}

/// Where a verification goes from `st` on `event`, and what it reports. An event that is no answer
/// to what it asked for changes nothing.
pub open spec fn verify_next(st: VerifyView, event: EventView) -> (
    Step<VerifyView>,
    Seq<MessageView>,
) {
    match (st, event) {
        (VerifyView::OpenSource(n), EventView::Ran) => (
            Step::Next(VerifyView::PollSource(HashView::start(n))),
            seq![],
        ),
        (VerifyView::OpenSource(_), EventView::Failed(_)) => verify_broken(),
        (VerifyView::PollSource(_), EventView::Polled(true)) => verify_broken(),
        (VerifyView::PollSource(h), EventView::Polled(false)) => if h.wants() == 0 {
            source_hashed(h)
        } else {
            (Step::Next(VerifyView::ReadSource(h)), seq![])
        },
        (VerifyView::ReadSource(_), EventView::Failed(_)) => verify_broken(),
        (VerifyView::ReadSource(h), EventView::Chunk(c)) if c.len() <= h.wants() => if c.len()
            == 0 {
            source_hashed(h)
        } else {
            (Step::Next(VerifyView::PollSource(h.with(c))), seq![])
        },
        (VerifyView::OpenDevice(n, d), EventView::Ran) => (
            Step::Next(VerifyView::PollDevice(HashView::start(n), d)),
            seq![],
        ),
        (VerifyView::OpenDevice(_, _), EventView::Failed(_)) => verify_broken(),
        (VerifyView::PollDevice(_, _), EventView::Polled(true)) => verify_broken(),
        (VerifyView::PollDevice(h, d), EventView::Polled(false)) => if h.wants() == 0 {
            device_hashed(h, d)
        } else {
            (Step::Next(VerifyView::ReadDevice(h, d)), seq![])
        },
        (VerifyView::ReadDevice(_, _), EventView::Failed(_)) => verify_broken(),
        (VerifyView::ReadDevice(h, d), EventView::Chunk(c)) if c.len() <= h.wants() => if c.len()
            == 0 {
            device_hashed(h, d)
        } else {
            (
                Step::Next(VerifyView::PollDevice(h.with(c), d)),
                seq![MessageView::VerifyProgress(h.with(c).share())],
            )
        },
        _ => (Step::Next(st), seq![]),
    }
}

/// The contents of where a verification stands.
pub open spec fn run_view(s: Step<VerifyRun>) -> Step<VerifyView> {
    match s {
        Step::Next(r) => Step::Next(r@),
        Step::Ended(ok) => Step::Ended(ok),
    }
}

/// The run that a verification goes on with is valid.
pub open spec fn step_valid(s: Step<VerifyRun>) -> bool {
    s matches Step::Next(r) ==> r.valid()
}

/// Starts to verify that the first `size` bytes of the device are those of the image.
pub fn verify_flash(size: u64) -> (r: (Step<VerifyRun>, Vec<Message>))
    ensures
        (run_view(r.0), message::message_views(r.1@)) == verify_start(size),
        step_valid(r.0),
{
    if size == 0 {
        (
            Step::Ended(false),
            both(
                log("Cannot verify: unknown size"),
                Message::VerifyDone(false, "Verification skipped (unknown size)".to_owned()),
            ),
        )
    } else {
        let v = vec![
            log("Verifying flash..."),
            status("Verifying..."),
            Message::VerifyProgress(Share { halves: 0, done: 0, total: 1 }),
        ];
        assert(message::message_views(v@) =~= verify_start(size).1);
        (Step::Next(VerifyRun::OpenSource(size)), v)
    }
}

/// Ends a verification that was cancelled or could not read a file.
fn break_off() -> (r: (Step<VerifyRun>, Vec<Message>))
    ensures
        (run_view(r.0), message::message_views(r.1@)) == verify_broken(),
        step_valid(r.0),
{
    (
        Step::Ended(false),
        both(
            log("Verification cancelled or failed"),
            Message::VerifyDone(false, "Verification failed".to_owned()),
        ),
    )
}

/// Goes on with the device once the image is hashed.
fn end_source(h: HashRun, total: u64) -> (r: (Step<VerifyRun>, Vec<Message>))
    requires
        h.valid(),
        h@.data.len() <= MAX_HASHED,
        total == h@.total,
    ensures
        (run_view(r.0), message::message_views(r.1@)) == source_hashed(h@),
        step_valid(r.0),
{
    let digest = h.digest();
    let line = log_with("Source SHA256: ", encode_hex(&digest).as_str());
    (
        Step::Next(VerifyRun::OpenDevice(total, digest)),
        both(line, Message::VerifyProgress(Share { halves: 1, done: 0, total: 1 })),
    )
}

/// Whether two digests are the same.
fn same_bytes(a: &Vec<u8>, b: &Vec<u8>) -> (r: bool)
    ensures
        r == (a@ == b@),
{
    if a.len() != b.len() {
        return false;
    }
    for i in 0..a.len()
        invariant
            a.len() == b.len(),
            forall|j: int| 0 <= j < i ==> a[j] == b[j],
    {
        if a[i] != b[i] {
            return false;
        }
    }
    assert(a@ =~= b@);
    true
}

/// Compares the digests once the device is hashed, too.
fn end_device(h: HashRun, source: Vec<u8>) -> (r: (Step<VerifyRun>, Vec<Message>))
    requires
        h.valid(),
        h@.data.len() <= MAX_HASHED,
    ensures
        (run_view(r.0), message::message_views(r.1@)) == device_hashed(h@, source@),
        step_valid(r.0),
{
    let digest = h.digest();
    let first = log_with("Device SHA256: ", encode_hex(&digest).as_str());
    let second = Message::VerifyProgress(Share { halves: 2, done: 0, total: 1 });
    if same_bytes(&source, &digest) {
        let v = vec![
            first,
            second,
            log("Verification PASSED - hashes match"),
            Message::VerifyDone(true, "Flash verified successfully!".to_owned()),
        ];
        assert(message::message_views(v@) =~= device_hashed(h@, source@).1);
        (Step::Ended(true), v)
    } else {
        let v = vec![
            first,
            second,
            log("Verification FAILED - hashes differ"),
            Message::VerifyDone(false, "Verification FAILED - data may be corrupted".to_owned()),
        ];
        assert(message::message_views(v@) =~= device_hashed(h@, source@).1);
        (Step::Ended(false), v)
    }
}

impl VerifyRun {
    /// What the verification asks for.
    pub fn pending(&self) -> (r: Action)
        requires
            self.valid(),
        ensures
            r@ == verify_asks(self@),
    {
        match self {
            VerifyRun::OpenSource(_) => Action::OpenTarget(Target::Image),
            VerifyRun::PollSource(_) => Action::Poll,
            VerifyRun::ReadSource(h) => Action::ReadTarget(h.next_len()),
            VerifyRun::OpenDevice(_, _) => Action::OpenTarget(Target::Device),
            VerifyRun::PollDevice(_, _) => Action::Poll,
            VerifyRun::ReadDevice(h, _) => Action::ReadTarget(h.next_len()),
        }
    }

    /// Whether the lengths that a hasher can count are not left on `event`.
    pub fn has_room(&self, event: &Event) -> (r: bool)
        requires
            self.valid(),
        ensures
            r == verify_room(self@, event@),
    {
        match (self, event) {
            (VerifyRun::ReadSource(h), Event::Chunk(c)) => h.has_room(c.len()),
            (VerifyRun::ReadDevice(h, _), Event::Chunk(c)) => h.has_room(c.len()),
            _ => true,
        }
    }

    /// Takes the verification on by one event.
    pub fn step(self, event: &Event) -> (r: (Step<VerifyRun>, Vec<Message>))
        requires
            self.valid(),
            verify_room(self@, event@),
        ensures
            (run_view(r.0), message::message_views(r.1@)) == verify_next(self@, event@),
            step_valid(r.0),
    {
        let none: Vec<Message> = Vec::new();
        assert(message::message_views(none@) =~= seq![]);
        match self {
            VerifyRun::OpenSource(n) => match event {
                Event::Ran => (Step::Next(VerifyRun::PollSource(HashRun::new(n))), none),
                Event::Failed(_) => break_off(),
                _ => (Step::Next(VerifyRun::OpenSource(n)), none),
            },
            VerifyRun::PollSource(h) => match event {
                Event::Polled(cancelled) => {
                    if *cancelled {
                        break_off()
                    } else if h.next_len() == 0 {
                        let total: u64 = h.total();
                        end_source(h, total)
                    } else {
                        (Step::Next(VerifyRun::ReadSource(h)), none)
                    }
                },
                _ => (Step::Next(VerifyRun::PollSource(h)), none),
            },
            VerifyRun::ReadSource(h) => match event {
                Event::Failed(_) => break_off(),
                Event::Chunk(c) => {
                    if c.len() > h.next_len() {
                        (Step::Next(VerifyRun::ReadSource(h)), none)
                    } else if c.len() == 0 {
                        let total: u64 = h.total();
                        end_source(h, total)
                    } else {
                        (Step::Next(VerifyRun::PollSource(h.absorb(c))), none)
                    }
                },
                _ => (Step::Next(VerifyRun::ReadSource(h)), none),
            },
            VerifyRun::OpenDevice(n, d) => match event {
                Event::Ran => (Step::Next(VerifyRun::PollDevice(HashRun::new(n), d)), none),
                Event::Failed(_) => break_off(),
                _ => (Step::Next(VerifyRun::OpenDevice(n, d)), none),
            },
            VerifyRun::PollDevice(h, d) => match event {
                Event::Polled(cancelled) => {
                    if *cancelled {
                        break_off()
                    } else if h.next_len() == 0 {
                        end_device(h, d)
                    } else {
                        (Step::Next(VerifyRun::ReadDevice(h, d)), none)
                    }
                },
                _ => (Step::Next(VerifyRun::PollDevice(h, d)), none),
            },
            VerifyRun::ReadDevice(h, d) => match event {
                Event::Failed(_) => break_off(),
                Event::Chunk(c) => {
                    if c.len() > h.next_len() {
                        (Step::Next(VerifyRun::ReadDevice(h, d)), none)
                    } else if c.len() == 0 {
                        end_device(h, d)
                    } else {
                        let g = h.absorb(c);
                        let told = only(Message::VerifyProgress(g.progress()));
                        (Step::Next(VerifyRun::PollDevice(g, d)), told)
                    }
                },
                _ => (Step::Next(VerifyRun::ReadDevice(h, d)), none),
            },
        }
    }
}

} // verus!

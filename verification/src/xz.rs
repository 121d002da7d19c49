//! Flashing an image that is compressed with XZ.
use vstd::prelude::*;
use vstd::string::*;

use crate::job::{Action, ActionView, Event, EventView, Facts, FactsView, Step};
use crate::message;
use crate::message::{
    log, log_with, only, text_piece, Message, MessageView, Piece, PieceView, MIB,
};

verus! {

/// What a decompression waits for.
#[derive(Clone, Copy, PartialEq, Eq, Structural)]
pub enum XzStage {
    /// The size of the compressed image.
    Size,
    /// The image, of so many bytes, being opened.
    Image(u64),
    /// The device being opened.
    Device(u64),
    /// The image being decompressed to the device.
    Decompress(u64),
}

/// What a decompression asks for at stage `st`.
pub open spec fn xz_asks(st: XzStage) -> ActionView {
    match st {
        XzStage::Size => ActionView::FileSize,
        XzStage::Image(_) => ActionView::OpenImage,
        XzStage::Device(_) => ActionView::OpenDevice,
        XzStage::Decompress(total) => ActionView::Decompress(total),
    }
}

/// The log line on the compressed image and its size.
pub open spec fn compressed_line(iso_path: Seq<char>, total: u64) -> MessageView {
    MessageView::Log(
        seq![
            PieceView::Text("XZ: "@ + iso_path + " ("@),
            PieceView::Tenths(total, MIB),
            PieceView::Text(" MB compressed)"@),
        ],
    )
}

/// The log line on the compressed image and its size.
fn compressed_log(iso_path: &str, total: u64) -> (r: Message)
    ensures
        r@ == compressed_line(iso_path@, total),
{
    let mut t = "XZ: ".to_owned();
    t.append(iso_path);
    t.append(" (");
    let v = vec![Piece::Text(t), Piece::Tenths(total, MIB), text_piece(" MB compressed)")];
    let m = Message::Log(v);
    assert(message::line_view(v@) =~= compressed_line(iso_path@, total)->Log_0);
    m
}

/// Where a decompression goes from stage `st` on `event`, and what it reports. An event that is no
/// answer to what it asked for changes nothing.
pub open spec fn xz_next(facts: FactsView, st: XzStage, event: EventView) -> (
    Step<XzStage>,
    Seq<MessageView>,
) {
    match (st, event) {
        (XzStage::Size, EventView::Size(size)) => {
            let total = match size {
                Some(n) => n,
                None => 0,
            };
            (
                Step::Next(XzStage::Image(total)),
                seq![compressed_line(facts.iso_path, total)],
            )
        },
        (XzStage::Image(total), EventView::Ran) => (Step::Next(XzStage::Device(total)), seq![]),
        (XzStage::Image(_), EventView::Failed(e)) => (
            Step::Ended(false),
            seq![message::log_text("Failed to open file: "@ + e)],
        ),
        (XzStage::Device(total), EventView::Ran) => (
            Step::Next(XzStage::Decompress(total)),
            seq![],
        ),
        (XzStage::Device(_), EventView::Failed(e)) => (
            Step::Ended(false),
            seq![message::log_text("Failed to open device: "@ + e)],
        ),
        (XzStage::Decompress(_), EventView::Ran) => (
            Step::Ended(true),
            seq![message::log_text("XZ decompression done."@)],
        ),
        (XzStage::Decompress(_), EventView::Stopped(cancelled, e)) => (
            Step::Ended(false),
            seq![
                message::log_text(
                    if cancelled {
                        "Cancelled by user"@
                    } else {
                        "Decompression error: "@ + e
                    },
                ),
            ],
        ),
        _ => (Step::Next(st), seq![]),
    }
}

/// What a decompression asks for at stage `st`.
pub fn xz_pending(st: XzStage) -> (r: Action)
    ensures
        r@ == xz_asks(st),
{
    match st {
        XzStage::Size => Action::FileSize,
        XzStage::Image(_) => Action::OpenImage,
        XzStage::Device(_) => Action::OpenDevice,
        XzStage::Decompress(total) => Action::Decompress(total),
    }
}

/// Takes a decompression from stage `st` on by one event.
pub fn xz_step(facts: &Facts, st: XzStage, event: &Event) -> (r: (Step<XzStage>, Vec<Message>))
    ensures
        (r.0, message::message_views(r.1@)) == xz_next(facts@, st, event@),
{
    let none: Vec<Message> = Vec::new();
    assert(message::message_views(none@) =~= seq![]);
    match (st, event) {
        (XzStage::Size, Event::Size(size)) => {
            let total: u64 = match size {
                Some(n) => *n,
                None => 0,
            };
            (
                Step::Next(XzStage::Image(total)),
                only(compressed_log(facts.iso_path.as_str(), total)),
            )
        },
        (XzStage::Image(total), Event::Ran) => (Step::Next(XzStage::Device(total)), none),
        (XzStage::Image(_), Event::Failed(e)) => (
            Step::Ended(false),
            only(log_with("Failed to open file: ", e.as_str())),
        ),
        (XzStage::Device(total), Event::Ran) => (Step::Next(XzStage::Decompress(total)), none),
        (XzStage::Device(_), Event::Failed(e)) => (
            Step::Ended(false),
            only(log_with("Failed to open device: ", e.as_str())),
        ),
        (XzStage::Decompress(_), Event::Ran) => (
            Step::Ended(true),
            only(log("XZ decompression done.")),
        ),
        (XzStage::Decompress(_), Event::Stopped(cancelled, e)) => {
            if *cancelled {
                (Step::Ended(false), only(log("Cancelled by user")))
            } else {
                (Step::Ended(false), only(log_with("Decompression error: ", e.as_str())))
            }
        },
        _ => (Step::Next(st), none),
    }
}

/// How much of a compressed image the decompression has consumed.
#[derive(Clone, Copy, PartialEq, Eq, Structural)]
pub struct ReadProgress {
    /// The size of the compressed image; 0 where it is unknown.
    pub total: u64,
    pub read_so_far: u64,
}

/// The status line of a decompression that has consumed `done` of `total` bytes.
pub open spec fn decompressing_line(done: u64, total: u64) -> MessageView {
    MessageView::Status(
        seq![
            PieceView::Text("Decompressing... "@),
            PieceView::Capped(done, total),
            PieceView::Text("%"@),
        ],
    )
}

/// The error with which a read of the compressed image is refused.
pub open spec fn read_refusal(cancelled: bool) -> Option<Seq<char>> {
    if cancelled {
        Some("cancelled"@)
    } else {
        None
    }
}

impl ReadProgress {
    /// With `n` more bytes consumed.
    pub open spec fn advanced(self, n: usize) -> ReadProgress {
        ReadProgress { total: self.total, read_so_far: (self.read_so_far + n) as u64 }
    }

    /// What is reported, where the size is known.
    pub open spec fn report(self) -> Option<MessageView> {
        if self.total > 0 {
            Some(decompressing_line(self.read_so_far, self.total))
        } else {
            None
        }
    }

    /// The start of a decompression of `total` bytes.
    pub fn new(total: u64) -> (r: ReadProgress)
        ensures
            r == (ReadProgress { total, read_so_far: 0 }),
    {
        ReadProgress { total, read_so_far: 0 }
    }

    /// The error with which a read of the compressed image is refused, before it is made: that the
    /// user has asked to cancel.
    pub fn refusal(&self, cancelled: bool) -> (r: Option<&'static str>)
        ensures
            r is Some <==> cancelled,
            r matches Some(t) ==> t@ == "cancelled"@,
            r matches Some(t) ==> read_refusal(cancelled) == Some(t@),
            r is None ==> read_refusal(cancelled) is None,
    {
        if cancelled {
            Some("cancelled")
        } else {
            None
        }
    }

    /// Counts `n` more bytes, and reports on them where the size is known.
    pub fn advance(&mut self, n: usize) -> (r: Option<Message>)
        requires
            old(self).read_so_far + n <= u64::MAX,
        ensures
            final(self).total == old(self).total,
            final(self).read_so_far == old(self).read_so_far + n,
            *final(self) == old(self).advanced(n),
            r matches Some(m) ==> final(self).report() == Some(m@),
            r is None ==> final(self).report() is None,
            r is Some <==> old(self).total > 0,
            r matches Some(m) ==> m@ == decompressing_line(
                final(self).read_so_far,
                final(self).total,
            ),
    {
        self.read_so_far = self.read_so_far + n as u64;
        if self.total > 0 {
            let v = vec![
                text_piece("Decompressing... "),
                Piece::Capped(self.read_so_far, self.total),
                text_piece("%"),
            ];
            let m = Message::Status(v);
            assert(message::line_view(v@) =~= decompressing_line(
                self.read_so_far,
                self.total,
            )->Status_0);
            Some(m)
        } else {
            None
        }
    }
}

} // verus!

//! Copying bytes to a device piece by piece: a plain image on Windows, or an entry of an archive.
use vstd::prelude::*;
use vstd::string::*;

use crate::dd;
use crate::dd::{device_log, flashing_status, image_log};
use crate::job::{Action, ActionView, Event, EventView, Facts, FactsView, Step};
use crate::message;
use crate::message::{
    both, log, log_with, only, text_piece, Message, MessageView, Piece, PieceView, MIB,
};
use crate::text;
use crate::text::decimal_text;

verus! {

/// What is copied.
#[derive(Clone, Copy, PartialEq, Eq, Structural)]
pub enum Source {
    /// The image itself.
    Image,
    /// An entry of an archive.
    Entry,
}

/// A copy that is under way.
#[derive(Clone, Copy, PartialEq, Eq, Structural)]
pub struct Copying {
    pub source: Source,
    /// The number of bytes to expect; 0 where it is unknown.
    pub total: u64,
    /// The number of bytes written so far.
    pub written: u64,
}

/// What a copy waits for.
#[derive(Clone, Copy, PartialEq, Eq, Structural)]
pub enum CopyStage {
    /// The size of the image.
    Size,
    /// The image, of so many bytes, being opened.
    Image(u64),
    /// The device being opened.
    Device(u64),
    /// A look at the user's wish to cancel.
    Poll(Copying),
    /// Bytes of the source.
    Read(Copying),
    /// So many bytes being written.
    Write(Copying, usize),
}

/// The number of bytes that are read at once.
pub open spec fn piece_size(source: Source) -> usize {
    match source {
        Source::Image => 4_194_304,
        Source::Entry => 1_048_576,
    }
}

/// What a copy asks for at stage `st`.
pub open spec fn copy_asks(st: CopyStage) -> ActionView {
    match st {
        CopyStage::Size => ActionView::FileSize,
        CopyStage::Image(_) => ActionView::OpenImage,
        CopyStage::Device(_) => ActionView::OpenDevice,
        CopyStage::Poll(_) => ActionView::Poll,
        CopyStage::Read(c) => ActionView::Read(piece_size(c.source)),
        CopyStage::Write(_, n) => ActionView::Write(n),
    }
}

/// The count of bytes written still fits 64 bits after `event`.
pub open spec fn copy_room(st: CopyStage, event: EventView) -> bool {
    st matches CopyStage::Read(c) ==> event matches EventView::Read(n) ==> c.written + n
        <= u64::MAX
}

/// A write that is under way can be counted.
pub open spec fn copy_valid(st: CopyStage) -> bool {
    st matches CopyStage::Write(c, n) ==> c.written + n <= u64::MAX
}

/// The status line of an extraction of which `done` of `total` bytes are written.
pub open spec fn extracting_line(done: u64, total: u64) -> MessageView {
    MessageView::Status(
        seq![
            PieceView::Text("Extracting... "@),
            PieceView::Percent(done, total),
            PieceView::Text("% ("@),
            PieceView::Tenths(done, MIB),
            PieceView::Text(" / "@),
            PieceView::Tenths(total, MIB),
            PieceView::Text(" MB)"@),
        ],
    )
}

/// The status line of an extraction of which `done` of `total` bytes are written.
pub fn extracting_status(done: u64, total: u64) -> (r: Message)
    ensures
        r@ == extracting_line(done, total),
{
    let v = vec![
        text_piece("Extracting... "),
        Piece::Percent(done, total),
        text_piece("% ("),
        Piece::Tenths(done, MIB),
        text_piece(" / "),
        Piece::Tenths(total, MIB),
        text_piece(" MB)"),
    ];
    let m = Message::Status(v);
    assert(message::line_view(v@) =~= extracting_line(done, total)->Status_0);
    m
}

/// The messages on a copy that has reached `c.written` bytes. Of an entry of unknown size nothing
/// is reported.
pub open spec fn written_messages(c: Copying) -> Seq<MessageView> {
    match c.source {
        Source::Image => seq![
            MessageView::Progress(c.written, c.total),
            dd::flashing_line(c.written, c.total),
        ],
        Source::Entry => if c.total > 0 {
            seq![
                MessageView::Progress(c.written, c.total),
                extracting_line(c.written, c.total),
            ]
        } else {
            seq![]
        },
    }
}

/// Where a copy goes from stage `st` on `event`, and what it reports. An event that is no answer
/// to what it asked for changes nothing.
pub open spec fn copy_next(facts: FactsView, st: CopyStage, event: EventView) -> (
    Step<CopyStage>,
    Seq<MessageView>,
) {
    match (st, event) {
        (CopyStage::Size, EventView::Size(Some(total))) if total > 0 => (
            Step::Next(CopyStage::Image(total)),
            seq![dd::image_line(facts.iso_path, total), dd::device_line(facts)],
        ),
        (CopyStage::Size, EventView::Size(_)) => (
            Step::Ended(false),
            seq![message::log_text("Failed to get ISO file size"@)],
        ),
        (CopyStage::Image(total), EventView::Ran) => (Step::Next(CopyStage::Device(total)), seq![]),
        (CopyStage::Image(_), EventView::Failed(e)) => (
            Step::Ended(false),
            seq![message::log_text("Failed to open ISO: "@ + e)],
        ),
        (CopyStage::Device(total), EventView::Ran) => (
            Step::Next(CopyStage::Poll(Copying { source: Source::Image, total, written: 0 })),
            seq![],
        ),
        (CopyStage::Device(_), EventView::Failed(e)) => (
            Step::Ended(false),
            seq![message::log_text("Failed to open device (run as admin): "@ + e)],
        ),
        (CopyStage::Poll(_), EventView::Polled(true)) => (
            Step::Ended(false),
            seq![message::log_text("Cancelled by user"@)],
        ),
        (CopyStage::Poll(c), EventView::Polled(false)) => (Step::Next(CopyStage::Read(c)), seq![]),
        (CopyStage::Read(c), EventView::Read(0)) => (
            Step::Ended(true),
            match c.source {
                Source::Image => seq![],
                Source::Entry => seq![
                    message::log_text(
                        "Extraction done. "@ + text::decimal(c.written as nat)
                            + " bytes written."@,
                    ),
                ],
            },
        ),
        (CopyStage::Read(c), EventView::Read(n)) if n <= piece_size(c.source) => (
            Step::Next(CopyStage::Write(c, n)),
            seq![],
        ),
        (CopyStage::Read(c), EventView::Failed(e)) => (
            Step::Ended(false),
            seq![
                message::log_text(
                    match c.source {
                        Source::Image => "Read error: "@,
                        Source::Entry => "Extraction error: "@,
                    } + e,
                ),
            ],
        ),
        (CopyStage::Write(c, n), EventView::Ran) => {
            let d = Copying { written: (c.written + n) as u64, ..c };
            (Step::Next(CopyStage::Poll(d)), written_messages(d))
        },
        (CopyStage::Write(_, _), EventView::Failed(e)) => (
            Step::Ended(false),
            seq![message::log_text("Write error: "@ + e)],
        ),
        _ => (Step::Next(st), seq![]),
    }
}

/// What a copy asks for at stage `st`.
pub fn copy_pending(st: CopyStage) -> (r: Action)
    ensures
        r@ == copy_asks(st),
{
    match st {
        CopyStage::Size => Action::FileSize,
        CopyStage::Image(_) => Action::OpenImage,
        CopyStage::Device(_) => Action::OpenDevice,
        CopyStage::Poll(_) => Action::Poll,
        CopyStage::Read(c) => Action::Read(piece_len(c.source)),
        CopyStage::Write(_, n) => Action::Write(n),
    }
}

/// The number of bytes that are read at once.
fn piece_len(source: Source) -> (r: usize)
    ensures
        r == piece_size(source),
{
    match source {
        Source::Image => 4_194_304,
        Source::Entry => 1_048_576,
    }
}

/// Whether the count of bytes written still fits 64 bits after `event`.
pub fn has_copy_room(st: CopyStage, event: &Event) -> (r: bool)
    ensures
        r == copy_room(st, event@),
{
    match (st, event) {
        (CopyStage::Read(c), Event::Read(n)) => *n as u64 <= u64::MAX - c.written,
        _ => true,
    }
}

/// The messages on a copy that has reached `c.written` bytes.
fn report_written(c: Copying) -> (r: Vec<Message>)
    ensures
        message::message_views(r@) == written_messages(c),
{
    match c.source {
        Source::Image => both(
            Message::Progress(c.written, c.total),
            flashing_status(c.written, c.total),
        ),
        Source::Entry => if c.total > 0 {
            both(Message::Progress(c.written, c.total), extracting_status(c.written, c.total))
        } else {
            let none: Vec<Message> = Vec::new();
            assert(message::message_views(none@) =~= seq![]);
            none
        },
    }
}

/// Takes a copy from stage `st` on by one event.
pub fn copy_step(facts: &Facts, st: CopyStage, event: &Event) -> (r: (
    Step<CopyStage>,
    Vec<Message>,
))
    requires
        copy_valid(st),
        copy_room(st, event@),
    ensures
        (r.0, message::message_views(r.1@)) == copy_next(facts@, st, event@),
        r.0 matches Step::Next(s) ==> copy_valid(s),
{
    let none: Vec<Message> = Vec::new();
    assert(message::message_views(none@) =~= seq![]);
    match (st, event) {
        (CopyStage::Size, Event::Size(size)) => {
            let total: u64 = match size {
                Some(n) => *n,
                None => 0,
            };
            if total == 0 {
                (Step::Ended(false), only(log("Failed to get ISO file size")))
            } else {
                (
                    Step::Next(CopyStage::Image(total)),
                    both(image_log(facts.iso_path.as_str(), total), device_log(facts)),
                )
            }
        },
        (CopyStage::Image(total), Event::Ran) => (Step::Next(CopyStage::Device(total)), none),
        (CopyStage::Image(_), Event::Failed(e)) => (
            Step::Ended(false),
            only(log_with("Failed to open ISO: ", e.as_str())),
        ),
        (CopyStage::Device(total), Event::Ran) => (
            Step::Next(CopyStage::Poll(Copying { source: Source::Image, total, written: 0 })),
            none,
        ),
        (CopyStage::Device(_), Event::Failed(e)) => (
            Step::Ended(false),
            only(log_with("Failed to open device (run as admin): ", e.as_str())),
        ),
        (CopyStage::Poll(c), Event::Polled(cancelled)) => {
            if *cancelled {
                (Step::Ended(false), only(log("Cancelled by user")))
            } else {
                (Step::Next(CopyStage::Read(c)), none)
            }
        },
        (CopyStage::Read(c), Event::Read(n)) => {
            if *n == 0 {
                match c.source {
                    Source::Image => (Step::Ended(true), none),
                    Source::Entry => {
                        let mut t = "Extraction done. ".to_owned();
                        t.append(decimal_text(c.written).as_str());
                        t.append(" bytes written.");
                        (Step::Ended(true), only(log(t.as_str())))
                    },
                }
            } else if *n <= piece_len(c.source) {
                (Step::Next(CopyStage::Write(c, *n)), none)
            } else {
                (Step::Next(st), none)
            }
        },
        (CopyStage::Read(c), Event::Failed(e)) => {
            let lead = match c.source {
                Source::Image => "Read error: ",
                Source::Entry => "Extraction error: ",
            };
            (Step::Ended(false), only(log_with(lead, e.as_str())))
        },
        (CopyStage::Write(c, n), Event::Ran) => {
            let d = Copying {
                source: c.source,
                total: c.total,
                written: c.written + n as u64,
            };
            (Step::Next(CopyStage::Poll(d)), report_written(d))
        },
        (CopyStage::Write(_, _), Event::Failed(e)) => (
            Step::Ended(false),
            only(log_with("Write error: ", e.as_str())),
        ),
        _ => (Step::Next(st), none),
    }
}

} // verus!

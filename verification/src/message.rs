//! What a flash job reports to the window, and the devices that it offers.
use vstd::prelude::*;
use vstd::string::*;

verus! {

/// A drive that an image can be flashed to.
#[derive(Clone)]
pub struct UsbDevice {
    pub path: String,
    pub label: String,
    pub size: u64,
}

/// The contents of a [`UsbDevice`].
#[verifier::ext_equal]
pub struct UsbDeviceView {
    pub path: Seq<char>,
    pub label: Seq<char>,
    pub size: u64,
}

impl View for UsbDevice {
    type V = UsbDeviceView;

    open spec fn view(&self) -> UsbDeviceView {
        UsbDeviceView { path: self.path@, label: self.label@, size: self.size }
    }
}

/// The contents of a list of devices.
pub open spec fn device_views(v: Seq<UsbDevice>) -> Seq<UsbDeviceView> {
    v.map_values(|d: UsbDevice| d@)
}

/// A piece of a line of text. Quotients are shown with the precision of a 64-bit float.
pub enum Piece {
    /// Text as it stands.
    Text(String),
    /// The first number divided by the second, with one decimal.
    Tenths(u64, u64),
    /// The first number divided by the second, with all its decimals.
    Full(u64, u64),
    /// The first number in percent of the second, with one decimal.
    Percent(u64, u64),
    /// The first number in percent of the second, but at most 100, with one decimal.
    Capped(u64, u64),
}

/// The contents of a [`Piece`].
pub enum PieceView {
    Text(Seq<char>),
    Tenths(u64, u64),
    Full(u64, u64),
    Percent(u64, u64),
    Capped(u64, u64),
}

impl View for Piece {
    type V = PieceView;

    open spec fn view(&self) -> PieceView {
        match *self {
            Piece::Text(t) => PieceView::Text(t@),
            Piece::Tenths(a, b) => PieceView::Tenths(a, b),
            Piece::Full(a, b) => PieceView::Full(a, b),
            Piece::Percent(a, b) => PieceView::Percent(a, b),
            Piece::Capped(a, b) => PieceView::Capped(a, b),
        }
    }
}

/// The contents of a line.
pub open spec fn line_view(v: Seq<Piece>) -> Seq<PieceView> {
    v.map_values(|p: Piece| p@)
}

/// The size in bytes of a mebibyte, which the messages call MB.
pub const MIB: u64 = 1_048_576;

/// How far a verification is: so many halves, and of one more half the part `done / total`.
#[derive(Clone, Copy, PartialEq, Eq, Structural)]
pub struct Share {
    pub halves: u8,
    pub done: u64,
    pub total: u64,
}

impl Share {
    /// The share lies between nothing and the whole.
    pub open spec fn valid(self) -> bool {
        &&& self.total > 0
        &&& self.done <= self.total
        &&& self.halves <= 2
        &&& self.halves == 2 ==> self.done == 0
    }

    /// `self` is at most `other`.
    pub open spec fn at_most(self, other: Share) -> bool {
        (self.halves * self.total + self.done) * other.total <= (other.halves * other.total
            + other.done) * self.total
    }
}

/// What a flash job tells the window.
pub enum Message {
    /// Bytes written, of so many.
    Progress(u64, u64),
    /// The job is over, with or without success.
    Done(bool, Option<String>),
    /// A line for the log.
    Log(Vec<Piece>),
    /// The line under the progress bar.
    Status(Vec<Piece>),
    /// How far the verification is.
    VerifyProgress(Share),
    /// The job is over after a verification, with its outcome.
    VerifyDone(bool, String),
}

/// The contents of a [`Message`].
pub enum MessageView {
    Progress(u64, u64),
    Done(bool, Option<Seq<char>>),
    Log(Seq<PieceView>),
    Status(Seq<PieceView>),
    VerifyProgress(Share),
    VerifyDone(bool, Seq<char>),
}

impl View for Message {
    type V = MessageView;

    open spec fn view(&self) -> MessageView {
        match *self {
            Message::Progress(a, b) => MessageView::Progress(a, b),
            Message::Done(ok, note) => MessageView::Done(
                ok,
                match note {
                    Some(t) => Some(t@),
                    None => None,
                },
            ),
            Message::Log(l) => MessageView::Log(line_view(l@)),
            Message::Status(l) => MessageView::Status(line_view(l@)),
            Message::VerifyProgress(s) => MessageView::VerifyProgress(s),
            Message::VerifyDone(ok, t) => MessageView::VerifyDone(ok, t@),
        }
    }
}

/// The contents of a list of messages.
pub open spec fn message_views(v: Seq<Message>) -> Seq<MessageView> {
    v.map_values(|m: Message| m@)
}

impl MessageView {
    /// The message ends its job.
    pub open spec fn ends_job(self) -> bool {
        self is Done || self is VerifyDone
    }
}

/// A line of one text.
pub open spec fn one_text(t: Seq<char>) -> Seq<PieceView> {
    seq![PieceView::Text(t)]
}

/// A log line of one text.
pub open spec fn log_text(t: Seq<char>) -> MessageView {
    MessageView::Log(one_text(t))
}

/// A status line of one text.
pub open spec fn status_text(t: Seq<char>) -> MessageView {
    MessageView::Status(one_text(t))
}

/// A piece of text.
pub fn text_piece(t: &str) -> (r: Piece)
    ensures
        r@ == PieceView::Text(t@),
{
    Piece::Text(t.to_owned())
}

/// A line of one text.
pub fn plain(t: &str) -> (r: Vec<Piece>)
    ensures
        line_view(r@) == one_text(t@),
{
    let v = vec![text_piece(t)];
    assert(line_view(v@) =~= one_text(t@));
    v
}

/// A log line of one text.
pub fn log(t: &str) -> (r: Message)
    ensures
        r@ == log_text(t@),
{
    Message::Log(plain(t))
}

/// A log line of two texts, one behind the other.
pub fn log_with(t: &str, u: &str) -> (r: Message)
    ensures
        r@ == log_text(t@ + u@),
{
    let mut s = t.to_owned();
    s.append(u);
    log(s.as_str())
}

/// A status line of one text.
pub fn status(t: &str) -> (r: Message)
    ensures
        r@ == status_text(t@),
{
    Message::Status(plain(t))
}

/// A list of one message.
pub fn only(m: Message) -> (r: Vec<Message>)
    ensures
        message_views(r@) == seq![m@],
{
    let v = vec![m];
    assert(message_views(v@) =~= seq![m@]);
    v
}

/// A list of two messages.
pub fn both(m: Message, n: Message) -> (r: Vec<Message>)
    ensures
        message_views(r@) == seq![m@, n@],
{
    let v = vec![m, n];
    assert(message_views(v@) =~= seq![m@, n@]);
    v
}

} // verus!

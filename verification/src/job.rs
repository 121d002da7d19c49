//! What a flash job is about, what it asks the outside to do, and what it hears back.
//!
//! A job never touches a file or a process itself. It names the one thing that it waits for (an
//! [`Action`]), is told how that went (an [`Event`]), and goes on from there.
use vstd::prelude::*;
use vstd::string::*;

verus! {

/// The operating system that a job runs on.
#[derive(Clone, Copy, PartialEq, Eq, Structural)]
pub enum Platform {
    Linux,
    Windows,
    MacOs,
    Other,
}

/// What a job works on.
pub struct Facts {
    /// The image.
    pub iso_path: String,
    /// The device.
    pub dev_path: String,
    /// The device as the window names it.
    pub dev_label: String,
}

/// The contents of [`Facts`].
pub struct FactsView {
    pub iso_path: Seq<char>,
    pub dev_path: Seq<char>,
    pub dev_label: Seq<char>,
}

impl View for Facts {
    type V = FactsView;

    open spec fn view(&self) -> FactsView {
        FactsView {
            iso_path: self.iso_path@,
            dev_path: self.dev_path@,
            dev_label: self.dev_label@,
        }
    }
}

/// An entry of a ZIP archive.
pub struct ZipEntry {
    pub name: String,
    /// Its size once extracted.
    pub size: u64,
}

/// The contents of a [`ZipEntry`].
pub struct ZipEntryView {
    pub name: Seq<char>,
    pub size: u64,
}

impl View for ZipEntry {
    type V = ZipEntryView;

    open spec fn view(&self) -> ZipEntryView {
        ZipEntryView { name: self.name@, size: self.size }
    }
}

/// The contents of a list of entries, in which an entry that cannot be read is missing.
pub open spec fn entry_views(v: Seq<Option<ZipEntry>>) -> Seq<Option<ZipEntryView>> {
    v.map_values(
        |e: Option<ZipEntry>|
            match e {
                Some(x) => Some(x@),
                None => None,
            },
    )
}

/// A file whose contents are hashed.
#[derive(Clone, Copy, PartialEq, Eq, Structural)]
pub enum Target {
    Image,
    Device,
}

/// What a job waits for.
pub enum Action {
    /// Run a command, and report what it wrote as [`Event::Output`].
    Output(Vec<String>),
    /// Run a command to its end, whatever comes of it: [`Event::Ran`].
    Run(Vec<String>),
    /// Start a command and keep its error output: [`Event::Ran`] or [`Event::Failed`].
    Spawn(Vec<String>),
    /// Wait for the next line of that output: [`Event::Line`] or [`Event::End`].
    NextLine,
    /// Kill that command and wait for its end: [`Event::Ran`].
    Kill,
    /// Wait for the end of that command: [`Event::Exited`].
    Wait,
    /// Look up the size of the image file: [`Event::Size`].
    FileSize,
    /// Look up the size of the first entry of the archive: [`Event::Size`].
    FirstEntrySize,
    /// Open the image: [`Event::Ran`] or [`Event::Failed`].
    OpenImage,
    /// Open the device for writing: [`Event::Ran`] or [`Event::Failed`].
    OpenDevice,
    /// Look whether the user has asked to cancel: [`Event::Polled`].
    Poll,
    /// Read up to so many bytes of the image, or of the archive's open entry: [`Event::Read`] or
    /// [`Event::Failed`].
    Read(usize),
    /// Write the bytes that were just read, so many, to the device: [`Event::Ran`] or
    /// [`Event::Failed`].
    Write(usize),
    /// Read the directory of the archive: [`Event::Counted`] or [`Event::Failed`].
    OpenArchive,
    /// List the entries of the archive: [`Event::Entries`].
    ListEntries,
    /// Open an entry of the archive: [`Event::Entry`] or [`Event::Failed`].
    OpenEntry(usize),
    /// Decompress the image, a file of so many bytes, to the device: [`Event::Ran`] or
    /// [`Event::Stopped`].
    Decompress(u64),
    /// Open a file for reading from its start: [`Event::Ran`] or [`Event::Failed`].
    OpenTarget(Target),
    /// Read up to so many bytes of that file: [`Event::Chunk`] or [`Event::Failed`].
    ReadTarget(usize),
    /// Nothing: the job is over.
    Nothing,
}

/// The contents of an [`Action`].
pub enum ActionView {
    Output(Seq<Seq<char>>),
    Run(Seq<Seq<char>>),
    Spawn(Seq<Seq<char>>),
    NextLine,
    Kill,
    Wait,
    FileSize,
    FirstEntrySize,
    OpenImage,
    OpenDevice,
    Poll,
    Read(usize),
    Write(usize),
    OpenArchive,
    ListEntries,
    OpenEntry(usize),
    Decompress(u64),
    OpenTarget(Target),
    ReadTarget(usize),
    Nothing,
}

/// The words of a command.
pub open spec fn words(v: Seq<String>) -> Seq<Seq<char>> {
    v.map_values(|w: String| w@)
}

impl View for Action {
    type V = ActionView;

    open spec fn view(&self) -> ActionView {
        match *self {
            Action::Output(c) => ActionView::Output(words(c@)),
            Action::Run(c) => ActionView::Run(words(c@)),
            Action::Spawn(c) => ActionView::Spawn(words(c@)),
            Action::NextLine => ActionView::NextLine,
            Action::Kill => ActionView::Kill,
            Action::Wait => ActionView::Wait,
            Action::FileSize => ActionView::FileSize,
            Action::FirstEntrySize => ActionView::FirstEntrySize,
            Action::OpenImage => ActionView::OpenImage,
            Action::OpenDevice => ActionView::OpenDevice,
            Action::Poll => ActionView::Poll,
            Action::Read(n) => ActionView::Read(n),
            Action::Write(n) => ActionView::Write(n),
            Action::OpenArchive => ActionView::OpenArchive,
            Action::ListEntries => ActionView::ListEntries,
            Action::OpenEntry(i) => ActionView::OpenEntry(i),
            Action::Decompress(n) => ActionView::Decompress(n),
            Action::OpenTarget(t) => ActionView::OpenTarget(t),
            Action::ReadTarget(n) => ActionView::ReadTarget(n),
            Action::Nothing => ActionView::Nothing,
        }
    }
}

/// How the awaited thing went.
pub enum Event {
    /// The text that a command wrote, where it ran and wrote text.
    Output(Option<String>),
    /// It was done.
    Ran,
    /// It failed, with this error.
    Failed(String),
    /// A line came, or an error in its place; and whether the user had asked to cancel by then.
    Line(bool, Option<String>),
    /// No more lines will come.
    End,
    /// The command ended, with success or not.
    Exited(bool),
    /// A size, where it could be found out.
    Size(Option<u64>),
    /// Whether the user has asked to cancel.
    Polled(bool),
    /// So many bytes were read; none at the end of the file.
    Read(usize),
    /// The archive has so many entries.
    Counted(usize),
    /// The entries of the archive; one that cannot be read is missing.
    Entries(Vec<Option<ZipEntry>>),
    /// The entry that was opened.
    Entry(ZipEntry),
    /// The decompression stopped with this error; and whether the user had asked to cancel by
    /// then.
    Stopped(bool, String),
    /// The bytes that were read; none at the end of the file.
    Chunk(Vec<u8>),
}

/// The contents of an [`Event`].
pub enum EventView {
    Output(Option<Seq<char>>),
    Ran,
    Failed(Seq<char>),
    Line(bool, Option<Seq<char>>),
    End,
    Exited(bool),
    Size(Option<u64>),
    Polled(bool),
    Read(usize),
    Counted(usize),
    Entries(Seq<Option<ZipEntryView>>),
    Entry(ZipEntryView),
    Stopped(bool, Seq<char>),
    Chunk(Seq<u8>),
}

/// The contents of a text that may be missing.
pub open spec fn text_view(t: Option<String>) -> Option<Seq<char>> {
    match t {
        Some(s) => Some(s@),
        None => None,
    }
}

impl View for Event {
    type V = EventView;

    open spec fn view(&self) -> EventView {
        match *self {
            Event::Output(t) => EventView::Output(text_view(t)),
            Event::Ran => EventView::Ran,
            Event::Failed(e) => EventView::Failed(e@),
            Event::Line(c, t) => EventView::Line(c, text_view(t)),
            Event::End => EventView::End,
            Event::Exited(ok) => EventView::Exited(ok),
            Event::Size(n) => EventView::Size(n),
            Event::Polled(c) => EventView::Polled(c),
            Event::Read(n) => EventView::Read(n),
            Event::Counted(n) => EventView::Counted(n),
            Event::Entries(v) => EventView::Entries(entry_views(v@)),
            Event::Entry(e) => EventView::Entry(e@),
            Event::Stopped(c, e) => EventView::Stopped(c, e@),
            Event::Chunk(b) => EventView::Chunk(b@),
        }
    }
}

impl ActionView {
    /// `event` reports on this action.
    pub open spec fn answered_by(self, event: EventView) -> bool {
        match self {
            ActionView::Output(_) => event is Output,
            ActionView::Run(_) => event is Ran,
            ActionView::Spawn(_) => event is Ran || event is Failed,
            ActionView::NextLine => event is Line || event is End,
            ActionView::Kill => event is Ran,
            ActionView::Wait => event is Exited,
            ActionView::FileSize => event is Size,
            ActionView::FirstEntrySize => event is Size,
            ActionView::OpenImage => event is Ran || event is Failed,
            ActionView::OpenDevice => event is Ran || event is Failed,
            ActionView::Poll => event is Polled,
            ActionView::Read(n) => event is Failed || (event matches EventView::Read(k) && k <= n),
            ActionView::Write(_) => event is Ran || event is Failed,
            ActionView::OpenArchive => event is Counted || event is Failed,
            ActionView::ListEntries => event is Entries,
            ActionView::OpenEntry(_) => event is Entry || event is Failed,
            ActionView::Decompress(_) => event is Ran || event is Stopped,
            ActionView::OpenTarget(_) => event is Ran || event is Failed,
            ActionView::ReadTarget(n) => event is Failed || (event matches EventView::Chunk(b)
                && b.len() <= n),
            ActionView::Nothing => false,
        }
    }
}

/// Where a part of a job stands after an event.
pub enum Step<S> {
    /// It goes on at this stage.
    Next(S),
    /// It is over, with success or not.
    Ended(bool),
}

/// A command as a list of words.
pub fn command(v: Vec<&str>) -> (r: Vec<String>)
    ensures
        words(r@) == crate::text::texts(v@),
{
    let mut r: Vec<String> = Vec::new();
    for i in 0..v.len()
        invariant
            words(r@) == crate::text::texts(v@).take(i as int),
    {
        let w = v[i].to_owned();
        let ghost before = r@;
        r.push(w);
        proof {
            assert(words(r@) =~= words(before).push(w@));
            assert(crate::text::texts(v@).take(i + 1) =~= crate::text::texts(v@).take(
                i as int,
            ).push(v@[i as int]@));
        }
    }
    assert(crate::text::texts(v@).take(v@.len() as int) =~= crate::text::texts(v@));
    r
}

/// `a` and `b`, one behind the other.
pub fn joined(a: &str, b: &str) -> (r: String)
    ensures
        r@ == a@ + b@,
{
    let mut r = a.to_owned();
    r.append(b);
    r
}

} // verus!

//! Finding the USB drives that an image can be flashed to.
//!
//! The drives are listed by commands of the operating system. A [`Detection`] names the command that
//! it waits for, is told what came of it, and goes on from there.
use vstd::prelude::*;
use vstd::string::*;

use crate::job;
use crate::job::{command, Platform};
use crate::message;
use crate::message::{plain, text_piece, Piece, PieceView, UsbDevice, UsbDeviceView};
use crate::text;
use crate::text::{
    contains, decimal_text, find, lines, parse_u64, same, split, starts_with, strip_prefix,
    strip_suffix, take_digits, trim, trim_of, Class,
};

verus! {

// ---------------------------------------------------------------------------
// Sizes
// ---------------------------------------------------------------------------

/// The size of a drive as a command wrote it.
pub enum Size {
    /// A number of bytes.
    Bytes(u64),
    /// A number with decimals, as it is written, in units of so many bytes.
    Scaled(String, u64),
    /// No size.
    Unknown,
}

/// The contents of a [`Size`].
pub enum SizeView {
    Bytes(u64),
    Scaled(Seq<char>, u64),
    Unknown,
}

impl View for Size {
    type V = SizeView;

    open spec fn view(&self) -> SizeView {
        match *self {
            Size::Bytes(n) => SizeView::Bytes(n),
            Size::Scaled(t, unit) => SizeView::Scaled(t@, unit),
            Size::Unknown => SizeView::Unknown,
        }
    }
}

/// The size that a number without a unit stands for.
pub open spec fn plain_size(s: Seq<char>) -> SizeView {
    match text::number(s) {
        Some(n) => SizeView::Bytes(n),
        None => SizeView::Unknown,
    }
}

/// The units and the letters that stand for them, in the order in which they are looked for.
pub open spec fn units() -> Seq<(char, u64)> {
    seq![('G', 1_000_000_000u64), ('M', 1_000_000u64), ('T', 1_000_000_000_000u64)]
}

/// The size that `s`, a text in front of a `B`, stands for with the first of `units` that it ends
/// with.
pub open spec fn unit_size(s: Seq<char>, units: Seq<(char, u64)>) -> Option<SizeView>
    decreases units.len(),
{
    if units.len() == 0 {
        None
    } else {
        match text::before_last(s, units[0].0) {
            Some(n) => Some(SizeView::Scaled(text::trimmed(n), units[0].1)),
            None => unit_size(s, units.drop_first()),
        }
    }
}

/// The size that `s` stands for: a number in front of `GB`, `MB` or `TB`, or a plain number.
pub open spec fn written_size(s: Seq<char>) -> SizeView {
    let t = text::trimmed(s);
    match text::before_last(t, 'B') {
        Some(n) => match unit_size(text::trimmed(n), units()) {
            Some(size) => size,
            None => plain_size(t),
        },
        None => plain_size(t),
    }
}

/// Reads a number without a unit.
fn parse_plain(s: &str) -> (r: Size)
    ensures
        r@ == plain_size(s@),
{
    match parse_u64(s) {
        Some(n) => Size::Bytes(n),
        None => Size::Unknown,
    }
}

/// Reads the size of a drive. Only sizes in `GB`, `MB` and `TB` have a unit; a `B` behind anything
/// else makes no size.
pub fn parse_size(s: &str) -> (r: Size)
    ensures
        r@ == written_size(s@),
{
    proof {
        reveal_with_fuel(unit_size, 4);
        let u = units();
        assert(u.drop_first() =~= seq![u[1], u[2]]);
        assert(u.drop_first().drop_first() =~= seq![u[2]]);
        assert(u.drop_first().drop_first().drop_first() =~= seq![]);
    }
    let t = trim(s);
    match strip_suffix(t, 'B') {
        Some(front) => {
            let n = trim(front);
            if let Some(m) = strip_suffix(n, 'G') {
                Size::Scaled(trim(m).to_owned(), 1_000_000_000)
            } else if let Some(m) = strip_suffix(n, 'M') {
                Size::Scaled(trim(m).to_owned(), 1_000_000)
            } else if let Some(m) = strip_suffix(n, 'T') {
                Size::Scaled(trim(m).to_owned(), 1_000_000_000_000)
            } else {
                parse_plain(t)
            }
        },
        None => parse_plain(t),
    }
}

impl SizeView {
    /// The size in bytes, where `product` is that of a number with decimals and its unit; 0 where
    /// the size is not known.
    pub open spec fn in_bytes(self, product: Option<u64>) -> u64 {
        match self {
            SizeView::Bytes(n) => n,
            SizeView::Scaled(_, _) => match product {
                Some(n) => n,
                None => 0,
            },
            SizeView::Unknown => 0,
        }
    }
}

impl Size {
    /// The size in bytes, where `product` is that of a number with decimals and its unit; 0 where
    /// the size is not known.
    pub fn in_bytes(&self, product: Option<u64>) -> (r: u64)
        ensures
            r == self@.in_bytes(product),
    {
        match self {
            Size::Bytes(n) => *n,
            Size::Scaled(_, _) => match product {
                Some(n) => n,
                None => 0,
            },
            Size::Unknown => 0,
        }
    }
}

/// A size for the eye: with one decimal, in the largest of the units TB, GB and MB that it reaches.
pub open spec fn mac_size(bytes: u64) -> Seq<PieceView> {
    if bytes >= 1_000_000_000_000 {
        seq![PieceView::Tenths(bytes, 1_000_000_000_000), PieceView::Text(" TB"@)]
    } else if bytes >= 1_000_000_000 {
        seq![PieceView::Tenths(bytes, 1_000_000_000), PieceView::Text(" GB"@)]
    } else if bytes >= 1_000_000 {
        seq![PieceView::Tenths(bytes, 1_000_000), PieceView::Text(" MB"@)]
    } else {
        seq![PieceView::Text(text::decimal(bytes as nat) + " B"@)]
    }
}

/// Writes a size for the eye.
pub fn format_size_mac(bytes: u64) -> (r: Vec<Piece>)
    ensures
        message::line_view(r@) == mac_size(bytes),
{
    let v = if bytes >= 1_000_000_000_000 {
        vec![Piece::Tenths(bytes, 1_000_000_000_000), text_piece(" TB")]
    } else if bytes >= 1_000_000_000 {
        vec![Piece::Tenths(bytes, 1_000_000_000), text_piece(" GB")]
    } else if bytes >= 1_000_000 {
        vec![Piece::Tenths(bytes, 1_000_000), text_piece(" MB")]
    } else {
        let mut t = decimal_text(bytes);
        t.append(" B");
        vec![Piece::Text(t)]
    };
    assert(message::line_view(v@) =~= mac_size(bytes));
    v
}

// ---------------------------------------------------------------------------
// Drives
// ---------------------------------------------------------------------------

/// A drive that was found. What takes arithmetic with decimals, in its label and its size, is left
/// open.
pub struct Found {
    pub path: String,
    pub label: Vec<Piece>,
    pub size: Size,
}

/// The contents of a [`Found`].
pub struct FoundView {
    pub path: Seq<char>,
    pub label: Seq<PieceView>,
    pub size: SizeView,
}

impl View for Found {
    type V = FoundView;

    open spec fn view(&self) -> FoundView {
        FoundView { path: self.path@, label: message::line_view(self.label@), size: self.size@ }
    }
}

/// The contents of a list of drives.
pub open spec fn found_views(v: Seq<Found>) -> Seq<FoundView> {
    v.map_values(|d: Found| d@)
}

impl FoundView {
    /// The drive with its label written out, and with the product of the number and the unit of its
    /// size, where that has a unit.
    pub open spec fn settled(self, label: Seq<char>, product: Option<u64>) -> UsbDeviceView {
        UsbDeviceView { path: self.path, label, size: self.size.in_bytes(product) }
    }
}

impl Found {
    /// The drive with its label written out, and with the product of the number and the unit of its
    /// size, where that has a unit.
    pub fn settle(self, label: String, product: Option<u64>) -> (r: UsbDevice)
        ensures
            r@ == (UsbDeviceView {
                path: self@.path,
                label: label@,
                size: self@.size.in_bytes(product),
            }),
            r@ == self@.settled(label@, product),
    {
        let size: u64 = self.size.in_bytes(product);
        UsbDevice { path: self.path, label, size }
    }
}

/// What is there in `s`, in its order.
pub open spec fn kept<T>(s: Seq<Option<T>>) -> Seq<T>
    decreases s.len(),
{
    if s.len() == 0 {
        seq![]
    } else {
        match s.last() {
            Some(x) => kept(s.drop_last()).push(x),
            None => kept(s.drop_last()),
        }
    }
}

proof fn kept_grows<T>(s: Seq<Option<T>>, i: int)
    requires
        0 <= i < s.len(),
    ensures
        kept(s.take(i + 1)) == match s[i] {
            Some(x) => kept(s.take(i)).push(x),
            None => kept(s.take(i)),
        },
{
    assert(s.take(i + 1).drop_last() =~= s.take(i));
}

/// Whatever is kept of `s` stands in `s`.
pub proof fn kept_comes_from<T>(s: Seq<Option<T>>, i: int)
    requires
        0 <= i < kept(s).len(),
    ensures
        s.contains(Some(kept(s)[i])),
    decreases s.len(),
{
    if s.len() > 0 {
        let front = s.drop_last();
        if i < kept(front).len() {
            kept_comes_from(front, i);
            let k = choose|k: int| 0 <= k < front.len() && front[k] == Some(kept(front)[i]);
            assert(s[k] == Some(kept(s)[i]));
        } else {
            assert(s[s.len() - 1] == Some(kept(s)[i]));
        }
    }
}

// ---------------------------------------------------------------------------
// Linux
// ---------------------------------------------------------------------------

/// A drive as `lsblk` describes it.
pub struct LsblkDevice {
    pub name: String,
    pub size: String,
    pub model: Option<String>,
    /// How the drive is attached.
    pub tran: Option<String>,
}

/// The contents of a [`LsblkDevice`].
pub struct LsblkView {
    pub name: Seq<char>,
    pub size: Seq<char>,
    pub model: Option<Seq<char>>,
    pub tran: Option<Seq<char>>,
}

impl View for LsblkDevice {
    type V = LsblkView;

    open spec fn view(&self) -> LsblkView {
        LsblkView {
            name: self.name@,
            size: self.size@,
            model: job::text_view(self.model),
            tran: job::text_view(self.tran),
        }
    }
}

/// The contents of a list of drives.
pub open spec fn lsblk_views(v: Seq<LsblkDevice>) -> Seq<LsblkView> {
    v.map_values(|d: LsblkDevice| d@)
}

impl LsblkView {
    /// The drive is attached by USB.
    pub open spec fn by_usb(self) -> bool {
        self.tran == Some("usb"@)
    }

    /// The name is that of a disk.
    pub open spec fn is_disk(self) -> bool {
        ||| "/dev/sd"@.is_prefix_of(self.name)
        ||| "/dev/nvme"@.is_prefix_of(self.name)
        ||| "/dev/mmcblk"@.is_prefix_of(self.name)
    }

    /// The name, and in brackets the model, where it is known, and the size as it is written.
    pub open spec fn label(self) -> Seq<char> {
        match self.model {
            Some(m) => self.name + " ("@ + text::trimmed(m) + " - "@ + self.size + ")"@,
            None => self.name + " ("@ + self.size + ")"@,
        }
    }
}

/// The drive to offer: only a disk that is attached by USB is offered.
pub open spec fn linux_found(d: LsblkView) -> Option<FoundView> {
    if d.by_usb() && d.is_disk() {
        Some(
            FoundView {
                path: d.name,
                label: message::one_text(d.label()),
                size: written_size(d.size),
            },
        )
    } else {
        None
    }
}

/// The drives to offer of those that `lsblk` lists.
pub open spec fn linux_devices(list: Seq<LsblkView>) -> Seq<FoundView> {
    kept(list.map_values(|d: LsblkView| linux_found(d)))
}

/// Whether the drive is attached by USB.
fn attached_by_usb(d: &LsblkDevice) -> (r: bool)
    ensures
        r == d@.by_usb(),
{
    match &d.tran {
        Some(t) => same(t.as_str(), "usb"),
        None => false,
    }
}

/// The label of a drive.
fn linux_label(d: &LsblkDevice) -> (r: String)
    ensures
        r@ == d@.label(),
{
    let mut t = d.name.clone();
    t.append(" (");
    if let Some(m) = &d.model {
        t.append(trim(m.as_str()));
        t.append(" - ");
    }
    t.append(d.size.as_str());
    t.append(")");
    t
}

/// The drives to offer of those that `lsblk` lists.
pub fn detect_linux(list: &Vec<LsblkDevice>) -> (r: Vec<Found>)
    ensures
        found_views(r@) == linux_devices(lsblk_views(list@)),
{
    let ghost all = lsblk_views(list@).map_values(|d: LsblkView| linux_found(d));
    let mut r: Vec<Found> = Vec::new();
    assert(found_views(r@) =~= kept(all.take(0)));
    for i in 0..list.len()
        invariant
            all == lsblk_views(list@).map_values(|d: LsblkView| linux_found(d)),
            found_views(r@) == kept(all.take(i as int)),
    {
        let d = &list[i];
        proof {
            kept_grows(all, i as int);
            assert(all[i as int] == linux_found(d@));
        }
        let disk = starts_with(d.name.as_str(), "/dev/sd") || starts_with(
            d.name.as_str(),
            "/dev/nvme",
        ) || starts_with(d.name.as_str(), "/dev/mmcblk");
        if attached_by_usb(d) && disk {
            let ghost before = found_views(r@);
            let found = Found {
                path: d.name.clone(),
                label: plain(linux_label(d).as_str()),
                size: parse_size(d.size.as_str()),
            };
            r.push(found);
            assert(found_views(r@) =~= before.push(found@));
        }
    }
    assert(all.take(list@.len() as int) =~= all);
    r
}

/// On Linux, only disks that are attached by USB are ever offered.
pub proof fn linux_offers_only_usb_disks(list: Seq<LsblkView>, i: int)
    requires
        0 <= i < linux_devices(list).len(),
    ensures
        exists|d: LsblkView|
            list.contains(d) && d.by_usb() && d.is_disk() && #[trigger] linux_found(d) == Some(
                linux_devices(list)[i],
            ),
{
    let all = list.map_values(|d: LsblkView| linux_found(d));
    kept_comes_from(all, i);
    let k = choose|k: int| 0 <= k < all.len() && all[k] == Some(kept(all)[i]);
    assert(list.contains(list[k]));
    assert(linux_found(list[k]) == Some(linux_devices(list)[i]));
}

// ---------------------------------------------------------------------------
// Windows
// ---------------------------------------------------------------------------

/// A field of a line of comma-separated values, without the white space and the quotes around it.
pub open spec fn field(s: Seq<char>) -> Seq<char> {
    text::trimmed_of(text::trimmed(s), Class::Only('"'))
}

/// A field of a line of comma-separated values.
fn read_field(s: &str) -> (r: &str)
    ensures
        r@ == field(s@),
{
    trim_of(trim(s), Class::Only('"'))
}

/// The drive that a line describes: its name, its model and its size, between commas.
pub open spec fn windows_found(line: Seq<char>) -> Option<FoundView> {
    let fields = text::parts(line, ',');
    if fields.len() >= 3 && field(fields[0]).len() > 0 {
        let size = match text::number(field(fields[2])) {
            Some(n) => n,
            None => 0,
        };
        Some(
            FoundView {
                path: field(fields[0]),
                label: message::one_text(
                    field(fields[0]) + " ("@ + field(fields[1]) + ")"@,
                ),
                size: SizeView::Bytes(size),
            },
        )
    } else {
        None
    }
}

/// The drives that a table describes whose first line is its head.
pub open spec fn windows_devices(output: Seq<char>) -> Seq<FoundView> {
    let rows = text::line_list(output);
    if rows.len() == 0 {
        seq![]
    } else {
        kept(rows.drop_first().map_values(|l: Seq<char>| windows_found(l)))
    }
}

/// The drive that a line describes.
fn read_row(line: &str) -> (r: Option<Found>)
    ensures
        r matches Some(d) ==> windows_found(line@) == Some(d@),
        r is None ==> windows_found(line@) is None,
{
    let fields = split(line, ',');
    assert(text::texts(fields@).len() == fields@.len());
    if fields.len() < 3 {
        return None;
    }
    assert(text::texts(fields@)[0] == fields@[0]@);
    assert(text::texts(fields@)[1] == fields@[1]@);
    assert(text::texts(fields@)[2] == fields@[2]@);
    let path = read_field(fields[0]);
    let model = read_field(fields[1]);
    let size: u64 = match parse_u64(read_field(fields[2])) {
        Some(n) => n,
        None => 0,
    };
    if path.is_empty() {
        return None;
    }
    let mut t = path.to_owned();
    t.append(" (");
    t.append(model);
    t.append(")");
    Some(Found { path: path.to_owned(), label: plain(t.as_str()), size: Size::Bytes(size) })
}

/// The drives that a table describes whose first line is its head.
pub fn detect_windows(output: &str) -> (r: Vec<Found>)
    ensures
        found_views(r@) == windows_devices(output@),
{
    let rows = lines(output);
    let mut r: Vec<Found> = Vec::new();
    if rows.len() == 0 {
        assert(text::texts(rows@).len() == 0);
        assert(found_views(r@) =~= windows_devices(output@));
        return r;
    }
    let ghost list = text::line_list(output@);
    assert(list.len() == rows@.len());
    let ghost all = list.drop_first().map_values(|l: Seq<char>| windows_found(l));
    assert(found_views(r@) =~= kept(all.take(0)));
    for i in 1..rows.len()
        invariant
            list == text::texts(rows@),
            rows.len() > 0,
            all == list.drop_first().map_values(|l: Seq<char>| windows_found(l)),
            found_views(r@) == kept(all.take(i - 1)),
    {
        proof {
            kept_grows(all, i - 1);
            assert(all[i - 1] == windows_found(list[i as int]));
            assert(list[i as int] == rows@[i as int]@);
        }
        let ghost before = found_views(r@);
        if let Some(found) = read_row(rows[i]) {
            r.push(found);
            assert(found_views(r@) =~= before.push(found@));
        }
    }
    assert(all.take(rows@.len() - 1) =~= all);
    r
}

// ---------------------------------------------------------------------------
// macOS
// ---------------------------------------------------------------------------

/// The path of the disk that a line of a listing begins with.
pub open spec fn disk_path(line: Seq<char>) -> Option<Seq<char>> {
    match text::after_prefix(text::trimmed(line), "/dev/disk"@) {
        Some(rest) => if text::leading_digits(rest).len() > 0 {
            Some("/dev/disk"@ + text::leading_digits(rest))
        } else {
            None
        },
        None => None,
    }
}

/// The paths of the disks that a listing names, one for each line that names one.
pub open spec fn disk_paths(output: Seq<char>) -> Seq<Seq<char>> {
    kept(text::line_list(output).map_values(|l: Seq<char>| disk_path(l)))
}

/// The path of the disk that a line of a listing begins with.
fn read_disk_path(line: &str) -> (r: Option<String>)
    ensures
        job::text_view(r) == disk_path(line@),
{
    match strip_prefix(trim(line), "/dev/disk") {
        Some(rest) => {
            let digits = take_digits(rest);
            if digits.is_empty() {
                None
            } else {
                Some(job::joined("/dev/disk", digits))
            }
        },
        None => None,
    }
}

/// The paths of the disks that a listing names.
pub fn list_disks(output: &str) -> (r: Vec<String>)
    ensures
        job::words(r@) == disk_paths(output@),
{
    let rows = lines(output);
    let ghost list = text::line_list(output@);
    let ghost all = list.map_values(|l: Seq<char>| disk_path(l));
    let mut r: Vec<String> = Vec::new();
    assert(job::words(r@) =~= kept(all.take(0)));
    for i in 0..rows.len()
        invariant
            list == text::texts(rows@),
            all == list.map_values(|l: Seq<char>| disk_path(l)),
            job::words(r@) == kept(all.take(i as int)),
    {
        proof {
            kept_grows(all, i as int);
            assert(all[i as int] == disk_path(list[i as int]));
            assert(list[i as int] == rows@[i as int]@);
        }
        let ghost before = job::words(r@);
        if let Some(path) = read_disk_path(rows[i]) {
            r.push(path);
            assert(job::words(r@) =~= before.push(path@));
        }
    }
    assert(all.take(rows@.len() as int) =~= all);
    r
}

/// The name of the medium that a line gives.
pub open spec fn name_in(line: Seq<char>) -> Option<Seq<char>> {
    let t = text::trimmed(line);
    match text::after_prefix(t, "Device / Media Name:"@) {
        Some(n) => Some(text::trimmed(n)),
        None => match text::after_prefix(t, "Media Name:"@) {
            Some(n) => Some(text::trimmed(n)),
            None => None,
        },
    }
}

/// The number of bytes that a line gives as the size of the disk; 0 where it is no number.
pub open spec fn size_in(line: Seq<char>) -> Option<u64> {
    match text::after_prefix(text::trimmed(line), "Disk Size:"@) {
        Some(s) => {
            let t = text::trimmed(s);
            match text::position(t, " bytes"@) {
                Some(k) => Some(
                    match text::number(text::trimmed(t.take(k))) {
                        Some(n) => n,
                        None => 0,
                    },
                ),
                None => None,
            }
        },
        None => None,
    }
}

/// The name of the medium that the last line to give one gives.
pub open spec fn media_name(rows: Seq<Seq<char>>) -> Seq<char>
    decreases rows.len(),
{
    if rows.len() == 0 {
        "Unknown"@
    } else {
        match name_in(rows.last()) {
            Some(n) => n,
            None => media_name(rows.drop_last()),
        }
    }
}

/// The size of the disk that the last line to give one gives; 0 where none does.
pub open spec fn disk_size(rows: Seq<Seq<char>>) -> u64
    decreases rows.len(),
{
    if rows.len() == 0 {
        0
    } else {
        match size_in(rows.last()) {
            Some(n) => n,
            None => disk_size(rows.drop_last()),
        }
    }
}

/// The disk is not built in.
pub open spec fn external(info: Seq<char>) -> bool {
    ||| text::has_text(info, "Internal:         No"@)
    ||| text::has_text(info, "Internal:         NO"@)
}

/// The disk is not a part of another.
pub open spec fn whole(info: Seq<char>) -> bool {
    ||| text::has_text(info, "Whole:            Yes"@)
    ||| text::has_text(info, "Virtual Whole:    Yes"@)
}

/// The label of a disk: its path, and in brackets its name and its size.
pub open spec fn mac_label(path: Seq<char>, name: Seq<char>, size: u64) -> Seq<PieceView> {
    let human = if size > 0 {
        mac_size(size)
    } else {
        message::one_text("Unknown"@)
    };
    seq![PieceView::Text(path + " ("@ + name + " - "@)] + human + seq![PieceView::Text(")"@)]
}

/// The disk at `path` as it is described, where it is to be offered: only a whole disk that is not
/// built in is.
pub open spec fn mac_found(path: Seq<char>, info: Option<Seq<char>>) -> Option<FoundView> {
    match info {
        Some(t) => if external(t) && whole(t) {
            let rows = text::line_list(t);
            Some(
                FoundView {
                    path,
                    label: mac_label(path, media_name(rows), disk_size(rows)),
                    size: SizeView::Bytes(disk_size(rows)),
                },
            )
        } else {
            None
        },
        None => None,
    }
}

/// The name of the medium that a line gives.
fn read_name(line: &str) -> (r: Option<&str>)
    ensures
        r matches Some(n) ==> name_in(line@) == Some(n@),
        r is None ==> name_in(line@) is None,
{
    let t = trim(line);
    if let Some(n) = strip_prefix(t, "Device / Media Name:") {
        Some(trim(n))
    } else if let Some(n) = strip_prefix(t, "Media Name:") {
        Some(trim(n))
    } else {
        None
    }
}

/// The number of bytes that a line gives as the size of the disk.
fn read_disk_size(line: &str) -> (r: Option<u64>)
    ensures
        r == size_in(line@),
{
    match strip_prefix(trim(line), "Disk Size:") {
        Some(s) => {
            let t = trim(s);
            match find(t, " bytes") {
                Some(k) => {
                    let n = t.substring_char(0, k);
                    assert(n@ =~= t@.take(k as int));
                    match parse_u64(trim(n)) {
                        Some(v) => Some(v),
                        None => Some(0),
                    }
                },
                None => None,
            }
        },
        None => None,
    }
}

/// The label of a disk.
fn write_mac_label(path: &str, name: &str, size: u64) -> (r: Vec<Piece>)
    ensures
        message::line_view(r@) == mac_label(path@, name@, size),
{
    let mut t = path.to_owned();
    t.append(" (");
    t.append(name);
    t.append(" - ");
    let mut human = if size > 0 {
        format_size_mac(size)
    } else {
        plain("Unknown")
    };
    let mut v = vec![Piece::Text(t)];
    let ghost first = message::line_view(v@);
    let ghost middle = message::line_view(human@);
    assert(first =~= seq![PieceView::Text(t@)]);
    v.append(&mut human);
    assert(message::line_view(v@) =~= first + middle);
    let last = text_piece(")");
    v.push(last);
    assert(message::line_view(v@) =~= first + middle + seq![last@]);
    v
}

/// The disk at `path` as it is described, where it is to be offered.
pub fn describe_disk(path: &str, info: &Option<String>) -> (r: Option<Found>)
    ensures
        r matches Some(d) ==> mac_found(path@, job::text_view(*info)) == Some(d@),
        r is None ==> mac_found(path@, job::text_view(*info)) is None,
{
    let t = match info {
        Some(t) => t.as_str(),
        None => {
            return None;
        },
    };
    if !(contains(t, "Internal:         No") || contains(t, "Internal:         NO")) {
        return None;
    }
    let mut name: &str = "Unknown";
    let mut size: u64 = 0;
    let rows = lines(t);
    let ghost list = text::line_list(t@);
    for i in 0..rows.len()
        invariant
            list == text::texts(rows@),
            name@ == media_name(list.take(i as int)),
            size == disk_size(list.take(i as int)),
    {
        proof {
            assert(list.take(i + 1).drop_last() =~= list.take(i as int));
            assert(list.take(i + 1).last() == rows@[i as int]@);
        }
        if let Some(n) = read_name(rows[i]) {
            name = n;
        }
        if let Some(n) = read_disk_size(rows[i]) {
            size = n;
        }
    }
    assert(list.take(rows@.len() as int) =~= list);
    if contains(t, "Whole:            Yes") || contains(t, "Virtual Whole:    Yes") {
        Some(
            Found {
                path: path.to_owned(),
                label: write_mac_label(path, name, size),
                size: Size::Bytes(size),
            },
        )
    } else {
        None
    }
}

// ---------------------------------------------------------------------------
// The detection
// ---------------------------------------------------------------------------

/// What a detection waits for.
pub enum DetectStage {
    /// The list of drives.
    List(Platform),
    /// On macOS, the description of one of these disks.
    Describe(Vec<String>, usize),
    /// Nothing: the drives are found.
    Over,
}

/// The contents of a [`DetectStage`].
pub enum DetectStageView {
    List(Platform),
    Describe(Seq<Seq<char>>, usize),
    Over,
}

impl View for DetectStage {
    type V = DetectStageView;

    open spec fn view(&self) -> DetectStageView {
        match *self {
            DetectStage::List(p) => DetectStageView::List(p),
            DetectStage::Describe(paths, i) => DetectStageView::Describe(job::words(paths@), i),
            DetectStage::Over => DetectStageView::Over,
        }
    }
}

/// What came of a command.
pub enum Reply {
    /// The text that it wrote, where it ran.
    Text(Option<String>),
    /// The drives that `lsblk` listed, where it ran and wrote a list.
    Drives(Option<Vec<LsblkDevice>>),
}

/// The contents of a [`Reply`].
pub enum ReplyView {
    Text(Option<Seq<char>>),
    Drives(Option<Seq<LsblkView>>),
}

impl View for Reply {
    type V = ReplyView;

    open spec fn view(&self) -> ReplyView {
        match *self {
            Reply::Text(t) => ReplyView::Text(job::text_view(t)),
            Reply::Drives(Some(v)) => ReplyView::Drives(Some(lsblk_views(v@))),
            Reply::Drives(None) => ReplyView::Drives(None),
        }
    }
}

/// A search for drives that is under way.
pub struct Detection {
    pub stage: DetectStage,
    /// The drives found so far.
    pub found: Vec<Found>,
}

/// The contents of a [`Detection`].
#[verifier::ext_equal]
pub struct DetectionView {
    pub stage: DetectStageView,
    pub found: Seq<FoundView>,
}

impl View for Detection {
    type V = DetectionView;

    open spec fn view(&self) -> DetectionView {
        DetectionView { stage: self.stage@, found: found_views(self.found@) }
    }
}

/// The command that lists the drives; none on a platform that is not known.
pub open spec fn list_command(platform: Platform) -> Option<Seq<Seq<char>>> {
    match platform {
        Platform::Linux => Some(seq!["lsblk"@, "-Jpo"@, "name,size,model,tran"@]),
        Platform::Windows => Some(
            seq![
                "powershell"@,
                "-NoProfile"@,
                "-Command"@,
                "Get-CimInstance Win32_DiskDrive -Filter 'InterfaceType=''USB''' | Select-Object DeviceID,Model,Size | ConvertTo-Csv -NoTypeInformation"@,
            ],
        ),
        Platform::MacOs => Some(seq!["diskutil"@, "list"@, "external"@]),
        Platform::Other => None,
    }
}

impl DetectionView {
    /// The start of a search.
    pub open spec fn start(platform: Platform) -> DetectionView {
        DetectionView {
            stage: match platform {
                Platform::Other => DetectStageView::Over,
                _ => DetectStageView::List(platform),
            },
            found: seq![],
        }
    }

    /// The command that the search waits for; none once it is over.
    pub open spec fn asks(self) -> Option<Seq<Seq<char>>> {
        match self.stage {
            DetectStageView::List(p) => list_command(p),
            DetectStageView::Describe(paths, i) => if i < paths.len() {
                Some(seq!["diskutil"@, "info"@, paths[i as int]])
            } else {
                None
            },
            DetectStageView::Over => None,
        }
    }

    /// The search over with these drives.
    pub open spec fn ended(found: Seq<FoundView>) -> DetectionView {
        DetectionView { stage: DetectStageView::Over, found }
    }

    /// The search at disk `i` of `paths`, with these drives found in front of it.
    pub open spec fn at_disk(paths: Seq<Seq<char>>, i: int, found: Seq<FoundView>) -> DetectionView {
        if i < paths.len() {
            DetectionView { stage: DetectStageView::Describe(paths, i as usize), found }
        } else {
            DetectionView::ended(found)
        }
    }

    /// Where the search goes on `reply`. A reply that is not one to what it asked for changes
    /// nothing.
    pub open spec fn next(self, reply: ReplyView) -> DetectionView {
        match (self.stage, reply) {
            (DetectStageView::List(Platform::Linux), ReplyView::Drives(Some(v))) => {
                DetectionView::ended(linux_devices(v))
            },
            (DetectStageView::List(Platform::Linux), ReplyView::Drives(None)) => {
                DetectionView::ended(seq![])
            },
            (DetectStageView::List(Platform::Windows), ReplyView::Text(Some(t))) => {
                DetectionView::ended(windows_devices(t))
            },
            (DetectStageView::List(Platform::MacOs), ReplyView::Text(Some(t))) => {
                DetectionView::at_disk(disk_paths(t), 0, seq![])
            },
            (DetectStageView::List(Platform::Windows), ReplyView::Text(None)) => {
                DetectionView::ended(seq![])
            },
            (DetectStageView::List(Platform::MacOs), ReplyView::Text(None)) => {
                DetectionView::ended(seq![])
            },
            (DetectStageView::Describe(paths, i), ReplyView::Text(t)) if i < paths.len() => {
                DetectionView::at_disk(
                    paths,
                    i + 1,
                    match mac_found(paths[i as int], t) {
                        Some(d) => self.found.push(d),
                        None => self.found,
                    },
                )
            },
            _ => self,
        }
    }
}

/// Starts to search for the USB drives of this machine.
pub fn detect_usb_devices(platform: Platform) -> (r: Detection)
    ensures
        r@ == DetectionView::start(platform),
{
    let found: Vec<Found> = Vec::new();
    assert(found_views(found@) =~= seq![]);
    let stage = match platform {
        Platform::Other => DetectStage::Over,
        _ => DetectStage::List(platform),
    };
    Detection { stage, found }
}

/// The search over with these drives.
fn end_search(found: Vec<Found>) -> (r: Detection)
    ensures
        r@ == DetectionView::ended(found_views(found@)),
{
    Detection { stage: DetectStage::Over, found }
}

/// The search at disk `i` of `paths`, with these drives found in front of it.
fn at_disk(paths: Vec<String>, i: usize, found: Vec<Found>) -> (r: Detection)
    ensures
        r@ == DetectionView::at_disk(job::words(paths@), i as int, found_views(found@)),
{
    if i < paths.len() {
        Detection { stage: DetectStage::Describe(paths, i), found }
    } else {
        end_search(found)
    }
}

impl Detection {
    /// The command that the search waits for; none once it is over.
    pub fn pending(&self) -> (r: Option<Vec<String>>)
        ensures
            r matches Some(c) ==> self@.asks() == Some(job::words(c@)),
            r is None ==> self@.asks() is None,
    {
        match &self.stage {
            DetectStage::List(p) => match *p {
                Platform::Linux => {
                    let v = vec!["lsblk", "-Jpo", "name,size,model,tran"];
                    assert(text::texts(v@) =~= list_command(*p)->0);
                    Some(command(v))
                },
                Platform::Windows => {
                    let v = vec![
                        "powershell",
                        "-NoProfile",
                        "-Command",
                        "Get-CimInstance Win32_DiskDrive -Filter 'InterfaceType=''USB''' | Select-Object DeviceID,Model,Size | ConvertTo-Csv -NoTypeInformation",
                    ];
                    assert(text::texts(v@) =~= list_command(*p)->0);
                    Some(command(v))
                },
                Platform::MacOs => {
                    let v = vec!["diskutil", "list", "external"];
                    assert(text::texts(v@) =~= list_command(*p)->0);
                    Some(command(v))
                },
                Platform::Other => None,
            },
            DetectStage::Describe(paths, i) => {
                if *i < paths.len() {
                    let v = vec!["diskutil", "info", paths[*i].as_str()];
                    assert(text::texts(v@) =~= self@.asks()->0);
                    Some(command(v))
                } else {
                    None
                }
            },
            DetectStage::Over => None,
        }
    }

    /// Takes the search on by one reply.
    pub fn step(self, reply: &Reply) -> (r: Detection)
        ensures
            r@ == self@.next(reply@),
    {
        let none: Vec<Found> = Vec::new();
        assert(found_views(none@) =~= seq![]);
        let Detection { stage, found } = self;
        match (stage, reply) {
            (DetectStage::List(Platform::Linux), Reply::Drives(drives)) => match drives {
                Some(v) => end_search(detect_linux(v)),
                None => end_search(none),
            },
            (DetectStage::List(Platform::Windows), Reply::Text(output)) => match output {
                Some(t) => end_search(detect_windows(t.as_str())),
                None => end_search(none),
            },
            (DetectStage::List(Platform::MacOs), Reply::Text(output)) => match output {
                Some(t) => at_disk(list_disks(t.as_str()), 0, none),
                None => end_search(none),
            },
            (DetectStage::Describe(paths, i), Reply::Text(info)) => {
                if i < paths.len() {
                    let mut all = found;
                    let ghost before = found_views(all@);
                    assert(job::words(paths@)[i as int] == paths@[i as int]@);
                    if let Some(d) = describe_disk(paths[i].as_str(), info) {
                        all.push(d);
                        assert(found_views(all@) =~= before.push(d@));
                    }
                    at_disk(paths, i + 1, all)
                } else {
                    Detection { stage: DetectStage::Describe(paths, i), found }
                }
            },
            (stage, _) => Detection { stage, found },
        }
    }
}

/// Where a search stands after `replies`.
pub open spec fn detected(start: DetectionView, replies: Seq<ReplyView>) -> DetectionView
    decreases replies.len(),
{
    if replies.len() == 0 {
        start
    } else {
        detected(start, replies.drop_last()).next(replies.last())
    }
}

/// What `infos` tell of the disks at `paths`.
pub open spec fn described(paths: Seq<Seq<char>>, infos: Seq<Option<Seq<char>>>) -> Seq<
    Option<FoundView>,
> {
    Seq::new(infos.len(), |i: int| mac_found(paths[i], infos[i]))
}

/// A listing, and then a description of each disk.
pub open spec fn mac_replies(output: Seq<char>, infos: Seq<Option<Seq<char>>>) -> Seq<ReplyView> {
    seq![ReplyView::Text(Some(output))] + infos.map_values(
        |t: Option<Seq<char>>| ReplyView::Text(t),
    )
}

proof fn disks_in_turn(output: Seq<char>, infos: Seq<Option<Seq<char>>>)
    requires
        infos.len() <= disk_paths(output).len(),
        disk_paths(output).len() <= usize::MAX,
    ensures
        detected(DetectionView::start(Platform::MacOs), mac_replies(output, infos))
            == DetectionView::at_disk(
            disk_paths(output),
            infos.len() as int,
            kept(described(disk_paths(output), infos)),
        ),
    decreases infos.len(),
{
    let paths = disk_paths(output);
    let replies = mac_replies(output, infos);
    if infos.len() == 0 {
        assert(replies =~= seq![ReplyView::Text(Some(output))]);
        assert(replies.drop_last() =~= seq![]);
        reveal_with_fuel(detected, 2);
        assert(described(paths, infos) =~= seq![]);
    } else {
        let fewer = infos.drop_last();
        disks_in_turn(output, fewer);
        assert(replies.drop_last() =~= mac_replies(output, fewer));
        assert(replies.last() == ReplyView::Text(infos.last()));
        assert(described(paths, infos).drop_last() =~= described(paths, fewer));
    }
}

/// On macOS, a search in which every disk of the listing is described ends with those disks, in
/// their order, that are whole and not built in.
pub proof fn mac_search_offers_described_disks(output: Seq<char>, infos: Seq<Option<Seq<char>>>)
    requires
        infos.len() == disk_paths(output).len(),
        disk_paths(output).len() <= usize::MAX,
    ensures
        detected(DetectionView::start(Platform::MacOs), mac_replies(output, infos))
            == DetectionView::ended(kept(described(disk_paths(output), infos))),
{
    disks_in_turn(output, infos);
}

/// A size in bytes is read back.
pub proof fn plain_sizes_are_read(n: u64)
    ensures
        written_size(text::decimal(n as nat)) == SizeView::Bytes(n),
{
    let d = text::decimal(n as nat);
    text::decimal_digits(n as nat);
    assert(text::digit(d[0]));
    assert(text::digit(d[d.len() - 1]));
    text::trimming_ends_a_line(d);
    text::numbers_read_back(n);
}

} // verus!

//! Which drives are offered, told by what the commands of the operating system write.
use vstd::prelude::*;
use vstd::string::*;

use crate::devices;
use crate::devices::{
    DetectStageView, DetectionView, FoundView, LsblkView, ReplyView, SizeView,
};
use crate::job::Platform;
use crate::message::PieceView;
use crate::text;
use crate::text::Class;
use crate::text_laws;
use crate::text_laws::lacks;

verus! {

/// `s` begins with `t`.
pub open spec fn begins(s: Seq<char>, t: Seq<char>) -> bool {
    s.len() >= t.len() && s.take(t.len() as int) == t
}

proof fn prefix_is_begin(s: Seq<char>, t: Seq<char>)
    ensures
        t.is_prefix_of(s) <==> begins(s, t),
{
    if s.len() >= t.len() {
        assert(s.take(t.len() as int) =~= s.subrange(0, t.len() as int));
    }
}

/// A list keeps what is there, in its order.
pub proof fn lists_keep_what_is_there<T>(s: Seq<Option<T>>, x: T)
    ensures
        devices::kept(Seq::<Option<T>>::empty()) == Seq::<T>::empty(),
        devices::kept(s.push(None)) == devices::kept(s),
        devices::kept(s.push(Some(x))) == devices::kept(s).push(x),
{
    assert(s.push(None).drop_last() =~= s);
    assert(s.push(Some(x)).drop_last() =~= s);
}

// ---------------------------------------------------------------------------
// Sizes
// ---------------------------------------------------------------------------

/// A size is a plain number, or a number in front of `GB`, `MB` or `TB`, with or without white space
/// around each part; a `B` behind anything else makes no size. Without a size it counts as 0.
pub proof fn sizes_are_read(s: Seq<char>, a: Seq<char>, b: Seq<char>, product: Option<u64>)
    ensures
        text::trimmed(s) == a.push('B') && text::trimmed(a) == b.push('G')
            ==> devices::written_size(s) == SizeView::Scaled(text::trimmed(b), 1_000_000_000),
        text::trimmed(s) == a.push('B') && text::trimmed(a) == b.push('M')
            ==> devices::written_size(s) == SizeView::Scaled(text::trimmed(b), 1_000_000),
        text::trimmed(s) == a.push('B') && text::trimmed(a) == b.push('T')
            ==> devices::written_size(s) == SizeView::Scaled(text::trimmed(b), 1_000_000_000_000),
        text::trimmed(s) == a.push('B') && (text::trimmed(a).len() == 0 || (text::trimmed(a).last()
            != 'G' && text::trimmed(a).last() != 'M' && text::trimmed(a).last() != 'T'))
            ==> devices::written_size(s) is Unknown,
        (text::trimmed(s).len() == 0 || text::trimmed(s).last() != 'B') && text::number(
            text::trimmed(s),
        ) is Some ==> devices::written_size(s) == SizeView::Bytes(
            text::number(text::trimmed(s))->0,
        ),
        (text::trimmed(s).len() == 0 || text::trimmed(s).last() != 'B') && text::number(
            text::trimmed(s),
        ) is None ==> devices::written_size(s) is Unknown,
        SizeView::Unknown.in_bytes(product) == 0,
        forall|n: u64| #[trigger] SizeView::Bytes(n).in_bytes(product) == n,
        forall|t: Seq<char>, unit: u64|
            product is Some ==> #[trigger] SizeView::Scaled(t, unit).in_bytes(product)
                == product->0,
        forall|t: Seq<char>, unit: u64|
            product is None ==> #[trigger] SizeView::Scaled(t, unit).in_bytes(product) == 0,
{
    reveal_with_fuel(devices::unit_size, 4);
    let u = devices::units();
    assert(u.drop_first() =~= seq![u[1], u[2]]);
    assert(u.drop_first().drop_first() =~= seq![u[2]]);
    assert(u.drop_first().drop_first().drop_first() =~= seq![]);
    let t = text::trimmed(s);
    assert(a.push('B').drop_last() =~= a);
    assert(b.push('G').drop_last() =~= b);
    assert(b.push('M').drop_last() =~= b);
    assert(b.push('T').drop_last() =~= b);
    if t == a.push('B') {
        assert(t[t.len() - 1] == 'B');
        text_laws::other_texts_are_no_numbers(t);
    }
}

/// A drive that was found keeps its path, and gets the label that was written out and its size in
/// bytes.
pub proof fn found_drives_are_settled(d: FoundView, label: Seq<char>, product: Option<u64>)
    ensures
        d.settled(label, product).path == d.path,
        d.settled(label, product).label == label,
        d.size matches SizeView::Bytes(n) ==> d.settled(label, product).size == n,
        d.size is Scaled && product is Some ==> d.settled(label, product).size == product->0,
        d.size is Scaled && product is None ==> d.settled(label, product).size == 0,
        d.size is Unknown ==> d.settled(label, product).size == 0,
{
}

/// Sizes for the eye have one decimal, in units of a million, a thousand million or a million
/// million bytes, whichever is the largest that they reach; smaller ones are in bytes.
pub proof fn sizes_are_shown_in_the_largest_unit(n: u64)
    ensures
        n < 1_000_000 ==> devices::mac_size(n) == seq![
            PieceView::Text(text::decimal(n as nat) + " B"@),
        ],
        1_000_000 <= n < 1_000_000_000 ==> devices::mac_size(n) == seq![
            PieceView::Tenths(n, 1_000_000),
            PieceView::Text(" MB"@),
        ],
        1_000_000_000 <= n < 1_000_000_000_000 ==> devices::mac_size(n) == seq![
            PieceView::Tenths(n, 1_000_000_000),
            PieceView::Text(" GB"@),
        ],
        n >= 1_000_000_000_000 ==> devices::mac_size(n) == seq![
            PieceView::Tenths(n, 1_000_000_000_000),
            PieceView::Text(" TB"@),
        ],
{
}

// ---------------------------------------------------------------------------
// Linux
// ---------------------------------------------------------------------------

/// `lsblk` says of the drive that it is attached by USB, and its name is that of a disk.
pub open spec fn is_usb_disk(d: LsblkView) -> bool {
    &&& d.tran == Some("usb"@)
    &&& begins(d.name, "/dev/sd"@) || begins(d.name, "/dev/nvme"@) || begins(
        d.name,
        "/dev/mmcblk"@,
    )
}

/// Drive by drive of the list, in its order, just those are offered whose `tran` is `usb` and whose
/// name begins with `/dev/sd`, `/dev/nvme` or `/dev/mmcblk`; with their name, a label that tells the
/// model where it is known, and their size.
pub proof fn linux_offers_usb_disks(list: Seq<LsblkView>, d: LsblkView)
    ensures
        devices::linux_devices(Seq::empty()) == Seq::<FoundView>::empty(),
        !is_usb_disk(d) ==> devices::linux_devices(list.push(d)) == devices::linux_devices(list),
        is_usb_disk(d) ==> devices::linux_devices(list.push(d)) == devices::linux_devices(
            list,
        ).push(
            FoundView {
                path: d.name,
                label: seq![
                    PieceView::Text(
                        if d.model is Some {
                            d.name + " ("@ + text::trimmed(d.model->0) + " - "@ + d.size + ")"@
                        } else {
                            d.name + " ("@ + d.size + ")"@
                        },
                    ),
                ],
                size: devices::written_size(d.size),
            },
        ),
{
    prefix_is_begin(d.name, "/dev/sd"@);
    prefix_is_begin(d.name, "/dev/nvme"@);
    prefix_is_begin(d.name, "/dev/mmcblk"@);
    let f = |d: LsblkView| devices::linux_found(d);
    assert(Seq::<LsblkView>::empty().map_values(f) =~= Seq::<Option<FoundView>>::empty());
    assert(list.push(d).map_values(f) =~= list.map_values(f).push(f(d)));
    assert(list.map_values(f).push(f(d)).drop_last() =~= list.map_values(f));
}

/// A machine without a drive whose `tran` is `usb` is offered none, and what is offered is always an
/// entry of the list whose `tran` is `usb` and whose name is that of a disk.
pub proof fn linux_offers_nothing_else(list: Seq<LsblkView>, i: int)
    ensures
        (forall|k: int| 0 <= k < list.len() ==> (#[trigger] list[k]).tran != Some("usb"@))
            ==> devices::linux_devices(list).len() == 0,
        0 <= i < devices::linux_devices(list).len() ==> exists|k: int|
            0 <= k < list.len() && (#[trigger] list[k]).tran == Some("usb"@) && (begins(
                list[k].name,
                "/dev/sd"@,
            ) || begins(list[k].name, "/dev/nvme"@) || begins(list[k].name, "/dev/mmcblk"@))
                && devices::linux_devices(list)[i].path == list[k].name,
    decreases list.len(),
{
    linux_offers_usb_disks(list, LsblkView { name: seq![], size: seq![], model: None, tran: None });
    if list.len() > 0 {
        let front = list.drop_last();
        let d = list.last();
        assert(front.push(d) =~= list);
        linux_offers_usb_disks(front, d);
        linux_offers_nothing_else(front, i);
        let n = devices::linux_devices(front).len();
        assert(list[list.len() - 1] == d);
        if forall|k: int| 0 <= k < list.len() ==> (#[trigger] list[k]).tran != Some("usb"@) {
            assert forall|k: int| 0 <= k < front.len() implies (#[trigger] front[k]).tran != Some(
                "usb"@,
            ) by {
                assert(front[k] == list[k]);
            }
        }
        if 0 <= i < n {
            let k = choose|k: int|
                0 <= k < front.len() && (#[trigger] front[k]).tran == Some("usb"@) && (begins(
                    front[k].name,
                    "/dev/sd"@,
                ) || begins(front[k].name, "/dev/nvme"@) || begins(front[k].name, "/dev/mmcblk"@))
                    && devices::linux_devices(front)[i].path == front[k].name;
            assert(list[k] == front[k]);
        }
    }
}

// ---------------------------------------------------------------------------
// Windows
// ---------------------------------------------------------------------------

/// A line between whose commas a name, a model and a size stand, in quotes or not, describes a
/// drive, where the name is not empty; what follows a further comma does not matter. A line with
/// fewer commas describes none. A size that is no number counts as 0.
pub proof fn windows_rows_are_read(
    name: Seq<char>,
    model: Seq<char>,
    size: Seq<char>,
    rest: Seq<char>,
)
    requires
        lacks(name, ','),
        lacks(model, ','),
        lacks(size, ','),
    ensures
        ({
            let bare = |s: Seq<char>| text::trimmed_of(text::trimmed(s), Class::Only('"'));
            let bytes = text::number(bare(size));
            let found = if bare(name).len() == 0 {
                None
            } else {
                Some(
                    FoundView {
                        path: bare(name),
                        label: seq![PieceView::Text(bare(name) + " ("@ + bare(model) + ")"@)],
                        size: SizeView::Bytes(
                            if bytes is Some {
                                bytes->0
                            } else {
                                0
                            },
                        ),
                    },
                )
            };
            &&& devices::windows_found(name.push(',') + (model.push(',') + size)) == found
            &&& devices::windows_found(
                name.push(',') + (model.push(',') + (size.push(',') + rest)),
            ) == found
            &&& devices::windows_found(name) is None
            &&& devices::windows_found(name.push(',') + model) is None
        }),
{
    text_laws::parts_lie_between(name, model.push(',') + size, ',');
    text_laws::parts_lie_between(name, model.push(',') + (size.push(',') + rest), ',');
    text_laws::parts_lie_between(name, model, ',');
    text_laws::parts_lie_between(model, size, ',');
    text_laws::parts_lie_between(model, size.push(',') + rest, ',');
    text_laws::parts_lie_between(size, rest, ',');
}

/// The first line of the table is its head. Each line behind it that describes a drive offers that,
/// in the order of the lines.
pub proof fn windows_offers_the_rows(output: Seq<char>, longer: Seq<char>, line: Seq<char>)
    requires
        text::line_list(longer) == text::line_list(output).push(line),
    ensures
        text::line_list(output).len() <= 1 ==> devices::windows_devices(output) == Seq::<
            FoundView,
        >::empty(),
        text::line_list(output).len() > 0 && devices::windows_found(line) is None
            ==> devices::windows_devices(longer) == devices::windows_devices(output),
        text::line_list(output).len() > 0 && devices::windows_found(line) is Some
            ==> devices::windows_devices(longer) == devices::windows_devices(output).push(
            devices::windows_found(line)->0,
        ),
{
    let f = |l: Seq<char>| devices::windows_found(l);
    let rows = text::line_list(output);
    let more = text::line_list(longer);
    if rows.len() > 0 {
        assert(more.drop_first() =~= rows.drop_first().push(line));
        assert(more.drop_first().map_values(f) =~= rows.drop_first().map_values(f).push(f(line)));
        assert(rows.drop_first().map_values(f).push(f(line)).drop_last()
            =~= rows.drop_first().map_values(f));
        if rows.len() == 1 {
            assert(rows.drop_first().map_values(f) =~= Seq::<Option<FoundView>>::empty());
        }
    }
}

// ---------------------------------------------------------------------------
// macOS
// ---------------------------------------------------------------------------

/// A line of the listing that begins with `/dev/disk` and a number, white space apart, names the
/// disk of that number, whatever follows. No other line names one.
pub proof fn mac_disks_are_listed(line: Seq<char>, number: Seq<char>, rest: Seq<char>)
    requires
        forall|i: int| 0 <= i < number.len() ==> text_laws::is_digit(#[trigger] number[i]),
        rest.len() > 0 ==> !text_laws::is_digit(rest[0]),
    ensures
        text::trimmed(line) == "/dev/disk"@ + (number + rest) && number.len() > 0
            ==> devices::disk_path(line) == Some("/dev/disk"@ + number),
        text::trimmed(line) == "/dev/disk"@ + rest ==> devices::disk_path(line) is None,
        !begins(text::trimmed(line), "/dev/disk"@) ==> devices::disk_path(line) is None,
{
    prefix_is_begin(text::trimmed(line), "/dev/disk"@);
    text_laws::ends_are_stripped(number + rest, "/dev/disk"@, ' ');
    text_laws::ends_are_stripped(rest, "/dev/disk"@, ' ');
    text_laws::digits_end_at_another_character(number, rest);
    text_laws::digits_end_at_another_character(seq![], rest);
    assert(Seq::<char>::empty() + rest =~= rest);
}

/// Line by line of the listing, each that names a disk adds its path.
pub proof fn mac_paths_follow_the_listing(output: Seq<char>, longer: Seq<char>, line: Seq<char>)
    requires
        text::line_list(longer) == text::line_list(output).push(line),
    ensures
        text::line_list(output).len() == 0 ==> devices::disk_paths(output) == Seq::<
            Seq<char>,
        >::empty(),
        devices::disk_path(line) is None ==> devices::disk_paths(longer) == devices::disk_paths(
            output,
        ),
        devices::disk_path(line) is Some ==> devices::disk_paths(longer) == devices::disk_paths(
            output,
        ).push(devices::disk_path(line)->0),
{
    let f = |l: Seq<char>| devices::disk_path(l);
    let rows = text::line_list(output);
    assert(rows.push(line).map_values(f) =~= rows.map_values(f).push(f(line)));
    assert(rows.map_values(f).push(f(line)).drop_last() =~= rows.map_values(f));
    if rows.len() == 0 {
        assert(rows.map_values(f) =~= Seq::<Option<Seq<char>>>::empty());
    }
}

/// A description that says `Internal:` `No`, or `NO`, and `Whole:` `Yes` offers its disk; any other
/// offers none.
pub proof fn mac_offers_whole_external_disks(path: Seq<char>, info: Seq<char>)
    ensures
        devices::mac_found(path, None) is None,
        devices::mac_found(path, Some(info)) is Some <==> (text::has_text(
            info,
            "Internal:         No"@,
        ) || text::has_text(info, "Internal:         NO"@)) && (text::has_text(
            info,
            "Whole:            Yes"@,
        ) || text::has_text(info, "Virtual Whole:    Yes"@)),
        devices::mac_found(path, Some(info)) is Some ==> {
            let found = devices::mac_found(path, Some(info))->0;
            let name = devices::media_name(text::line_list(info));
            let size = devices::disk_size(text::line_list(info));
            &&& found.path == path
            &&& found.size == SizeView::Bytes(size)
            &&& found.label == seq![PieceView::Text(path + " ("@ + name + " - "@)] + (if size > 0 {
                devices::mac_size(size)
            } else {
                seq![PieceView::Text("Unknown"@)]
            }) + seq![PieceView::Text(")"@)]
        },
{
}

/// The name of a disk is what follows `Device / Media Name:` or `Media Name:` in the last line that
/// has one of these; without such a line it is unknown.
pub proof fn mac_disk_has_its_last_name(rows: Seq<Seq<char>>, line: Seq<char>, name: Seq<char>)
    ensures
        devices::media_name(Seq::empty()) == "Unknown"@,
        text::trimmed(line) == "Device / Media Name:"@ + name ==> devices::media_name(
            rows.push(line),
        ) == text::trimmed(name),
        !begins(text::trimmed(line), "Device / Media Name:"@) && text::trimmed(line)
            == "Media Name:"@ + name ==> devices::media_name(rows.push(line)) == text::trimmed(
            name,
        ),
        !begins(text::trimmed(line), "Device / Media Name:"@) && !begins(
            text::trimmed(line),
            "Media Name:"@,
        ) ==> devices::media_name(rows.push(line)) == devices::media_name(rows),
{
    let t = text::trimmed(line);
    prefix_is_begin(t, "Device / Media Name:"@);
    prefix_is_begin(t, "Media Name:"@);
    text_laws::ends_are_stripped(name, "Device / Media Name:"@, ' ');
    text_laws::ends_are_stripped(name, "Media Name:"@, ' ');
    assert(rows.push(line).drop_last() =~= rows);
    assert(rows.push(line).last() == line);
}

/// The size of a disk is the number that stands, in the last line that begins with `Disk Size:` and
/// tells it in bytes, in front of ` bytes`; it is 0 where that is no number, and without such a line.
pub proof fn mac_disk_has_its_last_size(
    rows: Seq<Seq<char>>,
    line: Seq<char>,
    s: Seq<char>,
    number: Seq<char>,
    rest: Seq<char>,
)
    ensures
        devices::disk_size(Seq::empty()) == 0,
        text::trimmed(line) == "Disk Size:"@ + s && text::trimmed(s) == number + " bytes"@ + rest
            && crate::progress::first_mark(number, " bytes"@, rest) ==> devices::disk_size(
            rows.push(line),
        ) == (if text::number(text::trimmed(number)) is Some {
            text::number(text::trimmed(number))->0
        } else {
            0
        }),
        text::trimmed(line) == "Disk Size:"@ + s && !text::has_text(text::trimmed(s), " bytes"@)
            ==> devices::disk_size(rows.push(line)) == devices::disk_size(rows),
        !begins(text::trimmed(line), "Disk Size:"@) ==> devices::disk_size(rows.push(line))
            == devices::disk_size(rows),
{
    let t = text::trimmed(line);
    prefix_is_begin(t, "Disk Size:"@);
    text_laws::ends_are_stripped(s, "Disk Size:"@, ' ');
    assert(rows.push(line).drop_last() =~= rows);
    assert(rows.push(line).last() == line);
    text::position_is_first(text::trimmed(s), " bytes"@);
    if text::trimmed(s) == number + " bytes"@ + rest && crate::progress::first_mark(
        number,
        " bytes"@,
        rest,
    ) {
        text_laws::first_occurrence_is_found(number, " bytes"@, rest);
        assert(text::trimmed(s).take(number.len() as int) =~= number);
    }
}

// ---------------------------------------------------------------------------
// The search
// ---------------------------------------------------------------------------

/// A search runs the command of its platform, and offers what that lists; where the command does not
/// run or its list cannot be read, nothing. On an unknown platform there is no search.
pub proof fn searches_run_their_commands(list: Seq<LsblkView>, output: Seq<char>)
    ensures
        ({
            let linux = DetectionView::start(Platform::Linux);
            let windows = DetectionView::start(Platform::Windows);
            let mac = DetectionView::start(Platform::MacOs);
            let other = DetectionView::start(Platform::Other);
            let none = Seq::<FoundView>::empty();
            &&& linux.asks() == Some(seq!["lsblk"@, "-Jpo"@, "name,size,model,tran"@])
            &&& windows.asks() == Some(
                seq![
                    "powershell"@,
                    "-NoProfile"@,
                    "-Command"@,
                    "Get-CimInstance Win32_DiskDrive -Filter 'InterfaceType=''USB''' | Select-Object DeviceID,Model,Size | ConvertTo-Csv -NoTypeInformation"@,
                ],
            )
            &&& mac.asks() == Some(seq!["diskutil"@, "list"@, "external"@])
            &&& other.asks() is None && other.found == none && other.stage is Over
            &&& linux.next(ReplyView::Drives(Some(list))).stage is Over
            &&& linux.next(ReplyView::Drives(Some(list))).found == devices::linux_devices(list)
            &&& linux.next(ReplyView::Drives(None)).stage is Over
            &&& linux.next(ReplyView::Drives(None)).found == none
            &&& windows.next(ReplyView::Text(Some(output))).stage is Over
            &&& windows.next(ReplyView::Text(Some(output))).found == devices::windows_devices(
                output,
            )
            &&& windows.next(ReplyView::Text(None)).stage is Over
            &&& windows.next(ReplyView::Text(None)).found == none
            &&& mac.next(ReplyView::Text(None)).stage is Over
            &&& mac.next(ReplyView::Text(None)).found == none
            &&& mac.next(ReplyView::Text(Some(output))).found == none
            &&& linux.found == none && windows.found == none && mac.found == none
        }),
        forall|d: DetectionView| d.stage is Over ==> #[trigger] d.asks() is None,
{
}

/// On macOS each disk of the listing is described in its turn, and offered where its description
/// says so.
pub proof fn mac_asks_for_each_disk(
    output: Seq<char>,
    found: Seq<FoundView>,
    i: usize,
    info: Option<Seq<char>>,
)
    requires
        i < devices::disk_paths(output).len() <= usize::MAX,
    ensures
        ({
            let paths = devices::disk_paths(output);
            let here = DetectionView { stage: DetectStageView::Describe(paths, i), found };
            let next = here.next(ReplyView::Text(info));
            &&& DetectionView::start(Platform::MacOs).next(ReplyView::Text(Some(output))).stage
                == DetectStageView::Describe(paths, 0)
            &&& here.asks() == Some(seq!["diskutil"@, "info"@, paths[i as int]])
            &&& i + 1 < paths.len() ==> next.stage == DetectStageView::Describe(
                paths,
                (i + 1) as usize,
            )
            &&& i + 1 == paths.len() ==> next.stage is Over
            &&& next.found == (if devices::mac_found(paths[i as int], info) is Some {
                found.push(devices::mac_found(paths[i as int], info)->0)
            } else {
                found
            })
        }),
{
}

/// On macOS a listing without a disk ends the search.
pub proof fn mac_search_without_a_disk_is_over(output: Seq<char>)
    requires
        devices::disk_paths(output).len() == 0,
    ensures
        DetectionView::start(Platform::MacOs).next(ReplyView::Text(Some(output))).stage is Over,
{
}

} // verus!

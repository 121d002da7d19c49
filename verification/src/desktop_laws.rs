//! When the theme of the desktop is dark, and what installs the menu entry, in the words of the
//! desktop.
use vstd::prelude::*;
use vstd::string::*;

use crate::config;
use crate::config::{DesktopStepView, ThemeAskView, ThemeSearch};
use crate::device_laws::begins;
use crate::icon;
use crate::icon::PictureView;
use crate::job::Platform;
use crate::text;
use crate::text_laws;

verus! {

// ---------------------------------------------------------------------------
// The theme
// ---------------------------------------------------------------------------

/// On Windows the theme is dark where the registry gives the light theme the value `0x0`; on macOS
/// where the style of the interface is `Dark`, in any letter case and with any white space around
/// it; on an unknown platform it is not. What cannot be asked for makes no theme dark.
pub proof fn theme_of_windows_and_macos(home: Seq<char>, t: Seq<char>)
    ensures
        ({
            let windows = config::theme_start(Platform::Windows);
            let mac = config::theme_start(Platform::MacOs);
            &&& config::theme_start(Platform::Other) == ThemeSearch::Known(false)
            &&& config::theme_asks(windows, home) == ThemeAskView::Output(
                seq![
                    "reg"@,
                    "query"@,
                    "HKCU\\SOFTWARE\\Microsoft\\Windows\\CurrentVersion\\Themes\\Personalize"@,
                    "/v"@,
                    "AppsUseLightTheme"@,
                ],
            )
            &&& config::theme_next(windows, Some(t)) == ThemeSearch::Known(
                text::has_text(t, "0x0"@),
            )
            &&& config::theme_next(windows, None) == ThemeSearch::Known(false)
            &&& config::theme_asks(mac, home) == ThemeAskView::Output(
                seq!["defaults"@, "read"@, "-g"@, "AppleInterfaceStyle"@],
            )
            &&& config::theme_next(mac, Some(t)) == ThemeSearch::Known(
                text::same_ignoring_case(text::trimmed(t), "Dark"@),
            )
            &&& config::theme_next(mac, None) == ThemeSearch::Known(false)
        }),
        forall|dark: bool, reply: Option<Seq<char>>| #[trigger]
            config::theme_next(ThemeSearch::Known(dark), reply) == ThemeSearch::Known(dark),
        forall|dark: bool| #[trigger]
            config::theme_asks(ThemeSearch::Known(dark), home) is Nothing,
{
}

/// The stages of a search on Linux in their order, which is that of the questions.
pub open spec fn linux_stages() -> Seq<ThemeSearch> {
    seq![
        config::theme_start(Platform::Linux),
        ThemeSearch::GtkTheme,
        ThemeSearch::Kde,
        ThemeSearch::Gtk3,
        ThemeSearch::Gtk4,
        ThemeSearch::Known(false),
    ]
}

/// What the questions of a search on Linux are.
pub open spec fn linux_questions(home: Seq<char>) -> Seq<ThemeAskView> {
    seq![
        ThemeAskView::Output(
            seq!["gsettings"@, "get"@, "org.gnome.desktop.interface"@, "color-scheme"@],
        ),
        ThemeAskView::Output(
            seq!["gsettings"@, "get"@, "org.gnome.desktop.interface"@, "gtk-theme"@],
        ),
        ThemeAskView::File(home + "/.config/kdeglobals"@),
        ThemeAskView::File(home + "/.config/gtk-3.0/settings.ini"@),
        ThemeAskView::File(home + "/.config/gtk-4.0/settings.ini"@),
        ThemeAskView::Nothing,
    ]
}

/// `t` answers question `i` of a search on Linux with a dark theme: GNOME prefers dark; the name of
/// the theme of GTK tells of dark or night; KDE has a dark scheme; or the settings of GTK prefer a
/// dark theme.
pub open spec fn answers_dark(i: int, t: Seq<char>) -> bool {
    if i == 0 {
        text::has_text(t, "prefer-dark"@)
    } else if i == 1 {
        text::has_text(text::lowercase(t), "dark"@) || text::has_text(
            text::lowercase(t),
            "night"@,
        )
    } else if i == 2 {
        config::kde_dark(t)
    } else {
        text::has_text(t, "gtk-application-prefer-dark-theme=1"@)
    }
}

/// On Linux the questions are asked one after the other. The first answer that is dark makes the
/// theme dark; where none is, it is not. Only where GNOME does not tell its colour scheme at all, its
/// theme is not asked for.
pub proof fn theme_of_linux(home: Seq<char>, i: int, reply: Option<Seq<char>>)
    requires
        0 <= i < 5,
    ensures
        config::theme_asks(linux_stages()[i], home) == linux_questions(home)[i],
        reply is Some && answers_dark(i, reply->0) ==> config::theme_next(linux_stages()[i], reply)
            == ThemeSearch::Known(true),
        !(reply is Some && answers_dark(i, reply->0)) && !(i == 0 && reply is None)
            ==> config::theme_next(linux_stages()[i], reply) == linux_stages()[i + 1],
        config::theme_next(linux_stages()[0], None) == linux_stages()[2],
{
    assert(i == 0 || i == 1 || i == 2 || i == 3 || i == 4);
}

/// The same of an answer in ASCII, where lower case is known.
pub proof fn theme_of_linux_in_ascii(i: int, t: Seq<char>)
    requires
        0 <= i < 5,
    ensures
        ({
            let dark = if i == 1 {
                text::has_text(text::folded(t), "dark"@) || text::has_text(
                    text::folded(t),
                    "night"@,
                )
            } else if i == 2 {
                config::ascii_kde_dark(t)
            } else {
                answers_dark(i, t)
            };
            &&& dark ==> config::ascii_theme_next(linux_stages()[i], t) == ThemeSearch::Known(true)
            &&& !dark ==> config::ascii_theme_next(linux_stages()[i], t) == linux_stages()[i + 1]
        }),
{
    assert(i == 0 || i == 1 || i == 2 || i == 3 || i == 4);
}

/// The schemes that the settings of KDE name are what follows `ColorScheme=`, line by line, where a
/// line begins with it.
pub proof fn schemes_are_named_by_lines(
    content: Seq<char>,
    longer: Seq<char>,
    line: Seq<char>,
    name: Seq<char>,
)
    requires
        text::line_list(longer) == text::line_list(content).push(line),
    ensures
        text::line_list(content).len() == 0 ==> config::scheme_names(content) == Seq::<
            Seq<char>,
        >::empty(),
        line == "ColorScheme="@ + name ==> config::scheme_names(longer) == config::scheme_names(
            content,
        ).push(name),
        !begins(line, "ColorScheme="@) ==> config::scheme_names(longer) == config::scheme_names(
            content,
        ),
{
    let f = |l: Seq<char>| text::after_prefix(l, "ColorScheme="@);
    let rows = text::line_list(content);
    assert(rows.push(line).map_values(f) =~= rows.map_values(f).push(f(line)));
    assert(rows.map_values(f).push(f(line)).drop_last() =~= rows.map_values(f));
    if rows.len() == 0 {
        assert(rows.map_values(f) =~= Seq::<Option<Seq<char>>>::empty());
    }
    text_laws::ends_are_stripped(name, "ColorScheme="@, ' ');
    text_laws::ends_are_stripped(line, "ColorScheme="@, ' ');
}

/// KDE has a dark scheme where its settings hold `colorscheme=` in any letter case, and a scheme
/// that they name has `dark` in its name in any letter case.
pub proof fn dark_schemes_are_named_so(content: Seq<char>)
    ensures
        config::kde_dark(content) <==> {
            &&& text::has_text(text::lowercase(content), "colorscheme="@)
            &&& exists|i: int|
                0 <= i < config::scheme_names(content).len() && text::has_text(
                    text::lowercase(#[trigger] config::scheme_names(content)[i]),
                    "dark"@,
                )
        },
        config::ascii_kde_dark(content) <==> {
            &&& text::has_text(text::folded(content), "colorscheme="@)
            &&& exists|i: int|
                0 <= i < config::scheme_names(content).len() && text::has_text(
                    text::folded(#[trigger] config::scheme_names(content)[i]),
                    "dark"@,
                )
        },
{
    let names = config::scheme_names(content);
    let low = names.map_values(|n: Seq<char>| text::lowercase(n));
    let fold = names.map_values(|n: Seq<char>| text::folded(n));
    assert(low.len() == names.len() && fold.len() == names.len());
    assert forall|i: int| 0 <= i < names.len() implies low[i] == text::lowercase(
        #[trigger] names[i],
    ) && fold[i] == text::folded(names[i]) by {}
    if config::kde_dark(content) {
        let i = choose|i: int| 0 <= i < low.len() && text::has_text(#[trigger] low[i], "dark"@);
        assert(low[i] == text::lowercase(names[i]));
    }
    if exists|i: int|
        0 <= i < names.len() && text::has_text(text::lowercase(#[trigger] names[i]), "dark"@) {
        let i = choose|i: int|
            0 <= i < names.len() && text::has_text(text::lowercase(#[trigger] names[i]), "dark"@);
        assert(text::has_text(low[i], "dark"@));
    }
    if config::ascii_kde_dark(content) {
        let i = choose|i: int| 0 <= i < fold.len() && text::has_text(#[trigger] fold[i], "dark"@);
        assert(fold[i] == text::folded(names[i]));
    }
    if exists|i: int|
        0 <= i < names.len() && text::has_text(text::folded(#[trigger] names[i]), "dark"@) {
        let i = choose|i: int|
            0 <= i < names.len() && text::has_text(text::folded(#[trigger] names[i]), "dark"@);
        assert(text::has_text(fold[i], "dark"@));
    }
}

// ---------------------------------------------------------------------------
// The menu entry
// ---------------------------------------------------------------------------

/// A copy of a picture is complete and as wide and as high as asked for. One of the same size is the
/// picture itself; one of a picture without pixels is transparent; and a channel of one value keeps
/// it, in a picture of the size of an icon.
pub proof fn copies_resemble_their_picture(p: PictureView, size: u32, r: PictureView)
    requires
        icon::is_scaled(p, size, r),
    ensures
        r.width == size && r.height == size,
        r.rgba.len() == 4 * size * size,
        p.width == size && p.height == size ==> r == p,
        p.width == 0 || p.height == 0 ==> forall|i: int|
            0 <= i < r.rgba.len() ==> #[trigger] r.rgba[i] == 0,
        16 <= size && 0 < p.width <= 1024 && 0 < p.height <= 1024 ==> forall|c: int, v: u8|
            0 <= c < 4 && (forall|j: int|
                0 <= j < p.rgba.len() && j % 4 == c ==> #[trigger] p.rgba[j] == v)
                ==> #[trigger] icon::channel_is(r, c, v),
        forall|c: int, v: u8, j: int|
            #![trigger icon::channel_is(r, c, v), r.rgba[j]]
            icon::channel_is(r, c, v) && 0 <= j < r.rgba.len() && j % 4 == c ==> r.rgba[j] == v,
{
    assert(r.rgba.len() == 4 * size * size) by {
        assert(r.rgba.len() == 4 * r.width * r.height);
    }
    if 16 <= size && 0 < p.width <= 1024 && 0 < p.height <= 1024 {
        assert forall|c: int, v: u8|
            0 <= c < 4 && (forall|j: int|
                0 <= j < p.rgba.len() && j % 4 == c ==> #[trigger] p.rgba[j] == v) implies
            #[trigger] icon::channel_is(r, c, v) by {
            assert(icon::channel_is(p, c, v));
        }
    }
}

/// The picture of the icon is what was read of its file.
pub proof fn icon_is_read_from_its_file(data: Seq<u8>)
    ensures
        icon::icon_view(data) is Some <==> icon::decoded(data) is Some,
        icon::decoded(data) is Some ==> {
            let p = icon::icon_view(data)->0;
            let d = icon::decoded(data)->0;
            &&& p.width == d.0
            &&& p.height == d.1
            &&& p.rgba == d.2
        },
{
}

/// A setup does nothing where the menu entry is installed, and where the icon cannot be read.
/// Everywhere else it installs the entry.
pub proof fn setup_installs_once(
    home: Seq<char>,
    installed: bool,
    data: Seq<u8>,
    bin: Option<Seq<char>>,
    steps: Seq<DesktopStepView>,
)
    requires
        config::sets_up(home, installed, data, bin, steps),
    ensures
        installed || icon::decoded(data) is None ==> steps.len() == 0,
        !installed && icon::decoded(data) is Some ==> config::installs(
            home,
            icon::icon_view(data)->0,
            bin,
            steps,
        ),
{
}

proof fn sizes_in_decimal()
    ensures
        text::decimal(128) == "128"@,
        text::decimal(64) == "64"@,
        text::decimal(48) == "48"@,
        text::decimal(32) == "32"@,
{
    reveal_strlit("128");
    reveal_strlit("64");
    reveal_strlit("48");
    reveal_strlit("32");
    reveal_with_fuel(text::decimal, 4);
    assert(text::decimal(128) =~= "128"@);
    assert(text::decimal(64) =~= "64"@);
    assert(text::decimal(48) =~= "48"@);
    assert(text::decimal(32) =~= "32"@);
}

/// The steps that install an icon of size `n`, as it is written.
pub open spec fn install_icon(home: Seq<char>, n: Seq<char>, p: PictureView) -> Seq<
    DesktopStepView,
> {
    let dir = home + "/.local/share/icons/hicolor/"@ + n + "x"@ + n + "/apps"@;
    seq![DesktopStepView::MakeDir(dir), DesktopStepView::SaveIcon(dir + "/flint.png"@, p)]
}

/// The menu entry is installed with copies of the icon in four sizes, each in its directory; then
/// the cache of icons is refreshed, the entry is written, naming the program by its path where that
/// is known, and the list of programs is refreshed.
pub proof fn menu_entry_is_installed(
    home: Seq<char>,
    p: PictureView,
    bin: Option<Seq<char>>,
    steps: Seq<DesktopStepView>,
)
    requires
        config::installs(home, p, bin, steps),
    ensures
        exists|a: PictureView, b: PictureView, c: PictureView, d: PictureView|
            #![trigger icon::is_scaled(p, 128, a), icon::is_scaled(p, 64, b), icon::is_scaled(p, 48, c), icon::is_scaled(p, 32, d)]
            {
                &&& icon::is_scaled(p, 128, a)
                &&& icon::is_scaled(p, 64, b)
                &&& icon::is_scaled(p, 48, c)
                &&& icon::is_scaled(p, 32, d)
                &&& steps == install_icon(home, "128"@, a) + install_icon(home, "64"@, b)
                    + install_icon(home, "48"@, c) + install_icon(home, "32"@, d) + seq![
                    DesktopStepView::Run(
                        seq![
                            "gtk-update-icon-cache"@,
                            "-f"@,
                            "-t"@,
                            home + "/.local/share/icons/hicolor"@,
                        ],
                    ),
                    DesktopStepView::MakeDir(home + "/.local/share/applications"@),
                    DesktopStepView::Write(
                        home + "/.local/share/applications/flint.desktop"@,
                        "[Desktop Entry]\nType=Application\nName=flint\nComment=Flash ISO files to USB drives\nExec="@
                            + (if bin is Some {
                            bin->0
                        } else {
                            "flint"@
                        })
                            + "\nIcon=flint\nTerminal=false\nCategories=Utility;X-GNOME-Utilities;\nStartupWMClass=flint\n"@,
                    ),
                    DesktopStepView::Run(
                        seq!["update-desktop-database"@, home + "/.local/share/applications"@],
                    ),
                ]
            },
        config::desktop_path(home) == home + "/.local/share/applications/flint.desktop"@,
{
    let icons = choose|icons: Seq<PictureView>|
        #![trigger icon::are_copies(p, icons)]
        icon::are_copies(p, icons) && steps == config::desktop_steps(home, icons, bin);
    sizes_in_decimal();
    assert(icons.len() == 4);
    let a = icons[0];
    let b = icons[1];
    let c = icons[2];
    let d = icons[3];
    assert(icon::is_scaled(p, 128, a));
    assert(icon::is_scaled(p, 64, b));
    assert(icon::is_scaled(p, 48, c));
    assert(icon::is_scaled(p, 32, d));
    let three = icons.drop_last();
    let two = three.drop_last();
    let one = two.drop_last();
    assert(one.drop_last() =~= Seq::<PictureView>::empty());
    reveal_with_fuel(config::icon_steps, 5);
    assert(config::icon_steps(home, one) =~= install_icon(home, "128"@, a));
    assert(config::icon_steps(home, two) =~= install_icon(home, "128"@, a) + install_icon(
        home,
        "64"@,
        b,
    ));
    assert(config::icon_steps(home, three) =~= install_icon(home, "128"@, a) + install_icon(
        home,
        "64"@,
        b,
    ) + install_icon(home, "48"@, c));
    assert(config::icon_steps(home, icons) =~= install_icon(home, "128"@, a) + install_icon(
        home,
        "64"@,
        b,
    ) + install_icon(home, "48"@, c) + install_icon(home, "32"@, d));
}

} // verus!

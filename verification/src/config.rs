//! The desktop: whether its theme is dark, and the entry of the program in its menu.
use vstd::prelude::*;
use vstd::string::*;

use crate::devices::{kept, kept_comes_from};
use crate::icon;
use crate::icon::{load_icon, scale_icon, Picture, PictureView};
use crate::job;
use crate::job::{command, joined, Platform};
use crate::text;
use crate::text::{
    contains, decimal_text, equal_ignoring_case, lines, lower, strip_prefix, trim,
};

verus! {

// ---------------------------------------------------------------------------
// The theme
// ---------------------------------------------------------------------------

/// A search for the theme of the desktop, by what it waits for.
#[derive(Clone, Copy, PartialEq, Eq, Structural)]
pub enum ThemeSearch {
    /// On Windows, the setting in the registry.
    Registry,
    /// On Linux, the colour scheme of GNOME.
    ColorScheme,
    /// On Linux, the theme of GTK.
    GtkTheme,
    /// On Linux, the settings of KDE.
    Kde,
    /// On Linux, the settings of GTK 3.
    Gtk3,
    /// On Linux, the settings of GTK 4.
    Gtk4,
    /// On macOS, the style of the interface.
    Style,
    /// Nothing: it is known whether the theme is dark.
    Known(bool),
}

/// What a search for the theme waits for.
pub enum ThemeAsk {
    /// What a command writes.
    Output(Vec<String>),
    /// What a file holds.
    File(String),
    /// Nothing.
    Nothing,
}

/// The contents of a [`ThemeAsk`].
pub enum ThemeAskView {
    Output(Seq<Seq<char>>),
    File(Seq<char>),
    Nothing,
}

impl View for ThemeAsk {
    type V = ThemeAskView;

    open spec fn view(&self) -> ThemeAskView {
        match *self {
            ThemeAsk::Output(c) => ThemeAskView::Output(job::words(c@)),
            ThemeAsk::File(p) => ThemeAskView::File(p@),
            ThemeAsk::Nothing => ThemeAskView::Nothing,
        }
    }
}

/// A theme whose name reads so in lower case is dark.
pub open spec fn dark_theme_name(lower_name: Seq<char>) -> bool {
    text::has_text(lower_name, "dark"@) || text::has_text(lower_name, "night"@)
}

/// Whether a theme whose name reads so in lower case is dark.
pub fn is_dark_theme_name(lower_name: &str) -> (r: bool)
    ensures
        r == dark_theme_name(lower_name@),
{
    contains(lower_name, "dark") || contains(lower_name, "night")
}

/// The names of colour schemes that the settings of KDE give, one a line.
pub open spec fn scheme_names(content: Seq<char>) -> Seq<Seq<char>> {
    kept(
        text::line_list(content).map_values(
            |l: Seq<char>| text::after_prefix(l, "ColorScheme="@),
        ),
    )
}

/// The settings of KDE choose a dark scheme: `lower_content` is what they hold, and `lower_names`
/// are the names of schemes in them, all in lower case.
pub open spec fn dark_scheme(lower_content: Seq<char>, lower_names: Seq<Seq<char>>) -> bool {
    &&& text::has_text(lower_content, "colorscheme="@)
    &&& exists|i: int|
        0 <= i < lower_names.len() && text::has_text(#[trigger] lower_names[i], "dark"@)
}

/// The names of colour schemes that the settings of KDE give.
pub fn find_scheme_names(content: &str) -> (r: Vec<&str>)
    ensures
        text::texts(r@) == scheme_names(content@),
{
    let rows = lines(content);
    let ghost list = text::line_list(content@);
    let ghost all = list.map_values(|l: Seq<char>| text::after_prefix(l, "ColorScheme="@));
    let mut r: Vec<&str> = Vec::new();
    assert(text::texts(r@) =~= kept(all.take(0)));
    for i in 0..rows.len()
        invariant
            list == text::texts(rows@),
            all == list.map_values(|l: Seq<char>| text::after_prefix(l, "ColorScheme="@)),
            text::texts(r@) == kept(all.take(i as int)),
    {
        proof {
            assert(all.take(i + 1).drop_last() =~= all.take(i as int));
            assert(all[i as int] == text::after_prefix(list[i as int], "ColorScheme="@));
            assert(list[i as int] == rows@[i as int]@);
        }
        let ghost before = text::texts(r@);
        if let Some(name) = strip_prefix(rows[i], "ColorScheme=") {
            r.push(name);
            assert(text::texts(r@) =~= before.push(name@));
        }
    }
    assert(all.take(rows@.len() as int) =~= all);
    r
}

/// Whether the settings of KDE choose a dark scheme, by what they hold and by the names of schemes
/// in them, all in lower case.
pub fn is_dark_scheme(lower_content: &str, lower_names: &Vec<String>) -> (r: bool)
    ensures
        r == dark_scheme(lower_content@, job::words(lower_names@)),
{
    if !contains(lower_content, "colorscheme=") {
        return false;
    }
    for i in 0..lower_names.len()
        invariant
            text::has_text(lower_content@, "colorscheme="@),
            forall|j: int|
                0 <= j < i ==> !text::has_text(
                    #[trigger] job::words(lower_names@)[j],
                    "dark"@,
                ),
    {
        assert(job::words(lower_names@)[i as int] == lower_names@[i as int]@);
        if contains(lower_names[i].as_str(), "dark") {
            return true;
        }
    }
    false
}

/// The settings of KDE choose a dark scheme.
pub open spec fn kde_dark(content: Seq<char>) -> bool {
    dark_scheme(
        text::lowercase(content),
        scheme_names(content).map_values(|n: Seq<char>| text::lowercase(n)),
    )
}

/// Settings of KDE in ASCII choose a dark scheme.
pub open spec fn ascii_kde_dark(content: Seq<char>) -> bool {
    dark_scheme(
        text::folded(content),
        scheme_names(content).map_values(|n: Seq<char>| text::folded(n)),
    )
}

proof fn ascii_lines(s: Seq<char>, i: int)
    requires
        text::all_ascii(s),
        0 <= i < text::line_list(s).len(),
    ensures
        text::all_ascii(text::line_list(s)[i]),
    decreases s.len(),
{
    text::next_of_bounds(s, '\n', 0);
    let k = text::next_of(s, '\n', 0);
    if s.len() > 0 && k < s.len() {
        let rest = s.skip(k + 1);
        if i > 0 {
            assert forall|j: int| 0 <= j < rest.len() implies (#[trigger] rest[j] as u32) < 128 by {
                assert((s[j + k + 1] as u32) < 128);
            }
            ascii_lines(rest, i - 1);
            assert(text::line_list(s)[i] == text::line_list(rest)[i - 1]);
        } else {
            let line = text::without_cr(s.take(k));
            assert(text::line_list(s)[0] == line);
            assert forall|j: int| 0 <= j < line.len() implies (#[trigger] line[j] as u32) < 128 by {
                assert((s[j] as u32) < 128);
            }
        }
    }
}

proof fn ascii_scheme_names(content: Seq<char>, i: int)
    requires
        text::all_ascii(content),
        0 <= i < scheme_names(content).len(),
    ensures
        text::all_ascii(scheme_names(content)[i]),
{
    let list = text::line_list(content);
    let all = list.map_values(|l: Seq<char>| text::after_prefix(l, "ColorScheme="@));
    kept_comes_from(all, i);
    let name = scheme_names(content)[i];
    let k = choose|k: int| 0 <= k < all.len() && all[k] == Some(name);
    ascii_lines(content, k);
    let n = "ColorScheme="@.len() as int;
    assert(name == list[k].skip(n));
    assert forall|j: int| 0 <= j < name.len() implies (#[trigger] name[j] as u32) < 128 by {
        assert((list[k][j + n] as u32) < 128);
    }
}

/// Whether the settings of KDE choose a dark scheme.
pub fn is_kde_dark(content: &str) -> (r: bool)
    ensures
        r == kde_dark(content@),
        text::all_ascii(content@) ==> r == ascii_kde_dark(content@),
{
    let names = find_scheme_names(content);
    let ghost given = text::texts(names@);
    let ghost all = given.map_values(|n: Seq<char>| text::lowercase(n));
    let ghost fold = given.map_values(|n: Seq<char>| text::folded(n));
    let mut lower_names: Vec<String> = Vec::new();
    for i in 0..names.len()
        invariant
            given == text::texts(names@),
            given == scheme_names(content@),
            all == given.map_values(|n: Seq<char>| text::lowercase(n)),
            fold == given.map_values(|n: Seq<char>| text::folded(n)),
            job::words(lower_names@) == all.take(i as int),
            text::all_ascii(content@) ==> job::words(lower_names@) == fold.take(i as int),
    {
        let name = lower(names[i]);
        let ghost before = job::words(lower_names@);
        lower_names.push(name);
        proof {
            assert(given[i as int] == names@[i as int]@);
            assert(job::words(lower_names@) =~= before.push(name@));
            assert(all.take(i + 1) =~= all.take(i as int).push(name@));
            if text::all_ascii(content@) {
                ascii_scheme_names(content@, i as int);
                assert(fold.take(i + 1) =~= fold.take(i as int).push(name@));
            }
        }
    }
    assert(all.take(names@.len() as int) =~= all);
    assert(fold.take(names@.len() as int) =~= fold);
    let lower_content = lower(content);
    is_dark_scheme(lower_content.as_str(), &lower_names)
}

/// What a search for the theme waits for, where `home` is the user's directory.
pub open spec fn theme_asks(st: ThemeSearch, home: Seq<char>) -> ThemeAskView {
    match st {
        ThemeSearch::Registry => ThemeAskView::Output(
            seq![
                "reg"@,
                "query"@,
                "HKCU\\SOFTWARE\\Microsoft\\Windows\\CurrentVersion\\Themes\\Personalize"@,
                "/v"@,
                "AppsUseLightTheme"@,
            ],
        ),
        ThemeSearch::ColorScheme => ThemeAskView::Output(
            seq!["gsettings"@, "get"@, "org.gnome.desktop.interface"@, "color-scheme"@],
        ),
        ThemeSearch::GtkTheme => ThemeAskView::Output(
            seq!["gsettings"@, "get"@, "org.gnome.desktop.interface"@, "gtk-theme"@],
        ),
        ThemeSearch::Kde => ThemeAskView::File(home + "/.config/kdeglobals"@),
        ThemeSearch::Gtk3 => ThemeAskView::File(home + "/.config/gtk-3.0/settings.ini"@),
        ThemeSearch::Gtk4 => ThemeAskView::File(home + "/.config/gtk-4.0/settings.ini"@),
        ThemeSearch::Style => ThemeAskView::Output(
            seq!["defaults"@, "read"@, "-g"@, "AppleInterfaceStyle"@],
        ),
        ThemeSearch::Known(_) => ThemeAskView::Nothing,
    }
}

/// Where a search for the theme starts. On a platform that is not known the theme is not dark.
pub open spec fn theme_start(platform: Platform) -> ThemeSearch {
    match platform {
        Platform::Windows => ThemeSearch::Registry,
        Platform::Linux => ThemeSearch::ColorScheme,
        Platform::MacOs => ThemeSearch::Style,
        Platform::Other => ThemeSearch::Known(false),
    }
}

/// The theme is known to be dark where `dark` holds; else the search goes on at `st`.
pub open spec fn dark_or(dark: bool, st: ThemeSearch) -> ThemeSearch {
    if dark {
        ThemeSearch::Known(true)
    } else {
        st
    }
}

/// Where a search for the theme goes on `reply`, the text that it waited for, where there is one.
/// `theme_dark` tells whether that text, as the name of a theme of GTK, is that of a dark one, and
/// `scheme_dark` whether, as the settings of KDE, it chooses a dark scheme.
pub open spec fn theme_choice(
    st: ThemeSearch,
    reply: Option<Seq<char>>,
    theme_dark: bool,
    scheme_dark: bool,
) -> ThemeSearch {
    match (st, reply) {
        (ThemeSearch::Known(_), _) => st,
        (ThemeSearch::Registry, Some(t)) => ThemeSearch::Known(text::has_text(t, "0x0"@)),
        (ThemeSearch::Style, Some(t)) => ThemeSearch::Known(
            text::same_ignoring_case(text::trimmed(t), "Dark"@),
        ),
        (ThemeSearch::Registry, None) => ThemeSearch::Known(false),
        (ThemeSearch::Style, None) => ThemeSearch::Known(false),
        (ThemeSearch::ColorScheme, Some(t)) => dark_or(
            text::has_text(t, "prefer-dark"@),
            ThemeSearch::GtkTheme,
        ),
        (ThemeSearch::ColorScheme, None) => ThemeSearch::Kde,
        (ThemeSearch::GtkTheme, Some(_)) => dark_or(theme_dark, ThemeSearch::Kde),
        (ThemeSearch::GtkTheme, None) => ThemeSearch::Kde,
        (ThemeSearch::Kde, Some(_)) => dark_or(scheme_dark, ThemeSearch::Gtk3),
        (ThemeSearch::Kde, None) => ThemeSearch::Gtk3,
        (ThemeSearch::Gtk3, Some(t)) => dark_or(
            text::has_text(t, "gtk-application-prefer-dark-theme=1"@),
            ThemeSearch::Gtk4,
        ),
        (ThemeSearch::Gtk3, None) => ThemeSearch::Gtk4,
        (ThemeSearch::Gtk4, Some(t)) => ThemeSearch::Known(
            text::has_text(t, "gtk-application-prefer-dark-theme=1"@),
        ),
        (ThemeSearch::Gtk4, None) => ThemeSearch::Known(false),
    }
}

/// Where a search for the theme goes on `reply`.
pub open spec fn theme_next(st: ThemeSearch, reply: Option<Seq<char>>) -> ThemeSearch {
    match reply {
        Some(t) => theme_choice(st, reply, dark_theme_name(text::lowercase(t)), kde_dark(t)),
        None => theme_choice(st, reply, false, false),
    }
}

/// Where a search for the theme goes on `t`, a text in ASCII.
pub open spec fn ascii_theme_next(st: ThemeSearch, t: Seq<char>) -> ThemeSearch {
    theme_choice(st, Some(t), dark_theme_name(text::folded(t)), ascii_kde_dark(t))
}

/// Starts to find out whether the theme of the desktop is dark.
pub fn detect_is_dark(platform: Platform) -> (r: ThemeSearch)
    ensures
        r == theme_start(platform),
{
    match platform {
        Platform::Windows => ThemeSearch::Registry,
        Platform::Linux => ThemeSearch::ColorScheme,
        Platform::MacOs => ThemeSearch::Style,
        Platform::Other => ThemeSearch::Known(false),
    }
}

/// What a search for the theme waits for.
pub fn theme_pending(st: ThemeSearch, home: &str) -> (r: ThemeAsk)
    ensures
        r@ == theme_asks(st, home@),
{
    match st {
        ThemeSearch::Registry => {
            let v = vec![
                "reg",
                "query",
                "HKCU\\SOFTWARE\\Microsoft\\Windows\\CurrentVersion\\Themes\\Personalize",
                "/v",
                "AppsUseLightTheme",
            ];
            assert(text::texts(v@) =~= theme_asks(st, home@)->Output_0);
            ThemeAsk::Output(command(v))
        },
        ThemeSearch::ColorScheme => {
            let v = vec!["gsettings", "get", "org.gnome.desktop.interface", "color-scheme"];
            assert(text::texts(v@) =~= theme_asks(st, home@)->Output_0);
            ThemeAsk::Output(command(v))
        },
        ThemeSearch::GtkTheme => {
            let v = vec!["gsettings", "get", "org.gnome.desktop.interface", "gtk-theme"];
            assert(text::texts(v@) =~= theme_asks(st, home@)->Output_0);
            ThemeAsk::Output(command(v))
        },
        ThemeSearch::Kde => ThemeAsk::File(joined(home, "/.config/kdeglobals")),
        ThemeSearch::Gtk3 => ThemeAsk::File(joined(home, "/.config/gtk-3.0/settings.ini")),
        ThemeSearch::Gtk4 => ThemeAsk::File(joined(home, "/.config/gtk-4.0/settings.ini")),
        ThemeSearch::Style => {
            let v = vec!["defaults", "read", "-g", "AppleInterfaceStyle"];
            assert(text::texts(v@) =~= theme_asks(st, home@)->Output_0);
            ThemeAsk::Output(command(v))
        },
        ThemeSearch::Known(_) => ThemeAsk::Nothing,
    }
}

/// The theme is known to be dark where `dark` holds; else the search goes on at `st`.
fn known_or(dark: bool, st: ThemeSearch) -> (r: ThemeSearch)
    ensures
        r == dark_or(dark, st),
{
    if dark {
        ThemeSearch::Known(true)
    } else {
        st
    }
}

/// Takes a search for the theme on by the text that it waited for, where there is one.
pub fn theme_step(st: ThemeSearch, reply: &Option<String>) -> (r: ThemeSearch)
    ensures
        r == theme_next(st, job::text_view(*reply)),
        job::text_view(*reply) matches Some(t) ==> text::all_ascii(t) ==> r == ascii_theme_next(
            st,
            t,
        ),
{
    match reply {
        Some(s) => {
            let t = s.as_str();
            match st {
                ThemeSearch::Known(_) => st,
                ThemeSearch::Registry => ThemeSearch::Known(contains(t, "0x0")),
                ThemeSearch::Style => ThemeSearch::Known(equal_ignoring_case(trim(t), "Dark")),
                ThemeSearch::ColorScheme => known_or(
                    contains(t, "prefer-dark"),
                    ThemeSearch::GtkTheme,
                ),
                ThemeSearch::GtkTheme => {
                    let name = lower(t);
                    known_or(is_dark_theme_name(name.as_str()), ThemeSearch::Kde)
                },
                ThemeSearch::Kde => known_or(is_kde_dark(t), ThemeSearch::Gtk3),
                ThemeSearch::Gtk3 => known_or(
                    contains(t, "gtk-application-prefer-dark-theme=1"),
                    ThemeSearch::Gtk4,
                ),
                ThemeSearch::Gtk4 => ThemeSearch::Known(
                    contains(t, "gtk-application-prefer-dark-theme=1"),
                ),
            }
        },
        None => match st {
            ThemeSearch::Known(_) => st,
            ThemeSearch::Registry => ThemeSearch::Known(false),
            ThemeSearch::Style => ThemeSearch::Known(false),
            ThemeSearch::ColorScheme => ThemeSearch::Kde,
            ThemeSearch::GtkTheme => ThemeSearch::Kde,
            ThemeSearch::Kde => ThemeSearch::Gtk3,
            ThemeSearch::Gtk3 => ThemeSearch::Gtk4,
            ThemeSearch::Gtk4 => ThemeSearch::Known(false),
        },
    }
}

/// Where a search for the theme stands after `replies`.
pub open spec fn theme_after(st: ThemeSearch, replies: Seq<Option<Seq<char>>>) -> ThemeSearch
    decreases replies.len(),
{
    if replies.len() == 0 {
        st
    } else {
        theme_next(theme_after(st, replies.drop_last()), replies.last())
    }
}

/// How many more texts a search for the theme can wait for.
pub open spec fn theme_left(st: ThemeSearch) -> nat {
    match st {
        ThemeSearch::ColorScheme => 5,
        ThemeSearch::GtkTheme => 4,
        ThemeSearch::Kde => 3,
        ThemeSearch::Gtk3 => 2,
        ThemeSearch::Gtk4 => 1,
        ThemeSearch::Registry => 1,
        ThemeSearch::Style => 1,
        ThemeSearch::Known(_) => 0,
    }
}

proof fn theme_left_falls(st: ThemeSearch, replies: Seq<Option<Seq<char>>>)
    ensures
        theme_left(theme_after(st, replies)) == 0 || theme_left(theme_after(st, replies))
            + replies.len() <= theme_left(st),
    decreases replies.len(),
{
    if replies.len() > 0 {
        theme_left_falls(st, replies.drop_last());
    }
}

/// Whatever it is told, a search knows the theme after five texts at most.
pub proof fn theme_is_known_in_the_end(platform: Platform, replies: Seq<Option<Seq<char>>>)
    requires
        replies.len() >= 5,
    ensures
        theme_after(theme_start(platform), replies) is Known,
{
    theme_left_falls(theme_start(platform), replies);
}

// ---------------------------------------------------------------------------
// The menu entry
// ---------------------------------------------------------------------------

/// A step of the installation of the menu entry. A step that fails does not stop the others.
pub enum DesktopStep {
    /// Make a directory, and those above it.
    MakeDir(String),
    /// Save a picture in a file.
    SaveIcon(String, Picture),
    /// Run a command.
    Run(Vec<String>),
    /// Write a text to a file.
    Write(String, String),
}

/// The contents of a [`DesktopStep`].
pub enum DesktopStepView {
    MakeDir(Seq<char>),
    SaveIcon(Seq<char>, PictureView),
    Run(Seq<Seq<char>>),
    Write(Seq<char>, Seq<char>),
}

impl View for DesktopStep {
    type V = DesktopStepView;

    open spec fn view(&self) -> DesktopStepView {
        match *self {
            DesktopStep::MakeDir(p) => DesktopStepView::MakeDir(p@),
            DesktopStep::SaveIcon(p, i) => DesktopStepView::SaveIcon(p@, i@),
            DesktopStep::Run(c) => DesktopStepView::Run(job::words(c@)),
            DesktopStep::Write(p, t) => DesktopStepView::Write(p@, t@),
        }
    }
}

/// The contents of a list of steps.
pub open spec fn step_views(v: Seq<DesktopStep>) -> Seq<DesktopStepView> {
    v.map_values(|s: DesktopStep| s@)
}

/// The directory of the menu entries.
pub open spec fn apps_dir(home: Seq<char>) -> Seq<char> {
    home + "/.local/share/applications"@
}

/// The file of the menu entry.
pub open spec fn desktop_path(home: Seq<char>) -> Seq<char> {
    home + "/.local/share/applications/flint.desktop"@
}

/// The directory of the icons.
pub open spec fn icons_dir(home: Seq<char>) -> Seq<char> {
    home + "/.local/share/icons/hicolor"@
}

/// The directory of the icons of the given size.
pub open spec fn icon_dir(home: Seq<char>, size: u32) -> Seq<char> {
    home + "/.local/share/icons/hicolor/"@ + text::decimal(size as nat) + "x"@ + text::decimal(
        size as nat,
    ) + "/apps"@
}

/// The menu entry, where the program lies at `bin_path`; where that is not known, it is looked for
/// by its name.
pub open spec fn desktop_entry(bin_path: Option<Seq<char>>) -> Seq<char> {
    "[Desktop Entry]\nType=Application\nName=flint\nComment=Flash ISO files to USB drives\nExec="@
        + match bin_path {
        Some(p) => p,
        None => "flint"@,
    }
        + "\nIcon=flint\nTerminal=false\nCategories=Utility;X-GNOME-Utilities;\nStartupWMClass=flint\n"@
}

/// The steps that install the first of the icons, in the sizes in which they are installed.
pub open spec fn icon_steps(home: Seq<char>, icons: Seq<PictureView>) -> Seq<DesktopStepView>
    decreases icons.len(),
{
    if icons.len() == 0 {
        seq![]
    } else {
        let dir = icon_dir(home, icon::icon_sizes()[icons.len() - 1]);
        icon_steps(home, icons.drop_last()) + seq![
            DesktopStepView::MakeDir(dir),
            DesktopStepView::SaveIcon(dir + "/flint.png"@, icons.last()),
        ]
    }
}

/// The steps that install the menu entry with these icons.
pub open spec fn desktop_steps(
    home: Seq<char>,
    icons: Seq<PictureView>,
    bin_path: Option<Seq<char>>,
) -> Seq<DesktopStepView> {
    icon_steps(home, icons) + seq![
        DesktopStepView::Run(seq!["gtk-update-icon-cache"@, "-f"@, "-t"@, icons_dir(home)]),
        DesktopStepView::MakeDir(apps_dir(home)),
        DesktopStepView::Write(desktop_path(home), desktop_entry(bin_path)),
        DesktopStepView::Run(seq!["update-desktop-database"@, apps_dir(home)]),
    ]
}

/// The file of the menu entry. Where it exists, the entry is installed.
pub fn desktop_file(home: &str) -> (r: String)
    ensures
        r@ == desktop_path(home@),
{
    joined(home, "/.local/share/applications/flint.desktop")
}

/// The directory of the icons of the given size.
fn icon_directory(home: &str, size: u32) -> (r: String)
    ensures
        r@ == icon_dir(home@, size),
{
    let n = decimal_text(size as u64);
    let mut t = joined(home, "/.local/share/icons/hicolor/");
    t.append(n.as_str());
    t.append("x");
    t.append(n.as_str());
    t.append("/apps");
    t
}

/// The menu entry.
fn write_entry(bin_path: &Option<String>) -> (r: String)
    ensures
        r@ == desktop_entry(job::text_view(*bin_path)),
{
    let mut t =
        "[Desktop Entry]\nType=Application\nName=flint\nComment=Flash ISO files to USB drives\nExec=".to_owned();
    match bin_path {
        Some(p) => t.append(p.as_str()),
        None => t.append("flint"),
    }
    t.append(
        "\nIcon=flint\nTerminal=false\nCategories=Utility;X-GNOME-Utilities;\nStartupWMClass=flint\n",
    );
    t
}

/// The size of icon `i` of those that are installed.
fn icon_size(i: usize) -> (r: u32)
    requires
        i < icon::icon_sizes().len(),
    ensures
        r == icon::icon_sizes()[i as int],
{
    match i {
        0 => 128,
        1 => 64,
        2 => 48,
        _ => 32,
    }
}

/// The steps that install the menu entry with these icons.
pub fn plan_desktop(home: &str, icons: Vec<Picture>, bin_path: &Option<String>) -> (r: Vec<
    DesktopStep,
>)
    requires
        icons@.len() == icon::icon_sizes().len(),
    ensures
        step_views(r@) == desktop_steps(
            home@,
            icon::picture_views(icons@),
            job::text_view(*bin_path),
        ),
{
    let ghost all = icon::picture_views(icons@);
    let mut r: Vec<DesktopStep> = Vec::new();
    assert(step_views(r@) =~= icon_steps(home@, all.take(0)));
    let mut i: usize = 0;
    for p in it: icons
        invariant
            all == icon::picture_views(it.seq()),
            all.len() == icon::icon_sizes().len(),
            i == it.index(),
            step_views(r@) == icon_steps(home@, all.take(i as int)),
    {
        let dir = icon_directory(home, icon_size(i));
        let file = joined(dir.as_str(), "/flint.png");
        let ghost before = step_views(r@);
        let first = DesktopStep::MakeDir(dir);
        let second = DesktopStep::SaveIcon(file, p);
        proof {
            assert(all.take(i + 1).drop_last() =~= all.take(i as int));
            assert(all.take(i + 1).last() == p@);
        }
        r.push(first);
        r.push(second);
        assert(step_views(r@) =~= before + seq![first@, second@]);
        i = i + 1;
    }
    assert(all.take(i as int) =~= all);
    let ghost icons_done = step_views(r@);
    let hicolor = joined(home, "/.local/share/icons/hicolor");
    let apps = joined(home, "/.local/share/applications");
    let v = vec!["gtk-update-icon-cache", "-f", "-t", hicolor.as_str()];
    assert(text::texts(v@) =~= seq!["gtk-update-icon-cache"@, "-f"@, "-t"@, icons_dir(home@)]);
    let a = DesktopStep::Run(command(v));
    let w = vec!["update-desktop-database", apps.as_str()];
    assert(text::texts(w@) =~= seq!["update-desktop-database"@, apps_dir(home@)]);
    let d = DesktopStep::Run(command(w));
    let b = DesktopStep::MakeDir(apps);
    let c = DesktopStep::Write(desktop_file(home), write_entry(bin_path));
    r.push(a);
    r.push(b);
    r.push(c);
    r.push(d);
    assert(step_views(r@) =~= icons_done + seq![a@, b@, c@, d@]);
    r
}

/// `steps` install the menu entry with copies of the icon `p`.
pub open spec fn installs(
    home: Seq<char>,
    p: PictureView,
    bin_path: Option<Seq<char>>,
    steps: Seq<DesktopStepView>,
) -> bool {
    exists|icons: Seq<PictureView>|
        #![trigger icon::are_copies(p, icons)]
        icon::are_copies(p, icons) && steps == desktop_steps(home, icons, bin_path)
}

/// `steps` are those of a setup: none where the entry is installed already, or where the file of the
/// icon, which holds `icon`, cannot be read; else those that install it.
pub open spec fn sets_up(
    home: Seq<char>,
    installed: bool,
    icon: Seq<u8>,
    bin_path: Option<Seq<char>>,
    steps: Seq<DesktopStepView>,
) -> bool {
    match icon::icon_view(icon) {
        Some(p) if !installed => installs(home, p, bin_path, steps),
        _ => steps.len() == 0,
    }
}

/// The steps that install the menu entry of the program that lies at `bin_path`. There are none
/// where the entry is installed already, or where the file of the icon, which holds `icon`, cannot
/// be read.
pub fn setup_desktop_integration(
    home: &str,
    installed: bool,
    icon: &[u8],
    bin_path: &Option<String>,
) -> (r: Vec<DesktopStep>)
    ensures
        installed || icon::icon_view(icon@) is None ==> r@.len() == 0,
        sets_up(home@, installed, icon@, job::text_view(*bin_path), step_views(r@)),
        !installed ==> (icon::icon_view(icon@) matches Some(p) ==> installs(
            home@,
            p,
            job::text_view(*bin_path),
            step_views(r@),
        )),
{
    if installed {
        return Vec::new();
    }
    match load_icon(icon) {
        Some(p) => {
            let icons = scale_icon(&p);
            let ghost copies = icon::picture_views(icons@);
            assert(icons@.len() == copies.len());
            let steps = plan_desktop(home, icons, bin_path);
            assert(icon::are_copies(p@, copies));
            assert(installs(home@, p@, job::text_view(*bin_path), step_views(steps@)));
            steps
        },
        None => Vec::new(),
    }
}

/// What marks the entry as installed is among the steps that install it, so that it is installed
/// once.
pub proof fn setup_leaves_its_mark(
    home: Seq<char>,
    icons: Seq<PictureView>,
    bin_path: Option<Seq<char>>,
)
    ensures
        desktop_steps(home, icons, bin_path).contains(
            DesktopStepView::Write(desktop_path(home), desktop_entry(bin_path)),
        ),
{
    let n = icon_steps(home, icons).len() as int;
    assert(desktop_steps(home, icons, bin_path)[n + 2] == DesktopStepView::Write(
        desktop_path(home),
        desktop_entry(bin_path),
    ));
}

} // verus!

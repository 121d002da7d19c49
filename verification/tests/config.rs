use flint::config::{
    desktop_file, detect_is_dark, find_scheme_names, is_dark_scheme, is_dark_theme_name,
    is_kde_dark, setup_desktop_integration, theme_pending, theme_step, DesktopStep, ThemeAsk,
    ThemeSearch,
};
use flint::icon::{load_icon, scale_icon, Picture};
use flint::job::Platform;

fn some(t: &str) -> Option<String> {
    Some(t.to_string())
}

fn file_of(st: ThemeSearch) -> String {
    match theme_pending(st, "/home/u") {
        ThemeAsk::File(p) => p,
        _ => panic!("a file is waited for"),
    }
}

fn command_of(st: ThemeSearch) -> Vec<String> {
    match theme_pending(st, "/home/u") {
        ThemeAsk::Output(c) => c,
        _ => panic!("a command is waited for"),
    }
}

#[test]
fn the_theme_of_linux_is_looked_for_in_turn() {
    let st = detect_is_dark(Platform::Linux);
    assert_eq!(
        command_of(st),
        vec!["gsettings", "get", "org.gnome.desktop.interface", "color-scheme"]
    );
    assert!(theme_step(st, &some("'prefer-dark'\n")) == ThemeSearch::Known(true));
    let st = theme_step(st, &some("'default'"));
    assert_eq!(
        command_of(st),
        vec!["gsettings", "get", "org.gnome.desktop.interface", "gtk-theme"]
    );
    assert!(theme_step(st, &some("'Adwaita-DARK'")) == ThemeSearch::Known(true));
    assert!(theme_step(st, &some("'Midnight'")) == ThemeSearch::Known(true));
    let st = theme_step(st, &some("'Adwaita'"));
    assert_eq!(file_of(st), "/home/u/.config/kdeglobals");
    assert!(theme_step(st, &some("[General]\nColorScheme=BreezeDark\n")) == ThemeSearch::Known(true));
    let st = theme_step(st, &None);
    assert_eq!(file_of(st), "/home/u/.config/gtk-3.0/settings.ini");
    let on = some("gtk-application-prefer-dark-theme=1");
    assert!(theme_step(st, &on) == ThemeSearch::Known(true));
    let st = theme_step(st, &some("gtk-application-prefer-dark-theme=0"));
    assert_eq!(file_of(st), "/home/u/.config/gtk-4.0/settings.ini");
    assert!(theme_step(st, &on) == ThemeSearch::Known(true));
    let st = theme_step(st, &None);
    assert!(st == ThemeSearch::Known(false));
    assert!(matches!(theme_pending(st, "/home/u"), ThemeAsk::Nothing));
    assert!(theme_step(st, &on) == ThemeSearch::Known(false));
}

#[test]
fn without_gsettings_its_theme_is_not_asked_for() {
    let st = theme_step(detect_is_dark(Platform::Linux), &None);
    assert_eq!(file_of(st), "/home/u/.config/kdeglobals");
}

#[test]
fn the_theme_of_windows_and_of_macos() {
    let st = detect_is_dark(Platform::Windows);
    assert_eq!(command_of(st)[4], "AppsUseLightTheme");
    assert!(theme_step(st, &some("AppsUseLightTheme REG_DWORD 0x0")) == ThemeSearch::Known(true));
    assert!(theme_step(st, &some("AppsUseLightTheme REG_DWORD 0x1")) == ThemeSearch::Known(false));
    let st = detect_is_dark(Platform::MacOs);
    assert_eq!(command_of(st), vec!["defaults", "read", "-g", "AppleInterfaceStyle"]);
    assert!(theme_step(st, &some(" dARK\n")) == ThemeSearch::Known(true));
    assert!(theme_step(st, &some("Darker")) == ThemeSearch::Known(false));
    assert!(theme_step(st, &None) == ThemeSearch::Known(false));
    assert!(detect_is_dark(Platform::Other) == ThemeSearch::Known(false));
}

#[test]
fn the_schemes_of_kde() {
    let content = "ColorScheme=BreezeLight\n ColorScheme=Indented\nColorScheme=Other\r\n";
    assert_eq!(find_scheme_names(content), vec!["BreezeLight", "Other"]);
    assert!(!is_kde_dark(content));
    assert!(is_kde_dark("ColorScheme=A\nColorScheme=OxygenDarK"));
    assert!(!is_kde_dark("colorscheme=Dark"));
    assert!(is_dark_scheme("colorscheme=", &vec!["a".to_string(), "xdark".to_string()]));
    assert!(!is_dark_scheme("scheme", &vec!["dark".to_string()]));
    assert!(is_dark_theme_name("tokyo night"));
    assert!(!is_dark_theme_name("light"));
}

/// A picture in a file, with the given sides.
fn png(width: u32, height: u32) -> (Vec<u8>, Vec<u8>) {
    let mut rgba = Vec::new();
    for i in 0..width * height {
        rgba.extend([(i % 256) as u8, 7, 9, 255]);
    }
    let picture = image::RgbaImage::from_raw(width, height, rgba.clone()).unwrap();
    let mut file = std::io::Cursor::new(Vec::new());
    picture.write_to(&mut file, image::ImageFormat::Png).unwrap();
    (file.into_inner(), rgba)
}

#[test]
fn an_icon_is_read_and_scaled() {
    let (file, rgba) = png(64, 64);
    let icon = load_icon(&file).unwrap();
    assert_eq!((icon.width, icon.height), (64, 64));
    assert_eq!(icon.rgba, rgba);
    let copies = scale_icon(&icon);
    let sides: Vec<(u32, u32)> = copies.iter().map(|p| (p.width, p.height)).collect();
    assert_eq!(sides, vec![(128, 128), (64, 64), (48, 48), (32, 32)]);
    assert_eq!(copies[1].rgba, rgba);
    for p in &copies {
        assert_eq!(p.rgba.len() as u32, 4 * p.width * p.height);
    }
    assert!(load_icon(b"no picture").is_none());
}

#[test]
fn the_menu_entry_is_installed_step_by_step() {
    let (file, _) = png(3, 2);
    let steps = setup_desktop_integration("/home/u", false, &file, &some("/usr/bin/flint"));
    let mut told = Vec::new();
    for step in &steps {
        told.push(match step {
            DesktopStep::MakeDir(p) => format!("dir {}", p),
            DesktopStep::SaveIcon(p, i) => format!("icon {} {}x{}", p, i.width, i.height),
            DesktopStep::Run(c) => format!("run {}", c.join(" ")),
            DesktopStep::Write(p, t) => format!("write {} {}", p, t),
        });
    }
    let icons = "/home/u/.local/share/icons/hicolor";
    assert_eq!(
        told,
        vec![
            format!("dir {}/128x128/apps", icons),
            format!("icon {}/128x128/apps/flint.png 128x128", icons),
            format!("dir {}/64x64/apps", icons),
            format!("icon {}/64x64/apps/flint.png 64x64", icons),
            format!("dir {}/48x48/apps", icons),
            format!("icon {}/48x48/apps/flint.png 48x48", icons),
            format!("dir {}/32x32/apps", icons),
            format!("icon {}/32x32/apps/flint.png 32x32", icons),
            format!("run gtk-update-icon-cache -f -t {}", icons),
            "dir /home/u/.local/share/applications".to_string(),
            "write /home/u/.local/share/applications/flint.desktop [Desktop Entry]\nType=Application\nName=flint\nComment=Flash ISO files to USB drives\nExec=/usr/bin/flint\nIcon=flint\nTerminal=false\nCategories=Utility;X-GNOME-Utilities;\nStartupWMClass=flint\n".to_string(),
            "run update-desktop-database /home/u/.local/share/applications".to_string(),
        ]
    );
}

#[test]
fn an_installed_entry_or_a_broken_icon_means_no_steps() {
    let (file, _) = png(1, 1);
    assert_eq!(setup_desktop_integration("/h", true, &file, &None).len(), 0);
    assert_eq!(setup_desktop_integration("/h", false, b"", &None).len(), 0);
    let steps = setup_desktop_integration("/h", false, &file, &None);
    let marked = steps.iter().any(|s| match s {
        DesktopStep::Write(p, t) => *p == desktop_file("/h") && t.contains("\nExec=flint\n"),
        _ => false,
    });
    assert!(marked);
}

#[test]
fn a_channel_of_one_value_keeps_it() {
    for (width, height) in [(128, 128), (1, 1), (7, 300), (1024, 1024), (1024, 3)] {
        for value in [0, 1, 127, 254, 255] {
            let mut rgba = Vec::new();
            for i in 0..width * height {
                rgba.extend([(i % 256) as u8, value, (i / 7 % 256) as u8, 255 - value]);
            }
            let copies = scale_icon(&Picture { width, height, rgba });
            for p in &copies {
                assert!(p.rgba.chunks(4).all(|q| q[1] == value && q[3] == 255 - value));
            }
        }
    }
}

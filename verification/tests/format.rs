use mkdesktop::entry::{make_desktop_entry_string, DesktopEntryType, LaunchEntryRequest};

fn request(
    entry_type: DesktopEntryType,
    name: &str,
    exec_cmd: &str,
    icon: Option<&str>,
) -> LaunchEntryRequest {
    LaunchEntryRequest {
        name: name.to_string(),
        entry_type,
        exec_cmd: exec_cmd.to_string(),
        icon: icon.map(|p| p.to_string()),
        global: false,
        filename: None,
    }
}

#[test]
fn renders_the_exact_template() {
    let req = request(DesktopEntryType::Application, "Foo", "/bin/foo", None);
    assert_eq!(
        make_desktop_entry_string(&req),
        "#!/usr/bin/env xdg-open\n[Desktop Entry]\nType=Application\nName=Foo\nExec=/bin/foo\n"
    );
}

#[test]
fn no_icon_line_without_icon() {
    let req = request(DesktopEntryType::Application, "Foo", "/bin/foo", None);
    let text = make_desktop_entry_string(&req);
    assert!(text.lines().all(|l| !l.starts_with("Icon=")));
}

#[test]
fn one_icon_line_last_and_verbatim() {
    let req = request(
        DesktopEntryType::Application,
        "Foo",
        "/bin/foo",
        Some("/usr/share/icons/foo.png"),
    );
    let text = make_desktop_entry_string(&req);
    let icon_lines: Vec<&str> = text.lines().filter(|l| l.starts_with("Icon=")).collect();
    assert_eq!(icon_lines, vec!["Icon=/usr/share/icons/foo.png"]);
    assert_eq!(text.lines().last(), Some("Icon=/usr/share/icons/foo.png"));
    assert!(text.ends_with('\n'));
}

#[test]
fn exec_changes_only_the_exec_line() {
    let a = request(DesktopEntryType::Link, "Foo", "/bin/foo", Some("/i.png"));
    let b = request(DesktopEntryType::Link, "Foo", "/bin/bar --baz", Some("/i.png"));
    let ta = make_desktop_entry_string(&a);
    let tb = make_desktop_entry_string(&b);
    let la: Vec<&str> = ta.lines().collect();
    let lb: Vec<&str> = tb.lines().collect();
    assert_eq!(la.len(), lb.len());
    for (x, y) in la.iter().zip(lb.iter()) {
        if x.starts_with("Exec=") {
            assert_eq!(*x, "Exec=/bin/foo");
            assert_eq!(*y, "Exec=/bin/bar --baz");
        } else {
            assert_eq!(x, y);
        }
    }
}

#[test]
fn each_type_renders_its_own_text() {
    assert_eq!(DesktopEntryType::Application.as_str(), "Application");
    assert_eq!(DesktopEntryType::Link.as_str(), "Link");
    assert_eq!(DesktopEntryType::Directory.as_str(), "Directory");
    let req = request(DesktopEntryType::Directory, "D", "x", None);
    assert!(make_desktop_entry_string(&req).contains("\nType=Directory\n"));
}

#[test]
fn fields_render_verbatim_without_escaping() {
    let req = request(
        DesktopEntryType::Application,
        "My \"App\" <1>",
        "/bin/sh -c 'echo hi'",
        None,
    );
    let text = make_desktop_entry_string(&req);
    assert!(text.contains("\nName=My \"App\" <1>\n"));
    assert!(text.contains("\nExec=/bin/sh -c 'echo hi'\n"));
}

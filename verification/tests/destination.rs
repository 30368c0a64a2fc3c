use mkdesktop::entry::{DesktopEntryType, LaunchEntryRequest};
use mkdesktop::paths::{applications_dir_under, get_xdg_applications_dir, PathError};
use mkdesktop::plan::plan_entry;

#[test]
fn the_applications_subpath_is_appended() {
    assert_eq!(
        applications_dir_under("/home/u/.local/share"),
        "/home/u/.local/share/applications"
    );
}

#[test]
fn a_trailing_separator_is_not_doubled() {
    assert_eq!(
        applications_dir_under("/home/u/.local/share/"),
        "/home/u/.local/share/applications"
    );
}

#[test]
fn the_global_directory_is_fixed() {
    assert_eq!(
        get_xdg_applications_dir(true),
        Ok("/usr/share/applications".to_string())
    );
}

#[test]
fn the_user_directory_lies_under_applications() {
    match get_xdg_applications_dir(false) {
        Ok(d) => assert!(d.ends_with("/applications")),
        Err(e) => assert_eq!(e, PathError::NoDataHome),
    }
}

#[test]
fn a_global_plan_comes_out_whole() {
    let req = LaunchEntryRequest {
        name: "My App! 2.0".to_string(),
        entry_type: DesktopEntryType::Application,
        exec_cmd: "/opt/myapp/run --fast".to_string(),
        icon: None,
        global: true,
        filename: None,
    };
    let p = plan_entry(&req).unwrap();
    assert_eq!(p.dir, "/usr/share/applications");
    assert_eq!(p.filename, "My_App_2.0.desktop");
    assert_eq!(
        p.contents,
        "#!/usr/bin/env xdg-open\n[Desktop Entry]\nType=Application\nName=My App! 2.0\nExec=/opt/myapp/run --fast\n"
    );
    assert_eq!(
        p.dest_path(),
        "/usr/share/applications/My_App_2.0.desktop"
    );
}

#[test]
fn an_explicit_filename_is_used_verbatim() {
    let req = LaunchEntryRequest {
        name: "Anything At All".to_string(),
        entry_type: DesktopEntryType::Link,
        exec_cmd: "/bin/true".to_string(),
        icon: Some("/tmp/i.svg".to_string()),
        global: true,
        filename: Some("chosen name.desktop".to_string()),
    };
    let p = plan_entry(&req).unwrap();
    assert_eq!(p.filename, "chosen name.desktop");
    assert!(p.contents.ends_with("Icon=/tmp/i.svg\n"));
}

use app_bundler::{create_launch_context, create_plist, is_icns, ExitCode, ICON_EXT};

#[test]
fn launcher_text_is_exact() {
    assert_eq!(
        create_launch_context("app"),
        "#! /bin/sh\n\nEXEC=\"app\"\nDIR=$(cd \"$(dirname \"$0\")\"; pwd)\nexec \"$DIR/$EXEC\"\n"
    );
}

#[test]
fn launcher_runs_binary_from_its_own_directory() {
    let t = create_launch_context("my tool");
    let lines: Vec<&str> = t.lines().collect();
    assert_eq!(lines.len(), 5);
    assert_eq!(lines[2], "EXEC=\"my tool\"");
    assert_eq!(lines[3], "DIR=$(cd \"$(dirname \"$0\")\"; pwd)");
    assert_eq!(lines[4], "exec \"$DIR/$EXEC\"");
}

#[test]
fn plist_without_icon() {
    assert_eq!(create_plist("<dict>\n", None), "<dict>\n\t</dict>\n</plist>");
}

#[test]
fn plist_with_icon() {
    assert_eq!(
        create_plist("<dict>\n", Some("pic.icns")),
        "<dict>\n\t\t<key>CFBundleIconFile</key>\n\t\t<string>pic.icns</string>\n\t</dict>\n</plist>"
    );
}

#[test]
fn plist_is_deterministic() {
    assert_eq!(create_plist("T", None), create_plist("T", None));
    assert_eq!(create_plist("T", Some("a.icns")), create_plist("T", Some("a.icns")));
}

#[test]
fn icon_extension_check() {
    assert_eq!(ICON_EXT, "icns");
    assert!(is_icns("/tmp/pic.icns"));
    assert!(is_icns("pic.icns"));
    assert!(!is_icns("/tmp/pic.png"));
    assert!(!is_icns("/tmp/pic.ICNS"));
    assert!(!is_icns("icns"));
    assert!(!is_icns("/tmp/.icns"));
    assert!(!is_icns(""));
}

#[test]
fn exit_codes() {
    assert_eq!(ExitCode::Success.code(), 0);
    assert_eq!(ExitCode::BinaryNotFound.code(), 1);
    assert_eq!(ExitCode::IconNotFound.code(), 2);
    assert_eq!(ExitCode::UnableToCreate.code(), 3);
    assert_eq!(ExitCode::UnableToWrite.code(), 4);
    assert_eq!(ExitCode::UnableToCopy.code(), 5);
    assert_eq!(ExitCode::ChangePermission.code(), 6);
    assert_eq!(ExitCode::WrongFileFormat.code(), 7);
    assert_eq!(ExitCode::NotUnixSystem.code(), 10);
    assert_eq!(ExitCode::FileDialogError.code(), 20);
    assert_eq!(ExitCode::default(), ExitCode::Success);
}

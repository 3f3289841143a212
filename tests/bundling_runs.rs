use app_bundler::{Action, Bundler, DataParsed, ExitCode, LAUNCHER_MODE};
use app_bundler::{create_launch_context, create_plist};

const TEMPLATE: &str = "<plist>\n\t<dict>\n";

fn data(binary: &str, icon: Option<&str>, name: Option<&str>) -> DataParsed {
    DataParsed {
        name: name.map(String::from),
        binary: String::from(binary),
        icon: icon.map(String::from),
    }
}

/// Runs the machine, answering each step from `reports` (then `true`), and
/// returns every action it asked for, the final one included.
fn run(d: &DataParsed, unix: bool, reports: &[bool]) -> Vec<Action> {
    let mut b = Bundler::new(d, TEMPLATE, unix);
    let mut out = Vec::new();
    let mut i = 0;
    loop {
        let a = b.action();
        let done = matches!(a, Action::Finish(_));
        out.push(a);
        if done {
            return out;
        }
        let ok = if i < reports.len() { reports[i] } else { true };
        i += 1;
        b.advance(ok);
        assert!(i < 64);
    }
}

fn s(x: &str) -> String {
    String::from(x)
}

#[test]
fn bundles_binary_without_icon_or_name() {
    let acts = run(&data("/tmp/app", None, None), true, &[]);
    let expected = vec![
        Action::RequireExists(s("/tmp/app")),
        Action::RequireAbsent(s("app.app")),
        Action::CreateDirAll(s("app.app")),
        Action::CreateDir(s("app.app/Contents")),
        Action::CreateDir(s("app.app/Contents/MacOS")),
        Action::CreateDir(s("app.app/Contents/Resources")),
        Action::CreateFile(s("app.app/Contents/Info.plist")),
        Action::WriteFile(create_plist(TEMPLATE, None)),
        Action::CopyFile(s("/tmp/app"), s("app.app/Contents/MacOS/app")),
        Action::CreateFile(s("app.app/Contents/MacOS/launcher")),
        Action::WriteFile(create_launch_context("app")),
        Action::SetMode(0o554),
        Action::Finish(Ok(())),
    ];
    assert_eq!(acts, expected);
    let plist = create_plist(TEMPLATE, None);
    assert!(!plist.contains("CFBundleIconFile"));
}

#[test]
fn bundles_binary_with_icon_and_name() {
    let acts = run(&data("/tmp/app", Some("/tmp/pic.icns"), Some("Foo")), true, &[]);
    let expected = vec![
        Action::RequireExists(s("/tmp/app")),
        Action::RequireExists(s("/tmp/pic.icns")),
        Action::RequireAbsent(s("Foo.app")),
        Action::CreateDirAll(s("Foo.app")),
        Action::CreateDir(s("Foo.app/Contents")),
        Action::CreateDir(s("Foo.app/Contents/MacOS")),
        Action::CreateDir(s("Foo.app/Contents/Resources")),
        Action::CreateFile(s("Foo.app/Contents/Info.plist")),
        Action::WriteFile(create_plist(TEMPLATE, Some("pic.icns"))),
        Action::CopyFile(s("/tmp/app"), s("Foo.app/Contents/MacOS/app")),
        Action::CreateFile(s("Foo.app/Contents/MacOS/launcher")),
        Action::WriteFile(create_launch_context("app")),
        Action::SetMode(0o554),
        Action::CopyFile(s("/tmp/pic.icns"), s("Foo.app/Contents/Resources/pic.icns")),
        Action::Finish(Ok(())),
    ];
    assert_eq!(acts, expected);
    let plist = create_plist(TEMPLATE, Some("pic.icns"));
    assert!(plist.contains("\t\t<key>CFBundleIconFile</key>\n\t\t<string>pic.icns</string>\n"));
}

#[test]
fn wrong_icon_extension_stops_before_anything() {
    let acts = run(&data("/tmp/app", Some("/tmp/pic.png"), Some("Foo")), true, &[]);
    assert_eq!(
        acts,
        vec![
            Action::RequireExists(s("/tmp/app")),
            Action::RequireExists(s("/tmp/pic.png")),
            Action::Finish(Err(ExitCode::WrongFileFormat)),
        ]
    );
}

#[test]
fn missing_binary_comes_before_icon_format() {
    let acts = run(&data("/tmp/gone", Some("/tmp/pic.png"), None), true, &[false]);
    assert_eq!(
        acts,
        vec![
            Action::RequireExists(s("/tmp/gone")),
            Action::Finish(Err(ExitCode::BinaryNotFound)),
        ]
    );
}

#[test]
fn missing_icon_comes_before_icon_format() {
    let acts = run(&data("/tmp/app", Some("/tmp/gone.png"), None), true, &[true, false]);
    assert_eq!(acts[2], Action::Finish(Err(ExitCode::IconNotFound)));
}

#[test]
fn missing_binary_changes_nothing() {
    let acts = run(&data("/tmp/does-not-exist", None, None), true, &[false]);
    assert_eq!(
        acts,
        vec![
            Action::RequireExists(s("/tmp/does-not-exist")),
            Action::Finish(Err(ExitCode::BinaryNotFound)),
        ]
    );
}

#[test]
fn missing_icon_is_reported() {
    let acts = run(&data("/tmp/app", Some("/tmp/gone.icns"), None), true, &[true, false]);
    assert_eq!(acts.len(), 3);
    assert_eq!(acts[2], Action::Finish(Err(ExitCode::IconNotFound)));
}

#[test]
fn existing_destination_is_refused() {
    let acts = run(&data("/tmp/app", None, Some("Foo")), true, &[true, false]);
    assert_eq!(
        acts,
        vec![
            Action::RequireExists(s("/tmp/app")),
            Action::RequireAbsent(s("Foo.app")),
            Action::Finish(Err(ExitCode::UnableToCreate)),
        ]
    );
}

#[test]
fn not_unix_is_refused() {
    let acts = run(&data("/tmp/app", None, None), false, &[]);
    assert_eq!(acts, vec![Action::Finish(Err(ExitCode::NotUnixSystem))]);
}

#[test]
fn binary_without_file_name_is_not_found() {
    let acts = run(&data("/tmp/..", None, None), true, &[]);
    assert_eq!(
        acts,
        vec![
            Action::RequireExists(s("/tmp/..")),
            Action::Finish(Err(ExitCode::BinaryNotFound)),
        ]
    );
}

#[test]
fn destination_without_file_name_cannot_be_created() {
    let acts = run(&data("/tmp/app", None, Some("..")), true, &[]);
    assert_eq!(
        acts,
        vec![
            Action::RequireExists(s("/tmp/app")),
            Action::Finish(Err(ExitCode::UnableToCreate)),
        ]
    );
}

#[test]
fn destination_extension_is_replaced() {
    let acts = run(&data("/tmp/app", None, Some("out/Foo.bar")), true, &[]);
    assert_eq!(acts[1], Action::RequireAbsent(s("out/Foo.app")));
    assert_eq!(acts[3], Action::CreateDir(s("out/Foo.app/Contents")));
}

fn failure_at(step: usize, icon: bool) -> Action {
    let mut reports = vec![true; step];
    reports.push(false);
    let d = if icon {
        data("/tmp/app", Some("/tmp/pic.icns"), None)
    } else {
        data("/tmp/app", None, None)
    };
    let acts = run(&d, true, &reports);
    assert_eq!(acts.len(), step + 2);
    acts.into_iter().last().unwrap()
}

#[test]
fn each_step_maps_to_its_outcome() {
    let create = Action::Finish(Err(ExitCode::UnableToCreate));
    for step in 2..=6 {
        assert_eq!(failure_at(step, false), create);
    }
    assert_eq!(failure_at(7, false), Action::Finish(Err(ExitCode::UnableToWrite)));
    assert_eq!(failure_at(8, false), Action::Finish(Err(ExitCode::UnableToCopy)));
    assert_eq!(failure_at(9, false), create);
    assert_eq!(failure_at(10, false), Action::Finish(Err(ExitCode::UnableToWrite)));
    assert_eq!(failure_at(11, false), Action::Finish(Err(ExitCode::ChangePermission)));
    assert_eq!(failure_at(13, true), Action::Finish(Err(ExitCode::UnableToCopy)));
}

#[test]
fn finished_run_stays_finished() {
    let d = data("/tmp/app", None, None);
    let mut b = Bundler::new(&d, TEMPLATE, true);
    b.advance(false);
    assert!(b.is_finished());
    b.advance(true);
    assert_eq!(b.action(), Action::Finish(Err(ExitCode::BinaryNotFound)));
}

#[test]
fn launcher_mode_is_executable_and_read_only() {
    assert_eq!(LAUNCHER_MODE, 0o554);
    assert_ne!(LAUNCHER_MODE & 0o100, 0);
    assert_ne!(LAUNCHER_MODE & 0o010, 0);
    assert_eq!(LAUNCHER_MODE & 0o222, 0);
}

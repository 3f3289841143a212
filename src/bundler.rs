use vstd::prelude::*;
use crate::exit_code::ExitCode;
use crate::paths::{
    binary_copy_path, contents_dir, contents_path, file_name, file_name_of, icon_copy_path,
    is_icns, is_icon_path, join, join_spec, launcher_path, macos_dir, macos_path, plist_path,
    resources_dir, resources_path, set_extension, with_extension_of, BUNDLE_EXT,
};
use crate::template::{create_launch_context, create_plist, launch_text, plist_text};

verus! {

/// The permission bits of the launcher script: read and execute for owner and
/// group, read for others, write for nobody.
pub const LAUNCHER_MODE: u32 = 0o554;

/// What a caller asks to have bundled.
pub struct DataParsed {
    /// The bundle's path or name; the binary's file name when absent.
    pub name: Option<String>,
    /// The executable to wrap.
    pub binary: String,
    /// An icon file, with the icon extension.
    pub icon: Option<String>,
}

/// The text of an optional string.
pub open spec fn opt_view(o: Option<String>) -> Option<Seq<char>> {
    match o {
        Some(s) => Some(s@),
        None => None,
    }
}

pub struct DataView {
    pub name: Option<Seq<char>>,
    pub binary: Seq<char>,
    pub icon: Option<Seq<char>>,
}

impl View for DataParsed {
    type V = DataView;

    open spec fn view(&self) -> DataView {
        DataView { name: opt_view(self.name), binary: self.binary@, icon: opt_view(self.icon) }
    }
}

/// One file-system step for the caller to carry out, and report on.
///
/// The caller reports `true` when the step succeeded: for `RequireExists`,
/// when an entry exists at the path; for `RequireAbsent`, when none does.
/// `WriteFile` writes into, and `SetMode` sets the permissions of, the file
/// that the last `CreateFile` created.
#[derive(Debug, PartialEq, Eq)]
pub enum Action {
    RequireExists(String),
    RequireAbsent(String),
    CreateDirAll(String),
    CreateDir(String),
    CreateFile(String),
    WriteFile(String),
    CopyFile(String, String),
    SetMode(u32),
    Finish(Result<(), ExitCode>),
}

pub enum ActionView {
    RequireExists(Seq<char>),
    RequireAbsent(Seq<char>),
    CreateDirAll(Seq<char>),
    CreateDir(Seq<char>),
    CreateFile(Seq<char>),
    WriteFile(Seq<char>),
    CopyFile(Seq<char>, Seq<char>),
    SetMode(u32),
    Finish(Result<(), ExitCode>),
}

impl View for Action {
    type V = ActionView;

    open spec fn view(&self) -> ActionView {
        match self {
            Action::RequireExists(p) => ActionView::RequireExists(p@),
            Action::RequireAbsent(p) => ActionView::RequireAbsent(p@),
            Action::CreateDirAll(p) => ActionView::CreateDirAll(p@),
            Action::CreateDir(p) => ActionView::CreateDir(p@),
            Action::CreateFile(p) => ActionView::CreateFile(p@),
            Action::WriteFile(t) => ActionView::WriteFile(t@),
            Action::CopyFile(from, to) => ActionView::CopyFile(from@, to@),
            Action::SetMode(m) => ActionView::SetMode(*m),
            Action::Finish(r) => ActionView::Finish(*r),
        }
    }
}

/// Whether an action changes the file system.
pub open spec fn mutates(a: ActionView) -> bool {
    !(a is RequireExists || a is RequireAbsent || a is Finish)
}

/// The entry that an action brings into being, if any.
pub open spec fn created_by(a: ActionView) -> Option<Seq<char>> {
    match a {
        ActionView::CreateDirAll(p) => Some(p),
        ActionView::CreateDir(p) => Some(p),
        ActionView::CreateFile(p) => Some(p),
        ActionView::CopyFile(_, to) => Some(to),
        _ => None,
    }
}

/// Where a bundling run stands.
#[derive(Debug, Clone, Copy, PartialEq, Eq, Structural)]
pub enum Stage {
    CheckBinary,
    CheckIcon,
    CheckDest,
    MakeRoot,
    MakeContents,
    MakeMacos,
    MakeResources,
    CreatePlist,
    WritePlist,
    CopyBinary,
    CreateLauncher,
    WriteLauncher,
    SetLauncherMode,
    CopyIcon,
    Succeeded,
    Failed(ExitCode),
}

pub open spec fn finished(s: Stage) -> bool {
    s is Succeeded || s is Failed
}

/// The stages that work inside the bundle directory.
pub open spec fn needs_root(s: Stage) -> bool {
    !(s is CheckBinary || s is CheckIcon || finished(s))
}

/// The outcome when the step of stage `s` fails. A failed copy of the icon
/// ends the run like every other failed copy: the bundle is then incomplete.
pub open spec fn failure_of(s: Stage) -> ExitCode {
    match s {
        Stage::CheckBinary => ExitCode::BinaryNotFound,
        Stage::CheckIcon => ExitCode::IconNotFound,
        Stage::WritePlist | Stage::WriteLauncher => ExitCode::UnableToWrite,
        Stage::CopyBinary | Stage::CopyIcon => ExitCode::UnableToCopy,
        Stage::SetLauncherMode => ExitCode::ChangePermission,
        _ => ExitCode::UnableToCreate,
    }
}

/// A bundling run: the input, the names derived from it, and the stage.
pub struct Bundler {
    binary: String,
    icon: Option<String>,
    binary_name: String,
    icon_name: Option<String>,
    root: Option<String>,
    template: String,
    binary_named: bool,
    icon_ok: bool,
    stage: Stage,
}

pub struct BundlerView {
    pub binary: Seq<char>,
    pub icon: Option<Seq<char>>,
    pub binary_name: Seq<char>,
    pub icon_name: Option<Seq<char>>,
    pub root: Option<Seq<char>>,
    pub template: Seq<char>,
    pub binary_named: bool,
    pub icon_ok: bool,
    pub stage: Stage,
}

impl View for Bundler {
    type V = BundlerView;

    closed spec fn view(&self) -> BundlerView {
        BundlerView {
            binary: self.binary@,
            icon: opt_view(self.icon),
            binary_name: self.binary_name@,
            icon_name: opt_view(self.icon_name),
            root: opt_view(self.root),
            template: self.template@,
            binary_named: self.binary_named,
            icon_ok: self.icon_ok,
            stage: self.stage,
        }
    }
}

pub open spec fn or_empty(o: Option<Seq<char>>) -> Seq<char> {
    match o {
        Some(s) => s,
        None => Seq::empty(),
    }
}

/// The bundle directory for a destination: the destination with the `app`
/// extension, or none where the destination has no file name.
pub open spec fn bundle_root(dest: Seq<char>) -> Option<Seq<char>> {
    if file_name_of(dest) is Some {
        Some(with_extension_of(dest, BUNDLE_EXT@))
    } else {
        None
    }
}

/// Where the bundle goes: the given name, else the binary's file name.
pub open spec fn destination(d: DataView) -> Seq<char> {
    match d.name {
        Some(n) => n,
        None => or_empty(file_name_of(d.binary)),
    }
}

/// The first stage of a run. The checks come in this order: the platform;
/// the binary, which must exist and have a file name; the icon, if any, which
/// must exist and then carry the icon extension; the bundle directory, which
/// must have a name and must not exist yet.
pub open spec fn first_stage(unix: bool) -> Stage {
    if !unix {
        Stage::Failed(ExitCode::NotUnixSystem)
    } else {
        Stage::CheckBinary
    }
}

/// The run that starts from input `d`, descriptor template `template`, on a
/// Unix-like platform or not.
pub open spec fn start_view(d: DataView, template: Seq<char>, unix: bool) -> BundlerView {
    let binary_name = or_empty(file_name_of(d.binary));
    BundlerView {
        binary: d.binary,
        icon: d.icon,
        binary_name,
        icon_name: match d.icon {
            Some(i) => file_name_of(i),
            None => None,
        },
        root: bundle_root(destination(d)),
        template,
        binary_named: file_name_of(d.binary) is Some,
        icon_ok: match d.icon {
            Some(i) => is_icon_path(i),
            None => false,
        },
        stage: first_stage(unix),
    }
}

impl BundlerView {
    /// The derived names are there for every stage that uses them.
    pub open spec fn wf(self) -> bool {
        &&& self.icon_ok ==> self.icon is Some && self.icon_name is Some
        &&& needs_root(self.stage) ==> self.root is Some && (self.icon is Some ==> self.icon_ok)
        &&& (self.stage is CheckIcon || self.stage is CopyIcon) ==> self.icon is Some
    }

    /// The stage after the step of the current stage succeeded.
    pub open spec fn next_stage(self) -> Stage {
        let to_dest = if self.root is Some {
            Stage::CheckDest
        } else {
            Stage::Failed(ExitCode::UnableToCreate)
        };
        match self.stage {
            Stage::CheckBinary => if !self.binary_named {
                Stage::Failed(ExitCode::BinaryNotFound)
            } else if self.icon is Some {
                Stage::CheckIcon
            } else {
                to_dest
            },
            Stage::CheckIcon => if self.icon_ok {
                to_dest
            } else {
                Stage::Failed(ExitCode::WrongFileFormat)
            },
            Stage::CheckDest => Stage::MakeRoot,
            Stage::MakeRoot => Stage::MakeContents,
            Stage::MakeContents => Stage::MakeMacos,
            Stage::MakeMacos => Stage::MakeResources,
            Stage::MakeResources => Stage::CreatePlist,
            Stage::CreatePlist => Stage::WritePlist,
            Stage::WritePlist => Stage::CopyBinary,
            Stage::CopyBinary => Stage::CreateLauncher,
            Stage::CreateLauncher => Stage::WriteLauncher,
            Stage::WriteLauncher => Stage::SetLauncherMode,
            Stage::SetLauncherMode => if self.icon is Some {
                Stage::CopyIcon
            } else {
                Stage::Succeeded
            },
            Stage::CopyIcon => Stage::Succeeded,
            Stage::Succeeded => Stage::Succeeded,
            Stage::Failed(c) => Stage::Failed(c),
        }
    }

    /// The run after the caller reported on the current action: a finished
    /// run stays as it is; otherwise success moves on and failure ends the run
    /// with the stage's outcome.
    pub open spec fn advanced(self, ok: bool) -> BundlerView {
        BundlerView {
            stage: if finished(self.stage) {
                self.stage
            } else if ok {
                self.next_stage()
            } else {
                Stage::Failed(failure_of(self.stage))
            },
            ..self
        }
    }

    /// The action that the current stage asks for.
    pub open spec fn action(self) -> ActionView {
        let root = or_empty(self.root);
        match self.stage {
            Stage::CheckBinary => ActionView::RequireExists(self.binary),
            Stage::CheckIcon => ActionView::RequireExists(or_empty(self.icon)),
            Stage::CheckDest => ActionView::RequireAbsent(root),
            Stage::MakeRoot => ActionView::CreateDirAll(root),
            Stage::MakeContents => ActionView::CreateDir(contents_dir(root)),
            Stage::MakeMacos => ActionView::CreateDir(macos_dir(root)),
            Stage::MakeResources => ActionView::CreateDir(resources_dir(root)),
            Stage::CreatePlist => ActionView::CreateFile(plist_path(root)),
            Stage::WritePlist => ActionView::WriteFile(plist_text(self.template, self.icon_name)),
            Stage::CopyBinary => ActionView::CopyFile(
                self.binary,
                crate::paths::binary_copy_path(root, self.binary_name),
            ),
            Stage::CreateLauncher => ActionView::CreateFile(launcher_path(root)),
            Stage::WriteLauncher => ActionView::WriteFile(launch_text(self.binary_name)),
            Stage::SetLauncherMode => ActionView::SetMode(LAUNCHER_MODE),
            Stage::CopyIcon => ActionView::CopyFile(
                or_empty(self.icon),
                icon_copy_path(root, or_empty(self.icon_name)),
            ),
            Stage::Succeeded => ActionView::Finish(Ok(())),
            Stage::Failed(c) => ActionView::Finish(Err(c)),
        }
    }
}

fn copy_opt(o: &Option<String>) -> (r: Option<String>)
    ensures
        opt_view(r) == opt_view(*o),
{
    match o {
        Some(s) => Some(s.clone()),
        None => None,
    }
}

fn as_opt_str(o: &Option<String>) -> (r: Option<&str>)
    ensures
        match r {
            Some(s) => opt_view(*o) == Some(s@),
            None => o is None,
        },
{
    match o {
        Some(s) => Some(s.as_str()),
        None => None,
    }
}

impl Bundler {
    /// Starts a bundling run for `data`, with the descriptor template
    /// `template`, on a Unix-like platform when `unix` holds.
    pub fn new(data: &DataParsed, template: &str, unix: bool) -> (b: Bundler)
        ensures
            b@ == start_view(data@, template@, unix),
            b@.wf(),
    {
        let found_name = file_name(data.binary.as_str());
        let binary_named = found_name.is_some();
        let binary_name = match found_name {
            Some(n) => n,
            None => String::new(),
        };
        let icon_name = match &data.icon {
            Some(i) => file_name(i.as_str()),
            None => None,
        };
        let icon_ok = match &data.icon {
            Some(i) => is_icns(i.as_str()),
            None => false,
        };
        let dest = match &data.name {
            Some(n) => n.clone(),
            None => binary_name.clone(),
        };
        proof {
            reveal_strlit("app");
        }
        let (named, app_path) = set_extension(dest.as_str(), BUNDLE_EXT);
        let root = if named {
            Some(app_path)
        } else {
            None
        };
        let stage = if !unix {
            Stage::Failed(ExitCode::NotUnixSystem)
        } else {
            Stage::CheckBinary
        };
        let b = Bundler {
            binary: data.binary.clone(),
            icon: copy_opt(&data.icon),
            binary_name,
            icon_name,
            root,
            template: String::from_str(template),
            binary_named,
            icon_ok,
            stage,
        };
        proof {
            let d = data@;
            assert(file_name_of(d.binary) is None ==> binary_name@ == Seq::<char>::empty());
            assert(b@.binary_name == or_empty(file_name_of(d.binary)));
        }
        b
    }

    /// The step that the run asks for now; `Finish` once it is over.
    pub fn action(&self) -> (a: Action)
        requires
            self@.wf(),
        ensures
            a@ == self@.action(),
    {
        match self.stage {
            Stage::CheckBinary => Action::RequireExists(self.binary.clone()),
            Stage::CheckIcon => match &self.icon {
                Some(i) => Action::RequireExists(i.clone()),
                None => Action::Finish(Err(ExitCode::IconNotFound)),
            },
            Stage::Succeeded => Action::Finish(Ok(())),
            Stage::Failed(c) => Action::Finish(Err(c)),
            _ => match &self.root {
                Some(root) => self.action_in(root.as_str()),
                None => Action::Finish(Err(ExitCode::UnableToCreate)),
            },
        }
    }

    /// The step of a stage that works inside the bundle directory `root`.
    fn action_in(&self, root: &str) -> (a: Action)
        requires
            self@.wf(),
            needs_root(self.stage),
            self@.root == Some(root@),
        ensures
            a@ == self@.action(),
    {
        match self.stage {
            Stage::CheckDest => Action::RequireAbsent(String::from_str(root)),
            Stage::MakeRoot => Action::CreateDirAll(String::from_str(root)),
            Stage::MakeContents => Action::CreateDir(contents_path(root)),
            Stage::MakeMacos => Action::CreateDir(macos_path(root)),
            Stage::MakeResources => Action::CreateDir(resources_path(root)),
            Stage::CreatePlist => {
                let c = contents_path(root);
                Action::CreateFile(join(&c, "Info.plist"))
            },
            Stage::WritePlist => Action::WriteFile(
                create_plist(self.template.as_str(), as_opt_str(&self.icon_name)),
            ),
            Stage::CopyBinary => {
                let m = macos_path(root);
                Action::CopyFile(self.binary.clone(), join(&m, self.binary_name.as_str()))
            },
            Stage::CreateLauncher => {
                let m = macos_path(root);
                Action::CreateFile(join(&m, "launcher"))
            },
            Stage::WriteLauncher => Action::WriteFile(
                create_launch_context(self.binary_name.as_str()),
            ),
            Stage::SetLauncherMode => Action::SetMode(LAUNCHER_MODE),
            _ => match (&self.icon, &self.icon_name) {
                (Some(icon), Some(name)) => {
                    let r = resources_path(root);
                    Action::CopyFile(icon.clone(), join(&r, name.as_str()))
                },
                _ => Action::Finish(Err(ExitCode::UnableToCopy)),
            },
        }
    }

    /// Whether the run is over.
    pub fn is_finished(&self) -> (r: bool)
        ensures
            r == finished(self@.stage),
    {
        match self.stage {
            Stage::Succeeded | Stage::Failed(_) => true,
            _ => false,
        }
    }

    /// Takes the caller's report on the last action: `true` when it succeeded.
    pub fn advance(&mut self, ok: bool)
        requires
            old(self)@.wf(),
        ensures
            final(self)@ == old(self)@.advanced(ok),
            final(self)@.wf(),
    {
        let has_icon = self.icon.is_some();
        let has_root = self.root.is_some();
        let to_dest = if has_root {
            Stage::CheckDest
        } else {
            Stage::Failed(ExitCode::UnableToCreate)
        };
        let next = match self.stage {
            Stage::Succeeded => Stage::Succeeded,
            Stage::Failed(c) => Stage::Failed(c),
            s => if !ok {
                Stage::Failed(failure_code(s))
            } else {
                match s {
                    Stage::CheckBinary => if !self.binary_named {
                        Stage::Failed(ExitCode::BinaryNotFound)
                    } else if has_icon {
                        Stage::CheckIcon
                    } else {
                        to_dest
                    },
                    Stage::CheckIcon => if self.icon_ok {
                        to_dest
                    } else {
                        Stage::Failed(ExitCode::WrongFileFormat)
                    },
                    Stage::CheckDest => Stage::MakeRoot,
                    Stage::MakeRoot => Stage::MakeContents,
                    Stage::MakeContents => Stage::MakeMacos,
                    Stage::MakeMacos => Stage::MakeResources,
                    Stage::MakeResources => Stage::CreatePlist,
                    Stage::CreatePlist => Stage::WritePlist,
                    Stage::WritePlist => Stage::CopyBinary,
                    Stage::CopyBinary => Stage::CreateLauncher,
                    Stage::CreateLauncher => Stage::WriteLauncher,
                    Stage::WriteLauncher => Stage::SetLauncherMode,
                    Stage::SetLauncherMode => if has_icon {
                        Stage::CopyIcon
                    } else {
                        Stage::Succeeded
                    },
                    _ => Stage::Succeeded,
                }
            },
        };
        self.stage = next;
    }
}

/// The outcome when the step of stage `s` fails.
fn failure_code(s: Stage) -> (r: ExitCode)
    ensures
        r == failure_of(s),
{
    match s {
        Stage::CheckBinary => ExitCode::BinaryNotFound,
        Stage::CheckIcon => ExitCode::IconNotFound,
        Stage::WritePlist | Stage::WriteLauncher => ExitCode::UnableToWrite,
        Stage::CopyBinary | Stage::CopyIcon => ExitCode::UnableToCopy,
        Stage::SetLauncherMode => ExitCode::ChangePermission,
        _ => ExitCode::UnableToCreate,
    }
}

/// The actions a run issues, in order, when the caller reports `reports` on
/// them one by one; the run's last action is `Finish` once it is over.
pub open spec fn trace(v: BundlerView, reports: Seq<bool>) -> Seq<ActionView>
    decreases reports.len(),
{
    if finished(v.stage) || reports.len() == 0 {
        seq![v.action()]
    } else {
        seq![v.action()] + trace(v.advanced(reports[0]), reports.drop_first())
    }
}

/// A valid input: the binary has a file name, as the path of a regular file
/// does, and the icon, if any, carries the icon extension.
pub open spec fn well_named(d: DataView) -> bool {
    &&& file_name_of(d.binary) is Some
    &&& d.icon is Some ==> is_icon_path(d.icon->0)
}

/// A binary that does not exist ends the run with `BinaryNotFound`, and no
/// action of the run changes the file system.
pub proof fn lemma_missing_binary(d: DataView, template: Seq<char>, reports: Seq<bool>)
    requires
        reports.len() > 0,
        !reports[0],
    ensures
        ({
            let t = trace(start_view(d, template, true), reports);
            &&& t.last() == ActionView::Finish(Err(ExitCode::BinaryNotFound))
            &&& forall|i: int| 0 <= i < t.len() ==> !mutates(#[trigger] t[i])
        }),
{
    let v = start_view(d, template, true);
    if v.stage is CheckBinary {
        let w = v.advanced(reports[0]);
        assert(trace(w, reports.drop_first()) == seq![w.action()]);
        assert(trace(v, reports) == seq![v.action(), w.action()]);
    }
}

/// An existing icon without the icon extension ends the run with
/// `WrongFileFormat`, once the binary and the icon were found, and no action
/// of the run changes the file system.
pub proof fn lemma_wrong_icon_format(d: DataView, template: Seq<char>, reports: Seq<bool>)
    requires
        file_name_of(d.binary) is Some,
        d.icon is Some,
        !is_icon_path(d.icon->0),
        reports.len() >= 2,
        reports[0],
        reports[1],
    ensures
        trace(start_view(d, template, true), reports) == seq![
            ActionView::RequireExists(d.binary),
            ActionView::RequireExists(d.icon->0),
            ActionView::Finish(Err(ExitCode::WrongFileFormat)),
        ],
{
    lemma_three_steps(start_view(d, template, true), reports);
}

/// An icon that does not exist ends the run with `IconNotFound`, whatever its
/// extension, once the binary was found; no action of the run changes the
/// file system.
pub proof fn lemma_missing_icon(d: DataView, template: Seq<char>, reports: Seq<bool>)
    requires
        file_name_of(d.binary) is Some,
        d.icon is Some,
        reports.len() >= 2,
        reports[0],
        !reports[1],
    ensures
        trace(start_view(d, template, true), reports) == seq![
            ActionView::RequireExists(d.binary),
            ActionView::RequireExists(d.icon->0),
            ActionView::Finish(Err(ExitCode::IconNotFound)),
        ],
{
    lemma_three_steps(start_view(d, template, true), reports);
}

/// A run that finishes after its second report issues three actions.
proof fn lemma_three_steps(v: BundlerView, reports: Seq<bool>)
    requires
        reports.len() >= 2,
        !finished(v.stage),
        !finished(v.advanced(reports[0]).stage),
        finished(v.advanced(reports[0]).advanced(reports[1]).stage),
    ensures
        trace(v, reports) == seq![
            v.action(),
            v.advanced(reports[0]).action(),
            v.advanced(reports[0]).advanced(reports[1]).action(),
        ],
{
    let r1 = reports.drop_first();
    let v1 = v.advanced(reports[0]);
    let r2 = r1.drop_first();
    let v2 = v1.advanced(r1[0]);
    assert(trace(v2, r2) == seq![v2.action()]);
    assert(trace(v1, r1) =~= seq![v1.action(), v2.action()]);
    assert(trace(v, reports) =~= seq![v.action(), v1.action(), v2.action()]);
}

/// Where the bundle directory already exists, the run ends with
/// `UnableToCreate` and no action of the run changes the file system.
pub proof fn lemma_existing_destination(d: DataView, template: Seq<char>, reports: Seq<bool>)
    requires
        well_named(d),
        ({
            let k: int = if d.icon is Some { 2 } else { 1 };
            &&& reports.len() > k
            &&& forall|j: int| 0 <= j < k ==> reports[j]
            &&& !reports[k]
        }),
    ensures
        ({
            let t = trace(start_view(d, template, true), reports);
            &&& t.last() == ActionView::Finish(Err(ExitCode::UnableToCreate))
            &&& forall|i: int| 0 <= i < t.len() ==> !mutates(#[trigger] t[i])
        }),
{
    let v0 = start_view(d, template, true);
    let r1 = reports.drop_first();
    let v1 = v0.advanced(reports[0]);
    if d.icon is Some {
        let r2 = r1.drop_first();
        let v2 = v1.advanced(r1[0]);
        if v2.root is Some {
            let r3 = r2.drop_first();
            let v3 = v2.advanced(r2[0]);
            assert(trace(v3, r3) == seq![v3.action()]);
            assert(trace(v2, r2) =~= seq![v2.action(), v3.action()]);
            assert(trace(v1, r1) =~= seq![v1.action(), v2.action(), v3.action()]);
            assert(trace(v0, reports) =~= seq![v0.action(), v1.action(), v2.action(), v3.action()]);
        } else {
            assert(trace(v2, r2) == seq![v2.action()]);
            assert(trace(v1, r1) =~= seq![v1.action(), v2.action()]);
            assert(trace(v0, reports) =~= seq![v0.action(), v1.action(), v2.action()]);
        }
    } else {
        if v1.root is Some {
            let r2 = r1.drop_first();
            let v2 = v1.advanced(r1[0]);
            assert(trace(v2, r2) == seq![v2.action()]);
            assert(trace(v1, r1) =~= seq![v1.action(), v2.action()]);
            assert(trace(v0, reports) =~= seq![v0.action(), v1.action(), v2.action()]);
        } else {
            assert(trace(v1, r1) == seq![v1.action()]);
            assert(trace(v0, reports) =~= seq![v0.action(), v1.action()]);
        }
    }
}

/// The launcher's permission bits let owner and group execute it and let
/// nobody write it; they are the only bits a run ever sets.
pub proof fn lemma_launcher_mode(v: BundlerView)
    ensures
        LAUNCHER_MODE & 0o100 != 0,
        LAUNCHER_MODE & 0o010 != 0,
        LAUNCHER_MODE & 0o222 == 0,
        v.action() is SetMode ==> v.action() == ActionView::SetMode(LAUNCHER_MODE)
            && v.stage == Stage::SetLauncherMode,
{
    assert(0o554u32 & 0o100 != 0 && 0o554u32 & 0o010 != 0 && 0o554u32 & 0o222 == 0)
        by (bit_vector);
}

/// The actions of a run on `d` in which every step succeeds.
pub open spec fn success_actions(d: DataView, template: Seq<char>) -> Seq<ActionView> {
    let v = start_view(d, template, true);
    let root = or_empty(v.root);
    let checks = match d.icon {
        Some(i) => seq![ActionView::RequireExists(d.binary), ActionView::RequireExists(i)],
        None => seq![ActionView::RequireExists(d.binary)],
    };
    let build = seq![
        ActionView::RequireAbsent(root),
        ActionView::CreateDirAll(root),
        ActionView::CreateDir(contents_dir(root)),
        ActionView::CreateDir(macos_dir(root)),
        ActionView::CreateDir(resources_dir(root)),
        ActionView::CreateFile(plist_path(root)),
        ActionView::WriteFile(plist_text(template, v.icon_name)),
        ActionView::CopyFile(d.binary, binary_copy_path(root, v.binary_name)),
        ActionView::CreateFile(launcher_path(root)),
        ActionView::WriteFile(launch_text(v.binary_name)),
        ActionView::SetMode(LAUNCHER_MODE),
    ];
    let icon_copy = match d.icon {
        Some(i) => seq![ActionView::CopyFile(i, icon_copy_path(root, or_empty(v.icon_name)))],
        None => seq![],
    };
    checks + build + icon_copy + seq![ActionView::Finish(Ok(()))]
}

/// The entries of a finished bundle: the bundle directory, `Contents` with
/// the descriptor, `MacOS` with the binary's copy and the launcher,
/// `Resources`, and in it the icon's copy where an icon was given.
pub open spec fn bundle_entries(d: DataView, template: Seq<char>) -> Set<Seq<char>> {
    let v = start_view(d, template, true);
    let root = or_empty(v.root);
    let base = set![
        root,
        contents_dir(root),
        macos_dir(root),
        resources_dir(root),
        plist_path(root),
        binary_copy_path(root, v.binary_name),
        launcher_path(root),
    ];
    match d.icon {
        Some(_) => base.insert(icon_copy_path(root, or_empty(v.icon_name))),
        None => base,
    }
}

/// The entries that the actions of `t` bring into being.
pub open spec fn created_entries(t: Seq<ActionView>) -> Set<Seq<char>> {
    Set::new(|p: Seq<char>| exists|i: int| 0 <= i < t.len() && created_by(t[i]) == Some(p))
}

/// How many more actions a run issues before `Finish` when every step
/// succeeds.
pub open spec fn steps_left(s: Stage) -> nat {
    match s {
        Stage::CheckBinary => 14,
        Stage::CheckIcon => 13,
        Stage::CheckDest => 12,
        Stage::MakeRoot => 11,
        Stage::MakeContents => 10,
        Stage::MakeMacos => 9,
        Stage::MakeResources => 8,
        Stage::CreatePlist => 7,
        Stage::WritePlist => 6,
        Stage::CopyBinary => 5,
        Stage::CreateLauncher => 4,
        Stage::WriteLauncher => 3,
        Stage::SetLauncherMode => 2,
        Stage::CopyIcon => 1,
        _ => 0,
    }
}

/// The actions a run issues from `v` on when every step succeeds.
pub open spec fn success_from(v: BundlerView) -> Seq<ActionView>
    decreases steps_left(v.stage),
{
    if finished(v.stage) {
        seq![v.action()]
    } else {
        seq![v.action()] + success_from(v.advanced(true))
    }
}

/// With every report a success, a run issues the actions of `success_from`.
proof fn lemma_all_succeed(v: BundlerView, reports: Seq<bool>)
    requires
        reports.len() >= steps_left(v.stage),
        forall|j: int| 0 <= j < reports.len() ==> reports[j],
    ensures
        trace(v, reports) == success_from(v),
    decreases steps_left(v.stage),
{
    if !finished(v.stage) {
        let rest = reports.drop_first();
        assert forall|j: int| 0 <= j < rest.len() implies rest[j] by {
            assert(rest[j] == reports[j + 1]);
        }
        lemma_all_succeed(v.advanced(true), rest);
    }
}

/// With every report a success, the run's actions are `success_actions`.
proof fn lemma_success_trace(d: DataView, template: Seq<char>, reports: Seq<bool>)
    requires
        well_named(d),
        bundle_root(destination(d)) is Some,
        reports.len() >= 15,
        forall|j: int| 0 <= j < reports.len() ==> reports[j],
    ensures
        trace(start_view(d, template, true), reports) == success_actions(d, template),
{
    let v = start_view(d, template, true);
    lemma_all_succeed(v, reports);
    assert(success_from(v) =~= success_actions(d, template)) by {
        reveal_with_fuel(success_from, 16);
    }
}

/// When every step succeeds, the run issues exactly `success_actions`, ends
/// with success, and creates exactly the entries of `bundle_entries`.
pub proof fn lemma_successful_run(d: DataView, template: Seq<char>, reports: Seq<bool>)
    requires
        well_named(d),
        bundle_root(destination(d)) is Some,
        reports.len() >= 15,
        forall|j: int| 0 <= j < reports.len() ==> reports[j],
    ensures
        ({
            let t = trace(start_view(d, template, true), reports);
            &&& t == success_actions(d, template)
            &&& t.last() == ActionView::Finish(Ok(()))
            &&& created_entries(t) == bundle_entries(d, template)
        }),
{
    lemma_success_trace(d, template, reports);
    let v0 = start_view(d, template, true);
    let t = trace(v0, reports);
    let e = created_entries(t);
    let b = bundle_entries(d, template);
    assert forall|p: Seq<char>| e.contains(p) implies b.contains(p) by {
        let i = choose|i: int| 0 <= i < t.len() && created_by(t[i]) == Some(p);
    }
    assert forall|p: Seq<char>| b.contains(p) implies e.contains(p) by {
        let root = or_empty(v0.root);
        if p == root {
            assert(created_by(t[if d.icon is Some { 3int } else { 2 }]) == Some(p));
        }
        if p == contents_dir(root) {
            assert(created_by(t[if d.icon is Some { 4int } else { 3 }]) == Some(p));
        }
        if p == macos_dir(root) {
            assert(created_by(t[if d.icon is Some { 5int } else { 4 }]) == Some(p));
        }
        if p == resources_dir(root) {
            assert(created_by(t[if d.icon is Some { 6int } else { 5 }]) == Some(p));
        }
        if p == plist_path(root) {
            assert(created_by(t[if d.icon is Some { 7int } else { 6 }]) == Some(p));
        }
        if p == binary_copy_path(root, v0.binary_name) {
            assert(created_by(t[if d.icon is Some { 9int } else { 8 }]) == Some(p));
        }
        if p == launcher_path(root) {
            assert(created_by(t[if d.icon is Some { 10int } else { 9 }]) == Some(p));
        }
        if d.icon is Some && p == icon_copy_path(root, or_empty(v0.icon_name)) {
            assert(created_by(t[13]) == Some(p));
        }
    }
    assert(e =~= b);
}

/// The launcher stands in the directory of the binary's copy and finds the
/// binary there by file name alone: its text names no other path, so moving
/// or renaming the bundle leaves it working.
pub proof fn lemma_launcher_beside_binary(root: Seq<char>, binary: Seq<char>)
    ensures
        launcher_path(root) == join_spec(macos_dir(root), "launcher"@),
        binary_copy_path(root, binary) == join_spec(macos_dir(root), binary),
        launch_text(binary) == "#! /bin/sh\n\nEXEC=\""@ + binary + "\"\n"@
            + "DIR=$(cd \"$(dirname \"$0\")\"; pwd)\n"@ + "exec \"$DIR/$EXEC\"\n"@,
{
}

} // verus!

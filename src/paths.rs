use vstd::prelude::*;

verus! {

/// The extension an icon file must carry.
pub const ICON_EXT: &'static str = "icns";

/// The extension of a bundle directory.
pub const BUNDLE_EXT: &'static str = "app";

/// The final component of a path, as `std::path::Path::file_name` gives it.
pub uninterp spec fn file_name_of(p: Seq<char>) -> Option<Seq<char>>;

/// A path with its extension set to `ext`, as
/// `std::path::PathBuf::set_extension` leaves it.
pub uninterp spec fn with_extension_of(p: Seq<char>, ext: Seq<char>) -> Seq<char>;

/// The extension of a file name: what follows its last `.`, where that dot is
/// not the name's first character; none for `..`.
pub open spec fn extension_in(name: Seq<char>) -> Option<Seq<char>> {
    if name == ".."@ {
        None
    } else if exists|k: int| 0 < k < name.len() && name[k] == '.' {
        let k = choose|k: int|
            0 < k < name.len() && name[k] == '.' && forall|j: int|
                k < j < name.len() ==> name[j] != '.';
        Some(name.subrange(k + 1, name.len() as int))
    } else {
        None
    }
}

/// The extension of a path: that of its file name, if it has one.
pub open spec fn extension_of(p: Seq<char>) -> Option<Seq<char>> {
    match file_name_of(p) {
        Some(n) => extension_in(n),
        None => None,
    }
}

/// Relies on `std::path::Path::file_name`: the final component of the path, or
/// `None` where the path ends in `..` or has no component. A component never
/// holds the separator `/`.
#[verifier::external_body]
pub(crate) fn file_name(p: &str) -> (r: Option<String>)
    ensures
        match r {
            Some(n) => file_name_of(p@) == Some(n@) && !n@.contains('/'),
            None => file_name_of(p@) is None,
        },
{
    Some(String::from(std::path::Path::new(p).file_name()?.to_str()?))
}

/// Relies on `std::path::Path::extension`: the part of the file name after its
/// last `.`; none where the file name has no `.` but as its first character,
/// or where the path has no file name.
#[verifier::external_body]
fn extension(p: &str) -> (r: Option<String>)
    ensures
        match r {
            Some(e) => extension_of(p@) == Some(e@),
            None => extension_of(p@) is None,
        },
{
    Some(String::from(std::path::Path::new(p).extension()?.to_str()?))
}

/// Relies on `std::path::PathBuf::set_extension`: it returns `false`, and
/// leaves the path as it is, exactly when the path has no file name. It
/// panics on an extension that holds a separator.
#[verifier::external_body]
pub(crate) fn set_extension(p: &str, ext: &str) -> (r: (bool, String))
    requires
        !ext@.contains('/'),
    ensures
        r.0 == (file_name_of(p@) is Some),
        r.0 ==> r.1@ == with_extension_of(p@, ext@),
        !r.0 ==> r.1@ == p@,
{
    let mut b = std::path::PathBuf::from(p);
    let changed = b.set_extension(ext);
    (changed, b.to_string_lossy().into_owned())
}

/// Whether a path names an icon file: its extension is exactly `icns`.
pub open spec fn is_icon_path(p: Seq<char>) -> bool {
    extension_of(p) == Some(ICON_EXT@)
}

/// Whether `path` carries the icon extension.
pub fn is_icns(path: &str) -> (r: bool)
    ensures
        r == is_icon_path(path@),
{
    match extension(path) {
        Some(e) => e == String::from_str(ICON_EXT),
        None => false,
    }
}

/// `base` followed by the separator and `segment`.
pub open spec fn join_spec(base: Seq<char>, segment: Seq<char>) -> Seq<char> {
    base + "/"@ + segment
}

/// The path of `segment` inside the directory `base`.
pub fn join(base: &str, segment: &str) -> (r: String)
    ensures
        r@ == join_spec(base@, segment@),
{
    let mut s = String::from_str(base);
    s.append("/");
    s.append(segment);
    s
}

/// The directory of the bundle's contents.
pub open spec fn contents_dir(root: Seq<char>) -> Seq<char> {
    join_spec(root, "Contents"@)
}

/// The directory of the bundle's executables.
pub open spec fn macos_dir(root: Seq<char>) -> Seq<char> {
    join_spec(contents_dir(root), "MacOS"@)
}

/// The directory of the bundle's resources.
pub open spec fn resources_dir(root: Seq<char>) -> Seq<char> {
    join_spec(contents_dir(root), "Resources"@)
}

/// The bundle's descriptor file.
pub open spec fn plist_path(root: Seq<char>) -> Seq<char> {
    join_spec(contents_dir(root), "Info.plist"@)
}

/// The bundle's launcher script.
pub open spec fn launcher_path(root: Seq<char>) -> Seq<char> {
    join_spec(macos_dir(root), "launcher"@)
}

/// Where the copy of the binary named `binary` stands in the bundle.
pub open spec fn binary_copy_path(root: Seq<char>, binary: Seq<char>) -> Seq<char> {
    join_spec(macos_dir(root), binary)
}

/// Where the copy of the icon named `icon` stands in the bundle.
pub open spec fn icon_copy_path(root: Seq<char>, icon: Seq<char>) -> Seq<char> {
    join_spec(resources_dir(root), icon)
}

/// The directory of the bundle's contents under `root`.
pub fn contents_path(root: &str) -> (r: String)
    ensures
        r@ == contents_dir(root@),
{
    join(root, "Contents")
}

/// The `MacOS` directory under `root`.
pub fn macos_path(root: &str) -> (r: String)
    ensures
        r@ == macos_dir(root@),
{
    let c = contents_path(root);
    join(&c, "MacOS")
}

/// The `Resources` directory under `root`.
pub fn resources_path(root: &str) -> (r: String)
    ensures
        r@ == resources_dir(root@),
{
    let c = contents_path(root);
    join(&c, "Resources")
}

} // verus!

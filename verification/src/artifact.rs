//! Wallpaper identities and the local artifacts that are named after them.

use vstd::prelude::*;

verus! {

/// The extension that every artifact carries.
pub const ARTIFACT_EXTENSION: &'static str = ".jpg";

/// The file name of the artifact that holds the wallpaper `identity`. Two
/// identities name the same artifact exactly when they are the same string.
pub open spec fn artifact_name(identity: Seq<char>) -> Seq<char> {
    identity + ARTIFACT_EXTENSION@
}

/// What the feed announces: the identity of the current wallpaper (a date or
/// a file name chosen by the server) and the address of its image.
#[derive(Debug, PartialEq, Eq)]
pub struct WallpaperInfo {
    pub file_name: String,
    pub url: String,
}

/// A `WallpaperInfo` as plain sequences.
pub ghost struct WallpaperInfoView {
    pub identity: Seq<char>,
    pub url: Seq<char>,
}

impl View for WallpaperInfo {
    type V = WallpaperInfoView;

    open spec fn view(&self) -> WallpaperInfoView {
        WallpaperInfoView { identity: self.file_name@, url: self.url@ }
    }
}

impl Clone for WallpaperInfo {
    fn clone(&self) -> (copy: WallpaperInfo)
        ensures
            copy@ == self@,
    {
        WallpaperInfo { file_name: self.file_name.clone(), url: self.url.clone() }
    }
}

/// Where an artifact lies: the store directory and the file's name in it.
/// The caller joins the two with the platform's separator when it touches the
/// disk.
#[derive(Debug, PartialEq, Eq)]
pub struct LocalPath {
    pub dir: String,
    pub file_name: String,
}

/// A `LocalPath` as plain sequences.
pub ghost struct LocalPathView {
    pub dir: Seq<char>,
    pub file_name: Seq<char>,
}

impl View for LocalPath {
    type V = LocalPathView;

    open spec fn view(&self) -> LocalPathView {
        LocalPathView { dir: self.dir@, file_name: self.file_name@ }
    }
}

impl Clone for LocalPath {
    fn clone(&self) -> (copy: LocalPath)
        ensures
            copy@ == self@,
    {
        LocalPath { dir: self.dir.clone(), file_name: self.file_name.clone() }
    }
}

/// The place of the artifact for `identity` in the store directory `dir`.
pub open spec fn wallpaper_path(dir: Seq<char>, identity: Seq<char>) -> LocalPathView {
    LocalPathView { dir, file_name: artifact_name(identity) }
}

/// Names the artifact for `identity` in the store directory `dir`.
pub fn get_wallpaper_path(dir: &str, identity: &str) -> (path: LocalPath)
    ensures
        path@ == wallpaper_path(dir@, identity@),
{
    let file_name = String::from_str(identity).concat(ARTIFACT_EXTENSION);
    LocalPath { dir: String::from_str(dir), file_name }
}

/// Distinct identities never share an artifact.
pub proof fn lemma_artifact_name_injective(a: Seq<char>, b: Seq<char>)
    ensures
        artifact_name(a) == artifact_name(b) <==> a == b,
{
    if artifact_name(a) == artifact_name(b) {
        let ext = ARTIFACT_EXTENSION@;
        assert(artifact_name(a).len() == a.len() + ext.len());
        assert(artifact_name(b).len() == b.len() + ext.len());
        assert(a =~= artifact_name(a).subrange(0, a.len() as int));
        assert(b =~= artifact_name(b).subrange(0, b.len() as int));
    }
}

/// Where the program keeps its files: the environment variable that names
/// the parent directory, and the folder under it.
#[derive(Clone, Copy, Debug, PartialEq, Eq)]
pub struct DataLocation {
    pub variable: &'static str,
    pub folder: &'static str,
}

/// The place of the program's files: under the roaming application data on
/// Windows, in a hidden folder of the home directory elsewhere.
pub fn get_app_data_dir(windows: bool) -> (location: DataLocation)
    ensures
        location.variable@ == (if windows {
            "APPDATA"@
        } else {
            "HOME"@
        }),
        location.folder@ == (if windows {
            "bing-wallpaper-client"@
        } else {
            ".bing-wallpaper-client"@
        }),
{
    if windows {
        DataLocation { variable: "APPDATA", folder: "bing-wallpaper-client" }
    } else {
        DataLocation { variable: "HOME", folder: ".bing-wallpaper-client" }
    }
}

} // verus!

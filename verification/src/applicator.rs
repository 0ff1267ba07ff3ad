//! What the desktop is told. Showing a wallpaper is the caller's business;
//! on macOS it is done by a script, whose text is composed here.

use vstd::prelude::*;

verus! {

/// The script up to the path of the image.
pub const SCRIPT_HEAD: &'static str =
    "tell application \"System Events\" to tell every desktop to set picture to \"";

/// The script after the path of the image.
pub const SCRIPT_TAIL: &'static str = "\"";

/// The script that shows the image at `path` on every desktop.
pub open spec fn script_for(path: Seq<char>) -> Seq<char> {
    SCRIPT_HEAD@ + path + SCRIPT_TAIL@
}

/// Composes the script that shows the image at `path` on every desktop. The
/// path is put between the quotes as it stands.
pub fn set_wallpaper_script(path: &str) -> (script: String)
    ensures
        script@ == script_for(path@),
{
    String::from_str(SCRIPT_HEAD).concat(path).concat(SCRIPT_TAIL)
}

} // verus!

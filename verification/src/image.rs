//! Where the flashable image of a build artifact is written.

use cargo_metadata::camino::Utf8PathBuf;
use vstd::prelude::*;

verus! {

/// Whether a character separates the components of a path on some platform.
pub open spec fn is_separator(c: char) -> bool {
    c == '/' || c == '\\'
}

/// Whether a text holds no path separator.
pub open spec fn separator_free(text: Seq<char>) -> bool {
    forall|i: int| 0 <= i < text.len() ==> !is_separator(#[trigger] text[i])
}

/// The path that `Utf8PathBuf::set_extension` leaves behind when it is given
/// the extension `extension` on the path `path`. On one platform it depends
/// on the two texts alone; platforms differ in how they divide a path into
/// its components.
pub uninterp spec fn path_with_extension(path: Seq<char>, extension: Seq<char>) -> Seq<char>;

/// The path of the flashable image that belongs to an artifact: the
/// artifact's own path with `bin` as its extension.
pub open spec fn image_path(artifact: Seq<char>) -> Seq<char> {
    path_with_extension(artifact, "bin"@)
}

/// Calls camino's `Utf8PathBuf::set_extension` on a copy of `path` and hands
/// the copy back as text. Nothing is proved of it: the contract gives the
/// outcome its name, `path_with_extension`, and keeps away the extensions on
/// which the call panics, those that hold a path separator.
#[verifier::external_body]
fn set_extension(path: &str, extension: &str) -> (changed: String)
    requires
        separator_free(extension@),
    ensures
        changed@ == path_with_extension(path@, extension@),
{
    let mut buffer = Utf8PathBuf::from(path);
    buffer.set_extension(extension);
    buffer.into_string()
}

/// The path of the flashable image that belongs to an artifact.
pub fn binary_image_path(artifact: &str) -> (image: String)
    ensures
        image@ == image_path(artifact@),
{
    proof {
        reveal_strlit("bin");
    }
    set_extension(artifact, "bin")
}

} // verus!

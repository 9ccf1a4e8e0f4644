//! Where the one font of the UI lives: the name of the asset folder that is
//! searched for, the bounds of that search, and the path of the font file
//! below the folder once it is found. The search itself walks the file
//! system and happens at the process edge; given the folder it resolved,
//! the font path is composed here.

use vstd::prelude::*;
use vstd::string::StringExecFns;

verus! {

/// Directory levels below the working directory that the asset search may
/// descend.
pub const SEARCH_KID_DEPTH: u8 = 3;

/// Directory levels above the working directory that the asset search may
/// climb.
pub const SEARCH_PARENT_DEPTH: u8 = 5;

/// The name of the folder the search looks for.
pub fn assets_folder_name() -> (r: &'static str)
    ensures
        r@ == "assets"@,
{
    "assets"
}

/// The path of the font file, relative to the assets folder.
pub fn font_rel_path() -> (r: &'static str)
    ensures
        r@ == "fonts/NotoSans/NotoSans-Regular.ttf"@,
{
    "fonts/NotoSans/NotoSans-Regular.ttf"
}

/// The full path of the font file below the resolved assets folder: the
/// folder, a path separator, and the fixed relative font path.
pub fn font_path(assets: &String) -> (r: String)
    ensures
        r@ == assets@ + "/"@ + "fonts/NotoSans/NotoSans-Regular.ttf"@,
{
    let mut p = assets.clone();
    p.append("/");
    p.append(font_rel_path());
    p
}

} // verus!

use vstd::prelude::*;

verus! {

/// The glob pattern, as characters, that matches every `.png` file at any
/// depth under `dir`, `dir` itself included.
pub open spec fn spec_png_pattern(dir: Seq<char>) -> Seq<char> {
    dir + "/**/*.png"@
}

/// Builds `<target_dir>/**/*.png`, the recursive glob for PNG files under
/// `target_dir`. The directory is taken as given: nothing checks that it
/// exists, and a path that names nothing simply matches no file.
pub fn png_pattern(target_dir: &str) -> (r: String)
    ensures
        r@ == spec_png_pattern(target_dir@),
{
    let mut r = String::from_str(target_dir);
    r.append("/**/*.png");
    r
}

} // verus!

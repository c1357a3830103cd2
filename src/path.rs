//! What a configured path must look like before the file is opened.
use vstd::prelude::*;
use vstd::string::*;

verus! {

/// The extension of `path` as std's path rules read it: the part of the
/// final component after its last `.`, if there is one.
pub uninterp spec fn path_extension(path: Seq<char>) -> Option<Seq<char>>;

/// Relies on `std::path::Path::extension`: `None` where the final component
/// has no `.` past its first character (or there is no final component),
/// else the text after the last `.`. A `&str` path gives a UTF-8 extension,
/// so the conversion to `String` is exact.
#[verifier::external_body]
fn std_extension(path: &str) -> (r: Option<String>)
    ensures
        match r {
            Some(e) => path_extension(path@) == Some(e@),
            None => path_extension(path@) is None,
        },
{
    match std::path::Path::new(path).extension() {
        Some(e) => Some(e.to_string_lossy().into_owned()),
        None => None,
    }
}

/// Whether an extension is exactly `json`: the comparison is case-sensitive
/// and a missing extension does not match.
pub open spec fn is_json_extension(ext: Option<Seq<char>>) -> bool {
    ext == Some("json"@)
}

/// Decides whether the extension `ext` of a path admits the file.
pub fn extension_is_json(ext: Option<&str>) -> (r: bool)
    ensures
        r == is_json_extension(
            match ext {
                Some(e) => Some(e@),
                None => None,
            },
        ),
{
    proof {
        reveal_strlit("json");
    }
    match ext {
        None => false,
        Some(e) => {
            let n = e.unicode_len();
            if n != 4 {
                assert(e@ != "json"@);
                return false;
            }
            let ok = e.get_char(0) == 'j' && e.get_char(1) == 's' && e.get_char(2) == 'o'
                && e.get_char(3) == 'n';
            if ok {
                assert(e@ =~= "json"@);
            } else {
                assert(e@ != "json"@);
            }
            ok
        },
    }
}

/// Whether `path` names a file that the loader accepts by its extension.
pub fn has_json_extension(path: &str) -> (r: bool)
    ensures
        r == is_json_extension(path_extension(path@)),
{
    let ext = std_extension(path);
    match ext {
        Some(e) => extension_is_json(Some(e.as_str())),
        None => extension_is_json(None),
    }
}

} // verus!

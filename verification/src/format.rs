//! The package format: which saved files are accepted for unpacking, judged
//! by the extension of the save path without regard to case.

use vstd::prelude::*;
use vstd::string::*;

verus! {

/// The text that `str::to_lowercase` of the standard library returns for
/// `text`: each character replaced by its lowercase form as Unicode defines
/// it.
pub uninterp spec fn lowercase_of(text: Seq<char>) -> Seq<char>;

/// Calls `str::to_lowercase`. Trusted: the result is the lowercase form of
/// the argument, a function of the argument alone.
#[verifier::external_body]
fn to_lowercase(text: &str) -> (lowered: String)
    ensures
        lowered@ == lowercase_of(text@),
{
    text.to_lowercase()
}

/// `part` stands in `path` directly behind a dot.
pub open spec fn follows_a_dot(path: Seq<char>, part: Seq<char>) -> bool {
    exists|at: int|
        0 < at && at + part.len() <= path.len() && path[at - 1] == '.' && #[trigger] path.subrange(
            at,
            at + part.len(),
        ) == part
}

/// What `std::path::Path::extension` finds in a path given as text, on the
/// platform this crate is built for: the part of the path's file name behind
/// its last dot, or nothing where the path has no file name or the file
/// name no such part.
pub uninterp spec fn extension_text(path: Seq<char>) -> Option<Seq<char>>;

/// Calls `std::path::Path::extension` on a path given as text. Trusted: the
/// answer is a function of the text alone, and an extension, where the path
/// has one, is the part of the file name behind its last dot, so it stands
/// in the path behind a dot and holds no dot itself. Which part of the path
/// is the file name is for the platform to say.
#[verifier::external_body]
fn path_extension(path: &str) -> (extension: Option<String>)
    ensures
        extension matches Some(e) ==> extension_text(path@) == Some(e@) && follows_a_dot(
            path@,
            e@,
        ) && !e@.contains('.'),
        extension is None ==> extension_text(path@) is None,
{
    match std::path::Path::new(path).extension() {
        Some(e) => match e.to_str() {
            Some(t) => Some(t.to_string()),
            None => None,
        },
        None => None,
    }
}

/// The extension that the format test looks at: the lowercase form of the
/// path's extension, or the empty text where the path has none.
pub open spec fn normalized(raw: Option<String>) -> Seq<char> {
    match raw {
        Some(e) => lowercase_of(e@),
        None => Seq::empty(),
    }
}

/// The one accepted format.
pub open spec fn supported(extension: Seq<char>) -> bool {
    extension == "zip"@
}

/// Brings an extension into the form the format test looks at.
pub fn normalized_extension(raw: Option<String>) -> (extension: String)
    ensures
        extension@ == normalized(raw),
{
    match raw {
        Some(e) => to_lowercase(e.as_str()),
        None => String::new(),
    }
}

/// The extension of a save path in the form the format test looks at: the
/// lowercase form of what the path has for an extension, or the empty text
/// where it has none.
pub open spec fn extension_of_path(save_path: Seq<char>) -> Seq<char> {
    match extension_text(save_path) {
        Some(e) => lowercase_of(e),
        None => Seq::empty(),
    }
}

/// Finds the extension of a save path and brings it into the form the
/// format test looks at. An extension that is found stands in the path
/// behind a dot and holds no dot itself, so a path without a dot has the
/// empty extension.
pub fn package_extension(save_path: &str) -> (extension: String)
    ensures
        extension@ == extension_of_path(save_path@),
        extension_text(save_path@) matches Some(e) ==> extension@ == lowercase_of(e)
            && follows_a_dot(save_path@, e) && !e.contains('.'),
        !save_path@.contains('.') ==> extension@.len() == 0,
{
    let raw = path_extension(save_path);
    proof {
        if raw.is_some() {
            let e = raw.unwrap();
            let at = choose|at: int|
                0 < at && at + e@.len() <= save_path@.len() && save_path@[at - 1] == '.'
                    && #[trigger] save_path@.subrange(at, at + e@.len()) == e@;
            assert(save_path@.contains('.'));
        }
    }
    normalized_extension(raw)
}

/// Tells whether a normalized extension is that of the accepted format.
pub fn is_supported_format(extension: &String) -> (yes: bool)
    ensures
        yes == supported(extension@),
{
    let accepted = String::from_str("zip");
    *extension == accepted
}

/// A package without any extension is never accepted.
pub proof fn lemma_missing_extension_is_unsupported()
    ensures
        !supported(normalized(None)),
{
    reveal_strlit("zip");
    assert("zip"@.len() == 3);
}

} // verus!

//! Where ciphertext goes, and which files are left alone.
//!
//! Paths are text. How a path splits into components is the platform's
//! business and is left to `std::path`; each of its functions that the rules
//! below rest on has a name here, and the rules are stated over those names.

use std::path::Path;
use vstd::prelude::*;
use vstd::string::StringExecFns;

verus! {

/// What `Path::extension` returns for `path`.
pub uninterp spec fn extension_of(path: Seq<char>) -> Option<Seq<char>>;

/// What `Path::strip_prefix` returns for `path` and `base`; `None` where it
/// returns an error.
pub uninterp spec fn without_prefix(path: Seq<char>, base: Seq<char>) -> Option<Seq<char>>;

/// What `Path::join` returns for `base` and `tail`.
pub uninterp spec fn joined(base: Seq<char>, tail: Seq<char>) -> Seq<char>;

/// What `Path::with_extension` returns for `path` and `extension`.
pub uninterp spec fn with_extension_of(path: Seq<char>, extension: Seq<char>) -> Seq<char>;

/// What `Path::parent` returns for `path`.
pub uninterp spec fn parent_of(path: Seq<char>) -> Option<Seq<char>>;

/// The extension that marks a file as encrypted.
pub open spec fn marker() -> Seq<char> {
    "pgp"@
}

/// What is appended to a file's path to name its temporary sibling: the
/// marker extension, then the temporary one.
pub open spec fn temporary_suffix() -> Seq<char> {
    ".pgp.tmp"@
}

/// Whether a character separates path components on some platform.
pub open spec fn is_separator(c: char) -> bool {
    c == '/' || c == '\\'
}

/// A file counts as encrypted when its extension is the marker, letter for
/// letter.
pub open spec fn already_encrypted(path: Seq<char>) -> bool {
    extension_of(path) == Some(marker())
}

/// The part of `file` below `folder`, or all of `file` where it does not lie
/// below `folder`.
pub open spec fn below(folder: Seq<char>, file: Seq<char>) -> Seq<char> {
    match without_prefix(file, folder) {
        Some(tail) => tail,
        None => file,
    }
}

/// Where the ciphertext of `file` goes in a mirrored tree: under `output`, at
/// the place that `file` has under `folder`, with the marker as its extension.
pub open spec fn mirrored(folder: Seq<char>, output: Seq<char>, file: Seq<char>) -> Seq<char> {
    with_extension_of(joined(output, below(folder, file)), marker())
}

/// The temporary sibling that ciphertext is written to before it replaces
/// `file`.
pub open spec fn temporary(file: Seq<char>) -> Seq<char> {
    file + temporary_suffix()
}

/// `Path::extension` of std, on text: the part of the file name after its
/// last dot, where the file name has one that is not its first character.
/// The contract only names the result.
#[verifier::external_body]
fn extension(path: &str) -> (found: Option<String>)
    ensures
        match found {
            Some(text) => extension_of(path@) == Some(text@),
            None => extension_of(path@) is None,
        },
{
    Path::new(path).extension().map(|e| e.to_string_lossy().into_owned())
}

/// `Path::strip_prefix` of std, on text: `path` without the leading
/// components that make up `base`, or nothing where `base` is no prefix of
/// `path`. The contract only names the result.
#[verifier::external_body]
fn strip_prefix(path: &str, base: &str) -> (found: Option<String>)
    ensures
        match found {
            Some(text) => without_prefix(path@, base@) == Some(text@),
            None => without_prefix(path@, base@) is None,
        },
{
    Path::new(path).strip_prefix(base).ok().map(|p| p.to_string_lossy().into_owned())
}

/// `Path::join` of std, on text: `tail` appended to `base` as further
/// components, or `tail` alone where it is absolute. The contract only names
/// the result.
#[verifier::external_body]
fn join(base: &str, tail: &str) -> (path: String)
    ensures
        path@ == joined(base@, tail@),
{
    Path::new(base).join(tail).to_string_lossy().into_owned()
}

/// `Path::with_extension` of std, on text: `path` with the extension of its
/// file name replaced by `extension`, or with `extension` added where it had
/// none. std panics on an extension that holds a separator, so none is
/// admitted. The contract only names the result.
#[verifier::external_body]
fn with_extension(path: &str, extension: &str) -> (changed: String)
    requires
        forall|i: int| 0 <= i < extension@.len() ==> !is_separator(#[trigger] extension@[i]),
    ensures
        changed@ == with_extension_of(path@, extension@),
{
    Path::new(path).with_extension(extension).to_string_lossy().into_owned()
}

/// `Path::parent` of std, on text: `path` without its last component, or
/// nothing where `path` ends in a root or prefix or is empty. The contract
/// only names the result.
#[verifier::external_body]
pub(crate) fn parent(path: &str) -> (found: Option<String>)
    ensures
        match found {
            Some(text) => parent_of(path@) == Some(text@),
            None => parent_of(path@) is None,
        },
{
    Path::new(path).parent().map(|p| p.to_string_lossy().into_owned())
}

/// Whether `path` carries the marker extension and is therefore skipped.
pub fn is_already_encrypted(path: &str) -> (skip: bool)
    ensures
        skip == already_encrypted(path@),
{
    match extension(path) {
        Some(text) => {
            let wanted = String::from_str("pgp");
            text == wanted
        },
        None => false,
    }
}

/// The place of `file`'s ciphertext under `output`.
pub fn mirrored_target(folder: &str, output: &str, file: &str) -> (target: String)
    ensures
        target@ == mirrored(folder@, output@, file@),
{
    let tail = match strip_prefix(file, folder) {
        Some(tail) => tail,
        None => String::from_str(file),
    };
    let plain = join(output, tail.as_str());
    proof {
        reveal_strlit("pgp");
    }
    with_extension(plain.as_str(), "pgp")
}

/// The temporary sibling of `file`.
pub fn temporary_sibling(file: &str) -> (temp: String)
    ensures
        temp@ == temporary(file@),
{
    let mut temp = String::from_str(file);
    temp.append(".pgp.tmp");
    temp
}

} // verus!

//! The bundle of default files: a directory tree embedded in the program,
//! searched by path.

use include_dir::{Dir, File};
use vstd::prelude::*;
use vstd::utf8::{decode_utf8, encode_utf8, encode_utf8_decode_utf8, valid_utf8};

verus! {

/// `include_dir::Dir`, an embedded directory tree. Nothing of what it holds
/// is visible here.
#[verifier::external_type_specification]
#[verifier::external_body]
pub struct ExDir<'a>(Dir<'a>);

/// `include_dir::File`, an embedded file. Nothing of what it holds is
/// visible here.
#[verifier::external_type_specification]
#[verifier::external_body]
pub struct ExFile<'a>(File<'a>);

/// The bytes that an embedded file holds.
pub uninterp spec fn file_bytes(file: File<'_>) -> Seq<u8>;

/// The bytes of the file that a search of `bundle` for the path `name`
/// reaches, or `None` where it reaches no file.
pub uninterp spec fn bundled_bytes(bundle: Dir<'_>, name: Seq<char>) -> Option<Seq<u8>>;

/// The text that `bytes` encode, where they are UTF-8.
pub open spec fn text_of(bytes: Seq<u8>) -> Option<Seq<char>> {
    if valid_utf8(bytes) {
        Some(decode_utf8(bytes))
    } else {
        None
    }
}

/// The text of the bundled file `name`, where the bundle has such a file and
/// it holds text.
pub open spec fn bundled_text(bundle: Dir<'_>, name: Seq<char>) -> Option<Seq<char>> {
    match bundled_bytes(bundle, name) {
        Some(bytes) => text_of(bytes),
        None => None,
    }
}

/// Searches the tree with `include_dir::Dir::get_file`, which walks the
/// entries in order, descends into each directory, and compares paths as
/// `std::path::Path` does.
///
/// Trusted: which file a search reaches depends on the tree and the path
/// alone, so the bytes of that file are named `bundled_bytes`; nothing is
/// claimed of which paths reach a file. The search returns for every tree of
/// finite depth, which is what embedding a directory gives.
#[verifier::external_body]
fn get_file<'a>(bundle: &Dir<'a>, name: &str) -> (file: Option<&'a File<'a>>)
    ensures
        match file {
            Some(f) => bundled_bytes(*bundle, name@) == Some(file_bytes(*f)),
            None => bundled_bytes(*bundle, name@) is None,
        },
{
    bundle.get_file(name)
}

/// Reads a file as text with `include_dir::File::contents_utf8`, which hands
/// the file's bytes to `std::str::from_utf8` and drops the error.
///
/// Trusted: there is a text exactly when the bytes are valid UTF-8, and its
/// encoding is those bytes.
#[verifier::external_body]
fn contents_utf8<'a>(file: &'a File<'_>) -> (text: Option<&'a str>)
    ensures
        text is Some <==> valid_utf8(file_bytes(*file)),
        text matches Some(t) ==> encode_utf8(t@) == file_bytes(*file),
{
    file.contents_utf8()
}

/// The text of the bundled file `name`.
pub fn lookup(bundle: &Dir<'_>, name: &str) -> (text: Option<String>)
    ensures
        match text {
            Some(t) => bundled_text(*bundle, name@) == Some(t@),
            None => bundled_text(*bundle, name@) is None,
        },
{
    match get_file(bundle, name) {
        Some(file) => match contents_utf8(file) {
            Some(t) => {
                proof {
                    encode_utf8_decode_utf8(t@);
                }
                Some(t.to_owned())
            },
            None => None,
        },
        None => None,
    }
}

} // verus!

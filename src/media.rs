//! Images picked by the user: their encoded form and their mimetype.

use base64::Engine;
use vstd::prelude::*;
use vstd::string::*;
use crate::text::{find_char, same_text, slice_string};

verus! {

/// An image picked by the user: base64 data, mimetype and file name.
#[derive(Debug, PartialEq, Eq)]
pub struct SelectedMedia {
    pub data: String,
    pub mimetype: String,
    pub filename: String,
}

impl Clone for SelectedMedia {
    fn clone(&self) -> (r: Self)
        ensures
            r == *self,
    {
        SelectedMedia {
            data: self.data.clone(),
            mimetype: self.mimetype.clone(),
            filename: self.filename.clone(),
        }
    }
}

/// The lower-case form of a string, as `str::to_lowercase` gives it.
pub uninterp spec fn lower_of(s: Seq<char>) -> Seq<char>;

/// The standard padded base64 encoding of some bytes, as the `base64` crate's
/// `STANDARD` engine gives it.
pub uninterp spec fn base64_of(b: Seq<u8>) -> Seq<char>;

/// Relies on `str::to_lowercase`: the result depends on the characters alone.
#[verifier::external_body]
fn lowercase(s: &str) -> (r: String)
    ensures
        r@ == lower_of(s@),
{
    s.to_lowercase()
}

/// Relies on `base64::engine::general_purpose::STANDARD.encode`: padded
/// standard base64, four characters for each started group of three bytes.
/// It panics when that length overflows, which the bound rules out.
#[verifier::external_body]
fn encode_base64(b: &[u8]) -> (r: String)
    requires
        b@.len() <= usize::MAX / 2,
    ensures
        r@ == base64_of(b@),
        r@.len() == 4 * ((b@.len() + 2) / 3),
{
    base64::engine::general_purpose::STANDARD.encode(b)
}

/// The part of a file name after its last `.`, or the whole name when it
/// holds none.
pub open spec fn extension(name: Seq<char>) -> Seq<char> {
    if exists|k: int| 0 <= k < name.len() && name[k] == '.' && absent_after(name, k) {
        let k = choose|k: int| 0 <= k < name.len() && name[k] == '.' && absent_after(name, k);
        name.subrange(k + 1, name.len() as int)
    } else {
        name
    }
}

/// No `.` follows position `k` in `name`.
pub open spec fn absent_after(name: Seq<char>, k: int) -> bool {
    forall|j: int| k < j < name.len() ==> name[j] != '.'
}

/// The mimetype of an image with the given lower-case extension.
pub open spec fn mimetype_of(ext: Seq<char>) -> Seq<char> {
    if ext == "jpg"@ || ext == "jpeg"@ {
        "image/jpeg"@
    } else if ext == "png"@ {
        "image/png"@
    } else if ext == "gif"@ {
        "image/gif"@
    } else if ext == "webp"@ {
        "image/webp"@
    } else if ext == "bmp"@ {
        "image/bmp"@
    } else if ext == "svg"@ {
        "image/svg+xml"@
    } else {
        "application/octet-stream"@
    }
}

/// The extension of a file name: see `extension`.
pub fn file_extension(name: &str) -> (r: String)
    ensures
        r@ == extension(name@),
{
    let n = name.unicode_len();
    let mut last: Option<usize> = None;
    let mut from: usize = 0;
    while from < n
        invariant
            n == name@.len(),
            0 <= from <= n,
            last matches Some(k) ==> k < from && name@[k as int] == '.' && forall|j: int|
                k < j < from ==> name@[j] != '.',
            last is None ==> forall|j: int| 0 <= j < from ==> name@[j] != '.',
        decreases n - from,
    {
        match find_char(name, '.', from) {
            Some(k) => {
                last = Some(k);
                from = k + 1;
            },
            None => {
                from = n;
            },
        }
    }
    match last {
        Some(k) => {
            proof {
                let c = choose|c: int|
                    0 <= c < name@.len() && name@[c] == '.' && absent_after(name@, c);
                assert(c == k as int) by {
                    if c < k {
                        assert(name@[k as int] == '.');
                    } else if c > k {
                        assert(name@[c] == '.');
                    }
                }
            }
            slice_string(name, k + 1, n)
        },
        None => name.to_string(),
    }
}

/// The mimetype of an image with the given lower-case extension.
pub fn mimetype_of_extension(ext: &str) -> (r: String)
    ensures
        r@ == mimetype_of(ext@),
{
    if same_text(ext, "jpg") || same_text(ext, "jpeg") {
        "image/jpeg".to_string()
    } else if same_text(ext, "png") {
        "image/png".to_string()
    } else if same_text(ext, "gif") {
        "image/gif".to_string()
    } else if same_text(ext, "webp") {
        "image/webp".to_string()
    } else if same_text(ext, "bmp") {
        "image/bmp".to_string()
    } else if same_text(ext, "svg") {
        "image/svg+xml".to_string()
    } else {
        "application/octet-stream".to_string()
    }
}

/// The mimetype of an image file, from its name's extension in any case.
pub fn get_mimetype_from_filename(filename: &str) -> (r: String)
    ensures
        r@ == mimetype_of(lower_of(extension(filename@))),
{
    let ext = file_extension(filename);
    let lower = lowercase(ext.as_str());
    mimetype_of_extension(lower.as_str())
}

/// A picked image from its bytes, its file name and the mimetype the
/// platform reported (empty when it reported none, in which case the
/// mimetype follows the file name).
pub fn selected_media_from_file(bytes: &Vec<u8>, filename: String, mimetype: String) -> (r:
    SelectedMedia)
    requires
        bytes@.len() <= usize::MAX / 2,
    ensures
        r.data@ == base64_of(bytes@),
        r.filename == filename,
        mimetype@.len() > 0 ==> r.mimetype == mimetype,
        mimetype@.len() == 0 ==> r.mimetype@ == mimetype_of(lower_of(extension(filename@))),
{
    let data = encode_base64(bytes.as_slice());
    let mimetype = if mimetype.as_str().is_empty() {
        get_mimetype_from_filename(filename.as_str())
    } else {
        mimetype
    };
    SelectedMedia { data, mimetype, filename }
}

} // verus!

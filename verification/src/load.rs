//! Routing decisions for files that arrive by drop, picker or paste.
use vstd::prelude::*;

use vstd::string::*;

use crate::text::{after_last_char, rfind_char};
use crate::types::Side;

verus! {

/// Side for the file at position `index` of a multi-file drop.
pub open spec fn spec_multi_drop_side(index: usize) -> Option<Side> {
    if index == 0 {
        Some(Side::Left)
    } else if index == 1 {
        Some(Side::Right)
    } else {
        None
    }
}

/// Multi-file drop: first file goes left, second right; extras are ignored.
pub fn multi_drop_side(index: usize) -> (s: Option<Side>)
    ensures
        s == spec_multi_drop_side(index),
{
    match index {
        0 => Some(Side::Left),
        1 => Some(Side::Right),
        _ => None,
    }
}

/// Whether a MIME type names an image: it starts with `image/`.
pub open spec fn spec_is_image_mime(mime: Seq<char>) -> bool {
    "image/"@.is_prefix_of(mime)
}

/// Whether a clipboard item of MIME type `mime` is an image.
pub fn is_image_mime(mime: &str) -> (r: bool)
    ensures
        r == spec_is_image_mime(mime@),
{
    let prefix = "image/";
    proof {
        reveal_strlit("image/");
    }
    let n = mime.unicode_len();
    if n < 6 {
        return false;
    }
    let mut i: usize = 0;
    while i < 6
        invariant
            i <= 6,
            n == mime@.len(),
            n >= 6,
            prefix@.len() == 6,
            prefix@ == "image/"@,
            forall|j: int| 0 <= j < i ==> prefix@[j] == mime@[j],
        decreases 6 - i,
    {
        if prefix.get_char(i) != mime.get_char(i) {
            return false;
        }
        i = i + 1;
    }
    assert(prefix@ =~= mime@.subrange(0, 6));
    true
}

/// File extension for a clipboard image of MIME type `mime`: the subtype
/// after the last `/` (the whole type when it has none), with `jpeg`
/// written `jpg` and `svg+xml` written `svg`.
pub open spec fn clipboard_extension(mime: Seq<char>) -> Seq<char> {
    let sub = mime.skip(rfind_char(mime, '/') + 1);
    if sub == "jpeg"@ {
        "jpg"@
    } else if sub == "svg+xml"@ {
        "svg"@
    } else {
        sub
    }
}

/// The name of a pasted file, or `clipboard.{ext}` when the OS gave none.
pub open spec fn spec_clipboard_filename(name: Seq<char>, mime: Seq<char>) -> Seq<char> {
    if name.len() > 0 {
        name
    } else {
        "clipboard."@ + clipboard_extension(mime)
    }
}

/// Filename for a clipboard image; synthesizes one from the MIME type when
/// the pasted file has no name.
pub fn clipboard_filename(name: &str, mime: &str) -> (f: String)
    ensures
        f@ == spec_clipboard_filename(name@, mime@),
{
    if !name.is_empty() {
        return name.to_owned();
    }
    let n = mime.unicode_len();
    let start = after_last_char(mime, '/');
    let sub = mime.substring_char(start, n).to_owned();
    assert(sub@ =~= mime@.skip(rfind_char(mime@, '/') + 1));
    let jpeg = String::from_str("jpeg");
    let svg_xml = String::from_str("svg+xml");
    let mut f = String::from_str("clipboard.");
    if sub == jpeg {
        f.append("jpg");
    } else if sub == svg_xml {
        f.append("svg");
    } else {
        f.append(sub.as_str());
    }
    f
}

} // verus!

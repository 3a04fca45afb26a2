//! Export formats and the file name a comparison is downloaded under.
use vstd::prelude::*;
use vstd::string::*;
use vstd::utf8::encode_utf8;

use crate::egui_api::{color_image_pixel, color_image_pixel_count, color_image_pixels, holds_unmultiplied, premultiplied};
use crate::std_api::push_char;
use crate::text::{
    after_last_char, after_last_path_sep, ascii_lower_code, eq_ignore_ascii_case, is_path_sep,
    lemma_rfind_path_sep, rfind_char, rfind_path_sep,
    str_eq_ignore_ascii_case,
};
use crate::types::LoadedImage;

verus! {

/// Download formats offered by the Export menu.
#[derive(Clone, Copy, Debug, PartialEq, Eq, Structural)]
pub enum ExportFormat {
    Png,
    Jpg,
    Webp,
    Avif,
}

impl ExportFormat {
    pub const ALL: [ExportFormat; 4] = [
        ExportFormat::Png,
        ExportFormat::Jpg,
        ExportFormat::Webp,
        ExportFormat::Avif,
    ];

    pub open spec fn spec_label(self) -> Seq<char> {
        match self {
            ExportFormat::Png => "PNG"@,
            ExportFormat::Jpg => "JPG"@,
            ExportFormat::Webp => "WebP"@,
            ExportFormat::Avif => "AVIF"@,
        }
    }

    pub open spec fn spec_mime(self) -> Seq<char> {
        match self {
            ExportFormat::Png => "image/png"@,
            ExportFormat::Jpg => "image/jpeg"@,
            ExportFormat::Webp => "image/webp"@,
            ExportFormat::Avif => "image/avif"@,
        }
    }

    pub open spec fn spec_extension(self) -> Seq<char> {
        match self {
            ExportFormat::Png => "png"@,
            ExportFormat::Jpg => "jpg"@,
            ExportFormat::Webp => "webp"@,
            ExportFormat::Avif => "avif"@,
        }
    }

    /// Name shown in the Export menu.
    pub fn label(self) -> (s: &'static str)
        ensures
            s@ == self.spec_label(),
    {
        match self {
            ExportFormat::Png => "PNG",
            ExportFormat::Jpg => "JPG",
            ExportFormat::Webp => "WebP",
            ExportFormat::Avif => "AVIF",
        }
    }

    /// MIME type requested from the browser's encoder.
    pub fn mime(self) -> (s: &'static str)
        ensures
            s@ == self.spec_mime(),
    {
        match self {
            ExportFormat::Png => "image/png",
            ExportFormat::Jpg => "image/jpeg",
            ExportFormat::Webp => "image/webp",
            ExportFormat::Avif => "image/avif",
        }
    }

    /// File extension of the download, without the dot.
    pub fn extension(self) -> (s: &'static str)
        ensures
            s@ == self.spec_extension(),
    {
        match self {
            ExportFormat::Png => "png",
            ExportFormat::Jpg => "jpg",
            ExportFormat::Webp => "webp",
            ExportFormat::Avif => "avif",
        }
    }

    /// Whether the encoder should be passed a quality argument.
    pub fn is_lossy(self) -> (b: bool)
        ensures
            b == (self != ExportFormat::Png),
    {
        !matches!(self, ExportFormat::Png)
    }

    /// Whether a blob the browser produced for this format really has the
    /// requested type. Browsers fall back to PNG for types they cannot
    /// encode; an empty type is accepted only when PNG was asked for.
    pub open spec fn spec_blob_type_matches(self, actual: Seq<char>) -> bool {
        if actual.len() == 0 {
            self == ExportFormat::Png
        } else {
            eq_ignore_ascii_case(actual, self.spec_mime())
        }
    }

    /// Check that the browser actually produced the requested type: the
    /// blob's MIME type must equal this format's, ignoring ASCII case; an
    /// empty type passes only for PNG.
    pub fn blob_type_matches(self, actual: &str) -> (ok: bool)
        ensures
            ok == self.spec_blob_type_matches(actual@),
    {
        if actual.is_empty() {
            matches!(self, ExportFormat::Png)
        } else {
            str_eq_ignore_ascii_case(actual, self.mime())
        }
    }
}

proof fn reveal_format_literals()
    ensures
        "PNG"@ =~= seq!['P', 'N', 'G'],
        "JPG"@ =~= seq!['J', 'P', 'G'],
        "WebP"@ =~= seq!['W', 'e', 'b', 'P'],
        "AVIF"@ =~= seq!['A', 'V', 'I', 'F'],
        "png"@ =~= seq!['p', 'n', 'g'],
        "jpg"@ =~= seq!['j', 'p', 'g'],
        "webp"@ =~= seq!['w', 'e', 'b', 'p'],
        "avif"@ =~= seq!['a', 'v', 'i', 'f'],
        "image/png"@ =~= seq!['i', 'm', 'a', 'g', 'e', '/', 'p', 'n', 'g'],
        "image/jpeg"@ =~= seq!['i', 'm', 'a', 'g', 'e', '/', 'j', 'p', 'e', 'g'],
        "image/webp"@ =~= seq!['i', 'm', 'a', 'g', 'e', '/', 'w', 'e', 'b', 'p'],
        "image/avif"@ =~= seq!['i', 'm', 'a', 'g', 'e', '/', 'a', 'v', 'i', 'f'],
{
    reveal_strlit("PNG");
    reveal_strlit("JPG");
    reveal_strlit("WebP");
    reveal_strlit("AVIF");
    reveal_strlit("png");
    reveal_strlit("jpg");
    reveal_strlit("webp");
    reveal_strlit("avif");
    reveal_strlit("image/png");
    reveal_strlit("image/jpeg");
    reveal_strlit("image/webp");
    reveal_strlit("image/avif");
}

/// Each export format has its own label, MIME type and extension.
pub proof fn law_export_formats_distinct(f: ExportFormat, g: ExportFormat)
    requires
        f != g,
    ensures
        f.spec_label() != g.spec_label(),
        f.spec_mime() != g.spec_mime(),
        f.spec_extension() != g.spec_extension(),
{
    reveal_format_literals();
    assert(f.spec_label()[0] != g.spec_label()[0]);
    assert(f.spec_extension()[0] != g.spec_extension()[0]);
    assert(f.spec_mime().len() != g.spec_mime().len() || f.spec_mime()[6] != g.spec_mime()[6]);
}

/// The type check on a produced blob accepts exactly the requested
/// format's own MIME type among the export formats' types: in particular a
/// PNG that a browser produced in place of an unsupported format is
/// refused.
pub proof fn law_blob_type_accepts_only_requested(f: ExportFormat, g: ExportFormat)
    ensures
        f.spec_blob_type_matches(g.spec_mime()) <==> f == g,
{
    reveal_format_literals();
    if f != g {
        let a = g.spec_mime();
        let b = f.spec_mime();
        if a.len() == b.len() {
            assert(ascii_lower_code(a[6]) != ascii_lower_code(b[6]));
        }
    }
}

/// The file-name part of a path: everything after its last `/` or `\`.
pub open spec fn path_base(name: Seq<char>) -> Seq<char> {
    name.skip(rfind_path_sep(name) + 1)
}

/// File-name stem from a path-like name: the base name without its last
/// extension, where an extension is what follows the last `.` and counts
/// only if both it and the part before the dot are non-empty and it is at
/// most 5 bytes long in UTF-8.
pub open spec fn spec_file_stem(name: Seq<char>) -> Seq<char> {
    let base = path_base(name);
    let dot = rfind_char(base, '.');
    if dot >= 1 && dot + 1 < base.len() && encode_utf8(base.skip(dot + 1)).len() <= 5 {
        base.take(dot)
    } else {
        base
    }
}

/// The stem of a path never contains a directory separator.
pub proof fn law_file_stem_has_no_path_sep(name: Seq<char>)
    ensures
        forall|i: int| 0 <= i < spec_file_stem(name).len() ==> !is_path_sep(#[trigger] spec_file_stem(name)[i]),
{
    lemma_rfind_path_sep(name);
    let k = rfind_path_sep(name) + 1;
    let base = path_base(name);
    assert forall|i: int| 0 <= i < base.len() implies !is_path_sep(#[trigger] base[i]) by {
        assert(base[i] == name[k + i]);
    }
    let st = spec_file_stem(name);
    assert forall|i: int| 0 <= i < st.len() implies !is_path_sep(#[trigger] st[i]) by {
        assert(st[i] == base[i]);
    }
}

/// File-name stem from a path-like name: strip directories and the last
/// extension.
pub fn file_stem(name: &str) -> (stem: &str)
    ensures
        stem@ == spec_file_stem(name@),
{
    let n = name.unicode_len();
    let start = after_last_path_sep(name);
    let base = name.substring_char(start, n);
    let blen = n - start;
    assert(base@ =~= path_base(name@));
    let after_dot = after_last_char(base, '.');
    if after_dot >= 2 && after_dot < blen {
        let ext = base.substring_char(after_dot, blen);
        assert(ext@ =~= base@.skip(after_dot as int));
        // The extension's length in bytes, as `str::len` counts it.
        if ext.as_bytes().len() <= 5 {
            let stem = base.substring_char(0, after_dot - 1);
            assert(stem@ =~= base@.take(after_dot - 1));
            return stem;
        }
    }
    base
}

/// Characters kept as they are in a download file name.
pub open spec fn is_stem_char(c: char) -> bool {
    ||| 'a' <= c && c <= 'z'
    ||| 'A' <= c && c <= 'Z'
    ||| '0' <= c && c <= '9'
    ||| c == '-'
    ||| c == '_'
}

/// A kept character, or `-` in place of any other.
pub open spec fn clean_char(c: char) -> char {
    if is_stem_char(c) {
        c
    } else {
        '-'
    }
}

/// `s` with every run of consecutive `-` shortened to a single `-`.
pub open spec fn collapse_dashes(s: Seq<char>) -> Seq<char>
    decreases s.len(),
{
    if s.len() == 0 {
        s
    } else if s.len() >= 2 && s.last() == '-' && s[s.len() - 2] == '-' {
        collapse_dashes(s.drop_last())
    } else {
        collapse_dashes(s.drop_last()).push(s.last())
    }
}

/// `s` without its leading `-` characters.
pub open spec fn trim_dashes_start(s: Seq<char>) -> Seq<char>
    decreases s.len(),
{
    if s.len() > 0 && s[0] == '-' {
        trim_dashes_start(s.drop_first())
    } else {
        s
    }
}

/// `s` without its trailing `-` characters.
pub open spec fn trim_dashes_end(s: Seq<char>) -> Seq<char>
    decreases s.len(),
{
    if s.len() > 0 && s.last() == '-' {
        trim_dashes_end(s.drop_last())
    } else {
        s
    }
}

/// Most characters a sanitized stem keeps.
pub open spec fn stem_max_chars() -> nat {
    40
}

/// The name used when nothing usable is left of a stem.
pub open spec fn fallback_stem() -> Seq<char> {
    seq!['i', 'm', 'a', 'g', 'e']
}

/// Filesystem-friendly version of a stem: every character other than ASCII
/// letters, digits, `-` and `_` becomes `-`, runs of `-` collapse to one,
/// leading and trailing `-` are dropped, and the rest is cut to 40
/// characters; "image" when nothing is left.
pub open spec fn spec_sanitize_stem(stem: Seq<char>) -> Seq<char> {
    let t = trim_dashes_end(trim_dashes_start(collapse_dashes(stem.map_values(|c: char| clean_char(c)))));
    if t.len() == 0 {
        fallback_stem()
    } else if t.len() <= stem_max_chars() {
        t
    } else {
        t.take(stem_max_chars() as int)
    }
}

/// Keep only filesystem-friendly characters for a download filename segment.
pub fn sanitize_stem(stem: &str) -> (out: String)
    ensures
        out@ == spec_sanitize_stem(stem@),
{
    let ghost mapped = stem@.map_values(|c: char| clean_char(c));
    let n = stem.unicode_len();
    // Map and collapse in one pass.
    let mut collapsed = String::new();
    let mut prev_dash = false;
    let mut i: usize = 0;
    while i < n
        invariant
            i <= n,
            n == stem@.len(),
            mapped.len() == n,
            mapped == stem@.map_values(|c: char| clean_char(c)),
            collapsed@ == collapse_dashes(mapped.take(i as int)),
            prev_dash == (i > 0 && mapped[i - 1] == '-'),
        decreases n - i,
    {
        let c = stem.get_char(i);
        let keep = ('a' <= c && c <= 'z') || ('A' <= c && c <= 'Z') || ('0' <= c && c <= '9')
            || c == '-' || c == '_';
        let m = if keep { c } else { '-' };
        assert(m == mapped[i as int]);
        assert(mapped.take(i + 1).drop_last() =~= mapped.take(i as int));
        if !(m == '-' && prev_dash) {
            push_char(&mut collapsed, m);
        }
        prev_dash = m == '-';
        i = i + 1;
    }
    assert(mapped.take(n as int) =~= mapped);
    let ghost c0 = collapsed@;
    let cs = collapsed.as_str();
    let len = cs.unicode_len();
    // Skip leading dashes.
    let mut a: usize = 0;
    assert(c0.skip(0) =~= c0);
    while a < len && cs.get_char(a) == '-'
        invariant
            a <= len,
            len == c0.len(),
            cs@ == c0,
            trim_dashes_start(c0) == trim_dashes_start(c0.skip(a as int)),
        decreases len - a,
    {
        assert(c0.skip(a as int).drop_first() =~= c0.skip(a + 1));
        a = a + 1;
    }
    let ghost front = c0.skip(a as int);
    assert(trim_dashes_start(c0) == front) by {
        if a < len {
            assert(front[0] == c0[a as int]);
        } else {
            assert(front.len() == 0);
        }
    }
    // Drop trailing dashes.
    let mut e: usize = len;
    assert(front.take((len - a) as int) =~= front);
    while e > a && cs.get_char(e - 1) == '-'
        invariant
            a <= e <= len,
            len == c0.len(),
            cs@ == c0,
            front == c0.skip(a as int),
            trim_dashes_end(front) == trim_dashes_end(front.take(e - a)),
        decreases e,
    {
        assert(front.take(e - a).drop_last() =~= front.take(e - 1 - a));
        e = e - 1;
    }
    let ghost t = front.take(e - a);
    assert(trim_dashes_end(front) == t) by {
        if e > a {
            assert(t.last() == c0[e - 1]);
        }
    }
    if e == a {
        let mut out = String::new();
        push_char(&mut out, 'i');
        push_char(&mut out, 'm');
        push_char(&mut out, 'a');
        push_char(&mut out, 'g');
        push_char(&mut out, 'e');
        assert(out@ =~= fallback_stem());
        return out;
    }
    let end = if e - a <= 40 { e } else { a + 40 };
    let out = cs.substring_char(a, end).to_owned();
    assert(out@ =~= spec_sanitize_stem(stem@));
    out
}

/// A stem as `sanitize_stem` leaves it: 1 to 40 characters, all ASCII
/// letters, digits, `-` or `_`, not starting with `-` and without two `-`
/// in a row.
pub open spec fn is_clean_stem(o: Seq<char>) -> bool {
    &&& 1 <= o.len() <= stem_max_chars()
    &&& forall|i: int| 0 <= i < o.len() ==> is_stem_char(#[trigger] o[i])
    &&& o[0] != '-'
    &&& forall|i: int| 0 <= i < o.len() - 1 ==> !(#[trigger] o[i] == '-' && o[i + 1] == '-')
}

/// Collapsing keeps the allowed-character property, leaves no two `-` in
/// a row, is empty exactly when its input is, and ends as its input ends.
proof fn lemma_collapse_dashes(s: Seq<char>)
    ensures
        collapse_dashes(s).len() <= s.len(),
        (collapse_dashes(s).len() == 0) == (s.len() == 0),
        s.len() > 0 ==> collapse_dashes(s).last() == s.last(),
        (forall|j: int| 0 <= j < s.len() ==> is_stem_char(#[trigger] s[j])) ==>
            (forall|i: int| 0 <= i < collapse_dashes(s).len() ==> is_stem_char(#[trigger] collapse_dashes(s)[i])),
        forall|i: int| 0 <= i < collapse_dashes(s).len() - 1 ==>
            !(#[trigger] collapse_dashes(s)[i] == '-' && collapse_dashes(s)[i + 1] == '-'),
    decreases s.len(),
{
    if s.len() > 0 {
        let p = s.drop_last();
        lemma_collapse_dashes(p);
        if (forall|j: int| 0 <= j < s.len() ==> is_stem_char(#[trigger] s[j])) {
            assert forall|j: int| 0 <= j < p.len() implies is_stem_char(#[trigger] p[j]) by {
                assert(p[j] == s[j]);
            }
        }
        let c = collapse_dashes(s);
        let cp = collapse_dashes(p);
        if !(s.len() >= 2 && s.last() == '-' && s[s.len() - 2] == '-') {
            assert(c == cp.push(s.last()));
            assert forall|i: int| 0 <= i < c.len() - 1 implies !(#[trigger] c[i] == '-' && c[i + 1] == '-') by {
                if i == c.len() - 2 {
                    assert(c[i] == cp.last());
                    assert(cp.last() == p.last());
                    assert(p.last() == s[s.len() - 2]);
                } else {
                    assert(c[i] == cp[i]);
                    assert(c[i + 1] == cp[i + 1]);
                }
            }
        } else {
            assert(p.last() == s.last());
        }
    }
}

/// A string without two `-` in a row is its own collapse.
proof fn lemma_collapse_dashes_identity(s: Seq<char>)
    requires
        forall|i: int| 0 <= i < s.len() - 1 ==> !(#[trigger] s[i] == '-' && s[i + 1] == '-'),
    ensures
        collapse_dashes(s) == s,
    decreases s.len(),
{
    if s.len() > 0 {
        let p = s.drop_last();
        assert forall|i: int| 0 <= i < p.len() - 1 implies !(#[trigger] p[i] == '-' && p[i + 1] == '-') by {
            assert(p[i] == s[i] && p[i + 1] == s[i + 1]);
        }
        lemma_collapse_dashes_identity(p);
        if s.len() >= 2 {
            assert(!(s[s.len() - 2] == '-' && s[s.len() - 1] == '-'));
        }
        assert(p.push(s.last()) =~= s);
    }
}

/// Trimming the front leaves a suffix that does not start with `-`.
proof fn lemma_trim_dashes_start(s: Seq<char>)
    ensures
        trim_dashes_start(s) == s.skip(s.len() - trim_dashes_start(s).len()),
        trim_dashes_start(s).len() <= s.len(),
        trim_dashes_start(s).len() > 0 ==> trim_dashes_start(s)[0] != '-',
        s.len() > 0 && s[0] != '-' ==> trim_dashes_start(s) == s,
    decreases s.len(),
{
    if s.len() > 0 && s[0] == '-' {
        lemma_trim_dashes_start(s.drop_first());
        let t = trim_dashes_start(s.drop_first());
        assert(s.drop_first().skip(s.drop_first().len() - t.len()) =~= s.skip(s.len() - t.len()));
    } else {
        assert(s.skip(0) =~= s);
    }
}

/// Trimming the back leaves a prefix that does not end with `-`.
proof fn lemma_trim_dashes_end(s: Seq<char>)
    ensures
        trim_dashes_end(s) == s.take(trim_dashes_end(s).len() as int),
        trim_dashes_end(s).len() <= s.len(),
        trim_dashes_end(s).len() > 0 ==> trim_dashes_end(s).last() != '-',
        s.len() > 0 && s.last() != '-' ==> trim_dashes_end(s) == s,
    decreases s.len(),
{
    if s.len() > 0 && s.last() == '-' {
        lemma_trim_dashes_end(s.drop_last());
        let t = trim_dashes_end(s.drop_last());
        assert(s.drop_last().take(t.len() as int) =~= s.take(t.len() as int));
    } else {
        assert(s.take(s.len() as int) =~= s);
    }
}

/// Whatever the input, `sanitize_stem` returns a clean stem: 1 to 40
/// filesystem-friendly characters, no leading `-` and no `--`.
pub proof fn law_sanitize_stem_is_clean(stem: Seq<char>)
    ensures
        is_clean_stem(spec_sanitize_stem(stem)),
{
    let m = stem.map_values(|c: char| clean_char(c));
    assert forall|j: int| 0 <= j < m.len() implies is_stem_char(#[trigger] m[j]) by {}
    let c = collapse_dashes(m);
    lemma_collapse_dashes(m);
    let u = trim_dashes_start(c);
    lemma_trim_dashes_start(c);
    let t = trim_dashes_end(u);
    lemma_trim_dashes_end(u);
    let o = spec_sanitize_stem(stem);
    if t.len() == 0 {
        assert(o =~= seq!['i', 'm', 'a', 'g', 'e']);
        assert(is_clean_stem(o));
    } else {
        let k = c.len() - u.len();
        assert forall|i: int| 0 <= i < t.len() implies #[trigger] t[i] == c[k + i] by {
            assert(t[i] == u[i]);
            assert(u[i] == c[k + i]);
        }
        assert(t[0] == u[0]);
        assert forall|i: int| 0 <= i < o.len() implies #[trigger] o[i] == c[k + i] by {
            assert(o[i] == t[i]);
        }
        assert forall|i: int| 0 <= i < o.len() implies is_stem_char(#[trigger] o[i]) by {
            assert(o[i] == c[k + i]);
        }
        assert forall|i: int| 0 <= i < o.len() - 1 implies !(#[trigger] o[i] == '-' && o[i + 1] == '-') by {
            assert(o[i] == c[k + i]);
            assert(o[i + 1] == c[k + i + 1]);
        }
    }
}

/// Sanitizing a sanitized stem changes nothing, provided the first result
/// does not end in `-` (which can happen only when the 40-character cut
/// falls right after a `-`).
pub proof fn law_sanitize_stem_idempotent(stem: Seq<char>)
    requires
        spec_sanitize_stem(stem).last() != '-',
    ensures
        spec_sanitize_stem(spec_sanitize_stem(stem)) == spec_sanitize_stem(stem),
{
    let o = spec_sanitize_stem(stem);
    law_sanitize_stem_is_clean(stem);
    let m = o.map_values(|c: char| clean_char(c));
    assert(m =~= o);
    lemma_collapse_dashes_identity(o);
    lemma_trim_dashes_start(o);
    lemma_trim_dashes_end(o);
}

/// "compare-{left}-vs-{right}.{ext}" with both stems sanitized.
pub open spec fn spec_export_filename(left_name: Seq<char>, right_name: Seq<char>, format: ExportFormat) -> Seq<char> {
    "compare-"@ + spec_sanitize_stem(spec_file_stem(left_name)) + "-vs-"@
        + spec_sanitize_stem(spec_file_stem(right_name)) + "."@ + format.spec_extension()
}

/// Download file name for a comparison of two images.
pub fn export_filename(left: &LoadedImage, right: &LoadedImage, format: ExportFormat) -> (f: String)
    ensures
        f@ == spec_export_filename(left.name@, right.name@, format),
{
    let left_stem = sanitize_stem(file_stem(left.name.as_str()));
    let right_stem = sanitize_stem(file_stem(right.name.as_str()));
    let mut f = String::from_str("compare-");
    f.append(left_stem.as_str());
    f.append("-vs-");
    f.append(right_stem.as_str());
    f.append(".");
    f.append(format.extension());
    f
}

/// `pixels` as tightly packed bytes: pixel `i` occupies bytes `4 * i` to
/// `4 * i + 3`, in the order `[r, g, b, a]`.
pub open spec fn is_packed_rgba(bytes: Seq<u8>, pixels: Seq<[u8; 4]>) -> bool {
    &&& bytes.len() == 4 * pixels.len()
    &&& forall|i: int, j: int| 0 <= i < pixels.len() && 0 <= j < 4 ==> #[trigger] bytes[4 * i + j] == pixels[i]@[j]
}

/// Convert a `ColorImage` (edge output) back to tightly packed RGBA8.
pub fn color_image_to_rgba(img: &egui::ColorImage) -> (out: Vec<u8>)
    ensures
        is_packed_rgba(out@, color_image_pixels(*img)),
{
    let ghost px = color_image_pixels(*img);
    let n = color_image_pixel_count(img);
    let mut out: Vec<u8> = Vec::new();
    let mut i: usize = 0;
    while i < n
        invariant
            i <= n,
            n == px.len(),
            px == color_image_pixels(*img),
            out@.len() == 4 * i,
            forall|k: int, j: int| 0 <= k < i && 0 <= j < 4 ==> #[trigger] out@[4 * k + j] == px[k]@[j],
        decreases n - i,
    {
        let p = color_image_pixel(img, i);
        out.push(p[0]);
        out.push(p[1]);
        out.push(p[2]);
        out.push(p[3]);
        assert forall|k: int, j: int| 0 <= k < i + 1 && 0 <= j < 4 implies #[trigger] out@[4 * k + j] == px[k]@[j] by {
            if k == i {
                assert(p@[j] == px[k]@[j]);
            }
        }
        i = i + 1;
    }
    out
}

/// Packing the pixels of an image made from opaque RGBA8 bytes gives back
/// those bytes: premultiplying by an alpha of 255 changes nothing.
pub proof fn law_opaque_pixels_round_trip(pixels: Seq<[u8; 4]>, size: [usize; 2], rgba: Seq<u8>)
    requires
        rgba.len() == 4 * (size[0] * size[1]),
        holds_unmultiplied(pixels, size, rgba),
        forall|i: int| 0 <= i < size[0] * size[1] ==> #[trigger] rgba[4 * i + 3] == 255,
    ensures
        is_packed_rgba(rgba, pixels),
{
    assert forall|i: int, j: int| 0 <= i < pixels.len() && 0 <= j < 4 implies #[trigger] rgba[4 * i + j] == pixels[i]@[j] by {
        assert(pixels[i]@ == premultiplied(rgba.subrange(4 * i, 4 * i + 4)));
        assert(rgba[4 * i + 3] == 255);
    }
}

} // verus!

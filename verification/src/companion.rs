//! Companion-import decisions: sanitizing user-supplied titles into file
//! names and choosing where an imported design lands.
use vstd::prelude::*;
use vstd::string::StrSliceExecFns;
use vstd::string::StringExecFns;
use crate::text::first_not_char;
use crate::text::lower_seq;
use crate::text::str_eq_ci;

verus! {

/// A design handed over by the companion: its kind ("layout" or a design),
/// title, author, and where to fetch its data and preview image.
#[derive(Debug, Clone)]
pub struct ImportPayload {
    pub kind: String,
    pub title: String,
    pub author: String,
    pub json_url: String,
    pub image_url: Option<String>,
}

/// One gallery entry as handed to the interface layer.
#[derive(Debug, Clone)]
pub struct GalleryItemDto {
    pub id: String,
    pub title: String,
    pub kind: String,
    pub author: String,
    pub json_path: String,
    pub image_path: Option<String>,
    pub added_at: i64,
}

/// The characters a sanitized name keeps: ASCII letters and digits, the
/// space, the dash and the underscore.
pub open spec fn keep_char(c: char) -> bool {
    ||| 48 <= c as u32 <= 57
    ||| 65 <= c as u32 <= 90
    ||| 97 <= c as u32 <= 122
    ||| c == ' '
    ||| c == '-'
    ||| c == '_'
}

/// The length of `s` with its trailing spaces dropped.
pub open spec fn trim_end_idx(s: Seq<char>) -> int
    decreases s.len(),
{
    if s.len() == 0 {
        0
    } else if s.last() != ' ' {
        s.len() as int
    } else {
        trim_end_idx(s.drop_last())
    }
}

/// A name reduced to its kept characters and trimmed of surrounding
/// spaces; "Untitled" when nothing remains.
pub open spec fn sanitize_spec(s: Seq<char>) -> Seq<char> {
    let kept = s.filter(|c: char| keep_char(c));
    let a = first_not_char(kept, ' ', 0);
    let b = trim_end_idx(kept);
    if a >= b {
        "Untitled"@
    } else {
        kept.subrange(a, b)
    }
}

/// Keeps only ASCII letters, digits, spaces, dashes and underscores, trims
/// surrounding spaces, and falls back to "Untitled" when nothing remains.
pub fn sanitize(s: &str) -> (r: String)
    ensures
        r@ == sanitize_spec(s@),
{
    let len = s.unicode_len();
    let mut kept = String::new();
    let mut i: usize = 0;
    while i < len
        invariant
            len == s@.len(),
            0 <= i <= len,
            kept@ == s@.take(i as int).filter(|c: char| keep_char(c)),
        decreases len - i,
    {
        let c = s.get_char(i);
        let u = c as u32;
        let keep = (48 <= u && u <= 57) || (65 <= u && u <= 90) || (97 <= u && u <= 122) || c == ' '
            || c == '-' || c == '_';
        if keep {
            let piece = s.substring_char(i, i + 1);
            kept.append(piece);
        }
        proof {
            let prev = s@.take(i as int);
            let cur = s@.take(i as int + 1);
            assert(cur.drop_last() =~= prev);
            assert(cur.last() == s@[i as int]);
            reveal_with_fuel(Seq::filter, 2);
            assert(kept@ =~= cur.filter(|c: char| keep_char(c)));
        }
        i += 1;
    }
    proof {
        assert(s@.take(len as int) =~= s@);
    }
    let ghost filtered = s@.filter(|c: char| keep_char(c));
    let klen = kept.as_str().unicode_len();
    let mut a: usize = 0;
    while a < klen && kept.as_str().get_char(a) == ' '
        invariant
            kept@ == filtered,
            klen == kept@.len(),
            0 <= a <= klen,
            first_not_char(filtered, ' ', 0) == first_not_char(filtered, ' ', a as int),
        decreases klen - a,
    {
        a += 1;
    }
    if a == klen {
        // All spaces (or nothing) survived the filter.
        proof {
            lemma_trim_end_le_len(filtered);
        }
        return "Untitled".to_owned();
    }
    proof {
        assert(filtered.take(klen as int) =~= filtered);
    }
    let mut b: usize = klen;
    while b > a && kept.as_str().get_char(b - 1) == ' '
        invariant
            kept@ == filtered,
            klen == kept@.len(),
            0 <= a < klen,
            a < b <= klen,
            filtered[a as int] != ' ',
            trim_end_idx(filtered) == trim_end_idx(filtered.take(b as int)),
        decreases b,
    {
        proof {
            let cur = filtered.take(b as int);
            let prev = filtered.take(b as int - 1);
            assert(cur.drop_last() =~= prev);
            assert(cur.last() == filtered[b as int - 1]);
        }
        b -= 1;
    }
    proof {
        assert(filtered.take(b as int).last() == filtered[b as int - 1]);
        assert(trim_end_idx(filtered) == b as int);
        assert(first_not_char(filtered, ' ', 0) == a as int);
    }
    let out = kept.as_str().substring_char(a, b);
    out.to_owned()
}

/// Trailing-space trimming never yields more than the length.
proof fn lemma_trim_end_le_len(s: Seq<char>)
    ensures
        0 <= trim_end_idx(s) <= s.len(),
    decreases s.len(),
{
    if s.len() > 0 && s.last() == ' ' {
        lemma_trim_end_le_len(s.drop_last());
    }
}

/// A payload kind names a layout (ASCII-case-insensitively).
pub open spec fn is_layout_kind(kind: Seq<char>) -> bool {
    lower_seq(kind) == lower_seq("layout"@)
}

/// Where an imported design lands, relative to the installation: layouts
/// under the save folder, everything else under the custom folder.
pub fn design_target_subdir(kind: &str) -> (r: &'static str)
    ensures
        is_layout_kind(kind@) ==> r@ == "Makeplace/Save"@,
        !is_layout_kind(kind@) ==> r@ == "Makeplace/Custom"@,
{
    if str_eq_ci(kind, "layout") {
        "Makeplace/Save"
    } else {
        "Makeplace/Custom"
    }
}

/// The file name an imported design is stored under:
/// "[Layout] {title} by {author}.json" for layouts, with "Design" as the
/// label otherwise, and the title and author sanitized.
pub fn design_filename(kind: &str, title: &str, author: &str) -> (r: String)
    ensures
        r@ == "["@ + (if is_layout_kind(kind@) {
            "Layout"@
        } else {
            "Design"@
        }) + "] "@ + sanitize_spec(title@) + " by "@ + sanitize_spec(author@) + ".json"@,
{
    let label = if str_eq_ci(kind, "layout") {
        "Layout"
    } else {
        "Design"
    };
    let sanitized_title = sanitize(title);
    let sanitized_author = sanitize(author);
    let mut out = String::new();
    out.append("[");
    out.append(label);
    out.append("] ");
    out.append(sanitized_title.as_str());
    out.append(" by ");
    out.append(sanitized_author.as_str());
    out.append(".json");
    proof {
        assert(out@ =~= "["@ + (if is_layout_kind(kind@) {
            "Layout"@
        } else {
            "Design"@
        }) + "] "@ + sanitize_spec(title@) + " by "@ + sanitize_spec(author@) + ".json"@);
    }
    out
}

} // verus!

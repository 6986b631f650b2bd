use vstd::prelude::*;
use vstd::string::StrSliceExecFns;
use vstd::string::StringExecFns;

verus! {

/// Code point of a character with ASCII upper-case letters folded to lower case.
pub open spec fn lower_code(c: char) -> int {
    if 65 <= c as int && c as int <= 90 {
        c as int + 32
    } else {
        c as int
    }
}

/// Character sequences that are equal up to ASCII case.
pub open spec fn eq_ignore_case(a: Seq<char>, b: Seq<char>) -> bool {
    &&& a.len() == b.len()
    &&& forall|i: int| 0 <= i < a.len() ==> lower_code(a[i]) == lower_code(b[i])
}

/// Extensions of the supported media formats, compared case-insensitively.
pub open spec fn is_media_ext(e: Seq<char>) -> bool {
    ||| eq_ignore_case(e, "jpg"@)
    ||| eq_ignore_case(e, "jpeg"@)
    ||| eq_ignore_case(e, "png"@)
    ||| eq_ignore_case(e, "tif"@)
    ||| eq_ignore_case(e, "tiff"@)
    ||| eq_ignore_case(e, "mp4"@)
    ||| eq_ignore_case(e, "mov"@)
    ||| eq_ignore_case(e, "avi"@)
    ||| eq_ignore_case(e, "mpg"@)
    ||| eq_ignore_case(e, "wmv"@)
}

/// Entry names that the scanner and the importer treat as hidden.
pub open spec fn is_hidden_name(name: Seq<char>) -> bool {
    name.len() > 0 && name[0] == '.'
}

fn lower_code_exec(c: char) -> (r: u32)
    ensures
        r as int == lower_code(c),
{
    let cu = c as u32;
    if 65 <= cu && cu <= 90 {
        cu + 32
    } else {
        cu
    }
}

fn eq_ignore_case_exec(a: &str, b: &str) -> (r: bool)
    ensures
        r == eq_ignore_case(a@, b@),
{
    let alen = a.unicode_len();
    let blen = b.unicode_len();
    if alen != blen {
        return false;
    }
    let mut i: usize = 0;
    while i < alen
        invariant
            alen == a@.len(),
            blen == b@.len(),
            alen == blen,
            i <= alen,
            forall|j: int| 0 <= j < i ==> lower_code(a@[j]) == lower_code(b@[j]),
        decreases alen - i,
    {
        let ca = a.get_char(i);
        let cb = b.get_char(i);
        if lower_code_exec(ca) != lower_code_exec(cb) {
            return false;
        }
        i = i + 1;
    }
    true
}

/// Whether an extension names one of the supported media formats,
/// case-insensitively.
pub fn is_media_extension(ext: &str) -> (r: bool)
    ensures
        r == is_media_ext(ext@),
{
    eq_ignore_case_exec(ext, "jpg") || eq_ignore_case_exec(ext, "jpeg")
        || eq_ignore_case_exec(ext, "png") || eq_ignore_case_exec(ext, "tif")
        || eq_ignore_case_exec(ext, "tiff") || eq_ignore_case_exec(ext, "mp4")
        || eq_ignore_case_exec(ext, "mov") || eq_ignore_case_exec(ext, "avi")
        || eq_ignore_case_exec(ext, "mpg") || eq_ignore_case_exec(ext, "wmv")
}

/// Whether an entry name starts with the hidden-file marker.
pub fn is_hidden(name: &str) -> (r: bool)
    ensures
        r == is_hidden_name(name@),
{
    if name.unicode_len() == 0 {
        false
    } else {
        name.get_char(0) == '.'
    }
}

/// Index of the last dot strictly before position `i`, or -1 if there is none.
pub open spec fn last_dot_before(name: Seq<char>, i: int) -> int
    decreases i,
{
    if i <= 0 {
        -1
    } else if name[i - 1] == '.' {
        i - 1
    } else {
        last_dot_before(name, i - 1)
    }
}

/// The extension of a file name: what follows the last dot, provided that
/// dot is neither absent nor the leading character.
pub open spec fn ext_of(name: Seq<char>) -> Option<Seq<char>> {
    let d = last_dot_before(name, name.len() as int);
    if d <= 0 {
        None
    } else {
        Some(name.subrange(d + 1, name.len() as int))
    }
}

/// Splits the extension off a file name, if it has one.
pub fn extension_of(name: &str) -> (r: Option<String>)
    ensures
        r.deep_view() == ext_of(name@),
{
    let len = name.unicode_len();
    let mut i: usize = len;
    while i > 0
        invariant
            len == name@.len(),
            i <= len,
            last_dot_before(name@, len as int) == last_dot_before(name@, i as int),
        decreases i,
    {
        if name.get_char(i - 1) == '.' {
            if i - 1 == 0 {
                return None;
            }
            let ext = name.substring_char(i, len);
            return Some(String::from_str(ext));
        }
        i = i - 1;
    }
    None
}

} // verus!

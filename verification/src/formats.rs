//! Image formats, told by file name extension.
//!
//! The extension is what the file system calls it: the text after the last
//! dot of a file name. Extensions are compared without regard to the case of
//! ASCII letters.

use vstd::prelude::*;

verus! {

/// The lower-case form of an ASCII capital; every other character as it is.
pub open spec fn ascii_lower(c: char) -> char {
    if 'A' <= c && c <= 'Z' {
        ((c as u8) + 32) as char
    } else {
        c
    }
}

/// Whether two texts are the same but for the case of ASCII letters.
pub open spec fn same_ignoring_case(a: Seq<char>, b: Seq<char>) -> bool {
    a.len() == b.len() && forall|i: int| 0 <= i < a.len() ==> ascii_lower(#[trigger] a[i]) == ascii_lower(b[i])
}

/// The extensions of the image formats that can be read.
pub open spec fn spec_supported_formats() -> Seq<Seq<char>> {
    seq!["jpg"@, "jpeg"@, "png"@, "bmp"@, "tiff"@, "tif"@, "webp"@]
}

/// Whether `extension` is one of `formats`, but for the case of ASCII
/// letters. A file without extension is of no format.
pub open spec fn spec_is_supported(extension: Option<Seq<char>>, formats: Seq<Seq<char>>) -> bool {
    match extension {
        Some(e) => exists|i: int| 0 <= i < formats.len() && same_ignoring_case(e, #[trigger] formats[i]),
        None => false,
    }
}

/// The lower-case form of an ASCII capital; every other character as it is.
pub fn to_ascii_lower(c: char) -> (l: char)
    ensures
        l == ascii_lower(c),
{
    if 'A' <= c && c <= 'Z' {
        ((c as u8) + 32) as char
    } else {
        c
    }
}

/// A text with every ASCII capital in lower case.
pub open spec fn spec_lowered(text: Seq<char>) -> Seq<char> {
    Seq::new(text.len(), |i: int| ascii_lower(text[i]))
}

/// A text with every ASCII capital in lower case.
pub fn lowered(text: &str) -> (low: String)
    ensures
        low@ == spec_lowered(text@),
{
    let n: usize = text.unicode_len();
    let mut low = String::new();
    let mut i: usize = 0;
    while i < n
        invariant
            i <= n,
            n == text@.len(),
            low@ == spec_lowered(text@).take(i as int),
        decreases n - i,
    {
        low.push(to_ascii_lower(text.get_char(i)));
        assert(low@ =~= spec_lowered(text@).take(i + 1));
        i += 1;
    }
    assert(low@ =~= spec_lowered(text@));
    low
}

/// Whether two texts are the same but for the case of ASCII letters.
pub fn eq_ignore_ascii_case(a: &str, b: &str) -> (same: bool)
    ensures
        same == same_ignoring_case(a@, b@),
{
    let n: usize = a.unicode_len();
    if n != b.unicode_len() {
        return false;
    }
    let mut i: usize = 0;
    while i < n
        invariant
            i <= n,
            n == a@.len(),
            n == b@.len(),
            forall|j: int| 0 <= j < i ==> ascii_lower(#[trigger] a@[j]) == ascii_lower(b@[j]),
        decreases n - i,
    {
        if to_ascii_lower(a.get_char(i)) != to_ascii_lower(b.get_char(i)) {
            return false;
        }
        i += 1;
    }
    true
}

/// The extensions of the image formats that can be read.
pub fn supported_formats() -> (formats: Vec<&'static str>)
    ensures
        formats@.len() == 7,
        forall|i: int| 0 <= i < 7 ==> (#[trigger] formats@[i])@ == spec_supported_formats()[i],
{
    let mut formats: Vec<&'static str> = Vec::new();
    formats.push("jpg");
    formats.push("jpeg");
    formats.push("png");
    formats.push("bmp");
    formats.push("tiff");
    formats.push("tif");
    formats.push("webp");
    formats
}

/// Whether a file with the given extension is an image that can be read.
pub fn is_supported_format(extension: Option<&str>) -> (supported: bool)
    ensures
        supported == spec_is_supported(
            match extension {
                Some(e) => Some(e@),
                None => None,
            },
            spec_supported_formats(),
        ),
{
    match extension {
        None => false,
        Some(e) => {
            let formats = supported_formats();
            let mut i: usize = 0;
            while i < formats.len()
                invariant
                    i <= formats.len(),
                    extension == Some(e),
                    formats@.len() == 7,
                    forall|j: int| 0 <= j < 7 ==> (#[trigger] formats@[j])@ == spec_supported_formats()[j],
                    forall|j: int| 0 <= j < i ==> !same_ignoring_case(e@, #[trigger] spec_supported_formats()[j]),
                decreases formats.len() - i,
            {
                if eq_ignore_ascii_case(e, formats[i]) {
                    proof {
                        let known = spec_supported_formats();
                        let at = i as int;
                        assert(0 <= at < known.len() && same_ignoring_case(e@, known[at]));
                    }
                    return true;
                }
                i += 1;
            }
            false
        },
    }
}

/// Whether a file with the given extension is of one of the given formats.
pub fn is_supported_by(extension: Option<&str>, formats: &Vec<String>) -> (supported: bool)
    ensures
        supported == spec_is_supported(
            match extension {
                Some(e) => Some(e@),
                None => None,
            },
            Seq::new(formats@.len(), |i: int| formats@[i]@),
        ),
{
    match extension {
        None => false,
        Some(e) => {
            let ghost names = Seq::new(formats@.len(), |i: int| formats@[i]@);
            let mut i: usize = 0;
            while i < formats.len()
                invariant
                    i <= formats.len(),
                    extension == Some(e),
                    names == Seq::new(formats@.len(), |i: int| formats@[i]@),
                    forall|j: int| 0 <= j < i ==> !same_ignoring_case(e@, #[trigger] names[j]),
                decreases formats.len() - i,
            {
                if eq_ignore_ascii_case(e, formats[i].as_str()) {
                    proof {
                        let at = i as int;
                        assert(0 <= at < names.len() && same_ignoring_case(e@, names[at]));
                    }
                    return true;
                }
                i += 1;
            }
            false
        },
    }
}

/// Whether the dot at `d` is the last dot of the last component of `path`:
/// neither a dot nor a slash follows it.
pub open spec fn is_final_dot(path: Seq<char>, d: int) -> bool {
    0 <= d < path.len() && path[d] == '.' && forall|j: int|
        d < j < path.len() ==> path[j] != '.' && path[j] != '/'
}

/// The extension of a path: what follows the last dot of its last
/// component. A component without a dot has none, nor has one whose only dot
/// is its first character, nor the component `..`.
pub open spec fn spec_extension(path: Seq<char>) -> Option<Seq<char>> {
    if exists|d: int| is_final_dot(path, d) {
        let d = choose|d: int| is_final_dot(path, d);
        if d == 0 || path[d - 1] == '/' {
            None
        } else if d == path.len() - 1 && path[d - 1] == '.' && (d == 1 || path[d - 2] == '/') {
            None
        } else {
            Some(path.subrange(d + 1, path.len() as int))
        }
    } else {
        None
    }
}

/// A path has at most one final dot.
pub proof fn lemma_final_dot_unique(path: Seq<char>, a: int, b: int)
    requires
        is_final_dot(path, a),
        is_final_dot(path, b),
    ensures
        a == b,
{
    if a < b {
        assert(path[b] != '.');
    } else if b < a {
        assert(path[a] != '.');
    }
}

/// The extension of a path, if it has one.
pub fn extension_of(path: &str) -> (extension: Option<&str>)
    ensures
        match extension {
            Some(e) => Some(e@),
            None => None,
        } == spec_extension(path@),
{
    let n: usize = path.unicode_len();
    let mut i: usize = n;
    while i > 0
        invariant
            i <= n,
            n == path@.len(),
            forall|j: int| i <= j < n ==> path@[j] != '.' && path@[j] != '/',
        decreases i,
    {
        let c: char = path.get_char(i - 1);
        if c == '/' {
            assert forall|d: int| !is_final_dot(path@, d) by {
                if is_final_dot(path@, d) {
                    if d < i - 1 {
                        assert(path@[i - 1] != '/');
                    }
                }
            }
            return None;
        }
        if c == '.' {
            let d: usize = i - 1;
            proof {
                assert(is_final_dot(path@, d as int));
                let chosen = choose|k: int| is_final_dot(path@, k);
                lemma_final_dot_unique(path@, chosen, d as int);
            }
            if d == 0 || path.get_char(d - 1) == '/' {
                return None;
            }
            if d == n - 1 && path.get_char(d - 1) == '.' && (d == 1 || path.get_char(d - 2) == '/') {
                return None;
            }
            return Some(path.substring_char(i, n));
        }
        i -= 1;
    }
    assert forall|d: int| !is_final_dot(path@, d) by {}
    None
}

/// Whether the file at `path` is, by its name, an image that can be read.
pub fn is_supported_path(path: &str) -> (supported: bool)
    ensures
        supported == spec_is_supported(spec_extension(path@), spec_supported_formats()),
{
    is_supported_format(extension_of(path))
}

/// Whether the last component of `path` begins at `k`: a slash or nothing
/// stands before it, and no slash follows.
pub open spec fn is_name_start(path: Seq<char>, k: int) -> bool {
    0 <= k <= path.len() && (k == 0 || path[k - 1] == '/') && forall|j: int|
        k <= j < path.len() ==> path[j] != '/'
}

/// The last component of a path: what follows its last slash, or all of it
/// where it has none.
pub open spec fn spec_file_name(path: Seq<char>) -> Seq<char> {
    path.subrange(choose|k: int| is_name_start(path, k), path.len() as int)
}

/// The last component of a path begins at one place only.
pub proof fn lemma_name_start_unique(path: Seq<char>, a: int, b: int)
    requires
        is_name_start(path, a),
        is_name_start(path, b),
    ensures
        a == b,
{
    if a < b {
        assert(path[b - 1] != '/');
    } else if b < a {
        assert(path[a - 1] != '/');
    }
}

/// The last component of a path.
pub fn file_name_of(path: &str) -> (name: &str)
    ensures
        name@ == spec_file_name(path@),
{
    let n: usize = path.unicode_len();
    let mut i: usize = n;
    while i > 0 && path.get_char(i - 1) != '/'
        invariant
            i <= n,
            n == path@.len(),
            forall|j: int| i <= j < n ==> path@[j] != '/',
        decreases i,
    {
        i -= 1;
    }
    proof {
        assert(is_name_start(path@, i as int));
        lemma_name_start_unique(path@, choose|k: int| is_name_start(path@, k), i as int);
    }
    path.substring_char(i, n)
}

} // verus!

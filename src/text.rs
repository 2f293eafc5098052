use vstd::prelude::*;
use vstd::string::StrSliceExecFns;

verus! {

/// `c` is an ASCII letter or digit.
pub open spec fn is_ascii_alnum(c: char) -> bool {
    ('a' <= c <= 'z') || ('A' <= c <= 'Z') || ('0' <= c <= '9')
}

/// Every character of `s` is an ASCII letter or digit.
pub open spec fn all_ascii_alnum(s: Seq<char>) -> bool {
    forall|i: int| 0 <= i < s.len() ==> is_ascii_alnum(#[trigger] s[i])
}

/// `c` is ASCII white space: space, tab, line feed, vertical tab, form
/// feed or carriage return.
pub open spec fn is_ascii_space(c: char) -> bool {
    c == ' ' || ('\t' <= c <= '\r')
}

/// Every character of `s` is ASCII white space.
pub open spec fn all_ascii_space(s: Seq<char>) -> bool {
    forall|i: int| 0 <= i < s.len() ==> is_ascii_space(#[trigger] s[i])
}

/// Every character of `s` is ASCII.
pub open spec fn all_ascii(s: Seq<char>) -> bool {
    forall|i: int| 0 <= i < s.len() ==> (#[trigger] s[i]) as u32 <= 0x7f
}

/// ASCII letters and digits are ASCII.
pub(crate) proof fn lemma_alnum_is_ascii(s: Seq<char>)
    requires
        all_ascii_alnum(s),
    ensures
        all_ascii(s),
{
    assert forall|i: int| 0 <= i < s.len() implies (#[trigger] s[i]) as u32 <= 0x7f by {
        assert(is_ascii_alnum(s[i]));
    }
}

/// ASCII lowercase of one character; other characters are kept.
pub open spec fn ascii_lower_char(c: char) -> char {
    if 'A' <= c <= 'Z' {
        ((c as u32) + 32) as char
    } else {
        c
    }
}

/// ASCII lowercase of a string.
pub open spec fn ascii_lower(s: Seq<char>) -> Seq<char> {
    s.map_values(|c: char| ascii_lower_char(c))
}

/// What `str::trim` returns for a string.
pub uninterp spec fn trimmed(s: Seq<char>) -> Seq<char>;

/// What `str::to_lowercase` returns for a string.
pub uninterp spec fn lowercased(s: Seq<char>) -> Seq<char>;

/// Relies on `str::trim`: leading and trailing Unicode white space is removed.
/// ASCII space, tab, line feed, vertical tab, form feed and carriage return
/// are white space; ASCII letters and digits are not.
#[verifier::external_body]
pub(crate) fn trim(s: &str) -> (r: &str)
    ensures
        r@ == trimmed(s@),
        all_ascii_alnum(s@) ==> r@ == s@,
        forall|pre: Seq<char>, core: Seq<char>, post: Seq<char>|
            all_ascii_space(pre) && all_ascii_space(post) && all_ascii_alnum(core) && core.len()
                > 0 && s@ == #[trigger] (pre + core + post) ==> r@ == core,
{
    s.trim()
}

/// Relies on `str::to_lowercase`: the Unicode lowercase mapping, which on
/// ASCII text maps 'A'..='Z' to 'a'..='z' and keeps every other character.
#[verifier::external_body]
pub(crate) fn to_lowercase(s: &str) -> (r: String)
    ensures
        r@ == lowercased(s@),
        all_ascii(s@) ==> r@ == ascii_lower(s@),
{
    s.to_lowercase()
}

/// `s` holds no `.`.
pub open spec fn no_dot(s: Seq<char>) -> bool {
    forall|i: int| 0 <= i < s.len() ==> s[i] != '.'
}

/// The view of an extension as `path_extension` hands it out.
pub open spec fn extension_view(r: Option<Option<String>>) -> Option<Option<Seq<char>>> {
    match r {
        None => None,
        Some(None) => Some(None),
        Some(Some(e)) => Some(Some(e@)),
    }
}

/// Relies on `Path::extension` and `OsStr::to_str`: `None` without an
/// extension, `Some(None)` for one that is not valid Unicode. How a path
/// splits into components depends on the platform; on every platform a path
/// that is one file name, ASCII letters and digits around one `.`, has the
/// text after the `.` as its extension, and a path without any `.` has no
/// extension.
#[verifier::external_body]
pub(crate) fn path_extension(path: &str) -> (r: Option<Option<String>>)
    ensures
        no_dot(path@) ==> r is None,
        forall|stem: Seq<char>, ext: Seq<char>|
            stem.len() > 0 && ext.len() > 0 && all_ascii_alnum(stem) && all_ascii_alnum(ext)
                && path@ == stem + seq!['.'] + ext ==> extension_view(r) == Some(Some(ext)),
{
    match std::path::Path::new(path).extension() {
        None => None,
        Some(e) => Some(e.to_str().map(|t| t.to_string())),
    }
}

/// Two strings hold the same characters.
pub fn str_eq(a: &str, b: &str) -> (r: bool)
    ensures
        r == (a@ == b@),
{
    let n = a.unicode_len();
    if n != b.unicode_len() {
        return false;
    }
    let mut i: usize = 0;
    while i < n
        invariant
            n == a@.len(),
            n == b@.len(),
            i <= n,
            forall|j: int| 0 <= j < i ==> a@[j] == b@[j],
        decreases n - i,
    {
        if a.get_char(i) != b.get_char(i) {
            return false;
        }
        i = i + 1;
    }
    assert(a@ =~= b@);
    true
}

} // verus!

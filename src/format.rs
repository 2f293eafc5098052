use vstd::prelude::*;

use crate::error::Error;
use crate::text::{
    all_ascii_alnum, all_ascii_space, ascii_lower, extension_view, is_ascii_alnum, lemma_alnum_is_ascii, lowercased, no_dot,
    path_extension, str_eq, to_lowercase, trim, trimmed,
};

verus! {

/// One supported data encoding, or `Auto`: "take it from the path".
#[derive(Debug, Clone, Copy, PartialEq, Eq, Structural, Hash, PartialOrd, Ord)]
pub enum DataFormat {
    Json,
    JsonLines,
    Csv,
    Yaml,
    MessagePack,
    Toml,
    Auto,
}

/// Canonical lowercase name of a format.
pub open spec fn render(f: DataFormat) -> Seq<char> {
    match f {
        DataFormat::Json => seq!['j', 's', 'o', 'n'],
        DataFormat::JsonLines => seq!['j', 's', 'o', 'n', 'l'],
        DataFormat::Csv => seq!['c', 's', 'v'],
        DataFormat::Yaml => seq!['y', 'a', 'm', 'l'],
        DataFormat::MessagePack => seq!['m', 'e', 's', 's', 'a', 'g', 'e', 'p', 'a', 'c', 'k'],
        DataFormat::Toml => seq!['t', 'o', 'm', 'l'],
        DataFormat::Auto => seq!['a', 'u', 't', 'o'],
    }
}

/// The format that a normalised (trimmed, lowercase) token stands for.
pub open spec fn alias_format(t: Seq<char>) -> Option<DataFormat> {
    if t == seq!['j', 's', 'o', 'n'] {
        Some(DataFormat::Json)
    } else if t == seq!['j', 's', 'o', 'n', 'l'] || t == seq!['j', 's', 'l'] {
        Some(DataFormat::JsonLines)
    } else if t == seq!['c', 's', 'v'] {
        Some(DataFormat::Csv)
    } else if t == seq!['y', 'a', 'm', 'l'] || t == seq!['y', 'm', 'l'] {
        Some(DataFormat::Yaml)
    } else if t == seq!['m', 's', 'g', 'p', 'a', 'c', 'k'] || t == seq!['m', 'p', 'a', 'c', 'k']
        || t == seq!['m', 'p', 'k'] || t == render(DataFormat::MessagePack) {
        Some(DataFormat::MessagePack)
    } else if t == seq!['t', 'o', 'm', 'l'] {
        Some(DataFormat::Toml)
    } else if t == seq!['a', 'u', 't', 'o'] {
        Some(DataFormat::Auto)
    } else {
        None
    }
}

/// A token is read trimmed and lowercased.
pub open spec fn normalized(t: Seq<char>) -> Seq<char> {
    lowercased(trimmed(t))
}

/// `r` is what reading the token `t`, normalised to `n`, gives: its format,
/// or `UnknownFormat` holding the token as it was written.
pub open spec fn token_result_from(
    t: Seq<char>,
    n: Seq<char>,
    r: Result<DataFormat, Error>,
) -> bool {
    match alias_format(n) {
        Some(f) => r == Ok::<DataFormat, Error>(f),
        None => r matches Err(Error::UnknownFormat(s)) && s@ == t,
    }
}

/// `r` is what reading the token `t` gives.
pub open spec fn token_result(t: Seq<char>, r: Result<DataFormat, Error>) -> bool {
    token_result_from(t, normalized(t), r)
}

/// `r` is what the extension `e`, normalised to `n`, gives: the concrete
/// format it names, or `UnknownFormat` holding the extension.
pub open spec fn extension_result_from(
    e: Seq<char>,
    n: Seq<char>,
    r: Result<DataFormat, Error>,
) -> bool {
    match alias_format(n) {
        Some(f) => if f != DataFormat::Auto {
            r == Ok::<DataFormat, Error>(f)
        } else {
            r matches Err(Error::UnknownFormat(s)) && s@ == e
        },
        None => r matches Err(Error::UnknownFormat(s)) && s@ == e,
    }
}

/// `r` is what a path `p` gives when its extension is found to be `x`:
/// `None` when it has none, `Some(None)` when it is not valid text.
pub open spec fn extension_outcome(
    p: Seq<char>,
    x: Option<Option<Seq<char>>>,
    r: Result<DataFormat, Error>,
) -> bool {
    match x {
        None => r matches Err(Error::NoExtension(s)) && s@ == p,
        Some(None) => r matches Err(Error::InvalidExtension(s)) && s@ == p,
        Some(Some(e)) => extension_result_from(e, normalized(e), r),
    }
}

/// `r` is what the path `p` gives for some reading of its extension.
pub open spec fn path_result(p: Seq<char>, r: Result<DataFormat, Error>) -> bool {
    exists|x: Option<Option<Seq<char>>>| extension_outcome(p, x, r)
}

/// What `from_path` promises of the path `p` and its result `r`: the
/// general rule, `NoExtension` for a path without any `.`, and for a plain
/// `stem.ext` name of ASCII letters and digits, that the extension is read
/// in any letter case.
pub open spec fn from_path_ensures(p: Seq<char>, r: Result<DataFormat, Error>) -> bool {
    &&& path_result(p, r)
    &&& no_dot(p) ==> (r matches Err(Error::NoExtension(s)) && s@ == p)
    &&& forall|stem: Seq<char>, ext: Seq<char>|
        stem.len() > 0 && ext.len() > 0 && all_ascii_alnum(stem) && all_ascii_alnum(ext) && p
            == #[trigger] (stem + seq!['.'] + ext) ==> extension_result_from(
            ext,
            ascii_lower(ext),
            r,
        )
}

/// The canonical name of every format is a token of letters that names it
/// again, so rendering and reading back gives the same format.
pub proof fn lemma_render_round_trip(f: DataFormat)
    ensures
        all_ascii_alnum(render(f)),
        ascii_lower(render(f)) == render(f),
        alias_format(render(f)) == Some(f),
{
    assert(all_ascii_alnum(render(f)));
    assert(ascii_lower(render(f)) =~= render(f));
}

/// ASCII letters and digits stay letters and digits under ASCII lowercase,
/// and nothing else becomes one.
proof fn lemma_lower_keeps_alnum(v: Seq<char>)
    ensures
        all_ascii_alnum(v) <==> all_ascii_alnum(ascii_lower(v)),
{
    let l = ascii_lower(v);
    if all_ascii_alnum(v) {
        assert forall|i: int| 0 <= i < l.len() implies is_ascii_alnum(#[trigger] l[i]) by {
            assert(is_ascii_alnum(v[i]));
        }
    }
    if all_ascii_alnum(l) {
        assert forall|i: int| 0 <= i < v.len() implies is_ascii_alnum(#[trigger] v[i]) by {
            assert(is_ascii_alnum(l[i]));
        }
    }
}

/// A path `x.v`, where `v` is any ASCII letter-case variant of a token that
/// names a concrete format, names that format.
pub proof fn lemma_extension_any_case(
    t: Seq<char>,
    v: Seq<char>,
    r: Result<DataFormat, Error>,
)
    requires
        alias_format(t) is Some,
        alias_format(t) != Some(DataFormat::Auto),
        ascii_lower(v) == t,
        from_path_ensures(seq!['x'] + seq!['.'] + v, r),
    ensures
        r == Ok::<DataFormat, Error>(alias_format(t).unwrap()),
{
    lemma_alias_tokens_are_plain(t);
    lemma_lower_keeps_alnum(v);
    let stem = seq!['x'];
    assert(all_ascii_alnum(stem));
    assert(v.len() == t.len());
}

/// Every token in the alias table is lowercase ASCII letters and digits.
pub proof fn lemma_alias_tokens_are_plain(t: Seq<char>)
    requires
        alias_format(t) is Some,
    ensures
        t.len() > 0,
        all_ascii_alnum(t),
        ascii_lower(t) == t,
{
    assert(all_ascii_alnum(t));
    assert(ascii_lower(t) =~= t);
}

impl DataFormat {
    /// The canonical lowercase name, as used in messages.
    pub fn as_str(&self) -> (r: &'static str)
        ensures
            r@ == render(*self),
    {
        proof {
            reveal_strlit("json");
            reveal_strlit("jsonl");
            reveal_strlit("csv");
            reveal_strlit("yaml");
            reveal_strlit("messagepack");
            reveal_strlit("toml");
            reveal_strlit("auto");
        }
        match self {
            DataFormat::Json => "json",
            DataFormat::JsonLines => "jsonl",
            DataFormat::Csv => "csv",
            DataFormat::Yaml => "yaml",
            DataFormat::MessagePack => "messagepack",
            DataFormat::Toml => "toml",
            DataFormat::Auto => "auto",
        }
    }

    /// The format that an already trimmed and lowercased token stands for.
    pub fn from_normalized(token: &str) -> (r: Option<DataFormat>)
        ensures
            r == alias_format(token@),
    {
        proof {
            reveal_strlit("json");
            reveal_strlit("jsonl");
            reveal_strlit("jsl");
            reveal_strlit("csv");
            reveal_strlit("yaml");
            reveal_strlit("yml");
            reveal_strlit("msgpack");
            reveal_strlit("mpack");
            reveal_strlit("mpk");
            reveal_strlit("messagepack");
            reveal_strlit("toml");
            reveal_strlit("auto");
            assert("json"@ =~= seq!['j', 's', 'o', 'n']);
            assert("jsonl"@ =~= seq!['j', 's', 'o', 'n', 'l']);
            assert("jsl"@ =~= seq!['j', 's', 'l']);
            assert("csv"@ =~= seq!['c', 's', 'v']);
            assert("yaml"@ =~= seq!['y', 'a', 'm', 'l']);
            assert("yml"@ =~= seq!['y', 'm', 'l']);
            assert("msgpack"@ =~= seq!['m', 's', 'g', 'p', 'a', 'c', 'k']);
            assert("mpack"@ =~= seq!['m', 'p', 'a', 'c', 'k']);
            assert("mpk"@ =~= seq!['m', 'p', 'k']);
            assert("messagepack"@ =~= seq!['m', 'e', 's', 's', 'a', 'g', 'e', 'p', 'a', 'c', 'k']);
            assert("toml"@ =~= seq!['t', 'o', 'm', 'l']);
            assert("auto"@ =~= seq!['a', 'u', 't', 'o']);
        }
        if str_eq(token, "json") {
            Some(DataFormat::Json)
        } else if str_eq(token, "jsonl") || str_eq(token, "jsl") {
            Some(DataFormat::JsonLines)
        } else if str_eq(token, "csv") {
            Some(DataFormat::Csv)
        } else if str_eq(token, "yaml") || str_eq(token, "yml") {
            Some(DataFormat::Yaml)
        } else if str_eq(token, "msgpack") || str_eq(token, "mpack") || str_eq(token, "mpk")
            || str_eq(token, "messagepack") {
            Some(DataFormat::MessagePack)
        } else if str_eq(token, "toml") {
            Some(DataFormat::Toml)
        } else if str_eq(token, "auto") {
            Some(DataFormat::Auto)
        } else {
            None
        }
    }

    /// Reads a format token, ignoring case and surrounding white space.
    pub fn try_from(value: &str) -> (r: Result<DataFormat, Error>)
        ensures
            token_result(value@, r),
            r is Err ==> (r matches Err(Error::UnknownFormat(s)) && s@ == value@),
            all_ascii_alnum(value@) ==> token_result_from(value@, ascii_lower(value@), r),
            forall|pre: Seq<char>, core: Seq<char>, post: Seq<char>|
                all_ascii_space(pre) && all_ascii_space(post) && all_ascii_alnum(core) && core.len()
                    > 0 && value@ == #[trigger] (pre + core + post) ==> token_result_from(
                    value@,
                    ascii_lower(core),
                    r,
                ),
    {
        let trimmed_value = trim(value);
        proof {
            if all_ascii_alnum(value@) {
                lemma_alnum_is_ascii(value@);
            }
        }
        let lowered = to_lowercase(trimmed_value);
        let r = match DataFormat::from_normalized(lowered.as_str()) {
            Some(f) => Ok(f),
            None => Err(Error::UnknownFormat(value.to_owned())),
        };
        proof {
            assert forall|pre: Seq<char>, core: Seq<char>, post: Seq<char>|
                all_ascii_space(pre) && all_ascii_space(post) && all_ascii_alnum(core) && core.len()
                    > 0 && value@ == #[trigger] (pre + core + post) implies token_result_from(
                value@,
                ascii_lower(core),
                r,
            ) by {
                lemma_alnum_is_ascii(core);
            }
        }
        r
    }

    /// The concrete format that `extension`, found on `path`, names.
    pub fn from_extension(path: &str, extension: Option<Option<String>>) -> (r: Result<
        DataFormat,
        Error,
    >)
        ensures
            extension_outcome(path@, extension_view(extension), r),
            extension matches Some(Some(e)) ==> (all_ascii_alnum(e@) ==> extension_result_from(
                e@,
                ascii_lower(e@),
                r,
            )),
    {
        match extension {
            None => Err(Error::NoExtension(path.to_owned())),
            Some(None) => Err(Error::InvalidExtension(path.to_owned())),
            Some(Some(ext)) => {
                let trimmed_ext = trim(ext.as_str());
                proof {
                    if all_ascii_alnum(ext@) {
                        lemma_alnum_is_ascii(ext@);
                    }
                }
                let lowered = to_lowercase(trimmed_ext);
                match DataFormat::from_normalized(lowered.as_str()) {
                    Some(DataFormat::Auto) | None => Err(Error::UnknownFormat(ext)),
                    Some(f) => Ok(f),
                }
            },
        }
    }

    /// The concrete format named by the extension of a path.
    pub fn from_path(path: &str) -> (r: Result<DataFormat, Error>)
        ensures
            from_path_ensures(path@, r),
    {
        let found = path_extension(path);
        let ghost seen = extension_view(found);
        let r = DataFormat::from_extension(path, found);
        assert(extension_outcome(path@, seen, r));
        r
    }
}

} // verus!

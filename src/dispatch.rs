use vstd::prelude::*;

use crate::error::Error;
use crate::format::{extension_outcome, from_path_ensures, DataFormat};
use crate::text::extension_view;

verus! {

/// Whether an operation moves exactly one record or a list of records.
#[derive(Debug, Clone, Copy, PartialEq, Eq, Structural, Hash)]
pub enum Cardinality {
    One,
    Many,
}

/// Which (format, cardinality) pairs have a codec. A list is one container
/// document (JSON, YAML, MessagePack) or one record per line or row (JSON
/// Lines, CSV); a TOML document is a table, so TOML has no list form. JSON
/// Lines and CSV have no single-record form, and a single record is never
/// wrapped into a one-element list to get one.
pub open spec fn supports(f: DataFormat, m: Cardinality) -> bool {
    match m {
        Cardinality::One => match f {
            DataFormat::Json | DataFormat::Yaml | DataFormat::MessagePack | DataFormat::Toml => true,
            _ => false,
        },
        Cardinality::Many => f != DataFormat::Auto && f != DataFormat::Toml,
    }
}

/// The view of an optional path.
pub open spec fn path_view(path: Option<&str>) -> Option<Seq<char>> {
    match path {
        Some(p) => Some(p@),
        None => None,
    }
}

/// `r` is the effective format for an explicit format and an optional path:
/// the explicit one unless it is `Auto`, else the one that the path names.
pub open spec fn resolve_result(
    format: DataFormat,
    path: Option<Seq<char>>,
    r: Result<DataFormat, Error>,
) -> bool {
    if format != DataFormat::Auto {
        r == Ok::<DataFormat, Error>(format)
    } else {
        match path {
            None => r matches Err(Error::AutoNotSupported),
            Some(p) => from_path_ensures(p, r),
        }
    }
}

/// `r` is the codec chosen for an operation: the effective format if it
/// supports the cardinality, `UnsupportedFormat` of it if it does not, and
/// the resolution's own error if there is no effective format.
pub open spec fn dispatch_result(
    format: DataFormat,
    path: Option<Seq<char>>,
    mode: Cardinality,
    r: Result<DataFormat, Error>,
) -> bool {
    match r {
        Ok(f) => resolve_result(format, path, Ok(f)) && supports(f, mode),
        Err(Error::UnsupportedFormat(f)) => resolve_result(format, path, Ok(f)) && !supports(
            f,
            mode,
        ),
        Err(e) => resolve_result(format, path, Err(e)),
    }
}

/// `r` is the effective format for an explicit format and a path whose
/// extension was found to be `x`.
pub open spec fn resolve_extension_result(
    format: DataFormat,
    path: Seq<char>,
    x: Option<Option<Seq<char>>>,
    r: Result<DataFormat, Error>,
) -> bool {
    if format != DataFormat::Auto {
        r == Ok::<DataFormat, Error>(format)
    } else {
        extension_outcome(path, x, r)
    }
}

/// `r` is the codec chosen for an operation on a path whose extension was
/// found to be `x`, by the same rule as `dispatch_result`.
pub open spec fn dispatch_extension_result(
    format: DataFormat,
    path: Seq<char>,
    x: Option<Option<Seq<char>>>,
    mode: Cardinality,
    r: Result<DataFormat, Error>,
) -> bool {
    match r {
        Ok(f) => resolve_extension_result(format, path, x, Ok(f)) && supports(f, mode),
        Err(Error::UnsupportedFormat(f)) => resolve_extension_result(format, path, x, Ok(f))
            && !supports(f, mode),
        Err(e) => resolve_extension_result(format, path, x, Err(e)),
    }
}

impl DataFormat {
    /// Whether this format has a codec for the cardinality.
    pub fn supports(&self, mode: Cardinality) -> (r: bool)
        ensures
            r == supports(*self, mode),
    {
        match mode {
            Cardinality::One => match self {
                DataFormat::Json | DataFormat::Yaml | DataFormat::MessagePack
                | DataFormat::Toml => true,
                _ => false,
            },
            Cardinality::Many => match self {
                DataFormat::Auto | DataFormat::Toml => false,
                _ => true,
            },
        }
    }
}

/// The effective format: `format` itself unless it is `Auto`, else the one
/// named by the extension of `path`. `Auto` without a path is an error.
pub fn resolve(format: DataFormat, path: Option<&str>) -> (r: Result<DataFormat, Error>)
    ensures
        resolve_result(format, path_view(path), r),
        r matches Ok(f) ==> f != DataFormat::Auto,
{
    match format {
        DataFormat::Auto => match path {
            None => Err(Error::AutoNotSupported),
            Some(p) => DataFormat::from_path(p),
        },
        _ => Ok(format),
    }
}

/// The codec for an operation of cardinality `mode` with the explicit
/// `format` on the target at `path` (`None` for a bare stream). Nothing is
/// read or written before this succeeds.
pub fn dispatch(format: DataFormat, path: Option<&str>, mode: Cardinality) -> (r: Result<
    DataFormat,
    Error,
>)
    ensures
        dispatch_result(format, path_view(path), mode, r),
        r matches Ok(f) ==> f != DataFormat::Auto,
        (format == DataFormat::JsonLines || format == DataFormat::Csv) && mode == Cardinality::One
            ==> (r matches Err(Error::UnsupportedFormat(g)) && g == format),
        format == DataFormat::Auto && path is None ==> r matches Err(Error::AutoNotSupported),
{
    match resolve(format, path) {
        Ok(f) => if f.supports(mode) {
            Ok(f)
        } else {
            Err(Error::UnsupportedFormat(f))
        },
        Err(e) => Err(e),
    }
}

/// `dispatch` for a path whose extension the caller has already taken:
/// `None` when it has none, `Some(None)` when it is not valid text. `path`
/// is the path as text, for messages.
pub fn dispatch_extension(
    format: DataFormat,
    path: &str,
    extension: Option<Option<String>>,
    mode: Cardinality,
) -> (r: Result<DataFormat, Error>)
    ensures
        dispatch_extension_result(format, path@, extension_view(extension), mode, r),
        r matches Ok(f) ==> f != DataFormat::Auto,
{
    let resolved = match format {
        DataFormat::Auto => DataFormat::from_extension(path, extension),
        _ => Ok(format),
    };
    match resolved {
        Ok(f) => if f.supports(mode) {
            Ok(f)
        } else {
            Err(Error::UnsupportedFormat(f))
        },
        Err(e) => Err(e),
    }
}

} // verus!

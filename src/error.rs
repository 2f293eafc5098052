use vstd::prelude::*;

use crate::format::DataFormat;
use csv::Error as CsvError;
use rmp_serde::decode::Error as MessagePackDecodeError;
use rmp_serde::encode::Error as MessagePackEncodeError;
use serde_json::Error as JsonError;
use serde_yaml::Error as YamlError;
use toml::de::Error as TomlDecodeError;
use toml::ser::Error as TomlEncodeError;

verus! {

/// Declares `std::io::Error`, carried as it is in `Error::Io`.
#[verifier::external_type_specification]
#[verifier::external_body]
pub struct ExIoError(std::io::Error);

/// Declares serde_json's error, carried as it is.
#[verifier::external_type_specification]
#[verifier::external_body]
pub struct ExJsonError(JsonError);

/// Declares serde_yaml's error, carried as it is.
#[verifier::external_type_specification]
#[verifier::external_body]
pub struct ExYamlError(YamlError);

/// Declares csv's error, carried as it is.
#[verifier::external_type_specification]
#[verifier::external_body]
pub struct ExCsvError(CsvError);

/// Declares rmp_serde's decoding error, carried as it is.
#[verifier::external_type_specification]
#[verifier::external_body]
pub struct ExMessagePackDecodeError(MessagePackDecodeError);

/// Declares rmp_serde's encoding error, carried as it is.
#[verifier::external_type_specification]
#[verifier::external_body]
pub struct ExMessagePackEncodeError(MessagePackEncodeError);

/// Declares toml's parse error, carried as it is.
#[verifier::external_type_specification]
#[verifier::external_body]
pub struct ExTomlDecodeError(TomlDecodeError);

/// Declares toml's serialisation error, carried as it is.
#[verifier::external_type_specification]
#[verifier::external_body]
pub struct ExTomlEncodeError(TomlEncodeError);

/// Whether a codec was turning bytes into records or records into bytes.
#[derive(Debug, Clone, Copy, PartialEq, Eq, Structural, Hash)]
pub enum Direction {
    Decode,
    Encode,
}

/// The native failure of one codec library.
#[derive(Debug)]
pub enum CodecError {
    Json(JsonError),
    Yaml(YamlError),
    Csv(CsvError),
    MessagePackDecode(MessagePackDecodeError),
    MessagePackEncode(MessagePackEncodeError),
    TomlDecode(TomlDecodeError),
    TomlEncode(TomlEncodeError),
}

/// Every failure of this library, whatever its source.
#[derive(Debug)]
pub enum Error {
    /// The token, or the path's extension, names no known format.
    UnknownFormat(String),
    /// The path has no extension to take the format from.
    NoExtension(String),
    /// The path's extension is not valid text.
    InvalidExtension(String),
    /// `Auto` was given where there is no path to take the format from.
    AutoNotSupported,
    /// The format has no codec for the requested record cardinality.
    UnsupportedFormat(DataFormat),
    /// Opening, creating, reading or writing failed.
    Io(std::io::Error),
    /// A codec rejected the bytes or could not encode the value.
    Codec { format: DataFormat, direction: Direction, source: CodecError },
}

/// A codec's outcome with its native failure turned into `Error::Codec`.
pub fn codec_outcome<T>(
    format: DataFormat,
    direction: Direction,
    outcome: Result<T, CodecError>,
) -> (r: Result<T, Error>)
    ensures
        match outcome {
            Ok(v) => r == Ok::<T, Error>(v),
            Err(c) => r == Err::<T, Error>((Error::Codec { format, direction, source: c })),
        },
{
    match outcome {
        Ok(v) => Ok(v),
        Err(c) => Err(Error::Codec { format, direction, source: c }),
    }
}

/// An I/O outcome with its failure turned into `Error::Io`.
pub fn io_outcome<T>(outcome: Result<T, std::io::Error>) -> (r: Result<T, Error>)
    ensures
        match outcome {
            Ok(v) => r == Ok::<T, Error>(v),
            Err(e) => r == Err::<T, Error>(Error::Io(e)),
        },
{
    match outcome {
        Ok(v) => Ok(v),
        Err(e) => Err(Error::Io(e)),
    }
}

} // verus!

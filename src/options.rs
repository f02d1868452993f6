//! Configuration of a run: which UUID version to generate, how many, and how
//! to encode them.

use vstd::prelude::*;

verus! {

/// The textual encoding of a generated UUID.
#[derive(Debug, Clone, Copy, PartialEq, Eq, Structural)]
pub enum Format {
    /// 32 lowercase hex digits without separators.
    Hex,
    /// The hyphenated 8-4-4-4-12 form.
    Normal,
    /// The hyphenated form prefixed with `urn:uuid:`.
    Urn,
    /// The 128-bit value in decimal.
    Integer,
}

/// The generation scheme of a UUID.
#[derive(Debug, Clone, Copy, PartialEq, Eq, Structural)]
pub enum Version {
    /// Time based, with a node id.
    V1,
    /// Fully random.
    V4,
    /// Unix time ordered, with random bits.
    V7,
}

/// A validated configuration: the encoding, the version and the number of
/// UUIDs to produce.
#[derive(Debug, Clone, Copy, PartialEq, Eq, Structural)]
pub struct Args {
    pub format: Format,
    pub version: Version,
    pub amount: usize,
}

/// Number of UUIDs produced when no amount is given.
pub const DEFAULT_AMOUNT: usize = 10;

impl Args {
    /// Builds a configuration from the options that were given, filling in
    /// version 4, the hex encoding and ten UUIDs for those that were not.
    pub fn with_defaults(version: Option<Version>, format: Option<Format>, amount: Option<usize>) -> (r: Args)
        ensures
            r.version == (match version { Some(v) => v, None => Version::V4 }),
            r.format == (match format { Some(f) => f, None => Format::Hex }),
            r.amount == (match amount { Some(n) => n, None => DEFAULT_AMOUNT }),
    {
        let version = match version {
            Some(v) => v,
            None => Version::V4,
        };
        let format = match format {
            Some(f) => f,
            None => Format::Hex,
        };
        let amount = match amount {
            Some(n) => n,
            None => DEFAULT_AMOUNT,
        };
        Args { format, version, amount }
    }
}

/// What `str::to_lowercase` makes of a string.
pub uninterp spec fn lower_of(s: Seq<char>) -> Seq<char>;

/// Relies on `str::to_lowercase`: the lowercase form depends on the
/// characters of `s` alone.
#[verifier::external_body]
fn lowercase(s: &str) -> (r: String)
    ensures
        r@ == lower_of(s@),
{
    s.to_lowercase()
}

/// The version that an already lowercased name selects, if any.
pub open spec fn version_named(t: Seq<char>) -> Option<Version> {
    if t == "v1"@ || t == "1"@ {
        Some(Version::V1)
    } else if t == "v4"@ || t == "4"@ {
        Some(Version::V4)
    } else if t == "v7"@ || t == "7"@ {
        Some(Version::V7)
    } else {
        None
    }
}

/// The encoding that an already lowercased name selects, if any.
pub open spec fn format_named(t: Seq<char>) -> Option<Format> {
    if t == "normal"@ {
        Some(Format::Normal)
    } else if t == "hex"@ {
        Some(Format::Hex)
    } else if t == "urn"@ {
        Some(Format::Urn)
    } else if t == "int"@ {
        Some(Format::Integer)
    } else {
        None
    }
}

fn equals(t: &String, lit: &str) -> (r: bool)
    ensures
        r == (t@ == lit@),
{
    let l = String::from_str(lit);
    *t == l
}

/// Selects a version by an already lowercased name: `v1` or `1`, `v4` or
/// `4`, `v7` or `7`.
pub fn version_from_lowered(t: &String) -> (r: Result<Version, &'static str>)
    ensures
        r matches Ok(v) ==> version_named(t@) == Some(v),
        r matches Err(e) ==> version_named(t@) is None && e@ == "invalid version"@,
{
    if equals(t, "v1") || equals(t, "1") {
        Ok(Version::V1)
    } else if equals(t, "v4") || equals(t, "4") {
        Ok(Version::V4)
    } else if equals(t, "v7") || equals(t, "7") {
        Ok(Version::V7)
    } else {
        Err("invalid version")
    }
}

/// Selects an encoding by an already lowercased name: `normal`, `hex`, `urn`
/// or `int`.
pub fn format_from_lowered(t: &String) -> (r: Result<Format, &'static str>)
    ensures
        r matches Ok(f) ==> format_named(t@) == Some(f),
        r matches Err(e) ==> format_named(t@) is None && e@ == "invalid format"@,
{
    if equals(t, "normal") {
        Ok(Format::Normal)
    } else if equals(t, "hex") {
        Ok(Format::Hex)
    } else if equals(t, "urn") {
        Ok(Format::Urn)
    } else if equals(t, "int") {
        Ok(Format::Integer)
    } else {
        Err("invalid format")
    }
}

/// Parses a version name, ignoring case.
pub fn parse_version(s: &str) -> (r: Result<Version, &'static str>)
    ensures
        r matches Ok(v) ==> version_named(lower_of(s@)) == Some(v),
        r matches Err(e) ==> version_named(lower_of(s@)) is None && e@ == "invalid version"@,
{
    let t = lowercase(s);
    version_from_lowered(&t)
}

/// Parses an encoding name, ignoring case.
pub fn parse_format(s: &str) -> (r: Result<Format, &'static str>)
    ensures
        r matches Ok(f) ==> format_named(lower_of(s@)) == Some(f),
        r matches Err(e) ==> format_named(lower_of(s@)) is None && e@ == "invalid format"@,
{
    let t = lowercase(s);
    format_from_lowered(&t)
}

} // verus!

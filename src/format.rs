//! The format selector: which UUID variant a run produces.
use vstd::prelude::*;
use vstd::string::StrSliceExecFns;

verus! {

/// The four UUID variants that can be requested.
#[derive(Clone, Copy, Debug, PartialEq, Eq, Structural)]
pub enum UUIDFormat {
    /// Time-based (version 1).
    V1,
    /// Name-based with MD5 (version 3).
    V3,
    /// Random (version 4).
    V4,
    /// Name-based with SHA-1 (version 5).
    V5,
}

/// Why a run produced no identifier.
#[derive(Clone, Copy, Debug, PartialEq, Eq, Structural)]
pub enum DispatchError {
    /// The format token is none of `v1`, `v3`, `v4`, `v5`.
    UnknownFormat,
    /// The time-based timestamp does not fit a 64-bit count of 100 ns ticks.
    TimestampOutOfRange,
}

/// The token that names a format on the command line.
pub open spec fn token_of(f: UUIDFormat) -> Seq<char> {
    match f {
        UUIDFormat::V1 => seq!['v', '1'],
        UUIDFormat::V3 => seq!['v', '3'],
        UUIDFormat::V4 => seq!['v', '4'],
        UUIDFormat::V5 => seq!['v', '5'],
    }
}

/// The format that a token names, if any.
pub open spec fn format_of_token(s: Seq<char>) -> Option<UUIDFormat> {
    if s == token_of(UUIDFormat::V1) {
        Some(UUIDFormat::V1)
    } else if s == token_of(UUIDFormat::V3) {
        Some(UUIDFormat::V3)
    } else if s == token_of(UUIDFormat::V4) {
        Some(UUIDFormat::V4)
    } else if s == token_of(UUIDFormat::V5) {
        Some(UUIDFormat::V5)
    } else {
        None
    }
}

impl UUIDFormat {
    /// Reads a format token; anything but `v1`, `v3`, `v4`, `v5` is refused.
    pub fn parse(s: &str) -> (r: Result<UUIDFormat, DispatchError>)
        ensures
            format_of_token(s@) matches Some(f) ==> r == Ok::<UUIDFormat, DispatchError>(f),
            format_of_token(s@) is None ==> r == Err::<UUIDFormat, DispatchError>(
                DispatchError::UnknownFormat,
            ),
    {
        if s.unicode_len() != 2 {
            assert(format_of_token(s@) is None);
            return Err(DispatchError::UnknownFormat);
        }
        let c0 = s.get_char(0);
        let c1 = s.get_char(1);
        if c0 != 'v' {
            assert(format_of_token(s@) is None);
            return Err(DispatchError::UnknownFormat);
        }
        assert(s@ == seq!['v', c1]);
        if c1 == '1' {
            Ok(UUIDFormat::V1)
        } else if c1 == '3' {
            Ok(UUIDFormat::V3)
        } else if c1 == '4' {
            Ok(UUIDFormat::V4)
        } else if c1 == '5' {
            Ok(UUIDFormat::V5)
        } else {
            assert(format_of_token(s@) is None);
            Err(DispatchError::UnknownFormat)
        }
    }

    /// The token of this format, as `parse` reads it.
    pub fn token(&self) -> (r: String)
        ensures
            r@ == token_of(*self),
            format_of_token(r@) == Some(*self),
    {
        let r = match self {
            UUIDFormat::V1 => "v1".to_string(),
            UUIDFormat::V3 => "v3".to_string(),
            UUIDFormat::V4 => "v4".to_string(),
            UUIDFormat::V5 => "v5".to_string(),
        };
        proof {
            reveal_strlit("v1");
            reveal_strlit("v3");
            reveal_strlit("v4");
            reveal_strlit("v5");
        }
        r
    }
}

impl std::str::FromStr for UUIDFormat {
    type Err = DispatchError;

    fn from_str(s: &str) -> Result<UUIDFormat, DispatchError> {
        UUIDFormat::parse(s)
    }
}

} // verus!

use vstd::prelude::*;
use vstd::string::StringSliceAdditionalSpecFns;

verus! {

/// The field delimiter used when none is given.
pub const DEFAULT_DELIMITER: u8 = 0x2c;

/// The byte that the escape `\t` stands for.
pub const TAB: u8 = 0x09;

/// The delimiter specifier was empty, so it names no byte.
#[derive(Debug, Clone, Copy, PartialEq, Eq, Structural)]
pub struct DelimiterInvalidError;

/// The delimiter that the UTF-8 bytes `b` of a specifier name: the two bytes
/// `\` `t` name the tab byte, any other non-empty specifier names its first
/// byte, and an empty one names none.
pub open spec fn delimiter_of(b: Seq<u8>) -> Option<u8> {
    if b.len() == 0 {
        None
    } else if b == seq![0x5cu8, 0x74u8] {
        Some(TAB)
    } else {
        Some(b[0])
    }
}

/// Resolves a delimiter specifier to the byte it names.
pub fn parse_delimiter(spec: &str) -> (r: Result<u8, DelimiterInvalidError>)
    ensures
        match delimiter_of(spec.spec_bytes()) {
            Some(d) => r == Ok::<u8, DelimiterInvalidError>(d),
            None => r is Err,
        },
{
    let b = spec.as_bytes();
    if b.len() == 0 {
        Err(DelimiterInvalidError)
    } else if b.len() == 2 && b[0] == 0x5cu8 && b[1] == 0x74u8 {
        assert(b@ =~= seq![0x5cu8, 0x74u8]);
        Ok(TAB)
    } else {
        if b.len() == 2 {
            assert(b@ != seq![0x5cu8, 0x74u8]) by {
                if b@ == seq![0x5cu8, 0x74u8] {
                    assert(b@[0] == 0x5cu8 && b@[1] == 0x74u8);
                }
            }
        }
        Ok(b[0])
    }
}

/// Resolves an optional delimiter specifier: none gives the comma.
pub fn resolve_delimiter(spec: Option<&str>) -> (r: Result<u8, DelimiterInvalidError>)
    ensures
        match spec {
            None => r == Ok::<u8, DelimiterInvalidError>(DEFAULT_DELIMITER),
            Some(s) => match delimiter_of(s.spec_bytes()) {
                Some(d) => r == Ok::<u8, DelimiterInvalidError>(d),
                None => r is Err,
            },
        },
{
    match spec {
        None => Ok(DEFAULT_DELIMITER),
        Some(s) => parse_delimiter(s),
    }
}

} // verus!

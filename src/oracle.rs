use vstd::prelude::*;
use crate::text::{decimal, decimal_string};
use vstd::string::StringExecFns;

verus! {

/// The expected value that marks a key as one that must be absent from the
/// index. It can never stand for a stored value.
pub const SENTINEL: u64 = 0xffff_ffff_ffff_ffff;

/// Whether a lookup that returned `actual` agrees with the workload's
/// `expected` value: a sentinel asks for no value, any other value for
/// exactly itself.
pub open spec fn passes(expected: u64, actual: Option<u64>) -> bool {
    if expected == SENTINEL {
        actual is None
    } else {
        actual == Some(expected)
    }
}

/// How an expected value reads in a diagnostic.
pub open spec fn expected_text(expected: u64) -> Seq<char> {
    if expected == SENTINEL {
        "missing"@
    } else {
        decimal(expected as nat)
    }
}

/// How a lookup result reads in a diagnostic.
pub open spec fn actual_text(actual: Option<u64>) -> Seq<char> {
    match actual {
        Some(v) => decimal(v as nat),
        None => "missing"@,
    }
}

/// The diagnostic for a lookup of `key` that disagreed with the workload.
pub open spec fn mismatch_text(key: Seq<char>, expected: u64, actual: Option<u64>) -> Seq<char> {
    "Value of key "@ + key + " mismatch, expect "@ + expected_text(expected) + ", got "@
        + actual_text(actual)
}

/// A lookup whose result disagreed with the workload. Such a divergence is a
/// defect of the index, and the run must stop on it.
#[derive(Debug, Clone, PartialEq, Eq)]
pub struct Mismatch {
    pub key: String,
    pub expected: u64,
    pub actual: Option<u64>,
}

impl Mismatch {
    /// The diagnostic that names the key, the value expected and the value
    /// found.
    pub fn message(&self) -> (r: String)
        ensures
            r@ == mismatch_text(self.key@, self.expected, self.actual),
    {
        let mut s = String::from_str("Value of key ");
        s.append(self.key.as_str());
        s.append(" mismatch, expect ");
        if self.expected == SENTINEL {
            s.append("missing");
        } else {
            let e = decimal_string(self.expected);
            s.append(e.as_str());
        }
        s.append(", got ");
        match self.actual {
            Some(v) => {
                let a = decimal_string(v);
                s.append(a.as_str());
            },
            None => {
                s.append("missing");
            },
        }
        s
    }
}

/// Judges one lookup: `true` exactly when `actual` agrees with `expected`.
pub fn check(expected: u64, actual: Option<u64>) -> (r: bool)
    ensures
        r == passes(expected, actual),
{
    if expected == SENTINEL {
        actual.is_none()
    } else {
        match actual {
            Some(v) => v == expected,
            None => false,
        }
    }
}

/// Judges the lookup of `key`, and on a disagreement returns the mismatch
/// that the run must stop on.
pub fn judge(key: &str, expected: u64, actual: Option<u64>) -> (r: Result<(), Mismatch>)
    ensures
        r is Ok <==> passes(expected, actual),
        r matches Err(m) ==> m.key@ == key@ && m.expected == expected && m.actual == actual,
{
    if check(expected, actual) {
        Ok(())
    } else {
        Err(Mismatch { key: key.to_owned(), expected, actual })
    }
}

} // verus!

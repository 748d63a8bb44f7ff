//! Conversion of host strings into the native string representations.
//!
//! The native interface takes null-terminated UTF-8 byte buffers and
//! null-terminated UTF-16 code-unit buffers.  A host string containing an
//! interior null unit cannot be represented; that failure is detected here,
//! before any native call is made, and reported as a conversion error.

use vstd::prelude::*;
use vstd::string::StringSliceAdditionalSpecFns;

use crate::error::Error;

verus! {

/// True when the units contain no interior null, so a null-terminated
/// buffer can represent them.
pub open spec fn nul_free_bytes(units: Seq<u8>) -> bool {
    forall|k: int| 0 <= k < units.len() ==> units[k] != 0
}

/// True when the units contain no interior null, so a null-terminated
/// buffer can represent them.
pub open spec fn nul_free_units(units: Seq<u16>) -> bool {
    forall|k: int| 0 <= k < units.len() ==> units[k] != 0
}

/// Converts text to the native null-terminated UTF-8 representation: the
/// text's bytes followed by one terminating null.  Fails, without any native
/// call, exactly when the text holds an interior null byte.
pub fn to_nul_terminated(text: &str) -> (r: Result<Vec<u8>, Error>)
    ensures
        r is Ok <==> nul_free_bytes(text.spec_bytes()),
        r matches Ok(v) ==> v@ == text.spec_bytes().push(0u8),
        r matches Err(e) ==> e.is_conversion(),
{
    let bytes = text.as_bytes();
    let mut out: Vec<u8> = Vec::new();
    let mut k: usize = 0;
    while k < bytes.len()
        invariant
            k <= bytes@.len(),
            bytes@ == text.spec_bytes(),
            out@ == bytes@.take(k as int),
            forall|x: int| 0 <= x < k ==> bytes@[x] != 0,
        decreases bytes@.len() - k,
    {
        let b = bytes[k];
        if b == 0 {
            return Err(
                Error::Conversion(String::from_str("text holds an interior null byte")),
            );
        }
        out.push(b);
        proof {
            assert(out@ =~= bytes@.take(k as int + 1));
        }
        k = k + 1;
    }
    proof {
        assert(bytes@.take(bytes@.len() as int) =~= bytes@);
    }
    out.push(0);
    Ok(out)
}

/// Converts wide text to the native null-terminated UTF-16 representation:
/// the code units followed by one terminating null.  Fails, without any
/// native call, exactly when the text holds an interior null unit.
pub fn to_nul_terminated_w(units: &Vec<u16>) -> (r: Result<Vec<u16>, Error>)
    ensures
        r is Ok <==> nul_free_units(units@),
        r matches Ok(v) ==> v@ == units@.push(0u16),
        r matches Err(e) ==> e.is_conversion(),
{
    let mut out: Vec<u16> = Vec::new();
    let mut k: usize = 0;
    while k < units.len()
        invariant
            k <= units@.len(),
            out@ == units@.take(k as int),
            forall|x: int| 0 <= x < k ==> units@[x] != 0,
        decreases units@.len() - k,
    {
        let u = units[k];
        if u == 0 {
            return Err(
                Error::Conversion(String::from_str("text holds an interior null unit")),
            );
        }
        out.push(u);
        proof {
            assert(out@ =~= units@.take(k as int + 1));
        }
        k = k + 1;
    }
    proof {
        assert(units@.take(units@.len() as int) =~= units@);
    }
    out.push(0);
    Ok(out)
}

} // verus!

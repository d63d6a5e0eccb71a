//! Nul-terminated UTF-16 strings for the Windows account API, made by the
//! `widestring` crate.
use vstd::prelude::*;

use crate::error::AmectError;
use crate::text::{find_from, lemma_utf16_encode_no_zero, lemma_utf16_encode_push, utf16_encode, utf16_units};

verus! {

/// `s` holds no nul character except, possibly, as its last character.
pub open spec fn nul_only_last(s: Seq<char>) -> bool {
    forall|i: int| 0 <= i < s.len() - 1 ==> s[i] != '\0'
}

/// The code units of `s` as a C wide string: its UTF-16 encoding, ended by
/// one nul unit (which `s` may already supply as its last character).
pub open spec fn c_wide_units(s: Seq<char>) -> Seq<u16> {
    if s.len() > 0 && s.last() == '\0' {
        utf16_encode(s)
    } else {
        utf16_encode(s).push(0u16)
    }
}

/// Position, in code units, of the first nul value of `s`'s encoding.
pub open spec fn first_nul_unit(s: Seq<char>) -> nat {
    utf16_encode(s.take(find_from(s, '\0', 0))).len()
}

/// Calls `widestring::U16CString::from_str` and hands back the string's
/// units with their terminator (`into_vec_with_nul`) or the error's
/// `nul_position`. Per the crate's source, `from_str` encodes `s` as UTF-16
/// and accepts it unless a nul unit stands anywhere but last; a nul last
/// unit serves as the terminator, otherwise one is appended.
#[verifier::external_body]
fn u16_c_string(s: &str) -> (r: Result<Vec<u16>, usize>)
    ensures
        r is Ok <==> nul_only_last(s@),
        r matches Ok(v) ==> v@ == c_wide_units(s@),
        r matches Err(p) ==> p == first_nul_unit(s@),
{
    match widestring::U16CString::from_str(s) {
        Ok(w) => Ok(w.into_vec_with_nul()),
        Err(e) => Err(e.nul_position()),
    }
}

/// `s` as a nul-terminated UTF-16 string, or the error for an interior nul.
pub fn to_wide(s: &str) -> (r: Result<Vec<u16>, AmectError>)
    ensures
        r is Ok <==> nul_only_last(s@),
        r matches Ok(v) ==> v@ == c_wide_units(s@),
        r matches Err(e) ==> e == AmectError::ContainsNul(first_nul_unit(s@) as usize),
{
    match u16_c_string(s) {
        Ok(v) => Ok(v),
        Err(p) => Err(AmectError::ContainsNul(p)),
    }
}

/// A string `to_wide` accepts becomes a proper C string: its only nul unit
/// is the last one.
pub proof fn lemma_c_wide_units_terminated(s: Seq<char>)
    requires
        nul_only_last(s),
    ensures
        c_wide_units(s).len() >= 1,
        c_wide_units(s).last() == 0,
        forall|k: int| 0 <= k < c_wide_units(s).len() - 1 ==> c_wide_units(s)[k] != 0,
{
    if s.len() > 0 && s.last() == '\0' {
        let t = s.drop_last();
        assert(t.push('\0') =~= s);
        lemma_utf16_encode_push(t, '\0');
        lemma_utf16_encode_no_zero(t);
        assert(utf16_units('\0') =~= seq![0u16]);
        assert(utf16_encode(s) =~= utf16_encode(t).push(0u16));
    } else {
        lemma_utf16_encode_no_zero(s);
    }
}

} // verus!

//! The result convention: how the outcome of a handler becomes the single
//! signed integer that user mode receives.
//!
//! A success payload is returned as it is; a failure is returned as the
//! negated code of its kind. Payloads are non-negative and the codes of the
//! named kinds are positive, so the two ranges never meet.

use vstd::prelude::*;
use crate::error::SysError;

verus! {

/// The outcome of a handler: a success payload or a failure kind.
pub type SysResult = Result<isize, SysError>;

/// An outcome that keeps to the convention: a payload is non-negative, and a
/// failure is one of the named kinds.
pub open spec fn well_formed(r: SysResult) -> bool {
    match r {
        Ok(value) => value >= 0,
        Err(kind) => kind.is_named(),
    }
}

/// The integer that stands for an outcome.
pub open spec fn spec_collapse(r: SysResult) -> int {
    match r {
        Ok(value) => value as int,
        Err(kind) => -kind.spec_code(),
    }
}

/// The outcome that an integer stands for, where it stands for one: a
/// non-negative integer is a payload, an integer from -39 to -1 is the kind
/// with that code negated.
pub open spec fn spec_expand(raw: int) -> Option<SysResult> {
    if 0 <= raw <= isize::MAX {
        Some(Ok(raw as isize))
    } else if -39 <= raw < 0 {
        match SysError::spec_from_code(-raw) {
            Some(kind) => Some(Err(kind)),
            None => None,
        }
    } else {
        None
    }
}

/// Collapses an outcome into the return convention: the payload unchanged,
/// or the negated code of the failure kind.
pub fn collapse(r: SysResult) -> (raw: isize)
    ensures
        raw == spec_collapse(r),
{
    match r {
        Ok(value) => value,
        Err(kind) => -kind.code(),
    }
}

/// Reads a returned integer back into an outcome. This is the inverse of
/// `collapse` on well-formed outcomes; an integer below -39 stands for
/// nothing.
pub fn expand(raw: isize) -> (r: Option<SysResult>)
    ensures
        r == spec_expand(raw as int),
{
    if raw >= 0 {
        Some(Ok(raw))
    } else if raw >= -39 {
        match SysError::from_code(-raw) {
            Some(kind) => Some(Err(kind)),
            None => None,
        }
    } else {
        None
    }
}

/// Success and failure occupy disjoint ranges: a well-formed success
/// collapses to itself, which is non-negative, and a well-formed failure to
/// a strictly negative integer, no lower than -39.
pub proof fn lemma_collapse_ranges(r: SysResult)
    requires
        well_formed(r),
    ensures
        r matches Ok(value) ==> spec_collapse(r) == value && spec_collapse(r) >= 0,
        r matches Err(kind) ==> spec_collapse(r) == -kind.spec_code()
            && -39 <= spec_collapse(r) < 0,
{
}

/// No two well-formed outcomes collapse to the same integer.
pub proof fn lemma_collapse_injective(a: SysResult, b: SysResult)
    requires
        well_formed(a),
        well_formed(b),
        spec_collapse(a) == spec_collapse(b),
    ensures
        a == b,
{
}

/// Expanding what a well-formed outcome collapsed to gives the outcome back.
pub proof fn lemma_expand_collapse(r: SysResult)
    requires
        well_formed(r),
    ensures
        spec_expand(spec_collapse(r)) == Some(r),
{
    if let Err(kind) = r {
        crate::error::lemma_from_code_inverts_code(kind, kind.spec_code());
    }
}

/// Every integer from -39 up to the largest payload is the collapse of
/// exactly the well-formed outcome that it expands to; no other integer is
/// the collapse of a well-formed outcome.
pub proof fn lemma_collapse_expand(raw: int)
    ensures
        spec_expand(raw) is Some <==> -39 <= raw <= isize::MAX,
        spec_expand(raw) matches Some(r) ==> well_formed(r) && spec_collapse(r) == raw,
        spec_expand(raw) is None ==> forall|r: SysResult|
            well_formed(r) ==> spec_collapse(r) != raw,
{
    crate::error::lemma_code_range();
}

} // verus!

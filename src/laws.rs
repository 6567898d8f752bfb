//! Facts about the exit codes that relate several of the library's functions.
use vstd::prelude::*;
use crate::{try_code, Code, Error};

verus! {

/// Converting a code to its integer and back gives the same code.
pub proof fn lemma_round_trip(c: Code)
    ensures
        try_code(c.value()) == Ok::<Code, Error>(c),
{
}

/// An integer that is the status of no code is rejected, and the error
/// carries that integer exactly.
pub proof fn lemma_rejects_undefined(v: i32)
    requires
        forall|c: Code| c.value() != v,
    ensures
        try_code(v) == Err::<Code, Error>(Error::UnknownExitCode(v)),
{
    assert(Code::OK.value() != v);
    assert(Code::NotOK.value() != v);
    assert(Code::UsageError.value() != v);
    assert(Code::UnknownSubcommand.value() != v);
    assert(Code::RequirementNotMet.value() != v);
    assert(Code::Forbidden.value() != v);
    assert(Code::MovedPermanently.value() != v);
    assert(Code::InternalError.value() != v);
    assert(Code::Unavailable.value() != v);
}

/// A conversion that succeeds gives the code whose status is the integer
/// converted; one that fails carries that integer.
pub proof fn lemma_conversion_exact(v: i32)
    ensures
        try_code(v) is Ok ==> try_code(v)->Ok_0.value() == v,
        try_code(v) is Err ==> try_code(v) == Err::<Code, Error>(Error::UnknownExitCode(v)),
{
}

/// No two codes share a status.
pub proof fn lemma_values_distinct(a: Code, b: Code)
    ensures
        a.value() == b.value() ==> a == b,
{
    lemma_round_trip(a);
    lemma_round_trip(b);
}

/// Each code is either success or generic failure (0 or 1), a user error, or
/// a software error, and exactly one of these; none lies in the signal range.
pub proof fn lemma_ranges_partition(c: Code)
    ensures
        (c.value() == 0 || c.value() == 1) != (c.in_user_range() || c.in_software_range()),
        !(c.in_user_range() && c.in_software_range()),
        !c.in_signal_range(),
{
}

} // verus!

//! Sign-dispatched addition: the tool's one piece of business logic.
//!
//! `try_add` simulates a dispatch table that only handles operand pairs whose
//! signs agree, and treats a zero first operand as having no matching handler.
//! The rule is demonstrative, not numerically meaningful. Sums that leave the
//! `i32` range wrap around, two's-complement style; the contracts say so
//! explicitly.

use vstd::prelude::*;

verus! {

/// Why `try_add` refused a pair of operands.
#[derive(Clone, Copy, Debug, PartialEq, Eq, Structural)]
pub enum AddError {
    /// The signs of the operands do not match the pattern the selected path
    /// supports.
    UnsupportedSignCombination,
    /// No path handles a zero first operand.
    NoSupportedPath,
}

/// The sum of `a` and `b` with wraparound at the `i32` boundaries.
pub open spec fn wrapped_sum(a: i32, b: i32) -> i32 {
    vstd::wrapping::i32_specs::wrapping_add(a, b)
}

/// What `try_add` returns for each pair of operands: the wrapped sum when the
/// signs agree with the dispatched path, and the matching error otherwise.
pub open spec fn add_result(a: i32, b: i32) -> Result<i32, AddError> {
    if a < 0 {
        if b > 0 {
            Err(AddError::UnsupportedSignCombination)
        } else {
            Ok(wrapped_sum(a, b))
        }
    } else if a > 0 {
        if b < 0 {
            Err(AddError::UnsupportedSignCombination)
        } else {
            Ok(wrapped_sum(a, b))
        }
    } else {
        Err(AddError::NoSupportedPath)
    }
}

/// The path for a positive first operand: it requires a non-negative second
/// operand and returns the wrapped sum.
pub fn try_add_positive(a: &i32, b: &i32) -> (r: Result<i32, AddError>)
    requires
        *a > 0,
    ensures
        r == add_result(*a, *b),
{
    if *b < 0 {
        Err(AddError::UnsupportedSignCombination)
    } else {
        Ok((*a).wrapping_add(*b))
    }
}

/// The path for a negative first operand: it requires a non-positive second
/// operand and returns the wrapped sum.
pub fn try_add_negative(a: &i32, b: &i32) -> (r: Result<i32, AddError>)
    requires
        *a < 0,
    ensures
        r == add_result(*a, *b),
{
    if *b > 0 {
        Err(AddError::UnsupportedSignCombination)
    } else {
        Ok((*a).wrapping_add(*b))
    }
}

/// Adds two integers through the sign-dispatched paths: a negative first
/// operand goes to the negative path, a positive one to the positive path,
/// and zero has no path at all.
pub fn try_add(a: &i32, b: &i32) -> (r: Result<i32, AddError>)
    ensures
        r == add_result(*a, *b),
{
    if *a < 0 {
        try_add_negative(a, b)
    } else if *a > 0 {
        try_add_positive(a, b)
    } else {
        Err(AddError::NoSupportedPath)
    }
}

/// For a positive first operand and a non-negative second one whose exact sum
/// stays in the `i32` range, `try_add` returns that sum.
pub proof fn lemma_add_positive_exact(a: i32, b: i32)
    requires
        a > 0,
        b >= 0,
        a + b <= i32::MAX,
    ensures
        add_result(a, b) == Ok::<i32, AddError>((a + b) as i32),
{
}

/// For a positive first operand and a negative second one, `try_add` fails
/// with `UnsupportedSignCombination`.
pub proof fn lemma_add_positive_rejects_negative(a: i32, b: i32)
    requires
        a > 0,
        b < 0,
    ensures
        add_result(a, b) == Err::<i32, AddError>(AddError::UnsupportedSignCombination),
{
}

/// For a negative first operand and a non-positive second one whose exact sum
/// stays in the `i32` range, `try_add` returns that sum.
pub proof fn lemma_add_negative_exact(a: i32, b: i32)
    requires
        a < 0,
        b <= 0,
        a + b >= i32::MIN,
    ensures
        add_result(a, b) == Ok::<i32, AddError>((a + b) as i32),
{
}

/// For a negative first operand and a positive second one, `try_add` fails
/// with `UnsupportedSignCombination`.
pub proof fn lemma_add_negative_rejects_positive(a: i32, b: i32)
    requires
        a < 0,
        b > 0,
    ensures
        add_result(a, b) == Err::<i32, AddError>(AddError::UnsupportedSignCombination),
{
}

/// For a zero first operand, `try_add` fails with `NoSupportedPath`, whatever
/// the second operand is.
pub proof fn lemma_add_zero_has_no_path(a: i32, b: i32)
    requires
        a == 0,
    ensures
        add_result(a, b) == Err::<i32, AddError>(AddError::NoSupportedPath),
{
}

} // verus!

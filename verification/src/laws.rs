//! Properties of request resolution that hold for every input, proved
//! once and for all rather than sampled by tests.

use vstd::prelude::*;

verus! {

use crate::kind::{kind_of_tag, QuantityKind};
use crate::operation::{formula_for, spec_resolution, OhmError, Operation, OperationResult};

/// The formula table is strictly order-sensitive: for every supported
/// ordered triple, the triple with the two known kinds swapped is
/// unsupported, even where the underlying physics is commutative.
pub proof fn lemma_reverse_order_unsupported(
    requested: QuantityKind,
    first: QuantityKind,
    second: QuantityKind,
)
    requires
        formula_for(requested, first, second) is Some,
    ensures
        formula_for(requested, second, first) is None,
{
}

/// Textually identical known tags are always rejected as
/// `DuplicateKnownKind`, whatever the requested kind, the values, and
/// whether the tags are valid at all.
pub proof fn lemma_duplicate_known_rejected<T>(op: Operation<T>)
    requires
        op.unknown_1@ == op.unknown_2@,
    ensures
        spec_resolution(op) == Err::<OperationResult<T>, OhmError>(OhmError::DuplicateKnownKind),
{
}

/// A tag outside the valid set fails validation with the error of its
/// position: `InvalidKindTag` for either known tag (the first known tag
/// checked before the second), `InvalidOperationType` for the
/// requested-kind tag.
pub proof fn lemma_invalid_tag_rejected<T>(op: Operation<T>)
    requires
        op.unknown_1@ != op.unknown_2@,
    ensures
        kind_of_tag(op.unknown_1@) is None ==> spec_resolution(op) == Err::<
            OperationResult<T>,
            OhmError,
        >(OhmError::InvalidKindTag),
        kind_of_tag(op.unknown_2@) is None ==> spec_resolution(op) == Err::<
            OperationResult<T>,
            OhmError,
        >(OhmError::InvalidKindTag),
        (kind_of_tag(op.unknown_1@) is Some && kind_of_tag(op.unknown_2@) is Some && kind_of_tag(
            op.operation_type@,
        ) is None) ==> spec_resolution(op) == Err::<OperationResult<T>, OhmError>(
            OhmError::InvalidOperationType,
        ),
{
}

/// Resolution is a pure function of the request: two requests with equal
/// tags and equal values resolve identically, so repeating a call changes
/// nothing.
pub proof fn lemma_resolution_idempotent<T>(a: Operation<T>, b: Operation<T>)
    requires
        a.operation_type@ == b.operation_type@,
        a.unknown_1@ == b.unknown_1@,
        a.unknown_2@ == b.unknown_2@,
        a.value_unknown_1 == b.value_unknown_1,
        a.value_unknown_2 == b.value_unknown_2,
    ensures
        spec_resolution(a) == spec_resolution(b),
{
}

/// Every supported triple echoes the requested kind: a successful
/// resolution carries the requested kind and the two known values
/// unchanged, in the caller's order.
pub proof fn lemma_success_echoes_request<T>(op: Operation<T>, r: OperationResult<T>)
    requires
        spec_resolution(op) == Ok::<OperationResult<T>, OhmError>(r),
    ensures
        r.constant == kind_of_tag(op.operation_type@)->Some_0,
        r.value_1 == op.value_unknown_1,
        r.value_2 == op.value_unknown_2,
{
}

} // verus!

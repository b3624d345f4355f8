//! Validation of a resolution request and selection of the formula that
//! derives the requested quantity from the two known ones.
//!
//! An [`Operation`] carries the three kind tags as text and the two known
//! values. Resolution first validates the tags (the duplicate check is
//! case-sensitive on the raw text; the individual tag checks are
//! case-insensitive), then looks the ordered triple of kinds up in the
//! fixed twelve-entry formula table. The numeric evaluation of the
//! selected [`Formula`] is the caller's, so the known values pass through
//! unread as an arbitrary value type.

use vstd::prelude::*;

verus! {

use crate::kind::{kind_of_tag, parse_kind, QuantityKind};
use crate::text::str_eq;

/// Why a request was rejected.
#[derive(Clone, Copy, Debug, PartialEq, Eq, Structural)]
pub enum OhmError {
    /// The requested-kind tag is not one of the four valid tags.
    InvalidOperationType,
    /// A known-kind tag (first or second) is not one of the four valid tags.
    InvalidKindTag,
    /// The two known-kind tags are textually identical.
    DuplicateKnownKind,
    /// All tags are valid, but no formula exists for the ordered triple.
    UnsupportedCombination,
}

impl OhmError {
    /// The human-readable message of this error, for the layer that
    /// renders failures to the caller.
    pub fn message(&self) -> (m: &'static str)
        ensures
            self is InvalidOperationType ==> m@
                == "Invalid operation type. Types of operation accepted: P, V, I, R"@,
            self is InvalidKindTag ==> m@
                == "Invalid unknown type. Types of unknown accepted: P, V, I, R"@,
            self is DuplicateKnownKind ==> m@ == "Types of unknowns are equal"@,
            self is UnsupportedCombination ==> m@ == "Invalid operation."@,
    {
        match self {
            OhmError::InvalidOperationType => "Invalid operation type. Types of operation accepted: P, V, I, R",
            OhmError::InvalidKindTag => "Invalid unknown type. Types of unknown accepted: P, V, I, R",
            OhmError::DuplicateKnownKind => "Types of unknowns are equal",
            OhmError::UnsupportedCombination => "Invalid operation.",
        }
    }
}

/// The arithmetic shape of a table entry, over the first known value `a`
/// and the second known value `b`, in the caller's order.
#[derive(Clone, Copy, Debug, PartialEq, Eq, Structural)]
pub enum Formula {
    /// `a * b`
    Product,
    /// `a * a / b`
    SquareOverSecond,
    /// `a * b * b`
    ProductWithSquare,
    /// `a / b`
    Quotient,
    /// `sqrt(a / b)`
    SqrtOfQuotient,
    /// `a / (b * b)`
    QuotientBySquare,
}

/// The two known quantities of a validated request, each a kind paired
/// with its value, in the caller's order.
pub struct Unknowns<T> {
    pub unknown_1: (QuantityKind, T),
    pub unknown_2: (QuantityKind, T),
}

/// A resolved request: the kind that was asked for, the formula that
/// computes it, and the two known values the formula is to be evaluated
/// over, in the caller's order.
pub struct OperationResult<T> {
    pub formula: Formula,
    pub value_1: T,
    pub value_2: T,
    pub constant: QuantityKind,
}

/// A resolution request as the caller hands it over: the requested-kind
/// tag, the two known-kind tags, and the two known values.
pub struct Operation<T> {
    pub operation_type: String,
    pub unknown_1: String,
    pub unknown_2: String,
    pub value_unknown_1: T,
    pub value_unknown_2: T,
}

/// The fixed formula table, keyed by the ordered triple
/// (requested kind, first known kind, second known kind).
pub open spec fn formula_for(
    requested: QuantityKind,
    first: QuantityKind,
    second: QuantityKind,
) -> Option<Formula> {
    match (requested, first, second) {
        (QuantityKind::Power, QuantityKind::Voltage, QuantityKind::Current) => Some(
            Formula::Product,
        ),
        (QuantityKind::Power, QuantityKind::Voltage, QuantityKind::Resistance) => Some(
            Formula::SquareOverSecond,
        ),
        (QuantityKind::Power, QuantityKind::Resistance, QuantityKind::Current) => Some(
            Formula::ProductWithSquare,
        ),
        (QuantityKind::Current, QuantityKind::Voltage, QuantityKind::Resistance) => Some(
            Formula::Quotient,
        ),
        (QuantityKind::Current, QuantityKind::Power, QuantityKind::Voltage) => Some(
            Formula::Quotient,
        ),
        (QuantityKind::Current, QuantityKind::Power, QuantityKind::Resistance) => Some(
            Formula::SqrtOfQuotient,
        ),
        (QuantityKind::Voltage, QuantityKind::Power, QuantityKind::Current) => Some(
            Formula::Quotient,
        ),
        (QuantityKind::Voltage, QuantityKind::Power, QuantityKind::Resistance) => Some(
            Formula::SqrtOfQuotient,
        ),
        (QuantityKind::Voltage, QuantityKind::Resistance, QuantityKind::Current) => Some(
            Formula::Product,
        ),
        (QuantityKind::Resistance, QuantityKind::Voltage, QuantityKind::Current) => Some(
            Formula::Quotient,
        ),
        (QuantityKind::Resistance, QuantityKind::Voltage, QuantityKind::Power) => Some(
            Formula::SquareOverSecond,
        ),
        (QuantityKind::Resistance, QuantityKind::Power, QuantityKind::Current) => Some(
            Formula::QuotientBySquare,
        ),
        _ => None,
    }
}

/// What parsing the requested-kind tag yields: the kind it names, or
/// `InvalidOperationType`.
pub open spec fn spec_check_operation(operation_type: Seq<char>) -> Result<
    QuantityKind,
    OhmError,
> {
    match kind_of_tag(operation_type) {
        Some(k) => Ok(k),
        None => Err(OhmError::InvalidOperationType),
    }
}

/// What validating the two known tags yields: the duplicate check on the
/// raw text first, then each tag in turn, then the parsed pairs.
pub open spec fn spec_check_unknowns<T>(
    unknown_1: Seq<char>,
    unknown_2: Seq<char>,
    value_unknown_1: T,
    value_unknown_2: T,
) -> Result<Unknowns<T>, OhmError> {
    if unknown_1 == unknown_2 {
        Err(OhmError::DuplicateKnownKind)
    } else {
        match (kind_of_tag(unknown_1), kind_of_tag(unknown_2)) {
            (None, _) => Err(OhmError::InvalidKindTag),
            (Some(_), None) => Err(OhmError::InvalidKindTag),
            (Some(k1), Some(k2)) => Ok(
                Unknowns {
                    unknown_1: (k1, value_unknown_1),
                    unknown_2: (k2, value_unknown_2),
                },
            ),
        }
    }
}

/// What resolving a validated request yields: the table entry for the
/// ordered triple, or `UnsupportedCombination` where none exists.
pub open spec fn spec_result_operation<T>(
    operation_type: QuantityKind,
    unknowns: Unknowns<T>,
) -> Result<OperationResult<T>, OhmError> {
    match formula_for(operation_type, unknowns.unknown_1.0, unknowns.unknown_2.0) {
        Some(f) => Ok(
            OperationResult {
                formula: f,
                value_1: unknowns.unknown_1.1,
                value_2: unknowns.unknown_2.1,
                constant: operation_type,
            },
        ),
        None => Err(OhmError::UnsupportedCombination),
    }
}

/// What resolving a whole request yields: known-tag validation, then the
/// requested-kind tag, then the table lookup.
pub open spec fn spec_resolution<T>(op: Operation<T>) -> Result<OperationResult<T>, OhmError> {
    match spec_check_unknowns(
        op.unknown_1@,
        op.unknown_2@,
        op.value_unknown_1,
        op.value_unknown_2,
    ) {
        Err(e) => Err(e),
        Ok(unknowns) => match spec_check_operation(op.operation_type@) {
            Err(e) => Err(e),
            Ok(requested) => spec_result_operation(requested, unknowns),
        },
    }
}

impl<T: Copy> Operation<T> {
    /// Validate the three tags and resolve the request against the
    /// formula table.
    pub fn new(self) -> (r: Result<OperationResult<T>, OhmError>)
        ensures
            r == spec_resolution(self),
    {
        let unknowns = match self.check_unknowns(
            &self.unknown_1,
            &self.unknown_2,
            self.value_unknown_1,
            self.value_unknown_2,
        ) {
            Ok(u) => u,
            Err(e) => {
                return Err(e);
            },
        };
        let operation = match self.check_operation(&self.operation_type) {
            Ok(k) => k,
            Err(e) => {
                return Err(e);
            },
        };
        self.result_operation(operation, unknowns)
    }

    /// Parse the requested-kind tag, rejecting anything but the four
    /// valid tags with `InvalidOperationType`.
    pub fn check_operation(&self, operation_type: &str) -> (r: Result<QuantityKind, OhmError>)
        ensures
            r == spec_check_operation(operation_type@),
    {
        match parse_kind(operation_type) {
            Some(k) => Ok(k),
            None => Err(OhmError::InvalidOperationType),
        }
    }

    /// Validate the two known tags: textually identical tags are
    /// `DuplicateKnownKind` whatever they hold; then each tag must name a
    /// kind, or the request is `InvalidKindTag`.
    pub fn check_unknowns(
        &self,
        unknown_1: &str,
        unknown_2: &str,
        value_unknown_1: T,
        value_unknown_2: T,
    ) -> (r: Result<Unknowns<T>, OhmError>)
        ensures
            r == spec_check_unknowns(unknown_1@, unknown_2@, value_unknown_1, value_unknown_2),
    {
        if str_eq(unknown_1, unknown_2) {
            return Err(OhmError::DuplicateKnownKind);
        }
        let k1 = match parse_kind(unknown_1) {
            Some(k) => k,
            None => {
                return Err(OhmError::InvalidKindTag);
            },
        };
        let k2 = match parse_kind(unknown_2) {
            Some(k) => k,
            None => {
                return Err(OhmError::InvalidKindTag);
            },
        };
        Ok(
            Unknowns {
                unknown_1: (k1, value_unknown_1),
                unknown_2: (k2, value_unknown_2),
            },
        )
    }

    /// Look the ordered triple of kinds up in the formula table and tag
    /// the two known values with the entry found, or reject the request
    /// as `UnsupportedCombination`.
    pub fn result_operation(
        &self,
        operation_type: QuantityKind,
        unknowns: Unknowns<T>,
    ) -> (r: Result<OperationResult<T>, OhmError>)
        ensures
            r == spec_result_operation(operation_type, unknowns),
    {
        let (unknown_1, unknown_value_1) = unknowns.unknown_1;
        let (unknown_2, unknown_value_2) = unknowns.unknown_2;
        let formula = match (operation_type, unknown_1, unknown_2) {
            (QuantityKind::Power, QuantityKind::Voltage, QuantityKind::Current) => Formula::Product,
            (
                QuantityKind::Power,
                QuantityKind::Voltage,
                QuantityKind::Resistance,
            ) => Formula::SquareOverSecond,
            (
                QuantityKind::Power,
                QuantityKind::Resistance,
                QuantityKind::Current,
            ) => Formula::ProductWithSquare,
            (
                QuantityKind::Current,
                QuantityKind::Voltage,
                QuantityKind::Resistance,
            ) => Formula::Quotient,
            (QuantityKind::Current, QuantityKind::Power, QuantityKind::Voltage) => Formula::Quotient,
            (
                QuantityKind::Current,
                QuantityKind::Power,
                QuantityKind::Resistance,
            ) => Formula::SqrtOfQuotient,
            (QuantityKind::Voltage, QuantityKind::Power, QuantityKind::Current) => Formula::Quotient,
            (
                QuantityKind::Voltage,
                QuantityKind::Power,
                QuantityKind::Resistance,
            ) => Formula::SqrtOfQuotient,
            (
                QuantityKind::Voltage,
                QuantityKind::Resistance,
                QuantityKind::Current,
            ) => Formula::Product,
            (
                QuantityKind::Resistance,
                QuantityKind::Voltage,
                QuantityKind::Current,
            ) => Formula::Quotient,
            (
                QuantityKind::Resistance,
                QuantityKind::Voltage,
                QuantityKind::Power,
            ) => Formula::SquareOverSecond,
            (
                QuantityKind::Resistance,
                QuantityKind::Power,
                QuantityKind::Current,
            ) => Formula::QuotientBySquare,
            _ => {
                return Err(OhmError::UnsupportedCombination);
            },
        };
        Ok(
            OperationResult {
                formula,
                value_1: unknown_value_1,
                value_2: unknown_value_2,
                constant: operation_type,
            },
        )
    }
}

} // verus!

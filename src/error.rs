use vstd::prelude::*;

use crate::operators::ComparisonOp;
use crate::schema::SupplierField;

verus! {

/// Why a filter triplet or a filter set was rejected.
#[derive(Debug)]
pub enum FilterError {
    /// The name matches no field.
    UnknownField { name: String },
    /// The token matches no operator.
    UnknownOperator { token: String },
    /// The operator does not apply to the field's type class.
    IncompatibleOperator { field: SupplierField, op: ComparisonOp },
    /// An operator that compares against an operand was given none.
    MissingOperand { field: SupplierField, op: ComparisonOp },
    /// Two criteria share a field and an operator.
    DuplicateCondition { field: SupplierField, op: ComparisonOp },
    /// The set holds more criteria than the cap allows.
    TooManyFilters { count: usize },
    /// An operand is longer than allowed; `prefix` holds its first characters.
    ValueTooLong { field: SupplierField, op: ComparisonOp, prefix: String },
    /// A filter set was compiled without passing validation.
    ValidationError,
}

/// A `FilterError` with its strings seen as character sequences.
pub enum FilterErrorView {
    UnknownField { name: Seq<char> },
    UnknownOperator { token: Seq<char> },
    IncompatibleOperator { field: SupplierField, op: ComparisonOp },
    MissingOperand { field: SupplierField, op: ComparisonOp },
    DuplicateCondition { field: SupplierField, op: ComparisonOp },
    TooManyFilters { count: nat },
    ValueTooLong { field: SupplierField, op: ComparisonOp, prefix: Seq<char> },
    ValidationError,
}

impl View for FilterError {
    type V = FilterErrorView;

    open spec fn view(&self) -> FilterErrorView {
        match self {
            FilterError::UnknownField { name } => FilterErrorView::UnknownField { name: name@ },
            FilterError::UnknownOperator { token } => FilterErrorView::UnknownOperator {
                token: token@,
            },
            FilterError::IncompatibleOperator { field, op } => FilterErrorView::IncompatibleOperator {
                field: *field,
                op: *op,
            },
            FilterError::MissingOperand { field, op } => FilterErrorView::MissingOperand {
                field: *field,
                op: *op,
            },
            FilterError::DuplicateCondition { field, op } => FilterErrorView::DuplicateCondition {
                field: *field,
                op: *op,
            },
            FilterError::TooManyFilters { count } => FilterErrorView::TooManyFilters {
                count: *count as nat,
            },
            FilterError::ValueTooLong { field, op, prefix } => FilterErrorView::ValueTooLong {
                field: *field,
                op: *op,
                prefix: prefix@,
            },
            FilterError::ValidationError => FilterErrorView::ValidationError,
        }
    }
}

/// The text of `"'" + s + "'"`.
pub open spec fn quoted(s: Seq<char>) -> Seq<char> {
    "'"@ + s + "'"@
}

impl FilterErrorView {
    /// The human-readable message for the error.
    pub open spec fn message(self) -> Seq<char> {
        match self {
            FilterErrorView::UnknownField { name } => "unknown field: "@ + name,
            FilterErrorView::UnknownOperator { token } => "unknown operator: "@ + token,
            FilterErrorView::IncompatibleOperator { field, op } => "field "@ + quoted(
                field.spec_name(),
            ) + " does not support operator "@ + quoted(op.spec_name()),
            FilterErrorView::MissingOperand { field, op } => "operator "@ + quoted(op.spec_name())
                + " on field "@ + quoted(field.spec_name()) + " needs a value"@,
            FilterErrorView::DuplicateCondition { field, op } => "duplicate condition: field "@
                + quoted(field.spec_name()) + " with operator "@ + quoted(op.spec_name()),
            FilterErrorView::TooManyFilters { .. } =>
                "too many filter conditions: at most 20 are supported"@,
            FilterErrorView::ValueTooLong { field, prefix, .. } => "value too long for field "@
                + quoted(field.spec_name()) + ": "@ + prefix + "..."@,
            FilterErrorView::ValidationError => "the filter set has not passed validation"@,
        }
    }
}

fn push_quoted(s: &mut String, part: &str)
    ensures
        final(s)@ == old(s)@ + quoted(part@),
{
    s.append("'");
    s.append(part);
    s.append("'");
}

impl FilterError {
    /// Renders the error as a human-readable message that names the offending
    /// field and operator, or holds the offending text.
    pub fn message(&self) -> (r: String)
        ensures
            r@ == self@.message(),
    {
        let mut s = String::new();
        match self {
            FilterError::UnknownField { name } => {
                s.append("unknown field: ");
                s.append(name.as_str());
            },
            FilterError::UnknownOperator { token } => {
                s.append("unknown operator: ");
                s.append(token.as_str());
            },
            FilterError::IncompatibleOperator { field, op } => {
                s.append("field ");
                push_quoted(&mut s, field.name());
                s.append(" does not support operator ");
                push_quoted(&mut s, op.name());
            },
            FilterError::MissingOperand { field, op } => {
                s.append("operator ");
                push_quoted(&mut s, op.name());
                s.append(" on field ");
                push_quoted(&mut s, field.name());
                s.append(" needs a value");
            },
            FilterError::DuplicateCondition { field, op } => {
                s.append("duplicate condition: field ");
                push_quoted(&mut s, field.name());
                s.append(" with operator ");
                push_quoted(&mut s, op.name());
            },
            FilterError::TooManyFilters { .. } => {
                s.append("too many filter conditions: at most 20 are supported");
            },
            FilterError::ValueTooLong { field, prefix, .. } => {
                s.append("value too long for field ");
                push_quoted(&mut s, field.name());
                s.append(": ");
                s.append(prefix.as_str());
                s.append("...");
            },
            FilterError::ValidationError => {
                s.append("the filter set has not passed validation");
            },
        }
        s
    }
}

} // verus!

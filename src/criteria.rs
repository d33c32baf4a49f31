use vstd::prelude::*;

use crate::error::{FilterError, FilterErrorView};
use crate::operators::{compatible, op_token, ComparisonOp};
use crate::schema::{field_named, SupplierField};
use crate::text::lower_of;

verus! {

/// One condition of a filter: a field, an operator and, for operators that
/// compare against something, the operand.
#[derive(Debug, Clone)]
pub struct FilterCriteria {
    pub field: SupplierField,
    pub op: ComparisonOp,
    pub value: Option<String>,
}

/// Why the triplet (`name`, `token`, operand) is rejected, if it is; `lowered`
/// is the token in lower case and `has_value` whether an operand was supplied.
pub open spec fn triplet_fault(
    name: Seq<char>,
    token: Seq<char>,
    lowered: Seq<char>,
    has_value: bool,
) -> Option<FilterErrorView> {
    match field_named(name) {
        None => Some(FilterErrorView::UnknownField { name }),
        Some(field) => match op_token(lowered) {
            None => Some(FilterErrorView::UnknownOperator { token }),
            Some(op) => if !compatible(field, op) {
                Some(FilterErrorView::IncompatibleOperator { field, op })
            } else if op.spec_requires_operand() && !has_value {
                Some(FilterErrorView::MissingOperand { field, op })
            } else {
                None
            },
        },
    }
}

impl FilterCriteria {
    /// Whether the stored operand is present exactly when the operator needs one.
    pub open spec fn operand_well_formed(&self) -> bool {
        self.value.is_some() == self.op.spec_requires_operand()
    }

    /// Builds a criterion from a field name, an operator token (any case) and
    /// an optional operand.
    ///
    /// The operand is kept verbatim when the operator needs one and dropped
    /// when it does not.
    pub fn from_str_tuple(field: &str, op: &str, value: Option<&str>) -> (r: Result<
        FilterCriteria,
        FilterError,
    >)
        ensures
            r is Ok <==> triplet_fault(field@, op@, lower_of(op@), value is Some) is None,
            r matches Err(e) ==> Some(e@) == triplet_fault(
                field@,
                op@,
                lower_of(op@),
                value is Some,
            ),
            r matches Ok(c) ==> {
                &&& field_named(field@) == Some(c.field)
                &&& op_token(lower_of(op@)) == Some(c.op)
                &&& compatible(c.field, c.op)
                &&& c.operand_well_formed()
                &&& c.value matches Some(v) ==> v@ == value.unwrap()@
            },
    {
        let field_enum = match SupplierField::from_str(field) {
            Ok(f) => f,
            Err(e) => {
                return Err(e);
            },
        };
        let op_enum = match ComparisonOp::from_str(op) {
            Ok(o) => o,
            Err(e) => {
                return Err(e);
            },
        };
        if !op_enum.applicable_to(field_enum.type_class()) {
            return Err(FilterError::IncompatibleOperator { field: field_enum, op: op_enum });
        }
        let val = if op_enum.requires_operand() {
            match value {
                Some(v) => Some(String::from_str(v)),
                None => {
                    return Err(FilterError::MissingOperand { field: field_enum, op: op_enum });
                },
            }
        } else {
            None
        };
        Ok(FilterCriteria { field: field_enum, op: op_enum, value: val })
    }
}

} // verus!

use vstd::prelude::*;

use crate::error::{FilterError, FilterErrorView};
use crate::schema::{SupplierField, TypeClass};
use crate::text::{lower_of, lowercase, same_text};

verus! {

/// The comparison operators a filter may use.
#[derive(Debug, Clone, Copy, PartialEq, Eq, Structural)]
pub enum ComparisonOp {
    Eq,
    Neq,
    Gt,
    Lt,
    Gte,
    Lte,
    Like,
    IsNull,
    IsNotNull,
}

/// The operator that a lower-case token stands for, if any.
pub open spec fn op_token(t: Seq<char>) -> Option<ComparisonOp> {
    if t == "="@ || t == "eq"@ {
        Some(ComparisonOp::Eq)
    } else if t == "!="@ || t == "<>"@ || t == "neq"@ {
        Some(ComparisonOp::Neq)
    } else if t == ">"@ || t == "gt"@ {
        Some(ComparisonOp::Gt)
    } else if t == "<"@ || t == "lt"@ {
        Some(ComparisonOp::Lt)
    } else if t == ">="@ || t == "gte"@ {
        Some(ComparisonOp::Gte)
    } else if t == "<="@ || t == "lte"@ {
        Some(ComparisonOp::Lte)
    } else if t == "like"@ {
        Some(ComparisonOp::Like)
    } else if t == "is null"@ || t == "isnull"@ {
        Some(ComparisonOp::IsNull)
    } else if t == "is not null"@ || t == "isnotnull"@ {
        Some(ComparisonOp::IsNotNull)
    } else {
        None
    }
}

/// Whether `op` may be applied to a field of type class `class`.
pub open spec fn applicable(op: ComparisonOp, class: TypeClass) -> bool {
    match op {
        ComparisonOp::Like => class == TypeClass::Text,
        ComparisonOp::Gt | ComparisonOp::Lt | ComparisonOp::Gte | ComparisonOp::Lte => class
            == TypeClass::Numeric,
        ComparisonOp::Eq | ComparisonOp::Neq | ComparisonOp::IsNull | ComparisonOp::IsNotNull => true,
    }
}

/// Whether `op` may be applied to `field`.
pub open spec fn compatible(field: SupplierField, op: ComparisonOp) -> bool {
    applicable(op, field.spec_type_class())
}

impl ComparisonOp {
    pub open spec fn spec_requires_operand(self) -> bool {
        !(self is IsNull || self is IsNotNull)
    }

    pub open spec fn spec_sql(self) -> Seq<char> {
        match self {
            ComparisonOp::Eq => "="@,
            ComparisonOp::Neq => "!="@,
            ComparisonOp::Gt => ">"@,
            ComparisonOp::Lt => "<"@,
            ComparisonOp::Gte => ">="@,
            ComparisonOp::Lte => "<="@,
            ComparisonOp::Like => "LIKE"@,
            ComparisonOp::IsNull => "IS NULL"@,
            ComparisonOp::IsNotNull => "IS NOT NULL"@,
        }
    }

    /// Whether the operator compares against an operand.
    pub fn requires_operand(&self) -> (r: bool)
        ensures
            r == self.spec_requires_operand(),
    {
        match self {
            ComparisonOp::IsNull | ComparisonOp::IsNotNull => false,
            _ => true,
        }
    }

    /// Whether the operator may be applied to a field of type class `class`.
    pub fn applicable_to(&self, class: TypeClass) -> (r: bool)
        ensures
            r == applicable(*self, class),
    {
        match self {
            ComparisonOp::Like => class == TypeClass::Text,
            ComparisonOp::Gt | ComparisonOp::Lt | ComparisonOp::Gte | ComparisonOp::Lte => class
                == TypeClass::Numeric,
            _ => true,
        }
    }

    /// How the operator is spelled in a query.
    pub fn sql(&self) -> (r: &'static str)
        ensures
            r@ == self.spec_sql(),
    {
        match self {
            ComparisonOp::Eq => "=",
            ComparisonOp::Neq => "!=",
            ComparisonOp::Gt => ">",
            ComparisonOp::Lt => "<",
            ComparisonOp::Gte => ">=",
            ComparisonOp::Lte => "<=",
            ComparisonOp::Like => "LIKE",
            ComparisonOp::IsNull => "IS NULL",
            ComparisonOp::IsNotNull => "IS NOT NULL",
        }
    }

    /// Resolves a token that is already in lower case.
    pub fn from_lowercase_token(t: &str) -> (r: Option<ComparisonOp>)
        ensures
            r == op_token(t@),
    {
        if same_text(t, "=") || same_text(t, "eq") {
            Some(ComparisonOp::Eq)
        } else if same_text(t, "!=") || same_text(t, "<>") || same_text(t, "neq") {
            Some(ComparisonOp::Neq)
        } else if same_text(t, ">") || same_text(t, "gt") {
            Some(ComparisonOp::Gt)
        } else if same_text(t, "<") || same_text(t, "lt") {
            Some(ComparisonOp::Lt)
        } else if same_text(t, ">=") || same_text(t, "gte") {
            Some(ComparisonOp::Gte)
        } else if same_text(t, "<=") || same_text(t, "lte") {
            Some(ComparisonOp::Lte)
        } else if same_text(t, "like") {
            Some(ComparisonOp::Like)
        } else if same_text(t, "is null") || same_text(t, "isnull") {
            Some(ComparisonOp::IsNull)
        } else if same_text(t, "is not null") || same_text(t, "isnotnull") {
            Some(ComparisonOp::IsNotNull)
        } else {
            None
        }
    }

    /// Resolves an operator token, ignoring case; fails with
    /// `UnknownOperator` when the token spells no operator.
    pub fn from_str(token: &str) -> (r: Result<ComparisonOp, FilterError>)
        ensures
            match r {
                Ok(op) => op_token(lower_of(token@)) == Some(op),
                Err(e) => op_token(lower_of(token@)) is None && e@
                    == FilterErrorView::UnknownOperator { token: token@ },
            },
    {
        let lowered = lowercase(token);
        match ComparisonOp::from_lowercase_token(lowered.as_str()) {
            Some(op) => Ok(op),
            None => Err(FilterError::UnknownOperator { token: String::from_str(token) }),
        }
    }
}

impl ComparisonOp {
    pub open spec fn spec_name(self) -> Seq<char> {
        match self {
            ComparisonOp::Eq => "Eq"@,
            ComparisonOp::Neq => "Neq"@,
            ComparisonOp::Gt => "Gt"@,
            ComparisonOp::Lt => "Lt"@,
            ComparisonOp::Gte => "Gte"@,
            ComparisonOp::Lte => "Lte"@,
            ComparisonOp::Like => "Like"@,
            ComparisonOp::IsNull => "IsNull"@,
            ComparisonOp::IsNotNull => "IsNotNull"@,
        }
    }

    /// The operator's name as it appears in diagnostics.
    pub fn name(&self) -> (r: &'static str)
        ensures
            r@ == self.spec_name(),
    {
        match self {
            ComparisonOp::Eq => "Eq",
            ComparisonOp::Neq => "Neq",
            ComparisonOp::Gt => "Gt",
            ComparisonOp::Lt => "Lt",
            ComparisonOp::Gte => "Gte",
            ComparisonOp::Lte => "Lte",
            ComparisonOp::Like => "Like",
            ComparisonOp::IsNull => "IsNull",
            ComparisonOp::IsNotNull => "IsNotNull",
        }
    }
}

impl ComparisonOp {
    /// Every lower-case spelling that stands for the operator.
    pub open spec fn spec_aliases(self) -> Seq<Seq<char>> {
        match self {
            ComparisonOp::Eq => seq!["="@, "eq"@],
            ComparisonOp::Neq => seq!["!="@, "<>"@, "neq"@],
            ComparisonOp::Gt => seq![">"@, "gt"@],
            ComparisonOp::Lt => seq!["<"@, "lt"@],
            ComparisonOp::Gte => seq![">="@, "gte"@],
            ComparisonOp::Lte => seq!["<="@, "lte"@],
            ComparisonOp::Like => seq!["like"@],
            ComparisonOp::IsNull => seq!["is null"@, "isnull"@],
            ComparisonOp::IsNotNull => seq!["is not null"@, "isnotnull"@],
        }
    }
}

} // verus!

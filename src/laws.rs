//! Properties of the registry, the catalog and the query builder that hold
//! for all inputs.
use vstd::prelude::*;

use crate::builder::{
    clause_of, fault_at, first_fault_within, fragment_of, operand_of, params_of, set_fault,
    shares_key, MAX_FILTERS, MAX_VALUE_CHARS,
};
use crate::criteria::{triplet_fault, FilterCriteria};
use crate::error::FilterErrorView;
use crate::operators::{compatible, op_token, ComparisonOp};
use crate::schema::{field_named, SupplierField, TypeClass};

verus! {

/// Every field is resolved from its column name, and a name that resolves is
/// the column name of the field it resolves to.
pub proof fn lemma_field_names_resolve(f: SupplierField, name: Seq<char>)
    ensures
        field_named(f.spec_column()) == Some(f),
        field_named(name) matches Some(g) ==> name == g.spec_column(),
{
    reveal_strlit("contact");
    reveal_strlit("wechat");
    reveal_strlit("phone");
    reveal_strlit("quantity");
    reveal_strlit("location");
    reveal_strlit("price");
    reveal_strlit("bandwidth_price");
    reveal_strlit("storage_price");
    reveal_strlit("min_contract_period");
    reveal_strlit("breach_penalties");
    reveal_strlit("payment_terms");
    reveal_strlit("server_name");
    reveal_strlit("server_config");
    reveal_strlit("rental_model");
    reveal_strlit("networking_category");
    let names = seq![
        "contact"@, "wechat"@, "phone"@, "quantity"@, "location"@, "price"@,
        "bandwidth_price"@, "storage_price"@, "min_contract_period"@, "breach_penalties"@,
        "payment_terms"@, "server_name"@, "server_config"@, "rental_model"@,
        "networking_category"@,
    ];
    assert forall|a: int, b: int| 0 <= a < b < 15 implies names[a] != names[b] by {
        assert(names[a].len() != names[b].len() || names[a][0] != names[b][0]
            || names[a][1] != names[b][1] || names[a][2] != names[b][2]);
    }
}

/// A lower-case token resolves to an operator exactly when it is one of that
/// operator's spellings.
pub proof fn lemma_operator_tokens_resolve(op: ComparisonOp, t: Seq<char>)
    ensures
        op_token(t) == Some(op) <==> op.spec_aliases().contains(t),
{
    reveal_strlit("=");
    reveal_strlit("eq");
    reveal_strlit("!=");
    reveal_strlit("<>");
    reveal_strlit("neq");
    reveal_strlit(">");
    reveal_strlit("gt");
    reveal_strlit("<");
    reveal_strlit("lt");
    reveal_strlit(">=");
    reveal_strlit("gte");
    reveal_strlit("<=");
    reveal_strlit("lte");
    reveal_strlit("like");
    reveal_strlit("is null");
    reveal_strlit("isnull");
    reveal_strlit("is not null");
    reveal_strlit("isnotnull");
    let tokens = seq![
        "="@, "eq"@, "!="@, "<>"@, "neq"@, ">"@, "gt"@, "<"@, "lt"@, ">="@, "gte"@, "<="@,
        "lte"@, "like"@, "is null"@, "isnull"@, "is not null"@, "isnotnull"@,
    ];
    assert forall|a: int, b: int| 0 <= a < b < 18 implies tokens[a] != tokens[b] by {
        assert(tokens[a].len() != tokens[b].len() || tokens[a][0] != tokens[b][0]
            || tokens[a][1] != tokens[b][1] || tokens[a][2] != tokens[b][2]
            || tokens[a][3] != tokens[b][3]);
    }
    let aliases = op.spec_aliases();
    if op_token(t) == Some(op) {
        assert(aliases.contains(t)) by {
            match op {
                ComparisonOp::Neq => {
                    if t == "!="@ { assert(aliases[0] == t); }
                    else if t == "<>"@ { assert(aliases[1] == t); }
                    else { assert(aliases[2] == t); }
                },
                _ => {
                    if t == aliases[0] { } else { assert(aliases[1] == t); }
                },
            }
        }
    }
    if aliases.contains(t) {
        let k = choose|k: int| 0 <= k < aliases.len() && aliases[k] == t;
    }
}

/// The compatibility matrix: equality and nullness tests apply to every
/// field, `Like` to text fields only, ordering comparisons to numeric fields
/// only; a triplet naming an incompatible pair is rejected with
/// `IncompatibleOperator`, and one naming a compatible pair never is.
pub proof fn lemma_compatibility_matrix(
    field: SupplierField,
    op: ComparisonOp,
    name: Seq<char>,
    token: Seq<char>,
    lowered: Seq<char>,
    has_value: bool,
)
    ensures
        compatible(field, op) <==> {
            ||| op is Eq || op is Neq || op is IsNull || op is IsNotNull
            ||| op is Like && field.spec_type_class() == TypeClass::Text
            ||| (op is Gt || op is Lt || op is Gte || op is Lte) && field.spec_type_class()
                == TypeClass::Numeric
        },
        field_named(name) == Some(field) && op_token(lowered) == Some(op) ==> (triplet_fault(
            name,
            token,
            lowered,
            has_value,
        ) == Some(FilterErrorView::IncompatibleOperator { field, op }) <==> !compatible(
            field,
            op,
        )),
{
}

/// Whether two sequences of criteria hold the same fields, operators and
/// operand texts, position by position.
pub open spec fn same_criteria(s1: Seq<FilterCriteria>, s2: Seq<FilterCriteria>) -> bool {
    &&& s1.len() == s2.len()
    &&& forall|i: int|
        0 <= i < s1.len() ==> {
            &&& (#[trigger] s1[i]).field == s2[i].field
            &&& s1[i].op == s2[i].op
            &&& s1[i].value.is_some() == s2[i].value.is_some()
            &&& s1[i].value.is_some() ==> s1[i].value.unwrap()@ == s2[i].value.unwrap()@
        }
}

/// Compiling the same criteria twice gives the same fragment and the same
/// parameters, and validating them twice gives the same verdict.
pub proof fn lemma_compile_deterministic(s1: Seq<FilterCriteria>, s2: Seq<FilterCriteria>)
    requires
        same_criteria(s1, s2),
    ensures
        fragment_of(s1) == fragment_of(s2),
        params_of(s1) == params_of(s2),
        set_fault(s1) == set_fault(s2),
    decreases s1.len(),
{
    if s1.len() > 0 {
        let (t1, t2) = (s1.drop_last(), s2.drop_last());
        assert(same_criteria(t1, t2)) by {
            assert forall|i: int| 0 <= i < t1.len() implies #[trigger] t1[i] == s1[i] && t2[i]
                == s2[i] by {}
        }
        lemma_compile_deterministic(t1, t2);
        assert(s1.last() == s1[s1.len() - 1]);
        assert(clause_of(s1.last()) == clause_of(s2.last()));
        assert(operand_of(s1.last()) == operand_of(s2.last()));
    }
    lemma_fault_scan_deterministic(s1, s2, s1.len() as int);
}

proof fn lemma_fault_scan_deterministic(s1: Seq<FilterCriteria>, s2: Seq<FilterCriteria>, n: int)
    requires
        same_criteria(s1, s2),
        n <= s1.len(),
    ensures
        first_fault_within(s1, n) == first_fault_within(s2, n),
    decreases n,
{
    if n > 0 {
        lemma_fault_scan_deterministic(s1, s2, n - 1);
        let i = n - 1;
        assert(s1[i].field == s2[i].field);
        assert((exists|j: int| 0 <= j < i && shares_key(#[trigger] s1[j], s1[i])) <==> (exists|
            j: int,
        | 0 <= j < i && shares_key(#[trigger] s2[j], s2[i]))) by {
            if exists|j: int| 0 <= j < i && shares_key(#[trigger] s1[j], s1[i]) {
                let j = choose|j: int| 0 <= j < i && shares_key(#[trigger] s1[j], s1[i]);
                assert(shares_key(s2[j], s2[i]));
            }
            if exists|j: int| 0 <= j < i && shares_key(#[trigger] s2[j], s2[i]) {
                let j = choose|j: int| 0 <= j < i && shares_key(#[trigger] s2[j], s2[i]);
                assert(shares_key(s1[j], s1[i]));
            }
        }
        assert(fault_at(s1, i) == fault_at(s2, i));
    }
}

/// Criteria pushed one after another compile to clauses, and bind values, in
/// the order they were pushed.
pub proof fn lemma_push_order_kept(c1: FilterCriteria, c2: FilterCriteria, c3: FilterCriteria)
    ensures
        fragment_of(seq![c1, c2, c3]) == clause_of(c1) + " AND "@ + clause_of(c2) + " AND "@
            + clause_of(c3),
        params_of(seq![c1, c2, c3]) == operand_of(c1) + operand_of(c2) + operand_of(c3),
{
    let s = seq![c1, c2, c3];
    assert(s.drop_last() == seq![c1, c2]);
    assert(seq![c1, c2].drop_last() == seq![c1]);
    assert(seq![c1].drop_last() == Seq::<FilterCriteria>::empty());
    assert(seq![c1][0] == c1);
    assert(seq![c1, c2].last() == c2);
    assert(s.last() == c3);
    assert(fragment_of(seq![c1]) == clause_of(c1));
    assert(fragment_of(seq![c1, c2]) == clause_of(c1) + " AND "@ + clause_of(c2));
    assert(params_of(Seq::<FilterCriteria>::empty()) == Seq::<Seq<char>>::empty());
    assert(params_of(seq![c1]) == Seq::<Seq<char>>::empty() + operand_of(c1));
    assert(Seq::<Seq<char>>::empty() + operand_of(c1) =~= operand_of(c1));
    assert(params_of(seq![c1, c2]) == operand_of(c1) + operand_of(c2));
}

/// Whether every criterion of `s` is acceptable on its own: its operator fits
/// its field, it has an operand if its operator needs one, and any operand
/// is at most `MAX_VALUE_CHARS` characters long.
pub open spec fn criteria_acceptable(s: Seq<FilterCriteria>) -> bool {
    forall|i: int|
        0 <= i < s.len() ==> {
            &&& compatible((#[trigger] s[i]).field, s[i].op)
            &&& s[i].op.spec_requires_operand() ==> s[i].value is Some
            &&& s[i].value matches Some(v) ==> v@.len() <= MAX_VALUE_CHARS
        }
}

/// Whether no two criteria of `s` share a field and an operator.
pub open spec fn keys_distinct(s: Seq<FilterCriteria>) -> bool {
    forall|i: int, j: int| 0 <= i < j < s.len() ==> !shares_key(#[trigger] s[i], #[trigger] s[j])
}

/// A set passes validation exactly when it holds at most `MAX_FILTERS`
/// criteria, each acceptable on its own, no two with the same field and
/// operator; one with more than `MAX_FILTERS` criteria fails with
/// `TooManyFilters`, whatever they are.
pub proof fn lemma_validation_verdict(s: Seq<FilterCriteria>)
    ensures
        set_fault(s) is None <==> s.len() <= MAX_FILTERS && criteria_acceptable(s)
            && keys_distinct(s),
        s.len() > MAX_FILTERS ==> set_fault(s) == Some(
            FilterErrorView::TooManyFilters { count: s.len() },
        ),
{
    lemma_scan_clean(s, s.len() as int);
    if s.len() <= MAX_FILTERS {
        if first_fault_within(s, s.len() as int) is None {
            assert forall|i: int| 0 <= i < s.len() implies {
                &&& compatible((#[trigger] s[i]).field, s[i].op)
                &&& s[i].op.spec_requires_operand() ==> s[i].value is Some
                &&& s[i].value matches Some(v) ==> v@.len() <= MAX_VALUE_CHARS
            } by {
                assert(fault_at(s, i) is None);
            }
            assert forall|i: int, j: int| 0 <= i < j < s.len() implies !shares_key(
                #[trigger] s[i],
                #[trigger] s[j],
            ) by {
                assert(fault_at(s, j) is None);
            }
        }
        if criteria_acceptable(s) && keys_distinct(s) {
            assert forall|i: int| 0 <= i < s.len() implies #[trigger] fault_at(s, i) is None by {
                let c = s[i];
                assert(compatible(c.field, c.op));
                assert(!exists|j: int| 0 <= j < i && shares_key(#[trigger] s[j], c));
            }
        }
    }
}

/// The scan of the first `n` criteria finds nothing exactly when no one of
/// them has a fault.
proof fn lemma_scan_clean(s: Seq<FilterCriteria>, n: int)
    requires
        0 <= n <= s.len(),
    ensures
        first_fault_within(s, n) is None <==> forall|i: int|
            0 <= i < n ==> #[trigger] fault_at(s, i) is None,
    decreases n,
{
    if n > 0 {
        lemma_scan_clean(s, n - 1);
    }
}

} // verus!

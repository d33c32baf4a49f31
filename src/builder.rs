use vstd::prelude::*;

use crate::criteria::FilterCriteria;
use crate::error::{FilterError, FilterErrorView};
use crate::operators::compatible;

verus! {

/// The most criteria a filter set may hold.
pub const MAX_FILTERS: usize = 20;

/// The most characters an operand may have.
pub const MAX_VALUE_CHARS: usize = 256;

/// How many leading characters of an over-long operand a diagnostic shows.
pub const PREFIX_CHARS: usize = 32;

/// An ordered set of filter criteria, compiled into a query fragment and the
/// list of values bound to its placeholders.
pub struct QueryBuilder {
    filters: Vec<FilterCriteria>,
}

/// Whether two criteria use the same field with the same operator.
pub open spec fn shares_key(a: FilterCriteria, b: FilterCriteria) -> bool {
    a.field == b.field && a.op == b.op
}

/// What is wrong with the criterion at `i`, given the ones before it.
pub open spec fn fault_at(s: Seq<FilterCriteria>, i: int) -> Option<FilterErrorView> {
    let c = s[i];
    if !compatible(c.field, c.op) {
        Some(FilterErrorView::IncompatibleOperator { field: c.field, op: c.op })
    } else if c.op.spec_requires_operand() && c.value is None {
        Some(FilterErrorView::MissingOperand { field: c.field, op: c.op })
    } else if exists|j: int| 0 <= j < i && shares_key(#[trigger] s[j], c) {
        Some(FilterErrorView::DuplicateCondition { field: c.field, op: c.op })
    } else if c.value matches Some(v) && v@.len() > MAX_VALUE_CHARS {
        Some(
            FilterErrorView::ValueTooLong {
                field: c.field,
                op: c.op,
                prefix: c.value.unwrap()@.take(PREFIX_CHARS as int),
            },
        )
    } else {
        None
    }
}

/// The first fault among the first `n` criteria, scanning in order.
pub open spec fn first_fault_within(s: Seq<FilterCriteria>, n: int) -> Option<FilterErrorView>
    decreases n,
{
    if n <= 0 {
        None
    } else {
        match first_fault_within(s, n - 1) {
            Some(f) => Some(f),
            None => fault_at(s, n - 1),
        }
    }
}

/// Once a fault is found among the first `m` criteria, scanning further
/// reports the same one.
proof fn lemma_first_fault_stays(s: Seq<FilterCriteria>, m: int, n: int)
    requires
        0 <= m <= n,
        first_fault_within(s, m) is Some,
    ensures
        first_fault_within(s, n) == first_fault_within(s, m),
    decreases n - m,
{
    if n > m {
        lemma_first_fault_stays(s, m, n - 1);
    }
}

/// The error that validation reports for the set `s`, if any.
pub open spec fn set_fault(s: Seq<FilterCriteria>) -> Option<FilterErrorView> {
    if s.len() > MAX_FILTERS {
        Some(FilterErrorView::TooManyFilters { count: s.len() })
    } else {
        first_fault_within(s, s.len() as int)
    }
}

/// The clause that a criterion compiles to.
pub open spec fn clause_of(c: FilterCriteria) -> Seq<char> {
    c.field.spec_column() + " "@ + c.op.spec_sql() + if c.op.spec_requires_operand() {
        " ?"@
    } else {
        Seq::empty()
    }
}

/// The clauses of `s`, in order, joined by `" AND "`.
pub open spec fn fragment_of(s: Seq<FilterCriteria>) -> Seq<char>
    decreases s.len(),
{
    if s.len() == 0 {
        Seq::empty()
    } else if s.len() == 1 {
        clause_of(s[0])
    } else {
        fragment_of(s.drop_last()) + " AND "@ + clause_of(s.last())
    }
}

/// The values a criterion binds: its operand, where its operator takes one.
pub open spec fn operand_of(c: FilterCriteria) -> Seq<Seq<char>> {
    if c.op.spec_requires_operand() && c.value is Some {
        seq![c.value.unwrap()@]
    } else {
        Seq::empty()
    }
}

/// The values bound by `s`, in order.
pub open spec fn params_of(s: Seq<FilterCriteria>) -> Seq<Seq<char>>
    decreases s.len(),
{
    if s.len() == 0 {
        Seq::empty()
    } else {
        params_of(s.drop_last()) + operand_of(s.last())
    }
}

/// The character sequences of a list of strings.
pub open spec fn texts_of(v: Seq<String>) -> Seq<Seq<char>> {
    v.map_values(|p: String| p@)
}

impl View for QueryBuilder {
    type V = Seq<FilterCriteria>;

    closed spec fn view(&self) -> Seq<FilterCriteria> {
        self.filters@
    }
}

impl QueryBuilder {
    /// An empty filter set.
    pub fn new() -> (r: QueryBuilder)
        ensures
            r@ == Seq::<FilterCriteria>::empty(),
    {
        QueryBuilder { filters: Vec::new() }
    }

    /// Appends a criterion; nothing is checked until `validate`.
    pub fn filter(self, criteria: FilterCriteria) -> (r: QueryBuilder)
        ensures
            r@ == self@.push(criteria),
    {
        let mut filters = self.filters;
        filters.push(criteria);
        QueryBuilder { filters }
    }

    /// The number of criteria in the set.
    pub fn len(&self) -> (r: usize)
        ensures
            r == self@.len(),
    {
        self.filters.len()
    }

    /// Checks the whole set and reports the first violation: more than
    /// `MAX_FILTERS` criteria; then, criterion by criterion in order, an
    /// operator that does not fit the field, a missing operand, a repeated
    /// field and operator, an operand over `MAX_VALUE_CHARS` characters.
    pub fn validate(&self) -> (r: Result<(), FilterError>)
        ensures
            r is Ok <==> set_fault(self@) is None,
            r matches Err(e) ==> Some(e@) == set_fault(self@),
    {
        let n = self.filters.len();
        if n > MAX_FILTERS {
            return Err(FilterError::TooManyFilters { count: n });
        }
        let mut i: usize = 0;
        while i < n
            invariant
                n == self@.len(),
                n <= MAX_FILTERS,
                i <= n,
                first_fault_within(self@, i as int) is None,
            decreases n - i,
        {
            let c = &self.filters[i];
            proof {
                if fault_at(self@, i as int) is Some {
                    lemma_first_fault_stays(self@, i + 1, n as int);
                }
            }
            if !c.op.applicable_to(c.field.type_class()) {
                return Err(FilterError::IncompatibleOperator { field: c.field, op: c.op });
            }
            if c.op.requires_operand() && c.value.is_none() {
                return Err(FilterError::MissingOperand { field: c.field, op: c.op });
            }
            let mut j: usize = 0;
            while j < i
                invariant
                    n == self@.len(),
                    i < n,
                    j <= i,
                    *c == self@[i as int],
                    n <= MAX_FILTERS,
                    first_fault_within(self@, i as int) is None,
                    fault_at(self@, i as int) is Some ==> first_fault_within(self@, n as int)
                        == fault_at(self@, i as int),
                    compatible(c.field, c.op),
                    !(c.op.spec_requires_operand() && c.value is None),
                    forall|k: int| 0 <= k < j ==> !shares_key(#[trigger] self@[k], self@[i as int]),
                decreases i - j,
            {
                let d = &self.filters[j];
                if d.field == c.field && d.op == c.op {
                    assert(shares_key(self@[j as int], self@[i as int]));
                    return Err(FilterError::DuplicateCondition { field: c.field, op: c.op });
                }
                j = j + 1;
            }
            match &c.value {
                Some(v) => {
                    if v.as_str().unicode_len() > MAX_VALUE_CHARS {
                        let prefix = v.as_str().substring_char(0, PREFIX_CHARS);
                        return Err(
                            FilterError::ValueTooLong {
                                field: c.field,
                                op: c.op,
                                prefix: String::from_str(prefix),
                            },
                        );
                    }
                },
                None => {},
            }
            i = i + 1;
        }
        Ok(())
    }

    /// Compiles a valid set into its fragment and the values for its
    /// placeholders, both in the order the criteria were added.
    ///
    /// A set that does not pass `validate` yields `ValidationError`.
    pub fn build(self) -> (r: Result<(String, Vec<String>), FilterError>)
        ensures
            r is Ok <==> set_fault(self@) is None,
            r matches Err(e) ==> e@ == FilterErrorView::ValidationError,
            r matches Ok((fragment, params)) ==> fragment@ == fragment_of(self@) && texts_of(
                params@,
            ) == params_of(self@),
    {
        if self.validate().is_err() {
            return Err(FilterError::ValidationError);
        }
        let n = self.filters.len();
        let mut fragment = String::new();
        let mut params: Vec<String> = Vec::new();
        let mut i: usize = 0;
        while i < n
            invariant
                n == self@.len(),
                i <= n,
                fragment@ == fragment_of(self@.take(i as int)),
                texts_of(params@) == params_of(self@.take(i as int)),
            decreases n - i,
        {
            let c = &self.filters[i];
            let ghost before = fragment@;
            let ghost s = self@.take(i + 1);
            assert(s.drop_last() == self@.take(i as int));
            assert(s.last() == *c);
            if i > 0 {
                fragment.append(" AND ");
            }
            fragment.append(c.field.column_name());
            fragment.append(" ");
            fragment.append(c.op.sql());
            if c.op.requires_operand() {
                fragment.append(" ?");
                match &c.value {
                    Some(v) => {
                        params.push(v.clone());
                    },
                    None => {},
                }
            }
            proof {
                if i == 0 {
                    assert(before == Seq::<char>::empty());
                }
                assert(fragment@ =~= fragment_of(s));
                assert(texts_of(params@) =~= params_of(s));
            }
            i = i + 1;
        }
        assert(self@.take(n as int) == self@);
        Ok((fragment, params))
    }
}

} // verus!

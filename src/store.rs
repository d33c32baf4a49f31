//! The statements handed to the record store, and its configuration.
use vstd::prelude::*;

use crate::builder::QueryBuilder;
use crate::criteria::FilterCriteria;
use crate::operators::ComparisonOp;
use crate::schema::SupplierField;

verus! {

/// The database file used when none is configured.
pub const DEFAULT_DB_FILE: &'static str = "wei-assistant.db";

/// The table that holds the supplier records.
pub const TABLE: &'static str = "suppliers";

/// The database file to open: the configured one, else `DEFAULT_DB_FILE`.
pub fn resolve_db_path(configured: Option<String>) -> (r: String)
    ensures
        r@ == match configured {
            Some(p) => p@,
            None => DEFAULT_DB_FILE@,
        },
{
    match configured {
        Some(p) => p,
        None => String::from_str(DEFAULT_DB_FILE),
    }
}

/// `parts` joined by `sep`.
pub open spec fn joined(parts: Seq<Seq<char>>, sep: Seq<char>) -> Seq<char>
    decreases parts.len(),
{
    if parts.len() == 0 {
        Seq::empty()
    } else if parts.len() == 1 {
        parts[0]
    } else {
        joined(parts.drop_last(), sep) + sep + parts.last()
    }
}

/// The column names of all fields, in record order.
pub open spec fn columns() -> Seq<Seq<char>> {
    SupplierField::all().map_values(|f: SupplierField| f.spec_column())
}

/// The statement that reads every record matching `fragment`, the record id
/// first, then every field in record order.
pub open spec fn select_text(fragment: Seq<char>) -> Seq<char> {
    "SELECT id, "@ + joined(columns(), ", "@) + " FROM "@ + TABLE@ + if fragment.len() == 0 {
        Seq::empty()
    } else {
        " WHERE "@ + fragment
    }
}

/// The statement that inserts one record, binding every field in record
/// order.
pub open spec fn insert_text() -> Seq<char> {
    "INSERT INTO "@ + TABLE@ + " ("@ + joined(columns(), ", "@) + ") VALUES ("@ + joined(
        Seq::new(columns().len(), |i: int| "?"@),
        ", "@,
    ) + ")"@
}

/// Appends the column names of `fields` to `s`, separated by `", "`, or
/// one `"?"` per field when `placeholders` is set.
fn append_field_list(s: &mut String, fields: &Vec<SupplierField>, placeholders: bool)
    requires
        fields@.len() > 0,
    ensures
        final(s)@ == old(s)@ + joined(
            if placeholders {
                Seq::new(fields@.len(), |i: int| "?"@)
            } else {
                fields@.map_values(|f: SupplierField| f.spec_column())
            },
            ", "@,
        ),
{
    let ghost start = s@;
    let ghost parts = if placeholders {
        Seq::new(fields@.len(), |i: int| "?"@)
    } else {
        fields@.map_values(|f: SupplierField| f.spec_column())
    };
    let n = fields.len();
    let mut i: usize = 0;
    while i < n
        invariant
            n == fields@.len(),
            parts.len() == n,
            parts == (if placeholders {
                Seq::new(fields@.len(), |i: int| "?"@)
            } else {
                fields@.map_values(|f: SupplierField| f.spec_column())
            }),
            i <= n,
            s@ == start + joined(parts.take(i as int), ", "@),
        decreases n - i,
    {
        let ghost before = s@;
        if i > 0 {
            s.append(", ");
        }
        if placeholders {
            s.append("?");
        } else {
            s.append(fields[i].column_name());
        }
        proof {
            let t = parts.take(i + 1);
            assert(t.drop_last() =~= parts.take(i as int));
            assert(t.last() == parts[i as int]);
            if i == 0 {
                assert(joined(parts.take(0), ", "@) == Seq::<char>::empty());
                assert(before =~= start);
            }
            assert(s@ =~= start + joined(t, ", "@));
        }
        i = i + 1;
    }
    assert(parts.take(n as int) =~= parts);
}

/// The statement that reads every record matching a compiled `fragment`; an
/// empty fragment reads every record.
pub fn select_statement(fragment: &str) -> (r: String)
    ensures
        r@ == select_text(fragment@),
{
    let fields = SupplierField::all_fields();
    let mut s = String::from_str("SELECT id, ");
    append_field_list(&mut s, &fields, false);
    s.append(" FROM ");
    s.append(TABLE);
    if fragment.unicode_len() > 0 {
        s.append(" WHERE ");
        s.append(fragment);
    }
    proof {
        assert(s@ =~= select_text(fragment@));
    }
    s
}

/// The statement that inserts one record; its placeholders take the fields
/// in record order.
pub fn insert_statement() -> (r: String)
    ensures
        r@ == insert_text(),
{
    let fields = SupplierField::all_fields();
    let mut s = String::from_str("INSERT INTO ");
    s.append(TABLE);
    s.append(" (");
    append_field_list(&mut s, &fields, false);
    s.append(") VALUES (");
    append_field_list(&mut s, &fields, true);
    s.append(")");
    proof {
        assert(s@ =~= insert_text());
    }
    s
}

/// The criteria that compare each field given a value with it for equality,
/// in the order given; fields without a value are left out.
pub open spec fn equality_criteria(values: Seq<(SupplierField, Option<String>)>) -> Seq<
    FilterCriteria,
>
    decreases values.len(),
{
    if values.len() == 0 {
        Seq::empty()
    } else {
        let rest = equality_criteria(values.drop_last());
        let (field, value) = values.last();
        if value is Some {
            rest.push(FilterCriteria { field, op: ComparisonOp::Eq, value })
        } else {
            rest
        }
    }
}

impl QueryBuilder {
    /// A filter set that asks each field given a value to equal it.
    pub fn equalities(values: Vec<(SupplierField, Option<String>)>) -> (r: QueryBuilder)
        ensures
            r@ == equality_criteria(values@),
    {
        let ghost all = values@;
        let n = values.len();
        let mut b = QueryBuilder::new();
        let mut rest = values;
        let mut i: usize = 0;
        while rest.len() > 0
            invariant
                i + rest@.len() == all.len(),
                all.len() == n,
                rest@ == all.subrange(i as int, all.len() as int),
                b@ == equality_criteria(all.take(i as int)),
            decreases rest@.len(),
        {
            let (field, value) = rest.remove(0);
            proof {
                let t = all.take(i + 1);
                assert(t.drop_last() =~= all.take(i as int));
                assert(t.last() == all[i as int]);
            }
            if value.is_some() {
                b = b.filter(FilterCriteria { field, op: ComparisonOp::Eq, value });
            }
            i = i + 1;
        }
        assert(all.take(all.len() as int) =~= all);
        b
    }
}

} // verus!

//! The persistence boundary's plain types and its pure query-building
//! helpers.
//!
//! Persistence itself (opening a database, running statements) lives
//! outside this library; what is here is only what can be computed from
//! plain values: which database kinds accept writes, and the SQL text
//! fragments the product queries are assembled from.
use vstd::prelude::*;

verus! {

/// A database a product catalog can come from.
#[derive(Debug, Clone, PartialEq, Eq)]
pub enum DataBaseTypes {
    OpenFoodFacts,
    Local(String),
}

/// A search criterion over the product catalog.
#[derive(Debug, Clone, PartialEq, Eq)]
pub enum DbSearchCriteria {
    ById(String),
}

/// The database kinds that accept writes: only the local database does.
pub fn get_mutable_db_types() -> (r: Vec<DataBaseTypes>)
    ensures
        r@.len() == 1,
        r@[0] matches DataBaseTypes::Local(name) && name@ == "local_db.sqlite"@,
{
    let mut types: Vec<DataBaseTypes> = Vec::new();
    types.push(DataBaseTypes::Local(String::from_str("local_db.sqlite")));
    types
}

/// The SQL text one criterion contributes to a WHERE clause.
pub open spec fn criterion_sql(c: DbSearchCriteria) -> Seq<char> {
    match c {
        DbSearchCriteria::ById(name) => "products.name LIKE '"@ + name@ + "%'"@,
    }
}

/// The SQL text of a whole criteria list: the criteria joined by AND.
pub open spec fn criteria_sql(s: Seq<DbSearchCriteria>) -> Seq<char>
    decreases s.len(),
{
    if s.len() == 0 {
        Seq::empty()
    } else if s.len() == 1 {
        criterion_sql(s[0])
    } else {
        criteria_sql(s.drop_last()) + " AND "@ + criterion_sql(s.last())
    }
}

/// Renders a criteria list as a WHERE clause; an empty list is rejected.
pub fn db_search_criteria_to_sql_query_fragment(criteria: &Vec<DbSearchCriteria>) -> (r: Result<
    String,
    String,
>)
    ensures
        r is Ok <==> criteria@.len() > 0,
        r matches Ok(q) ==> q@ == " WHERE "@ + criteria_sql(criteria@),
        r matches Err(m) ==> m@ == "Empty search criteria"@,
{
    if criteria.len() == 0 {
        return Err(String::from_str("Empty search criteria"));
    }
    let mut query_fragment = String::from_str(" WHERE ");
    let n = criteria.len();
    for i in 0..n
        invariant
            n == criteria@.len(),
            n > 0,
            i == 0 ==> query_fragment@ == " WHERE "@,
            i > 0 ==> query_fragment@ == " WHERE "@ + criteria_sql(criteria@.take(i as int)),
    {
        if i > 0 {
            query_fragment.append(" AND ");
        }
        match &criteria[i] {
            DbSearchCriteria::ById(name) => {
                query_fragment.append("products.name LIKE '");
                query_fragment.append(name.as_str());
                query_fragment.append("%'");
            },
        }
        proof {
            assert(criteria@.take(i as int + 1).drop_last() =~= criteria@.take(i as int));
            assert(criteria@.take(i as int + 1).last() == criteria@[i as int]);
        }
    }
    proof {
        assert(criteria@.take(n as int) =~= criteria@);
    }
    Ok(query_fragment)
}

/// One aliased column reference: `prefix."col" AS "col"`.
pub open spec fn quoted_col(prefix: Seq<char>, col: Seq<char>) -> Seq<char> {
    prefix + ".\""@ + col + "\" AS \""@ + col + "\""@
}

/// Appends one aliased column reference.
fn push_quoted_col(out: &mut String, prefix: &str, col: &str)
    ensures
        final(out)@ == old(out)@ + quoted_col(prefix@, col@),
{
    out.append(prefix);
    out.append(".\"");
    out.append(col);
    out.append("\" AS \"");
    out.append(col);
    out.append("\"");
}

/// The macro-nutrient columns of a product select, aliased, in the fixed
/// column order; the derived calorie column is not stored.
pub fn macro_columns_select() -> (r: String)
    ensures
        r@ == quoted_col("me"@, "Fat"@) + ", "@ + quoted_col("me"@, "Saturated Fat"@) + ", "@
            + quoted_col("me"@, "Carbohydrates"@) + ", "@ + quoted_col("me"@, "Sugar"@) + ", "@
            + quoted_col("me"@, "Protein"@),
{
    let mut out = String::new();
    push_quoted_col(&mut out, "me", "Fat");
    out.append(", ");
    push_quoted_col(&mut out, "me", "Saturated Fat");
    out.append(", ");
    push_quoted_col(&mut out, "me", "Carbohydrates");
    out.append(", ");
    push_quoted_col(&mut out, "me", "Sugar");
    out.append(", ");
    push_quoted_col(&mut out, "me", "Protein");
    out
}

/// The micro-nutrient columns of a product select, aliased, in the fixed
/// column order.
pub fn micro_columns_select() -> (r: String)
    ensures
        r@ == quoted_col("mn"@, "Fiber"@) + ", "@ + quoted_col("mn"@, "Zinc"@) + ", "@ + quoted_col(
            "mn"@,
            "Sodium"@,
        ) + ", "@ + quoted_col("mn"@, "Alcohol"@),
{
    let mut out = String::new();
    push_quoted_col(&mut out, "mn", "Fiber");
    out.append(", ");
    push_quoted_col(&mut out, "mn", "Zinc");
    out.append(", ");
    push_quoted_col(&mut out, "mn", "Sodium");
    out.append(", ");
    push_quoted_col(&mut out, "mn", "Alcohol");
    out
}

/// The two aliased columns one unit contributes: its amount and its
/// divider.
pub open spec fn unit_cols(col: Seq<char>) -> Seq<char> {
    quoted_col("au"@, col) + ", "@ + quoted_col("au"@, col + " divider"@)
}

/// Appends one unit's two aliased columns.
fn push_unit_cols(out: &mut String, col: &str)
    ensures
        final(out)@ == old(out)@ + unit_cols(col@),
{
    push_quoted_col(out, "au", col);
    out.append(", ");
    let mut divider_col = String::from_str(col);
    divider_col.append(" divider");
    push_quoted_col(out, "au", divider_col.as_str());
}

/// The allowed-unit columns of a product select, aliased: for each unit
/// in the fixed order, its amount column and its divider column.
pub fn allowed_columns_select() -> (r: String)
    ensures
        r@ == unit_cols("gram"@) + ", "@ + unit_cols("piece"@) + ", "@ + unit_cols("cup"@) + ", "@
            + unit_cols("tablespoon"@) + ", "@ + unit_cols("teaspoon"@) + ", "@ + unit_cols("box"@)
            + ", "@ + unit_cols("custom"@),
{
    let mut out = String::new();
    push_unit_cols(&mut out, "gram");
    out.append(", ");
    push_unit_cols(&mut out, "piece");
    out.append(", ");
    push_unit_cols(&mut out, "cup");
    out.append(", ");
    push_unit_cols(&mut out, "tablespoon");
    out.append(", ");
    push_unit_cols(&mut out, "teaspoon");
    out.append(", ");
    push_unit_cols(&mut out, "box");
    out.append(", ");
    push_unit_cols(&mut out, "custom");
    out
}

} // verus!

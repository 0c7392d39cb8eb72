//! The statement assembler: composes a compiled predicate with ORDER
//! BY, LIMIT and OFFSET fragments into one statement. Constraint
//! values stay in the bound-parameter list; the sort column is checked
//! against a fixed column allowlist and the paging values are rendered
//! from validated non-negative integers, so no free text reaches the
//! statement.

use vstd::prelude::*;
use vstd::string::StringExecFns;

use crate::errors::SDKError;
use crate::members::GetMembersWhere;
use crate::members::spec_compiled_condition;
use crate::members::spec_compiled_params;
use crate::text::dec_str;
use crate::text::u32_to_string;

verus! {

/// Sort direction for an assembled statement.
#[derive(Clone, Copy, PartialEq, Eq, Structural, Debug)]
pub enum SortOrder {
    Asc,
    Desc,
}

/// The statement text for each sort direction.
pub open spec fn spec_sort_order_text(o: SortOrder) -> Seq<char> {
    match o {
        SortOrder::Asc => "ASC"@,
        SortOrder::Desc => "DESC"@,
    }
}

impl SortOrder {
    /// Renders the direction as statement text.
    pub fn as_str(&self) -> (r: &'static str)
        ensures
            r@ == spec_sort_order_text(*self),
    {
        match self {
            SortOrder::Asc => "ASC",
            SortOrder::Desc => "DESC",
        }
    }
}

/// The member columns a caller may sort by.
pub open spec fn spec_allowed_sort_column(s: Seq<char>) -> bool {
    ||| s == "id"@
    ||| s == "created_at"@
    ||| s == "updated_at"@
    ||| s == "name"@
    ||| s == "email"@
    ||| s == "role"@
    ||| s == "github_id"@
    ||| s == "google_id"@
    ||| s == "photo_url"@
}

/// Checks a requested sort column against the allowlist.
pub fn is_allowed_sort_column(s: &String) -> (b: bool)
    ensures
        b == spec_allowed_sort_column(s@),
{
    s.eq(&"id".to_owned()) || s.eq(&"created_at".to_owned()) || s.eq(&"updated_at".to_owned())
        || s.eq(&"name".to_owned()) || s.eq(&"email".to_owned()) || s.eq(&"role".to_owned())
        || s.eq(&"github_id".to_owned()) || s.eq(&"google_id".to_owned()) || s.eq(
        &"photo_url".to_owned(),
    )
}

/// A request for a filtered, sorted, paged listing of members.
pub struct GetMembersInput {
    pub filter: Option<GetMembersWhere>,
    pub sort_by: Option<String>,
    pub sort_order: Option<SortOrder>,
    pub limit: Option<i32>,
    pub offset: Option<i32>,
}

impl GetMembersInput {
    /// Validity: a present sort column is on the allowlist, and
    /// present paging values are non-negative.
    pub open spec fn wf(&self) -> bool {
        &&& match self.sort_by {
            Some(s) => spec_allowed_sort_column(s@),
            None => true,
        }
        &&& match self.limit {
            Some(l) => l >= 0,
            None => true,
        }
        &&& match self.offset {
            Some(o) => o >= 0,
            None => true,
        }
    }

    /// Validates and builds a request. Returns `QueryError` exactly
    /// when the sort column is off the allowlist or a paging value is
    /// negative; otherwise the request holds the given fields.
    pub fn new(
        filter: Option<GetMembersWhere>,
        sort_by: Option<String>,
        sort_order: Option<SortOrder>,
        limit: Option<i32>,
        offset: Option<i32>,
    ) -> (r: Result<GetMembersInput, SDKError>)
        ensures
            ({
                let valid = (match sort_by {
                    Some(s) => spec_allowed_sort_column(s@),
                    None => true,
                }) && (match limit {
                    Some(l) => l >= 0,
                    None => true,
                }) && (match offset {
                    Some(o) => o >= 0,
                    None => true,
                });
                if valid {
                    r is Ok && r->Ok_0 == (GetMembersInput { filter, sort_by, sort_order, limit, offset })
                        && r->Ok_0.wf()
                } else {
                    r is Err && r->Err_0 is QueryError
                }
            }),
    {
        if let Some(s) = &sort_by {
            if !is_allowed_sort_column(s) {
                return Err(SDKError::QueryError("sort column is not on the allowlist".to_owned()));
            }
        }
        if let Some(l) = &limit {
            if *l < 0 {
                return Err(SDKError::QueryError("limit must be non-negative".to_owned()));
            }
        }
        if let Some(o) = &offset {
            if *o < 0 {
                return Err(SDKError::QueryError("offset must be non-negative".to_owned()));
            }
        }
        Ok(GetMembersInput { filter, sort_by, sort_order, limit, offset })
    }
}

impl Default for GetMembersInput {
    /// A request with no filter and no sorting, paged with the default
    /// limit of one hundred rows from offset zero.
    fn default() -> (r: Self)
        ensures
            r.filter is None,
            r.sort_by is None,
            r.sort_order is None,
            r.limit == Some(100i32),
            r.offset == Some(0i32),
            r.wf(),
    {
        GetMembersInput {
            filter: None,
            sort_by: None,
            sort_order: None,
            limit: Some(100),
            offset: Some(0),
        }
    }
}

/// The limit the assembler uses: the requested one, or one hundred.
pub open spec fn spec_resolved_limit(l: Option<i32>) -> int {
    match l {
        Some(v) => v as int,
        None => 100,
    }
}

/// The offset the assembler uses: the requested one, or zero.
pub open spec fn spec_resolved_offset(o: Option<i32>) -> int {
    match o {
        Some(v) => v as int,
        None => 0,
    }
}

/// The condition the request's filter compiles to; empty without a
/// filter.
pub open spec fn spec_request_condition(input: GetMembersInput) -> Seq<char> {
    match input.filter {
        Some(w) => spec_compiled_condition(w),
        None => Seq::empty(),
    }
}

/// The parameter list of the assembled statement: exactly the compiled
/// predicate's parameters, in its order.
pub open spec fn spec_assembled_params(input: GetMembersInput) -> Seq<Seq<char>> {
    match input.filter {
        Some(w) => spec_compiled_params(w),
        None => Seq::empty(),
    }
}

/// The statement `assemble` produces: the base selection; a WHERE
/// fragment only when the compiled condition is non-empty; an ORDER BY
/// fragment only when a sort column is requested, ascending unless
/// said otherwise; and the resolved paging values as literals.
pub open spec fn spec_assembled_statement(table: Seq<char>, input: GetMembersInput) -> Seq<char> {
    let base = "SELECT * FROM "@ + table;
    let cond = spec_request_condition(input);
    let with_where = if cond.len() > 0 {
        base + " WHERE "@ + cond
    } else {
        base
    };
    let with_order = match input.sort_by {
        Some(col) => with_where + " ORDER BY "@ + col@ + " "@ + spec_sort_order_text(
            match input.sort_order {
                Some(o) => o,
                None => SortOrder::Asc,
            },
        ),
        None => with_where,
    };
    with_order + " LIMIT "@ + dec_str(spec_resolved_limit(input.limit) as nat) + " OFFSET "@
        + dec_str(spec_resolved_offset(input.offset) as nat)
}

impl GetMembersInput {
    /// Assembles the listing statement for `base_table` and returns it
    /// with the ordered values for its placeholders. Performs no I/O
    /// and never fails; a caller executes the statement and surfaces
    /// any driver failure as `QueryError` unchanged.
    pub fn assemble(&self, base_table: &str) -> (r: (String, Vec<String>))
        requires
            self.wf(),
        ensures
            r.0@ == spec_assembled_statement(base_table@, *self),
            r.1.deep_view() == spec_assembled_params(*self),
    {
        let mut out: String = "SELECT * FROM ".to_owned();
        out.append(base_table);
        let mut params: Vec<String> = Vec::new();
        if let Some(w) = &self.filter {
            let (c, mut p) = w.compile_sql();
            if !c.as_str().is_empty() {
                out.append(" WHERE ");
                out.append(c.as_str());
            }
            params.append(&mut p);
            proof {
                assert(params.deep_view() =~= spec_assembled_params(*self));
            }
        }
        if let Some(col) = &self.sort_by {
            out.append(" ORDER BY ");
            out.append(col.as_str());
            out.append(" ");
            let o = match &self.sort_order {
                Some(o) => *o,
                None => SortOrder::Asc,
            };
            out.append(o.as_str());
        }
        out.append(" LIMIT ");
        let limit: i32 = match &self.limit {
            Some(v) => *v,
            None => 100,
        };
        let limit_text = u32_to_string(limit as u32);
        out.append(limit_text.as_str());
        out.append(" OFFSET ");
        let offset: i32 = match &self.offset {
            Some(v) => *v,
            None => 0,
        };
        let offset_text = u32_to_string(offset as u32);
        out.append(offset_text.as_str());
        proof {
            assert(out@ =~= spec_assembled_statement(base_table@, *self));
        }
        (out, params)
    }
}

/// Leaving the paging values unset is the same as asking for the
/// default page: one hundred rows from offset zero.
pub proof fn lemma_assemble_default_paging(table: Seq<char>, input: GetMembersInput)
    requires
        input.limit is None,
        input.offset is None,
    ensures
        spec_assembled_statement(table, input) == spec_assembled_statement(
            table,
            GetMembersInput { limit: Some(100i32), offset: Some(0i32), ..input },
        ),
{
}

/// A request whose predicate compiles to nothing produces the same
/// statement as one with no predicate at all: no WHERE fragment is
/// emitted.
pub proof fn lemma_assemble_empty_predicate_no_where(table: Seq<char>, input: GetMembersInput)
    requires
        match input.filter {
            Some(w) => spec_compiled_condition(w).len() == 0,
            None => true,
        },
    ensures
        spec_assembled_statement(table, input) == spec_assembled_statement(
            table,
            GetMembersInput { filter: None, ..input },
        ),
{
}

} // verus!

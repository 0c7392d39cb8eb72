//! Member-facing inputs and the recursive predicate compiler. A filter
//! is a tree: equality constraints on member columns at each node, plus
//! nested AND and OR groups. `compile_sql` turns a tree into one
//! condition fragment and the ordered list of values to bind to its
//! placeholders; values never appear in the fragment itself.

use vstd::prelude::*;
use vstd::string::StringExecFns;

use crate::text::count_placeholders;
use crate::text::join_seqs;
use crate::text::join_with;
use crate::text::lemma_count_placeholders_add;
use crate::text::lemma_join_seqs_placeholders;
use crate::text::lemma_total_placeholders_add;
use crate::text::total_placeholders;

verus! {

broadcast use vstd::std_specs::vec::axiom_vec_index_decreases;

/// The role a member holds inside an organization.
#[derive(Clone, Copy, PartialEq, Eq, Structural, Debug)]
pub enum MemberRole {
    Admin,
    Member,
    ReadOnly,
}

/// The canonical column text for each role.
pub open spec fn spec_role_text(r: MemberRole) -> Seq<char> {
    match r {
        MemberRole::Admin => "admin"@,
        MemberRole::Member => "member"@,
        MemberRole::ReadOnly => "read_only"@,
    }
}

impl MemberRole {
    /// Renders the role as its canonical column text.
    pub fn as_str(&self) -> (r: &'static str)
        ensures
            r@ == spec_role_text(*self),
    {
        match self {
            MemberRole::Admin => "admin",
            MemberRole::Member => "member",
            MemberRole::ReadOnly => "read_only",
        }
    }
}

/// The fields of a member record to create. Role and credentials are
/// the caller's to choose; optional profile fields may stay empty.
pub struct CreateMemberInput {
    pub name: String,
    pub email: String,
    pub role: MemberRole,
    pub github_id: Option<String>,
    pub google_id: Option<String>,
    pub photo_url: Option<String>,
    pub password_hash: Option<String>,
}

/// A partial update of a member record: absent fields keep their
/// stored value.
pub struct UpdateMemberInput {
    pub name: Option<String>,
    pub email: Option<String>,
    pub role: Option<MemberRole>,
    pub github_id: Option<String>,
    pub google_id: Option<String>,
    pub photo_url: Option<String>,
    pub password_hash: Option<String>,
}

impl Default for UpdateMemberInput {
    /// An update that changes nothing.
    fn default() -> (r: Self)
        ensures
            r.name is None,
            r.email is None,
            r.role is None,
            r.github_id is None,
            r.google_id is None,
            r.photo_url is None,
            r.password_hash is None,
    {
        UpdateMemberInput {
            name: None,
            email: None,
            role: None,
            github_id: None,
            google_id: None,
            photo_url: None,
            password_hash: None,
        }
    }
}

/// A recursive filter over member records: equality constraints on the
/// columns of this node, and nested groups combined with AND and OR. A
/// node may mix leaf constraints and both kinds of children.
pub struct GetMembersWhere {
    pub name: Option<String>,
    pub email: Option<String>,
    pub role: Option<MemberRole>,
    pub github_id: Option<String>,
    pub google_id: Option<String>,
    pub photo_url: Option<String>,
    pub _and: Option<Vec<GetMembersWhere>>,
    pub _or: Option<Vec<GetMembersWhere>>,
}

impl Default for GetMembersWhere {
    /// An empty filter: no constraints and no nested groups.
    fn default() -> (r: Self)
        ensures
            r.name is None,
            r.email is None,
            r.role is None,
            r.github_id is None,
            r.google_id is None,
            r.photo_url is None,
            r._and is None,
            r._or is None,
    {
        GetMembersWhere {
            name: None,
            email: None,
            role: None,
            github_id: None,
            google_id: None,
            photo_url: None,
            _and: None,
            _or: None,
        }
    }
}

/// A one-element sequence when `present` holds, and an empty one
/// otherwise.
pub open spec fn opt_item<A>(present: bool, x: A) -> Seq<A> {
    if present {
        seq![x]
    } else {
        Seq::empty()
    }
}

/// The `column = ?` terms of the node's own constraints, in the fixed
/// canonical column order: name, email, role, github_id, google_id,
/// photo_url.
pub open spec fn spec_leaf_terms(w: GetMembersWhere) -> Seq<Seq<char>> {
    opt_item(w.name is Some, "name = ?"@) + opt_item(w.email is Some, "email = ?"@) + opt_item(
        w.role is Some,
        "role = ?"@,
    ) + opt_item(w.github_id is Some, "github_id = ?"@) + opt_item(
        w.google_id is Some,
        "google_id = ?"@,
    ) + opt_item(w.photo_url is Some, "photo_url = ?"@)
}

/// The values bound to the node's own terms, in the same canonical
/// order.
pub open spec fn spec_leaf_params(w: GetMembersWhere) -> Seq<Seq<char>> {
    opt_item(w.name is Some, w.name->0@) + opt_item(w.email is Some, w.email->0@) + opt_item(
        w.role is Some,
        spec_role_text(w.role->0),
    ) + opt_item(w.github_id is Some, w.github_id->0@) + opt_item(
        w.google_id is Some,
        w.google_id->0@,
    ) + opt_item(w.photo_url is Some, w.photo_url->0@)
}

/// A fragment wrapped in parentheses.
pub open spec fn spec_paren(s: Seq<char>) -> Seq<char> {
    "("@ + s + ")"@
}

/// The compiled conditions of the nodes of `cs` from position `i` on,
/// in order, skipping nodes that compile to an empty condition.
pub open spec fn spec_children_conds(cs: Vec<GetMembersWhere>, i: int) -> Seq<Seq<char>>
    decreases cs, cs.len() - i, 0int,
{
    if i < 0 || i >= cs.len() {
        Seq::empty()
    } else {
        let c = spec_compiled_condition(cs[i]);
        let rest = spec_children_conds(cs, i + 1);
        if c.len() == 0 {
            rest
        } else {
            seq![c] + rest
        }
    }
}

/// The items of the node's AND group: its own terms, then its AND
/// children's non-empty conditions.
pub open spec fn spec_and_items(w: GetMembersWhere) -> Seq<Seq<char>>
    decreases w, 0int, 0int,
{
    spec_leaf_terms(w) + match w._and {
        Some(av) => spec_children_conds(av, 0),
        None => Seq::empty(),
    }
}

/// The items of the node's OR group: its OR children's non-empty
/// conditions.
pub open spec fn spec_or_items(w: GetMembersWhere) -> Seq<Seq<char>>
    decreases w, 0int, 0int,
{
    match w._or {
        Some(ov) => spec_children_conds(ov, 0),
        None => Seq::empty(),
    }
}

/// The top-level combination: the AND group joined with `AND` and
/// parenthesized, the OR group joined with `OR` and parenthesized, the
/// two joined with `OR` (AND group first) when both are present, and
/// nothing when neither is.
pub open spec fn spec_combine_groups(a: Seq<Seq<char>>, o: Seq<Seq<char>>) -> Seq<char> {
    if a.len() > 0 && o.len() > 0 {
        spec_paren(join_seqs(a, " AND "@)) + " OR "@ + spec_paren(join_seqs(o, " OR "@))
    } else if a.len() > 0 {
        spec_paren(join_seqs(a, " AND "@))
    } else if o.len() > 0 {
        spec_paren(join_seqs(o, " OR "@))
    } else {
        Seq::empty()
    }
}

/// The condition `compile_sql` produces for `w`.
pub open spec fn spec_compiled_condition(w: GetMembersWhere) -> Seq<char>
    decreases w, 1int, 0int,
{
    spec_combine_groups(spec_and_items(w), spec_or_items(w))
}

/// The bound values of the nodes of `cs` from position `i` on,
/// concatenated in order.
pub open spec fn spec_children_params(cs: Vec<GetMembersWhere>, i: int) -> Seq<Seq<char>>
    decreases cs, cs.len() - i, 0int,
{
    if i < 0 || i >= cs.len() {
        Seq::empty()
    } else {
        spec_compiled_params(cs[i]) + spec_children_params(cs, i + 1)
    }
}

/// The bound values contributed by the node's AND children.
pub open spec fn spec_and_child_params(w: GetMembersWhere) -> Seq<Seq<char>>
    decreases w, 0int, 0int,
{
    match w._and {
        Some(av) => spec_children_params(av, 0),
        None => Seq::empty(),
    }
}

/// The bound values contributed by the node's OR children.
pub open spec fn spec_or_child_params(w: GetMembersWhere) -> Seq<Seq<char>>
    decreases w, 0int, 0int,
{
    match w._or {
        Some(ov) => spec_children_params(ov, 0),
        None => Seq::empty(),
    }
}

/// The parameter list `compile_sql` produces for `w`: the node's own
/// values, then the AND children's, then the OR children's, each group
/// in order of appearance — the order in which the corresponding terms
/// stand in the condition.
pub open spec fn spec_compiled_params(w: GetMembersWhere) -> Seq<Seq<char>>
    decreases w, 1int, 0int,
{
    spec_leaf_params(w) + spec_and_child_params(w) + spec_or_child_params(w)
}

impl GetMembersWhere {
    /// Pushes the node's own `column = ?` terms and their values, in
    /// the canonical column order.
    #[verifier::rlimit(50)]
    fn push_leaf_constraints(&self, terms: &mut Vec<String>, params: &mut Vec<String>)
        ensures
            final(terms).deep_view() == old(terms).deep_view() + spec_leaf_terms(*self),
            final(params).deep_view() == old(params).deep_view() + spec_leaf_params(*self),
    {
        let ghost terms0 = terms.deep_view();
        let ghost params0 = params.deep_view();
        if let Some(name) = &self.name {
            terms.push("name = ?".to_owned());
            params.push(name.clone());
        }
        if let Some(email) = &self.email {
            terms.push("email = ?".to_owned());
            params.push(email.clone());
        }
        if let Some(role) = &self.role {
            terms.push("role = ?".to_owned());
            params.push(role.as_str().to_owned());
        }
        if let Some(github_id) = &self.github_id {
            terms.push("github_id = ?".to_owned());
            params.push(github_id.clone());
        }
        if let Some(google_id) = &self.google_id {
            terms.push("google_id = ?".to_owned());
            params.push(google_id.clone());
        }
        if let Some(photo_url) = &self.photo_url {
            terms.push("photo_url = ?".to_owned());
            params.push(photo_url.clone());
        }
        proof {
            assert(terms.deep_view() =~= terms0 + spec_leaf_terms(*self));
            assert(params.deep_view() =~= params0 + spec_leaf_params(*self));
        }
    }

    /// Compiles the filter into a condition fragment and the ordered
    /// values for its placeholders. Constraint values are never
    /// interpolated into the text: each present column becomes a
    /// `column = ?` term, and the value is returned in the parameter
    /// list at the matching position.
    pub fn compile_sql(&self) -> (r: (String, Vec<String>))
        ensures
            r.0@ == spec_compiled_condition(*self),
            r.1.deep_view() == spec_compiled_params(*self),
        decreases *self,
    {
        let mut and_clauses: Vec<String> = Vec::new();
        let mut or_clauses: Vec<String> = Vec::new();
        let mut params: Vec<String> = Vec::new();

        self.push_leaf_constraints(&mut and_clauses, &mut params);
        proof {
            assert(and_clauses.deep_view() =~= spec_leaf_terms(*self));
            assert(params.deep_view() =~= spec_leaf_params(*self));
        }

        if let Some(av) = &self._and {
            let mut i: usize = 0;
            while i < av.len()
                invariant
                    i <= av.len(),
                    self._and == Some(*av),
                    or_clauses@.len() == 0,
                    and_clauses.deep_view() + spec_children_conds(*av, i as int)
                        == spec_leaf_terms(*self) + spec_children_conds(*av, 0),
                    params.deep_view() + spec_children_params(*av, i as int) == spec_leaf_params(
                        *self,
                    ) + spec_children_params(*av, 0),
                decreases av.len() - i,
            {
                let ghost prev_clauses = and_clauses.deep_view();
                let ghost prev_params = params.deep_view();
                let child = &av[i];
                proof {
                    assert(decreases_to!(*self => self._and));
                    assert(decreases_to!(self._and => self._and->0));
                    assert(decreases_to!(*av => (*av)[i as int]));
                }
                let (c, mut p) = child.compile_sql();
                if !c.as_str().is_empty() {
                    and_clauses.push(c);
                }
                params.append(&mut p);
                proof {
                    let cond = spec_compiled_condition((*av)[i as int]);
                    let rest = spec_children_conds(*av, i + 1);
                    if cond.len() == 0 {
                        assert(and_clauses.deep_view() =~= prev_clauses);
                    } else {
                        assert(and_clauses.deep_view() =~= prev_clauses + seq![cond]);
                        assert((prev_clauses + seq![cond]) + rest =~= prev_clauses + (
                        seq![cond] + rest));
                    }
                    assert(params.deep_view() =~= prev_params + spec_compiled_params(
                        (*av)[i as int],
                    ));
                    assert((prev_params + spec_compiled_params((*av)[i as int]))
                        + spec_children_params(*av, i + 1) =~= prev_params + (spec_compiled_params(
                        (*av)[i as int],
                    ) + spec_children_params(*av, i + 1)));
                }
                i += 1;
            }
        }
        proof {
            assert(and_clauses.deep_view() == spec_and_items(*self)) by {
                match self._and {
                    Some(av) => {
                        assert(spec_children_conds(av, av.len() as int) =~= Seq::<
                            Seq<char>,
                        >::empty());
                        assert(and_clauses.deep_view() + Seq::<Seq<char>>::empty()
                            =~= and_clauses.deep_view());
                        assert(spec_leaf_terms(*self) + spec_children_conds(av, 0)
                            == spec_and_items(*self));
                    },
                    None => {
                        assert(spec_leaf_terms(*self) + Seq::<Seq<char>>::empty()
                            =~= spec_leaf_terms(*self));
                    },
                }
            }
            assert(params.deep_view() == spec_leaf_params(*self) + spec_and_child_params(*self))
                by {
                match self._and {
                    Some(av) => {
                        assert(spec_children_params(av, av.len() as int) =~= Seq::<
                            Seq<char>,
                        >::empty());
                        assert(params.deep_view() + Seq::<Seq<char>>::empty()
                            =~= params.deep_view());
                    },
                    None => {
                        assert(spec_leaf_params(*self) + Seq::<Seq<char>>::empty()
                            =~= spec_leaf_params(*self));
                    },
                }
            }
        }

        let ghost mid_params = params.deep_view();
        if let Some(ov) = &self._or {
            let mut i: usize = 0;
            while i < ov.len()
                invariant
                    i <= ov.len(),
                    self._or == Some(*ov),
                    or_clauses.deep_view() + spec_children_conds(*ov, i as int)
                        == spec_children_conds(*ov, 0),
                    params.deep_view() + spec_children_params(*ov, i as int) == mid_params
                        + spec_children_params(*ov, 0),
                decreases ov.len() - i,
            {
                let ghost prev_clauses = or_clauses.deep_view();
                let ghost prev_params = params.deep_view();
                let child = &ov[i];
                proof {
                    assert(decreases_to!(*self => self._or));
                    assert(decreases_to!(self._or => self._or->0));
                    assert(decreases_to!(*ov => (*ov)[i as int]));
                }
                let (c, mut p) = child.compile_sql();
                if !c.as_str().is_empty() {
                    or_clauses.push(c);
                }
                params.append(&mut p);
                proof {
                    let cond = spec_compiled_condition((*ov)[i as int]);
                    let rest = spec_children_conds(*ov, i + 1);
                    if cond.len() == 0 {
                        assert(or_clauses.deep_view() =~= prev_clauses);
                    } else {
                        assert(or_clauses.deep_view() =~= prev_clauses + seq![cond]);
                        assert((prev_clauses + seq![cond]) + rest =~= prev_clauses + (
                        seq![cond] + rest));
                    }
                    assert(params.deep_view() =~= prev_params + spec_compiled_params(
                        (*ov)[i as int],
                    ));
                    assert((prev_params + spec_compiled_params((*ov)[i as int]))
                        + spec_children_params(*ov, i + 1) =~= prev_params + (spec_compiled_params(
                        (*ov)[i as int],
                    ) + spec_children_params(*ov, i + 1)));
                }
                i += 1;
            }
        }
        proof {
            assert(or_clauses.deep_view() == spec_or_items(*self)) by {
                match self._or {
                    Some(ov) => {
                        assert(spec_children_conds(ov, ov.len() as int) =~= Seq::<
                            Seq<char>,
                        >::empty());
                        assert(or_clauses.deep_view() + Seq::<Seq<char>>::empty()
                            =~= or_clauses.deep_view());
                    },
                    None => {
                        assert(or_clauses.deep_view() =~= Seq::<Seq<char>>::empty());
                    },
                }
            }
            assert(params.deep_view() == spec_compiled_params(*self)) by {
                match self._or {
                    Some(ov) => {
                        assert(spec_children_params(ov, ov.len() as int) =~= Seq::<
                            Seq<char>,
                        >::empty());
                        assert(params.deep_view() + Seq::<Seq<char>>::empty()
                            =~= params.deep_view());
                    },
                    None => {
                        assert(mid_params + Seq::<Seq<char>>::empty() =~= mid_params);
                    },
                }
            }
        }

        let out = combine_groups(&and_clauses, &or_clauses);
        (out, params)
    }
}

/// Builds the top-level combination of the two groups, exactly as
/// `spec_combine_groups` describes on the fragments' views.
fn combine_groups(and_clauses: &Vec<String>, or_clauses: &Vec<String>) -> (r: String)
    ensures
        r@ == spec_combine_groups(and_clauses.deep_view(), or_clauses.deep_view()),
{
    let mut out = String::new();
    if and_clauses.len() > 0 {
        out.append("(");
        let joined = join_with(&and_clauses, " AND ");
        out.append(joined.as_str());
        out.append(")");
    }
    if or_clauses.len() > 0 {
        proof {
            reveal_strlit("(");
        }
        if !out.as_str().is_empty() {
            out.append(" OR ");
        }
        out.append("(");
        let joined = join_with(&or_clauses, " OR ");
        out.append(joined.as_str());
        out.append(")");
    }
    proof {
        assert(out@ =~= spec_combine_groups(and_clauses.deep_view(), or_clauses.deep_view()));
    }
    out
}

/// A filter with no leaf constraints and no nested nodes on either
/// branch compiles to an empty condition and an empty parameter list.
pub proof fn lemma_empty_filter_compiles_empty(w: GetMembersWhere)
    requires
        w.name is None,
        w.email is None,
        w.role is None,
        w.github_id is None,
        w.google_id is None,
        w.photo_url is None,
        match w._and {
            Some(av) => av@.len() == 0,
            None => true,
        },
        match w._or {
            Some(ov) => ov@.len() == 0,
            None => true,
        },
    ensures
        spec_compiled_condition(w) == Seq::<char>::empty(),
        spec_compiled_params(w) == Seq::<Seq<char>>::empty(),
{
    assert(spec_leaf_terms(w) =~= Seq::<Seq<char>>::empty());
    assert(spec_leaf_params(w) =~= Seq::<Seq<char>>::empty());
    assert(spec_and_items(w) =~= Seq::<Seq<char>>::empty());
    assert(spec_or_items(w) =~= Seq::<Seq<char>>::empty());
    assert(spec_and_child_params(w) =~= Seq::<Seq<char>>::empty());
    assert(spec_or_child_params(w) =~= Seq::<Seq<char>>::empty());
    assert(spec_compiled_params(w) =~= Seq::<Seq<char>>::empty());
}

proof fn lemma_fragment_placeholder_counts()
    ensures
        count_placeholders("name = ?"@) == 1,
        count_placeholders("email = ?"@) == 1,
        count_placeholders("role = ?"@) == 1,
        count_placeholders("github_id = ?"@) == 1,
        count_placeholders("google_id = ?"@) == 1,
        count_placeholders("photo_url = ?"@) == 1,
        count_placeholders(" AND "@) == 0,
        count_placeholders(" OR "@) == 0,
        count_placeholders("("@) == 0,
        count_placeholders(")"@) == 0,
{
    reveal_strlit("name = ?");
    reveal_strlit("email = ?");
    reveal_strlit("role = ?");
    reveal_strlit("github_id = ?");
    reveal_strlit("google_id = ?");
    reveal_strlit("photo_url = ?");
    reveal_strlit(" AND ");
    reveal_strlit(" OR ");
    reveal_strlit("(");
    reveal_strlit(")");
    reveal_with_fuel(count_placeholders, 16);
}

proof fn lemma_total_singleton(x: Seq<char>)
    ensures
        total_placeholders(seq![x]) == count_placeholders(x),
{
    assert(seq![x].drop_first() =~= Seq::<Seq<char>>::empty());
    reveal_with_fuel(total_placeholders, 2);
}

proof fn lemma_opt_item_placeholders(present: bool, x: Seq<char>)
    ensures
        total_placeholders(opt_item(present, x)) == if present {
            count_placeholders(x)
        } else {
            0
        },
        opt_item(present, x).len() == if present {
            1int
        } else {
            0int
        },
{
    if present {
        lemma_total_singleton(x);
    }
}

proof fn lemma_leaf_placeholders(w: GetMembersWhere)
    ensures
        total_placeholders(spec_leaf_terms(w)) == spec_leaf_params(w).len(),
{
    lemma_fragment_placeholder_counts();
    let t1 = opt_item(w.name is Some, "name = ?"@);
    let t2 = opt_item(w.email is Some, "email = ?"@);
    let t3 = opt_item(w.role is Some, "role = ?"@);
    let t4 = opt_item(w.github_id is Some, "github_id = ?"@);
    let t5 = opt_item(w.google_id is Some, "google_id = ?"@);
    let t6 = opt_item(w.photo_url is Some, "photo_url = ?"@);
    lemma_opt_item_placeholders(w.name is Some, "name = ?"@);
    lemma_opt_item_placeholders(w.email is Some, "email = ?"@);
    lemma_opt_item_placeholders(w.role is Some, "role = ?"@);
    lemma_opt_item_placeholders(w.github_id is Some, "github_id = ?"@);
    lemma_opt_item_placeholders(w.google_id is Some, "google_id = ?"@);
    lemma_opt_item_placeholders(w.photo_url is Some, "photo_url = ?"@);
    lemma_total_placeholders_add(t1, t2);
    lemma_total_placeholders_add(t1 + t2, t3);
    lemma_total_placeholders_add(t1 + t2 + t3, t4);
    lemma_total_placeholders_add(t1 + t2 + t3 + t4, t5);
    lemma_total_placeholders_add(t1 + t2 + t3 + t4 + t5, t6);
}

proof fn lemma_paren_placeholders(s: Seq<char>)
    ensures
        count_placeholders(spec_paren(s)) == count_placeholders(s),
{
    lemma_fragment_placeholder_counts();
    lemma_count_placeholders_add("("@, s);
    lemma_count_placeholders_add("("@ + s, ")"@);
}

proof fn lemma_children_placeholders(cs: Vec<GetMembersWhere>, i: int)
    ensures
        total_placeholders(spec_children_conds(cs, i)) == spec_children_params(cs, i).len(),
    decreases cs, cs.len() - i,
{
    if i < 0 || i >= cs.len() {
    } else {
        lemma_placeholders_match_params(cs[i]);
        lemma_children_placeholders(cs, i + 1);
        let c = spec_compiled_condition(cs[i]);
        let rest = spec_children_conds(cs, i + 1);
        if c.len() > 0 {
            lemma_total_placeholders_add(seq![c], rest);
            lemma_total_singleton(c);
        }
    }
}

/// Positional alignment: the compiled condition carries exactly one
/// placeholder per returned parameter, for every filter, so binding the
/// values in order lines each one up with the term it belongs to.
pub proof fn lemma_placeholders_match_params(w: GetMembersWhere)
    ensures
        count_placeholders(spec_compiled_condition(w)) == spec_compiled_params(w).len(),
    decreases w, 2int,
{
    lemma_fragment_placeholder_counts();
    lemma_leaf_placeholders(w);
    match w._and {
        Some(av) => {
            lemma_children_placeholders(av, 0);
            lemma_total_placeholders_add(spec_leaf_terms(w), spec_children_conds(av, 0));
        },
        None => {
            lemma_total_placeholders_add(spec_leaf_terms(w), Seq::<Seq<char>>::empty());
        },
    }
    match w._or {
        Some(ov) => {
            lemma_children_placeholders(ov, 0);
        },
        None => {
        },
    }
    let a = spec_and_items(w);
    let o = spec_or_items(w);
    assert(total_placeholders(a) == spec_leaf_params(w).len() + spec_and_child_params(w).len());
    assert(total_placeholders(o) == spec_or_child_params(w).len());
    lemma_join_seqs_placeholders(a, " AND "@);
    lemma_join_seqs_placeholders(o, " OR "@);
    let ja = join_seqs(a, " AND "@);
    let jo = join_seqs(o, " OR "@);
    lemma_paren_placeholders(ja);
    lemma_paren_placeholders(jo);
    if a.len() > 0 && o.len() > 0 {
        lemma_count_placeholders_add(spec_paren(ja), " OR "@);
        lemma_count_placeholders_add(spec_paren(ja) + " OR "@, spec_paren(jo));
    }
}

/// A filter that compiles to an empty condition binds no parameters.
pub proof fn lemma_empty_condition_binds_nothing(w: GetMembersWhere)
    requires
        spec_compiled_condition(w).len() == 0,
    ensures
        spec_compiled_params(w).len() == 0,
{
    lemma_placeholders_match_params(w);
}

/// When a node has both a non-empty AND group and a non-empty OR
/// group, the compiled condition is the parenthesized AND group, then
/// `OR`, then the parenthesized OR group — and the parameters are
/// ordered AND-group-first, then OR-group.
pub proof fn lemma_mixed_groups_shape(w: GetMembersWhere)
    requires
        spec_and_items(w).len() > 0,
        spec_or_items(w).len() > 0,
    ensures
        spec_compiled_condition(w) == spec_paren(join_seqs(spec_and_items(w), " AND "@)) + " OR "@
            + spec_paren(join_seqs(spec_or_items(w), " OR "@)),
        spec_compiled_params(w) == (spec_leaf_params(w) + spec_and_child_params(w))
            + spec_or_child_params(w),
{
}

} // verus!

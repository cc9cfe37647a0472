//! The static shape of a query: an expression tree that renders to SQL text
//! with `?` placeholders, collects its bind parameters, and decides whether
//! the rendered text and bind count are invariant across invocations — the
//! cacheability policy of the statement cache.

use vstd::prelude::*;

verus! {

/// One node of a query expression.
///
/// - `Bind` is a runtime value; it renders as a `?` placeholder.
/// - `RawSql` is a caller-supplied SQL fragment; its text may differ between
///   invocations of the same logical query, so it disqualifies caching.
/// - `InValues` is a set-membership predicate over a runtime-provided list;
///   its placeholder count depends on the list length, so it disqualifies
///   caching.
/// - `InSelect` is a set-membership predicate over a sub-query; it renders
///   to fixed text and stays cacheable.
pub enum Expr {
    Bind(i64),
    RawSql(String),
    Equals(Box<Expr>, Box<Expr>),
    InValues(Box<Expr>, Vec<i64>),
    InSelect(Box<Expr>, Box<Expr>),
}

/// A whole query: `SELECT` over one expression.
pub struct SelectStatement {
    pub selection: Expr,
}

/// `n` comma-separated placeholders: one `?` per value of a runtime list.
pub open spec fn spec_placeholders(n: nat) -> Seq<char>
    decreases n,
{
    if n == 0 {
        Seq::<char>::empty()
    } else if n == 1 {
        seq!['?']
    } else {
        spec_placeholders((n - 1) as nat) + seq![',', '?']
    }
}

/// The SQL text an expression renders to. Binds render as placeholders, so
/// the text depends only on the query's static shape — except under
/// `RawSql`, whose text is caller-supplied, and `InValues`, whose
/// placeholder count follows the list length.
pub open spec fn spec_expr_sql(e: Expr) -> Seq<char>
    decreases e,
{
    match e {
        Expr::Bind(_) => seq!['?'],
        Expr::RawSql(s) => s@,
        Expr::Equals(a, b) => spec_expr_sql(*a) + seq![' ', '=', ' '] + spec_expr_sql(*b),
        Expr::InValues(a, vs) => spec_expr_sql(*a) + " IN ("@ + spec_placeholders(
            vs@.len(),
        ) + seq![')'],
        Expr::InSelect(a, b) => spec_expr_sql(*a) + " IN (SELECT "@ + spec_expr_sql(*b)
            + seq![')'],
    }
}

/// Whether the expression's rendered text and bind count are invariant
/// across invocations with the same fingerprint.
pub open spec fn spec_cacheable(e: Expr) -> bool
    decreases e,
{
    match e {
        Expr::Bind(_) => true,
        Expr::RawSql(_) => false,
        Expr::Equals(a, b) => spec_cacheable(*a) && spec_cacheable(*b),
        Expr::InValues(_, _) => false,
        Expr::InSelect(a, b) => spec_cacheable(*a) && spec_cacheable(*b),
    }
}

/// The bind parameters an expression contributes, in rendering order.
pub open spec fn spec_binds(e: Expr) -> Seq<i64>
    decreases e,
{
    match e {
        Expr::Bind(v) => seq![v],
        Expr::RawSql(_) => Seq::<i64>::empty(),
        Expr::Equals(a, b) => spec_binds(*a) + spec_binds(*b),
        Expr::InValues(a, vs) => spec_binds(*a) + vs@,
        Expr::InSelect(a, b) => spec_binds(*a) + spec_binds(*b),
    }
}

/// Whether a raw SQL fragment occurs anywhere in the expression.
pub open spec fn spec_contains_raw_sql(e: Expr) -> bool
    decreases e,
{
    match e {
        Expr::Bind(_) => false,
        Expr::RawSql(_) => true,
        Expr::Equals(a, b) => spec_contains_raw_sql(*a) || spec_contains_raw_sql(*b),
        Expr::InValues(a, _) => spec_contains_raw_sql(*a),
        Expr::InSelect(a, b) => spec_contains_raw_sql(*a) || spec_contains_raw_sql(*b),
    }
}

/// Whether a set-membership predicate over a runtime list occurs anywhere
/// in the expression.
pub open spec fn spec_contains_in_values(e: Expr) -> bool
    decreases e,
{
    match e {
        Expr::Bind(_) => false,
        Expr::RawSql(_) => false,
        Expr::Equals(a, b) => spec_contains_in_values(*a) || spec_contains_in_values(*b),
        Expr::InValues(_, _) => true,
        Expr::InSelect(a, b) => spec_contains_in_values(*a) || spec_contains_in_values(*b),
    }
}

/// Law: a query containing a raw SQL fragment, anywhere in its tree, is
/// never cacheable.
pub proof fn lemma_raw_sql_never_cacheable(e: Expr)
    requires
        spec_contains_raw_sql(e),
    ensures
        !spec_cacheable(e),
    decreases e,
{
    match e {
        Expr::Equals(a, b) => {
            if spec_contains_raw_sql(*a) {
                lemma_raw_sql_never_cacheable(*a);
            } else {
                lemma_raw_sql_never_cacheable(*b);
            }
        },
        Expr::InSelect(a, b) => {
            if spec_contains_raw_sql(*a) {
                lemma_raw_sql_never_cacheable(*a);
            } else {
                lemma_raw_sql_never_cacheable(*b);
            }
        },
        _ => {},
    }
}

/// Law: a query with a set-membership predicate over a runtime-provided
/// list, anywhere in its tree, is never cacheable — regardless of the
/// list's length.
pub proof fn lemma_in_values_never_cacheable(e: Expr)
    requires
        spec_contains_in_values(e),
    ensures
        !spec_cacheable(e),
    decreases e,
{
    match e {
        Expr::Equals(a, b) => {
            if spec_contains_in_values(*a) {
                lemma_in_values_never_cacheable(*a);
            } else {
                lemma_in_values_never_cacheable(*b);
            }
        },
        Expr::InSelect(a, b) => {
            if spec_contains_in_values(*a) {
                lemma_in_values_never_cacheable(*a);
            } else {
                lemma_in_values_never_cacheable(*b);
            }
        },
        _ => {},
    }
}

/// Law: the two disqualifying constructs are the only ones. A query free of
/// raw SQL fragments and of runtime-list membership predicates is cacheable;
/// in particular a membership predicate over a sub-query does not disqualify
/// it.
pub proof fn lemma_static_shape_cacheable(e: Expr)
    requires
        !spec_contains_raw_sql(e),
        !spec_contains_in_values(e),
    ensures
        spec_cacheable(e),
    decreases e,
{
    match e {
        Expr::Equals(a, b) => {
            lemma_static_shape_cacheable(*a);
            lemma_static_shape_cacheable(*b);
        },
        Expr::InSelect(a, b) => {
            lemma_static_shape_cacheable(*a);
            lemma_static_shape_cacheable(*b);
        },
        _ => {},
    }
}

impl Expr {
    /// Renders this expression at the end of `out`.
    fn to_sql_into(&self, out: &mut String)
        ensures
            final(out)@ == old(out)@ + spec_expr_sql(*self),
        decreases *self,
    {
        match self {
            Expr::Bind(_) => {
                out.append("?");
                proof {
                    reveal_strlit("?");
                    assert(out@ =~= old(out)@ + spec_expr_sql(*self));
                }
            },
            Expr::RawSql(s) => {
                out.append(s.as_str());
            },
            Expr::Equals(a, b) => {
                a.to_sql_into(out);
                out.append(" = ");
                b.to_sql_into(out);
                proof {
                    reveal_strlit(" = ");
                    assert(" = "@ =~= seq![' ', '=', ' ']);
                    assert(out@ =~= old(out)@ + spec_expr_sql(*self));
                }
            },
            Expr::InValues(a, vs) => {
                a.to_sql_into(out);
                out.append(" IN (");
                let n = vs.len();
                let mut i: usize = 0;
                while i < n
                    invariant
                        i <= n,
                        out@ == old(out)@ + spec_expr_sql(**a) + " IN ("@ + spec_placeholders(
                            i as nat,
                        ),
                    decreases n - i,
                {
                    if i == 0 {
                        out.append("?");
                        proof {
                            reveal_strlit("?");
                            assert(spec_placeholders(1) =~= seq!['?']);
                            assert(out@ =~= old(out)@ + spec_expr_sql(**a) + " IN ("@
                                + spec_placeholders((i + 1) as nat));
                        }
                    } else {
                        out.append(",?");
                        proof {
                            reveal_strlit(",?");
                            assert(",?"@ =~= seq![',', '?']);
                            assert(out@ =~= old(out)@ + spec_expr_sql(**a) + " IN ("@
                                + spec_placeholders((i + 1) as nat));
                        }
                    }
                    i = i + 1;
                }
                out.append(")");
                proof {
                    reveal_strlit(")");
                    assert(")"@ =~= seq![')']);
                    assert(out@ =~= old(out)@ + spec_expr_sql(*self));
                }
            },
            Expr::InSelect(a, b) => {
                a.to_sql_into(out);
                out.append(" IN (SELECT ");
                b.to_sql_into(out);
                out.append(")");
                proof {
                    reveal_strlit(")");
                    assert(")"@ =~= seq![')']);
                    assert(out@ =~= old(out)@ + spec_expr_sql(*self));
                }
            },
        }
    }

    /// Whether this query shape may share one prepared statement across
    /// invocations.
    pub fn is_safe_to_cache(&self) -> (r: bool)
        ensures
            r == spec_cacheable(*self),
        decreases *self,
    {
        match self {
            Expr::Bind(_) => true,
            Expr::RawSql(_) => false,
            Expr::Equals(a, b) => a.is_safe_to_cache() && b.is_safe_to_cache(),
            Expr::InValues(_, _) => false,
            Expr::InSelect(a, b) => a.is_safe_to_cache() && b.is_safe_to_cache(),
        }
    }

    /// Appends this expression's bind parameters, in rendering order.
    fn collect_binds_into(&self, out: &mut Vec<i64>)
        ensures
            final(out)@ == old(out)@ + spec_binds(*self),
        decreases *self,
    {
        match self {
            Expr::Bind(v) => {
                out.push(*v);
                assert(out@ =~= old(out)@ + spec_binds(*self));
            },
            Expr::RawSql(_) => {
                assert(out@ =~= old(out)@ + spec_binds(*self));
            },
            Expr::Equals(a, b) => {
                a.collect_binds_into(out);
                b.collect_binds_into(out);
                assert(out@ =~= old(out)@ + spec_binds(*self));
            },
            Expr::InValues(a, vs) => {
                a.collect_binds_into(out);
                let n = vs.len();
                let mut i: usize = 0;
                while i < n
                    invariant
                        i <= n,
                        vs@.len() == n,
                        out@ == old(out)@ + spec_binds(**a) + vs@.take(i as int),
                    decreases n - i,
                {
                    out.push(vs[i]);
                    assert(vs@.take(i + 1 as int) =~= vs@.take(i as int).push(vs@[i as int]));
                    i = i + 1;
                }
                assert(vs@.take(n as int) =~= vs@);
                assert(out@ =~= old(out)@ + spec_binds(*self));
            },
            Expr::InSelect(a, b) => {
                a.collect_binds_into(out);
                b.collect_binds_into(out);
                assert(out@ =~= old(out)@ + spec_binds(*self));
            },
        }
    }
}

/// The SQL text a whole query renders to.
pub open spec fn spec_select_sql(q: SelectStatement) -> Seq<char> {
    "SELECT "@ + spec_expr_sql(q.selection)
}

impl SelectStatement {
    /// Renders this query to its SQL text — the query's fingerprint.
    pub fn to_sql(&self) -> (s: String)
        ensures
            s@ == spec_select_sql(*self),
    {
        let mut out = String::new();
        out.append("SELECT ");
        self.selection.to_sql_into(&mut out);
        out
    }

    /// Whether this query may share one prepared statement across
    /// invocations.
    pub fn is_safe_to_cache(&self) -> (r: bool)
        ensures
            r == spec_cacheable(self.selection),
    {
        self.selection.is_safe_to_cache()
    }

    /// This query's bind parameters, in rendering order.
    pub fn collect_binds(&self) -> (binds: Vec<i64>)
        ensures
            binds@ == spec_binds(self.selection),
    {
        let mut out: Vec<i64> = Vec::new();
        self.selection.collect_binds_into(&mut out);
        assert(out@ =~= spec_binds(self.selection));
        out
    }
}

} // verus!

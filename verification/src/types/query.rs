//! The read-query builder: a [`Query`] collects a find-list, a
//! where-clause and the optional sections, validates every cross-reference
//! between them at the moment a section is supplied, and serializes to the
//! fixed query wire grammar.  [`Aggregate`] is the closed set of aggregate
//! operators a find-list may carry instead of plain variables.

use crate::text::{
    contains_chars, dec_digits, eq_ignore_ascii, even_elements, evens, field_after_space,
    field_before_space, first_space_idx, has_substring, join_strings, join_strs, join_with,
    lower_eq, push_dec, remove_char, remove_char_str, space_tokens, split_first_field,
    split_second_field, split_space_tokens, starts_with, starts_with_char, str_chars, strip_inst,
    strip_inst_str,
};
use crate::types::error::CruxError;
use vstd::prelude::*;

verus! {

/// An aggregate operator wrapping a query variable, usable in a
/// find-list in place of a plain variable.
#[derive(Debug, Clone)]
pub enum Aggregate {
    /// Accumulates a single value by summation.
    Sum(String),
    /// The single minimal value.
    Min(String),
    /// The single maximal value.
    Max(String),
    /// A sorted set of the N minimum items; N is a positive count.
    MinN(usize, String),
    /// A sorted set of the N maximum items; N is a positive count.
    MaxN(usize, String),
    /// A single count of all values, duplicates included.
    Count(String),
    /// A single count of all distinct values.
    CountDistinct(String),
    /// The arithmetic mean.
    Avg(String),
    /// The statistical median.
    Median(String),
    /// The statistical variance.
    Variance(String),
    /// The statistical standard deviation.
    Stddev(String),
    /// A vector of exactly N values, possibly with duplicates.
    Rand(usize, String),
    /// A vector of at most N distinct values.
    Sample(usize, String),
    /// The set of distinct values.
    Distinct(String),
}

impl Aggregate {
    /// The variable token the aggregate wraps.
    pub open spec fn spec_variable(self) -> Seq<char> {
        match self {
            Aggregate::Sum(s) => s@,
            Aggregate::Min(s) => s@,
            Aggregate::Max(s) => s@,
            Aggregate::MinN(_, s) => s@,
            Aggregate::MaxN(_, s) => s@,
            Aggregate::Count(s) => s@,
            Aggregate::CountDistinct(s) => s@,
            Aggregate::Avg(s) => s@,
            Aggregate::Median(s) => s@,
            Aggregate::Variance(s) => s@,
            Aggregate::Stddev(s) => s@,
            Aggregate::Rand(_, s) => s@,
            Aggregate::Sample(_, s) => s@,
            Aggregate::Distinct(s) => s@,
        }
    }

    /// The parenthesized functional form the aggregate renders to inside
    /// a find-list: `(<op> <var>)`, or `(<op> <n> <var>)` for the counted
    /// forms.
    pub open spec fn spec_render(self) -> Seq<char> {
        match self {
            Aggregate::Sum(s) => "(sum "@ + s@ + ")"@,
            Aggregate::Min(s) => "(min "@ + s@ + ")"@,
            Aggregate::Max(s) => "(max "@ + s@ + ")"@,
            Aggregate::MinN(n, s) => "(min "@ + dec_digits(n as nat) + " "@ + s@ + ")"@,
            Aggregate::MaxN(n, s) => "(max "@ + dec_digits(n as nat) + " "@ + s@ + ")"@,
            Aggregate::Count(s) => "(count "@ + s@ + ")"@,
            Aggregate::CountDistinct(s) => "(count-distinct "@ + s@ + ")"@,
            Aggregate::Avg(s) => "(avg "@ + s@ + ")"@,
            Aggregate::Median(s) => "(median "@ + s@ + ")"@,
            Aggregate::Variance(s) => "(variance "@ + s@ + ")"@,
            Aggregate::Stddev(s) => "(stddev "@ + s@ + ")"@,
            Aggregate::Rand(n, s) => "(rand "@ + dec_digits(n as nat) + " "@ + s@ + ")"@,
            Aggregate::Sample(n, s) => "(sample "@ + dec_digits(n as nat) + " "@ + s@ + ")"@,
            Aggregate::Distinct(s) => "(distinct "@ + s@ + ")"@,
        }
    }

    /// The variable token the aggregate wraps.
    pub fn string_value(&self) -> (r: String)
        ensures
            r@ == self.spec_variable(),
    {
        match self {
            Aggregate::Sum(s) => s.clone(),
            Aggregate::Min(s) => s.clone(),
            Aggregate::Max(s) => s.clone(),
            Aggregate::MinN(_, s) => s.clone(),
            Aggregate::MaxN(_, s) => s.clone(),
            Aggregate::Count(s) => s.clone(),
            Aggregate::CountDistinct(s) => s.clone(),
            Aggregate::Avg(s) => s.clone(),
            Aggregate::Median(s) => s.clone(),
            Aggregate::Variance(s) => s.clone(),
            Aggregate::Stddev(s) => s.clone(),
            Aggregate::Rand(_, s) => s.clone(),
            Aggregate::Sample(_, s) => s.clone(),
            Aggregate::Distinct(s) => s.clone(),
        }
    }

    /// Renders the parenthesized functional form of the aggregate.
    pub fn serialize(&self) -> (r: String)
        ensures
            r@ == self.spec_render(),
    {
        let mut r = String::new();
        match self {
            Aggregate::Sum(s) => {
                r.append("(sum ");
                r.append(s.as_str());
                r.append(")");
            },
            Aggregate::Min(s) => {
                r.append("(min ");
                r.append(s.as_str());
                r.append(")");
            },
            Aggregate::Max(s) => {
                r.append("(max ");
                r.append(s.as_str());
                r.append(")");
            },
            Aggregate::MinN(n, s) => {
                r.append("(min ");
                push_dec(&mut r, *n as u64);
                r.append(" ");
                r.append(s.as_str());
                r.append(")");
            },
            Aggregate::MaxN(n, s) => {
                r.append("(max ");
                push_dec(&mut r, *n as u64);
                r.append(" ");
                r.append(s.as_str());
                r.append(")");
            },
            Aggregate::Count(s) => {
                r.append("(count ");
                r.append(s.as_str());
                r.append(")");
            },
            Aggregate::CountDistinct(s) => {
                r.append("(count-distinct ");
                r.append(s.as_str());
                r.append(")");
            },
            Aggregate::Avg(s) => {
                r.append("(avg ");
                r.append(s.as_str());
                r.append(")");
            },
            Aggregate::Median(s) => {
                r.append("(median ");
                r.append(s.as_str());
                r.append(")");
            },
            Aggregate::Variance(s) => {
                r.append("(variance ");
                r.append(s.as_str());
                r.append(")");
            },
            Aggregate::Stddev(s) => {
                r.append("(stddev ");
                r.append(s.as_str());
                r.append(")");
            },
            Aggregate::Rand(n, s) => {
                r.append("(rand ");
                push_dec(&mut r, *n as u64);
                r.append(" ");
                r.append(s.as_str());
                r.append(")");
            },
            Aggregate::Sample(n, s) => {
                r.append("(sample ");
                push_dec(&mut r, *n as u64);
                r.append(" ");
                r.append(s.as_str());
                r.append(")");
            },
            Aggregate::Distinct(s) => {
                r.append("(distinct ");
                r.append(s.as_str());
                r.append(")");
            },
        }
        proof {
            assert(r@ =~= self.spec_render());
        }
        r
    }
}

/// The variable tokens wrapped by each aggregate of `aggs`, in order.
pub open spec fn agg_variables(aggs: Seq<Aggregate>) -> Seq<Seq<char>> {
    Seq::new(aggs.len(), |i: int| aggs[i].spec_variable())
}

/// The rendered functional forms of the aggregates of `aggs`, in order.
pub open spec fn agg_renders(aggs: Seq<Aggregate>) -> Seq<Seq<char>> {
    Seq::new(aggs.len(), |i: int| aggs[i].spec_render())
}

/// Whether every token of `toks` starts with the variable sigil.
pub open spec fn all_sigiled(toks: Seq<Seq<char>>) -> bool {
    forall|i: int| 0 <= i < toks.len() ==> starts_with(toks[i], '?')
}

/// The failure text raised when a find token lacks the sigil.
pub open spec fn find_format_msg(tok: Seq<char>) -> Seq<char> {
    "All elements of find clause should start with '?', element '"@ + tok
        + "' doesn't conform"@
}

/// Whether `m` is the failure text for the first token of `toks` that
/// lacks the sigil, where `shown` gives the form of each token that the
/// text quotes.
pub open spec fn names_first_unsigiled(
    toks: Seq<Seq<char>>,
    shown: Seq<Seq<char>>,
    m: Seq<char>,
) -> bool {
    exists|k: int|
        0 <= k < toks.len() && !starts_with(toks[k], '?') && (forall|j: int|
            0 <= j < k ==> starts_with(toks[j], '?')) && m == find_format_msg(shown[k])
}

/// `s` with the square brackets removed, as stored where-clause and
/// order-by fragments are kept.
pub open spec fn clean_brackets(s: Seq<char>) -> Seq<char> {
    remove_char(remove_char(s, '['), ']')
}

/// `s` with the curly braces removed, as stored args pairs are kept.
pub open spec fn clean_braces(s: Seq<char>) -> Seq<char> {
    remove_char(remove_char(s, '{'), '}')
}

/// Each element of `ws` with its square brackets removed.
pub open spec fn clean_each_brackets(ws: Seq<Seq<char>>) -> Seq<Seq<char>> {
    Seq::new(ws.len(), |i: int| clean_brackets(ws[i]))
}

/// Each element of `ws` with its curly braces removed.
pub open spec fn clean_each_braces(ws: Seq<Seq<char>>) -> Seq<Seq<char>> {
    Seq::new(ws.len(), |i: int| clean_braces(ws[i]))
}

/// Whether every token of `toks` occurs in the text `joined`.
pub open spec fn all_bound(toks: Seq<Seq<char>>, joined: Seq<char>) -> bool {
    forall|i: int| 0 <= i < toks.len() ==> has_substring(joined, toks[i])
}

/// The failure text raised when the find token `tok` is absent from the
/// where-clause text, for a query whose find-list is `find`.
pub open spec fn unbound_msg(find: Seq<Seq<char>>, tok: Seq<char>) -> Seq<char> {
    "Not all element of find, "@ + join_with(find, ", "@)
        + ", are present in the where clause, "@ + tok + " is missing"@
}

/// The failure text raised when an aggregate variable is absent from
/// the where-clause text, for a query whose find-list is `find`.
pub open spec fn unbound_agg_msg(find: Seq<Seq<char>>) -> Seq<char> {
    "Not all element of find, "@ + join_with(find, ", "@)
        + ", are present in the where clause"@
}

/// Whether `m` is the failure text for the first token of `toks` that
/// is absent from `joined`, for a query whose find-list is `find`.
pub open spec fn names_first_unbound(
    toks: Seq<Seq<char>>,
    find: Seq<Seq<char>>,
    joined: Seq<char>,
    m: Seq<char>,
) -> bool {
    exists|k: int|
        0 <= k < toks.len() && !has_substring(joined, toks[k]) && (forall|j: int|
            0 <= j < k ==> has_substring(joined, toks[j])) && m == unbound_msg(find, toks[k])
}

/// The key tokens of an args list: the even-positioned words of the
/// joined pair text, after the `#inst` tags are dropped.
pub open spec fn args_keys(args: Seq<Seq<char>>) -> Seq<Seq<char>> {
    evens(space_tokens(strip_inst(join_with(args, " "@))))
}

/// The second fields of the order-by elements `es`: their direction
/// tokens.
pub open spec fn order_dirs(es: Seq<Seq<char>>) -> Seq<Seq<char>> {
    Seq::new(es.len(), |i: int| field_after_space(es[i]))
}

/// The first fields of the order-by elements `es`: their ordered
/// variables.
pub open spec fn order_vars(es: Seq<Seq<char>>) -> Seq<Seq<char>> {
    Seq::new(es.len(), |i: int| field_before_space(es[i]))
}

/// Whether `d` reads as one of the two recognized direction tokens,
/// ASCII letters compared without regard to case.
pub open spec fn dir_ok(d: Seq<char>) -> bool {
    lower_eq(d, ":asc"@) || lower_eq(d, ":desc"@)
}

/// Whether every order-by element of `es` carries a recognized
/// direction token.
pub open spec fn all_dirs_ok(es: Seq<Seq<char>>) -> bool {
    forall|i: int| 0 <= i < es.len() ==> dir_ok(order_dirs(es)[i])
}

/// The failure text raised when the ordered variable `v` is absent from
/// the find-clause text.
pub open spec fn order_var_msg(v: Seq<char>) -> Seq<char> {
    "All elements to be ordered should be present in find clause, "@ + v + " not present"@
}

/// Whether `m` is the failure text for the first ordered variable of
/// `vars` that is absent from the find-clause text `f`.
pub open spec fn names_first_not_in_find(vars: Seq<Seq<char>>, f: Seq<char>, m: Seq<char>) -> bool {
    exists|k: int|
        0 <= k < vars.len() && !has_substring(f, vars[k]) && (forall|j: int|
            0 <= j < k ==> has_substring(f, vars[j])) && m == order_var_msg(vars[k])
}

/// When a find-token list holds exactly one token without the sigil,
/// the failure text of [`Query::find`] names that exact token: the
/// token quoted in the text is the offending one.
pub proof fn lemma_find_error_names_the_token(toks: Seq<Seq<char>>, m: Seq<char>, b: int)
    requires
        0 <= b < toks.len(),
        !starts_with(toks[b], '?'),
        forall|j: int| 0 <= j < toks.len() && j != b ==> starts_with(toks[j], '?'),
        names_first_unsigiled(toks, toks, m),
    ensures
        m == find_format_msg(toks[b]),
{
    let k = choose|k: int|
        0 <= k < toks.len() && !starts_with(toks[k], '?') && (forall|j: int|
            0 <= j < k ==> starts_with(toks[j], '?')) && m == find_format_msg(toks[k]);
    if k != b {
        assert(starts_with(toks[k], '?'));
        assert(false);
    }
}

/// A read query under construction: the find-list with its optional
/// aggregate tokens, and the optional where/args/order-by/limit/offset
/// sections with the full-results flag.
///
/// Values are built through [`Query::find`] or
/// [`Query::find_by_aggregates`] and the section methods, each of which
/// validates its input and returns the advanced value or a typed error.
#[derive(Debug, Clone)]
pub struct Query {
    pub find: Vec<String>,
    pub aggregates: Option<Vec<String>>,
    pub where_: Option<Vec<String>>,
    pub args: Option<Vec<String>>,
    pub order_by: Option<Vec<String>>,
    pub limit: Option<usize>,
    pub offset: Option<usize>,
    pub full_results: bool,
}

impl Query {
    /// The tokens the where-clause check must find in the clause text:
    /// the aggregate variables when the find-list was built from
    /// aggregates, the plain find tokens otherwise.
    pub open spec fn binding_tokens(self) -> Seq<Seq<char>> {
        match self.aggregates {
            Some(a) => a.deep_view(),
            None => self.find.deep_view(),
        }
    }

    /// Whether `q` is `self` with its where-clause set to the cleaned
    /// fragments of `ws`.
    pub open spec fn with_where(self, q: Query, ws: Seq<Seq<char>>) -> bool {
        &&& q.find == self.find
        &&& q.aggregates == self.aggregates
        &&& (q.where_ matches Some(w) && w.deep_view() == clean_each_brackets(ws))
        &&& q.args == self.args
        &&& q.order_by == self.order_by
        &&& q.limit == self.limit
        &&& q.offset == self.offset
        &&& q.full_results == self.full_results
    }

    /// Whether `q` is `self` with its args section set to the cleaned
    /// pairs of `pairs`.
    pub open spec fn with_args(self, q: Query, pairs: Seq<Seq<char>>) -> bool {
        &&& q.find == self.find
        &&& q.aggregates == self.aggregates
        &&& q.where_ == self.where_
        &&& (q.args matches Some(a) && a.deep_view() == clean_each_braces(pairs))
        &&& q.order_by == self.order_by
        &&& q.limit == self.limit
        &&& q.offset == self.offset
        &&& q.full_results == self.full_results
    }

    /// Whether `q` is `self` with its order-by section set to the
    /// cleaned elements of `es`.
    pub open spec fn with_order(self, q: Query, es: Seq<Seq<char>>) -> bool {
        &&& q.find == self.find
        &&& q.aggregates == self.aggregates
        &&& q.where_ == self.where_
        &&& q.args == self.args
        &&& (q.order_by matches Some(o) && o.deep_view() == clean_each_brackets(es))
        &&& q.limit == self.limit
        &&& q.offset == self.offset
        &&& q.full_results == self.full_results
    }

    /// Whether the query still has every optional section unset, with
    /// `find` as its find-list and `aggs` as its aggregate tokens.
    pub open spec fn is_fresh(self, find: Seq<Seq<char>>, aggs: Option<Seq<Seq<char>>>) -> bool {
        &&& self.find.deep_view() == find
        &&& match (self.aggregates, aggs) {
            (Some(a), Some(b)) => a.deep_view() == b,
            (None, None) => true,
            _ => false,
        }
        &&& self.where_ is None
        &&& self.args is None
        &&& self.order_by is None
        &&& self.limit is None
        &&& self.offset is None
        &&& self.full_results == false
    }

    /// Defines the `:find` key of the query from plain variable tokens.
    ///
    /// Every token must start with the sigil `?`; otherwise the result
    /// is a `QueryFormatError` naming the first token that does not.
    pub fn find(find: Vec<&str>) -> (r: Result<Query, CruxError>)
        ensures
            all_sigiled(find.deep_view()) ==> (r matches Ok(q) && q.is_fresh(
                find.deep_view(),
                None,
            )),
            !all_sigiled(find.deep_view()) ==> (r matches Err(e)
                && e matches CruxError::QueryFormatError(m) && names_first_unsigiled(
                find.deep_view(),
                find.deep_view(),
                m@,
            )),
    {
        let n = find.len();
        let mut owned: Vec<String> = Vec::new();
        let mut i: usize = 0;
        while i < n
            invariant
                n == find@.len(),
                find.deep_view().len() == n,
                0 <= i <= n,
                owned.deep_view() =~= find.deep_view().subrange(0, i as int),
                forall|j: int| 0 <= j < i ==> starts_with(find.deep_view()[j], '?'),
            decreases n - i,
        {
            if !starts_with_char(find[i], '?') {
                let mut m = String::new();
                m.append("All elements of find clause should start with '?', element '");
                m.append(find[i]);
                m.append("' doesn't conform");
                proof {
                    let toks = find.deep_view();
                    assert(toks[i as int] == find@[i as int]@);
                    assert(m@ =~= find_format_msg(toks[i as int]));
                    assert(names_first_unsigiled(toks, toks, m@));
                }
                return Err(CruxError::QueryFormatError(m));
            }
            let ghost prev = owned.deep_view();
            owned.push(find[i].to_owned());
            proof {
                assert(owned.deep_view() =~= prev.push(find@[i as int]@));
                assert(owned.deep_view() =~= find.deep_view().subrange(0, i + 1));
            }
            i += 1;
        }
        proof {
            assert(find.deep_view().subrange(0, n as int) =~= find.deep_view());
        }
        Ok(
            Query {
                find: owned,
                aggregates: None,
                where_: None,
                args: None,
                order_by: None,
                limit: None,
                offset: None,
                full_results: false,
            },
        )
    }

    /// Defines the `:find` key of the query from aggregate forms.
    ///
    /// The variable wrapped by every aggregate must start with the sigil
    /// `?`; otherwise the result is a `QueryFormatError` quoting the
    /// rendered form of the first aggregate whose variable does not.
    pub fn find_by_aggregates(find: Vec<Aggregate>) -> (r: Result<Query, CruxError>)
        ensures
            all_sigiled(agg_variables(find@)) ==> (r matches Ok(q) && q.is_fresh(
                agg_renders(find@),
                Some(agg_variables(find@)),
            )),
            !all_sigiled(agg_variables(find@)) ==> (r matches Err(e)
                && e matches CruxError::QueryFormatError(m) && names_first_unsigiled(
                agg_variables(find@),
                agg_renders(find@),
                m@,
            )),
    {
        let n = find.len();
        let mut rendered: Vec<String> = Vec::new();
        let mut variables: Vec<String> = Vec::new();
        let mut i: usize = 0;
        while i < n
            invariant
                n == find@.len(),
                0 <= i <= n,
                rendered.deep_view() =~= agg_renders(find@).subrange(0, i as int),
                variables.deep_view() =~= agg_variables(find@).subrange(0, i as int),
                forall|j: int| 0 <= j < i ==> starts_with(agg_variables(find@)[j], '?'),
            decreases n - i,
        {
            let var = find[i].string_value();
            if !starts_with_char(var.as_str(), '?') {
                let shown = find[i].serialize();
                let mut m = String::new();
                m.append("All elements of find clause should start with '?', element '");
                m.append(shown.as_str());
                m.append("' doesn't conform");
                proof {
                    let vars = agg_variables(find@);
                    assert(vars[i as int] == find@[i as int].spec_variable());
                    assert(agg_renders(find@)[i as int] == find@[i as int].spec_render());
                    assert(m@ =~= find_format_msg(agg_renders(find@)[i as int]));
                    assert(names_first_unsigiled(vars, agg_renders(find@), m@));
                }
                return Err(CruxError::QueryFormatError(m));
            }
            let ghost prev_r = rendered.deep_view();
            let ghost prev_v = variables.deep_view();
            rendered.push(find[i].serialize());
            variables.push(var);
            proof {
                assert(rendered.deep_view() =~= prev_r.push(find@[i as int].spec_render()));
                assert(rendered.deep_view() =~= agg_renders(find@).subrange(0, i + 1));
                assert(variables.deep_view() =~= prev_v.push(find@[i as int].spec_variable()));
                assert(variables.deep_view() =~= agg_variables(find@).subrange(0, i + 1));
            }
            i += 1;
        }
        proof {
            assert(agg_renders(find@).subrange(0, n as int) =~= agg_renders(find@));
            assert(agg_variables(find@).subrange(0, n as int) =~= agg_variables(find@));
        }
        Ok(
            Query {
                find: rendered,
                aggregates: Some(variables),
                where_: None,
                args: None,
                order_by: None,
                limit: None,
                offset: None,
                full_results: false,
            },
        )
    }

    /// Defines the required `:where` key of the query from raw clause
    /// fragments; square brackets inside a fragment are dropped.
    ///
    /// Every find token (or, for an aggregate find-list, every wrapped
    /// variable) must occur in the joined fragment text; otherwise the
    /// result is a `QueryFormatError`, naming the first absent token
    /// when the find-list is plain.
    pub fn where_clause(self, where_: Vec<&str>) -> (r: Result<Query, CruxError>)
        ensures
            all_bound(self.binding_tokens(), join_with(where_.deep_view(), " "@)) ==> (
            r matches Ok(q) && self.with_where(q, where_.deep_view())),
            self.aggregates is None && !all_bound(
                self.binding_tokens(),
                join_with(where_.deep_view(), " "@),
            ) ==> (r matches Err(e) && e matches CruxError::QueryFormatError(m)
                && names_first_unbound(
                self.find.deep_view(),
                self.find.deep_view(),
                join_with(where_.deep_view(), " "@),
                m@,
            )),
            self.aggregates is Some && !all_bound(
                self.binding_tokens(),
                join_with(where_.deep_view(), " "@),
            ) ==> (r matches Err(e) && e matches CruxError::QueryFormatError(m) && m@
                == unbound_agg_msg(self.find.deep_view())),
    {
        let joined = join_strs(&where_, " ");
        let jchars = str_chars(joined.as_str());
        let ghost jv = join_with(where_.deep_view(), " "@);
        match &self.aggregates {
            None => {
                let n = self.find.len();
                let mut i: usize = 0;
                while i < n
                    invariant
                        n == self.find@.len(),
                        jv == join_with(where_.deep_view(), " "@),
                        jchars@ == jv,
                        0 <= i <= n,
                        self.aggregates is None,
                        forall|j: int|
                            0 <= j < i ==> has_substring(jv, self.find.deep_view()[j]),
                    decreases n - i,
                {
                    let t = str_chars(self.find[i].as_str());
                    if !contains_chars(&jchars, &t) {
                        let mut m = String::new();
                        m.append("Not all element of find, ");
                        let fj = join_strings(&self.find, ", ");
                        m.append(fj.as_str());
                        m.append(", are present in the where clause, ");
                        m.append(self.find[i].as_str());
                        m.append(" is missing");
                        proof {
                            let toks = self.find.deep_view();
                            assert(toks[i as int] == self.find@[i as int]@);
                            assert(m@ =~= unbound_msg(toks, toks[i as int]));
                            assert(names_first_unbound(toks, toks, jv, m@));
                        }
                        return Err(CruxError::QueryFormatError(m));
                    }
                    i += 1;
                }
            },
            Some(ags) => {
                let n = ags.len();
                let mut i: usize = 0;
                while i < n
                    invariant
                        n == ags@.len(),
                        jv == join_with(where_.deep_view(), " "@),
                        jchars@ == jv,
                        0 <= i <= n,
                        self.aggregates matches Some(a) && a == ags,
                        forall|j: int| 0 <= j < i ==> has_substring(jv, ags.deep_view()[j]),
                    decreases n - i,
                {
                    let t = str_chars(ags[i].as_str());
                    if !contains_chars(&jchars, &t) {
                        let mut m = String::new();
                        m.append("Not all element of find, ");
                        let fj = join_strings(&self.find, ", ");
                        m.append(fj.as_str());
                        m.append(", are present in the where clause");
                        proof {
                            assert(ags.deep_view()[i as int] == ags@[i as int]@);
                            assert(!all_bound(self.binding_tokens(), jv));
                            assert(m@ =~= unbound_agg_msg(self.find.deep_view()));
                        }
                        return Err(CruxError::QueryFormatError(m));
                    }
                    i += 1;
                }
            },
        }
        let wn = where_.len();
        let mut cleaned: Vec<String> = Vec::new();
        let mut i: usize = 0;
        while i < wn
            invariant
                wn == where_@.len(),
                0 <= i <= wn,
                cleaned.deep_view() =~= clean_each_brackets(where_.deep_view()).subrange(
                    0,
                    i as int,
                ),
            decreases wn - i,
        {
            let c1 = remove_char_str(where_[i], '[');
            let c2 = remove_char_str(c1.as_str(), ']');
            let ghost prev = cleaned.deep_view();
            cleaned.push(c2);
            proof {
                assert(cleaned.deep_view() =~= prev.push(
                    clean_brackets(where_.deep_view()[i as int]),
                ));
                assert(cleaned.deep_view() =~= clean_each_brackets(where_.deep_view()).subrange(
                    0,
                    i + 1,
                ));
            }
            i += 1;
        }
        proof {
            assert(clean_each_brackets(where_.deep_view()).subrange(0, wn as int)
                =~= clean_each_brackets(where_.deep_view()));
        }
        Ok(
            Query {
                find: self.find,
                aggregates: self.aggregates,
                where_: Some(cleaned),
                args: self.args,
                order_by: self.order_by,
                limit: self.limit,
                offset: self.offset,
                full_results: self.full_results,
            },
        )
    }

    /// Defines the optional `:args` key of the query from key/value
    /// pair texts; curly braces inside a pair are dropped.
    ///
    /// Every key token must start with the sigil `?` and must occur in
    /// the stored where-clause text; the two violations are reported
    /// with distinct texts, and with a combined text when both hold.
    /// The where-clause must already have been supplied.
    pub fn args(self, args: Vec<&str>) -> (r: Result<Query, CruxError>)
        requires
            self.where_ is Some,
        ensures
            ({
                let ks = args_keys(args.deep_view());
                let wj = join_with(self.where_->0.deep_view(), " "@);
                &&& (!all_bound(ks, wj) && all_sigiled(ks)) ==> (r matches Err(e)
                    && e matches CruxError::QueryFormatError(m) && m@
                    == "All elements should be present in where clause"@)
                &&& (all_bound(ks, wj) && !all_sigiled(ks)) ==> (r matches Err(e)
                    && e matches CruxError::QueryFormatError(m) && m@
                    == "All elements should start with '?'"@)
                &&& (!all_bound(ks, wj) && !all_sigiled(ks)) ==> (r matches Err(e)
                    && e matches CruxError::QueryFormatError(m) && m@
                    == "All elements should be present in where clause and all elements should start with '?'"@)
                &&& (all_bound(ks, wj) && all_sigiled(ks)) ==> (r matches Ok(q)
                    && self.with_args(q, args.deep_view()))
            }),
    {
        let wjoined = match &self.where_ {
            Some(w) => join_strings(w, " "),
            None => String::new(),
        };
        let wjchars = str_chars(wjoined.as_str());
        let ghost wj = join_with(self.where_->0.deep_view(), " "@);
        let aj = join_strs(&args, " ");
        let stripped = strip_inst_str(aj.as_str());
        let words = split_space_tokens(stripped.as_str());
        let keys = even_elements(&words);
        let ghost ks = args_keys(args.deep_view());
        proof {
            assert(keys.deep_view() == ks);
        }
        let kn = keys.len();
        let mut all_in = true;
        let mut all_sig = true;
        let mut i: usize = 0;
        while i < kn
            invariant
                kn == keys@.len(),
                keys.deep_view() == ks,
                wjchars@ == wj,
                0 <= i <= kn,
                all_in <==> (forall|j: int| 0 <= j < i ==> has_substring(wj, ks[j])),
                all_sig <==> (forall|j: int| 0 <= j < i ==> starts_with(ks[j], '?')),
            decreases kn - i,
        {
            let t = str_chars(keys[i].as_str());
            proof {
                assert(ks[i as int] == keys@[i as int]@);
            }
            if !contains_chars(&wjchars, &t) {
                all_in = false;
            }
            if !starts_with_char(keys[i].as_str(), '?') {
                all_sig = false;
            }
            i += 1;
        }
        proof {
            assert(all_in <==> all_bound(ks, wj));
            assert(all_sig <==> all_sigiled(ks));
        }
        if !all_in && all_sig {
            return Err(
                CruxError::QueryFormatError(
                    "All elements should be present in where clause".to_owned(),
                ),
            );
        }
        if all_in && !all_sig {
            return Err(
                CruxError::QueryFormatError("All elements should start with '?'".to_owned()),
            );
        }
        if !all_in && !all_sig {
            return Err(
                CruxError::QueryFormatError(
                    "All elements should be present in where clause and all elements should start with '?'".to_owned(),
                ),
            );
        }
        let an = args.len();
        let mut cleaned: Vec<String> = Vec::new();
        let mut i: usize = 0;
        while i < an
            invariant
                an == args@.len(),
                0 <= i <= an,
                cleaned.deep_view() =~= clean_each_braces(args.deep_view()).subrange(0, i as int),
            decreases an - i,
        {
            let c1 = remove_char_str(args[i], '{');
            let c2 = remove_char_str(c1.as_str(), '}');
            let ghost prev = cleaned.deep_view();
            cleaned.push(c2);
            proof {
                assert(cleaned.deep_view() =~= prev.push(
                    clean_braces(args.deep_view()[i as int]),
                ));
                assert(cleaned.deep_view() =~= clean_each_braces(args.deep_view()).subrange(
                    0,
                    i + 1,
                ));
            }
            i += 1;
        }
        proof {
            assert(clean_each_braces(args.deep_view()).subrange(0, an as int) =~= clean_each_braces(
                args.deep_view(),
            ));
        }
        Ok(
            Query {
                find: self.find,
                aggregates: self.aggregates,
                where_: self.where_,
                args: Some(cleaned),
                order_by: self.order_by,
                limit: self.limit,
                offset: self.offset,
                full_results: self.full_results,
            },
        )
    }

    /// Defines the optional `:order-by` key of the query from
    /// `<variable> <direction>` pair texts; square brackets inside an
    /// element are dropped.
    ///
    /// Every direction must be one of the two recognized tokens, ASCII
    /// case ignored, and every ordered variable must occur in the
    /// find-clause text; the first failing variable is named.  Each
    /// element must contain a space separating variable from direction.
    pub fn order_by(self, order_by: Vec<&str>) -> (r: Result<Query, CruxError>)
        requires
            forall|i: int|
                0 <= i < order_by.deep_view().len() ==> first_space_idx(
                    #[trigger] order_by.deep_view()[i],
                ) < order_by.deep_view()[i].len(),
        ensures
            !all_dirs_ok(order_by.deep_view()) ==> (r matches Err(e)
                && e matches CruxError::QueryFormatError(m) && m@
                == "Order element should be ':asc' or ':desc'"@),
            all_dirs_ok(order_by.deep_view()) && !all_bound(
                order_vars(order_by.deep_view()),
                join_with(self.find.deep_view(), " "@),
            ) ==> (r matches Err(e) && e matches CruxError::QueryFormatError(m)
                && names_first_not_in_find(
                order_vars(order_by.deep_view()),
                join_with(self.find.deep_view(), " "@),
                m@,
            )),
            all_dirs_ok(order_by.deep_view()) && all_bound(
                order_vars(order_by.deep_view()),
                join_with(self.find.deep_view(), " "@),
            ) ==> (r matches Ok(q) && self.with_order(q, order_by.deep_view())),
    {
        let ghost es = order_by.deep_view();
        let n = order_by.len();
        let mut i: usize = 0;
        while i < n
            invariant
                n == order_by@.len(),
                es == order_by.deep_view(),
                forall|k: int|
                    0 <= k < es.len() ==> first_space_idx(#[trigger] es[k]) < es[k].len(),
                0 <= i <= n,
                forall|j: int| 0 <= j < i ==> dir_ok(order_dirs(es)[j]),
            decreases n - i,
        {
            proof {
                assert(es[i as int] == order_by@[i as int]@);
            }
            let dir = split_second_field(order_by[i]);
            let ok = eq_ignore_ascii(dir.as_str(), ":asc") || eq_ignore_ascii(
                dir.as_str(),
                ":desc",
            );
            if !ok {
                proof {
                    assert(order_dirs(es)[i as int] == field_after_space(es[i as int]));
                    assert(!dir_ok(order_dirs(es)[i as int]));
                }
                return Err(
                    CruxError::QueryFormatError(
                        "Order element should be ':asc' or ':desc'".to_owned(),
                    ),
                );
            }
            proof {
                assert(order_dirs(es)[i as int] == field_after_space(es[i as int]));
            }
            i += 1;
        }
        proof {
            assert(all_dirs_ok(es));
        }
        let f = join_strings(&self.find, " ");
        let fchars = str_chars(f.as_str());
        let ghost fv = join_with(self.find.deep_view(), " "@);
        let mut i: usize = 0;
        while i < n
            invariant
                n == order_by@.len(),
                es == order_by.deep_view(),
                all_dirs_ok(es),
                forall|k: int|
                    0 <= k < es.len() ==> first_space_idx(#[trigger] es[k]) < es[k].len(),
                fv == join_with(self.find.deep_view(), " "@),
                fchars@ == fv,
                0 <= i <= n,
                forall|j: int| 0 <= j < i ==> has_substring(fv, order_vars(es)[j]),
            decreases n - i,
        {
            proof {
                assert(es[i as int] == order_by@[i as int]@);
            }
            let var = split_first_field(order_by[i]);
            let vchars = str_chars(var.as_str());
            if !contains_chars(&fchars, &vchars) {
                let mut m = String::new();
                m.append("All elements to be ordered should be present in find clause, ");
                m.append(var.as_str());
                m.append(" not present");
                proof {
                    assert(order_vars(es)[i as int] == field_before_space(es[i as int]));
                    assert(m@ =~= order_var_msg(order_vars(es)[i as int]));
                    assert(names_first_not_in_find(order_vars(es), fv, m@));
                }
                return Err(CruxError::QueryFormatError(m));
            }
            proof {
                assert(order_vars(es)[i as int] == field_before_space(es[i as int]));
            }
            i += 1;
        }
        let mut cleaned: Vec<String> = Vec::new();
        let mut i: usize = 0;
        while i < n
            invariant
                n == order_by@.len(),
                es == order_by.deep_view(),
                0 <= i <= n,
                cleaned.deep_view() =~= clean_each_brackets(es).subrange(0, i as int),
            decreases n - i,
        {
            let c1 = remove_char_str(order_by[i], '[');
            let c2 = remove_char_str(c1.as_str(), ']');
            let ghost prev = cleaned.deep_view();
            cleaned.push(c2);
            proof {
                assert(cleaned.deep_view() =~= prev.push(clean_brackets(es[i as int])));
                assert(cleaned.deep_view() =~= clean_each_brackets(es).subrange(0, i + 1));
            }
            i += 1;
        }
        proof {
            assert(clean_each_brackets(es).subrange(0, n as int) =~= clean_each_brackets(es));
        }
        Ok(
            Query {
                find: self.find,
                aggregates: self.aggregates,
                where_: self.where_,
                args: self.args,
                order_by: Some(cleaned),
                limit: self.limit,
                offset: self.offset,
                full_results: self.full_results,
            },
        )
    }

    /// Defines the optional `:limit` key of the query: the bound on the
    /// result size.
    pub fn limit(self, limit: usize) -> (r: Self)
        ensures
            r.find == self.find,
            r.aggregates == self.aggregates,
            r.where_ == self.where_,
            r.args == self.args,
            r.order_by == self.order_by,
            r.limit == Some(limit),
            r.offset == self.offset,
            r.full_results == self.full_results,
    {
        Query {
            find: self.find,
            aggregates: self.aggregates,
            where_: self.where_,
            args: self.args,
            order_by: self.order_by,
            limit: Some(limit),
            offset: self.offset,
            full_results: self.full_results,
        }
    }

    /// Defines the optional `:offset` key of the query: the skip count.
    pub fn offset(self, offset: usize) -> (r: Self)
        ensures
            r.find == self.find,
            r.aggregates == self.aggregates,
            r.where_ == self.where_,
            r.args == self.args,
            r.order_by == self.order_by,
            r.limit == self.limit,
            r.offset == Some(offset),
            r.full_results == self.full_results,
    {
        Query {
            find: self.find,
            aggregates: self.aggregates,
            where_: self.where_,
            args: self.args,
            order_by: self.order_by,
            limit: self.limit,
            offset: Some(offset),
            full_results: self.full_results,
        }
    }

    /// Adds `:full-results? true` to the query, so that the source
    /// document is returned alongside each result tuple.
    pub fn with_full_results(self) -> (r: Self)
        ensures
            r.find == self.find,
            r.aggregates == self.aggregates,
            r.where_ == self.where_,
            r.args == self.args,
            r.order_by == self.order_by,
            r.limit == self.limit,
            r.offset == self.offset,
            r.full_results == true,
    {
        Query {
            find: self.find,
            aggregates: self.aggregates,
            where_: self.where_,
            args: self.args,
            order_by: self.order_by,
            limit: self.limit,
            offset: self.offset,
            full_results: true,
        }
    }

    /// Asserts that the required sections are present: the query is
    /// returned unchanged when a where-clause was supplied, and
    /// rejected with `MissingWhereClause` semantics otherwise, whatever
    /// other sections are set.
    pub fn build(self) -> (r: Result<Query, CruxError>)
        ensures
            self.where_ is Some ==> (r matches Ok(q) && q == self),
            self.where_ is None ==> (r matches Err(e)
                && e matches CruxError::QueryFormatError(m) && m@
                == "Where clause is required"@),
    {
        match &self.where_ {
            None => Err(CruxError::QueryFormatError("Where clause is required".to_owned())),
            Some(_) => Ok(self),
        }
    }

    /// The query wire text: the sections in their fixed order, each
    /// emitted only when present.
    pub open spec fn spec_serialize(self) -> Seq<char>
        recommends
            self.where_ is Some,
    {
        "{:query\n {"@ + (":find ["@ + join_with(self.find.deep_view(), " "@) + "]\n"@) + (
        ":where [["@ + join_with(self.where_->0.deep_view(), "]\n["@) + "]]\n"@) + (
        match self.args {
            Some(a) => ":args [{"@ + join_with(a.deep_view(), "}\n{"@) + "}]\n"@,
            None => Seq::<char>::empty(),
        }) + (match self.order_by {
            Some(o) => ":order-by [["@ + join_with(o.deep_view(), "]\n["@) + "]]\n"@,
            None => Seq::<char>::empty(),
        }) + (match self.limit {
            Some(l) => ":limit "@ + dec_digits(l as nat) + "\n"@,
            None => Seq::<char>::empty(),
        }) + (match self.offset {
            Some(o) => ":offset "@ + dec_digits(o as nat) + "\n"@,
            None => Seq::<char>::empty(),
        }) + (if self.full_results {
            " :full-results? true\n"@
        } else {
            Seq::<char>::empty()
        }) + "}}"@
    }

    /// Emits the query wire text, consuming the query.  The query must
    /// have been given its where-clause, as [`Query::build`] asserts.
    pub fn serialize(self) -> (r: String)
        requires
            self.where_ is Some,
        ensures
            r@ == self.spec_serialize(),
    {
        let mut q = String::new();
        q.append("{:query\n {");
        q.append(":find [");
        let fj = join_strings(&self.find, " ");
        q.append(fj.as_str());
        q.append("]\n");
        q.append(":where [[");
        match &self.where_ {
            Some(w) => {
                let wj = join_strings(w, "]\n[");
                q.append(wj.as_str());
            },
            None => {},
        }
        q.append("]]\n");
        let ghost head = "{:query\n {"@ + (":find ["@ + join_with(self.find.deep_view(), " "@)
            + "]\n"@) + (":where [["@ + join_with(self.where_->0.deep_view(), "]\n["@)
            + "]]\n"@);
        proof {
            assert(q@ =~= head);
        }
        let ghost after_args = head + (match &self.args {
            Some(a) => ":args [{"@ + join_with(a.deep_view(), "}\n{"@) + "}]\n"@,
            None => Seq::<char>::empty(),
        });
        match &self.args {
            Some(a) => {
                q.append(":args [{");
                let aj = join_strings(a, "}\n{");
                q.append(aj.as_str());
                q.append("}]\n");
                proof {
                    assert(q@ =~= after_args);
                }
            },
            None => {
                proof {
                    assert(q@ =~= after_args);
                }
            },
        }
        let ghost after_order = after_args + (match &self.order_by {
            Some(o) => ":order-by [["@ + join_with(o.deep_view(), "]\n["@) + "]]\n"@,
            None => Seq::<char>::empty(),
        });
        match &self.order_by {
            Some(o) => {
                q.append(":order-by [[");
                let oj = join_strings(o, "]\n[");
                q.append(oj.as_str());
                q.append("]]\n");
                proof {
                    assert(q@ =~= after_order);
                }
            },
            None => {
                proof {
                    assert(q@ =~= after_order);
                }
            },
        }
        let ghost after_limit = after_order + (match self.limit {
            Some(l) => ":limit "@ + dec_digits(l as nat) + "\n"@,
            None => Seq::<char>::empty(),
        });
        match &self.limit {
            Some(l) => {
                q.append(":limit ");
                push_dec(&mut q, *l as u64);
                q.append("\n");
                proof {
                    assert(q@ =~= after_limit);
                }
            },
            None => {
                proof {
                    assert(q@ =~= after_limit);
                }
            },
        }
        let ghost after_offset = after_limit + (match self.offset {
            Some(o) => ":offset "@ + dec_digits(o as nat) + "\n"@,
            None => Seq::<char>::empty(),
        });
        match &self.offset {
            Some(o) => {
                q.append(":offset ");
                push_dec(&mut q, *o as u64);
                q.append("\n");
                proof {
                    assert(q@ =~= after_offset);
                }
            },
            None => {
                proof {
                    assert(q@ =~= after_offset);
                }
            },
        }
        let ghost after_full = after_offset + (if self.full_results {
            " :full-results? true\n"@
        } else {
            Seq::<char>::empty()
        });
        if self.full_results {
            q.append(" :full-results? true\n");
        }
        proof {
            assert(q@ =~= after_full);
        }
        q.append("}}");
        proof {
            assert(q@ =~= after_full + "}}"@);
            assert(self.spec_serialize() == after_full + "}}"@);
        }
        q
    }
}

/// For every find-token list whose tokens all carry the sigil and
/// every where-clause whose joined fragment text mentions each of
/// them, construction succeeds end to end: [`Query::find`] accepts the
/// tokens, [`Query::where_clause`] accepts the fragments, and
/// [`Query::build`] accepts the result.
pub proof fn lemma_valid_query_builds(
    q: Query,
    q2: Query,
    find: Seq<Seq<char>>,
    wheres: Seq<Seq<char>>,
)
    requires
        all_sigiled(find),
        all_bound(find, join_with(wheres, " "@)),
        q.is_fresh(find, None),
        q.with_where(q2, wheres),
    ensures
        all_bound(q.binding_tokens(), join_with(wheres, " "@)),
        q2.where_ is Some,
{
}

/// Adding an order-by section to a query changes its wire text in one
/// place only: the `:order-by` section is inserted after the args
/// section and before the limit, offset and full-results sections and
/// the closing braces, and every other section's text is unchanged.
#[verifier::rlimit(100)]
pub proof fn lemma_order_by_section_placement(q: Query, q2: Query)
    requires
        q.where_ is Some,
        q.order_by is None,
        q2.order_by is Some,
        q2.find == q.find,
        q2.aggregates == q.aggregates,
        q2.where_ == q.where_,
        q2.args == q.args,
        q2.limit == q.limit,
        q2.offset == q.offset,
        q2.full_results == q.full_results,
    ensures
        ({
            let head = "{:query\n {"@ + (":find ["@ + join_with(q.find.deep_view(), " "@)
                + "]\n"@) + (":where [["@ + join_with(q.where_->0.deep_view(), "]\n["@)
                + "]]\n"@) + (match q.args {
                Some(a) => ":args [{"@ + join_with(a.deep_view(), "}\n{"@) + "}]\n"@,
                None => Seq::<char>::empty(),
            });
            let tail = (match q.limit {
                Some(l) => ":limit "@ + dec_digits(l as nat) + "\n"@,
                None => Seq::<char>::empty(),
            }) + (match q.offset {
                Some(o) => ":offset "@ + dec_digits(o as nat) + "\n"@,
                None => Seq::<char>::empty(),
            }) + (if q.full_results {
                " :full-results? true\n"@
            } else {
                Seq::<char>::empty()
            }) + "}}"@;
            let order_section = ":order-by [["@ + join_with(q2.order_by->0.deep_view(), "]\n["@)
                + "]]\n"@;
            q.spec_serialize() == head + tail && q2.spec_serialize() == head + order_section
                + tail
        }),
{
    let head = "{:query\n {"@ + (":find ["@ + join_with(q.find.deep_view(), " "@) + "]\n"@) + (
    ":where [["@ + join_with(q.where_->0.deep_view(), "]\n["@) + "]]\n"@) + (match q.args {
        Some(a) => ":args [{"@ + join_with(a.deep_view(), "}\n{"@) + "}]\n"@,
        None => Seq::<char>::empty(),
    });
    let tail = (match q.limit {
        Some(l) => ":limit "@ + dec_digits(l as nat) + "\n"@,
        None => Seq::<char>::empty(),
    }) + (match q.offset {
        Some(o) => ":offset "@ + dec_digits(o as nat) + "\n"@,
        None => Seq::<char>::empty(),
    }) + (if q.full_results {
        " :full-results? true\n"@
    } else {
        Seq::<char>::empty()
    }) + "}}"@;
    let order_section = ":order-by [["@ + join_with(q2.order_by->0.deep_view(), "]\n["@)
        + "]]\n"@;
    assert(q.spec_serialize() =~= head + tail);
    assert(q2.spec_serialize() =~= head + order_section + tail);
}

} // verus!

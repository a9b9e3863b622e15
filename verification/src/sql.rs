//! SQL statements for the listing and counting endpoints, planned from the
//! query string.
//!
//! A statement is its text and its arguments.  Every value that comes from
//! the request travels as an argument and is named in the text by a
//! numbered placeholder `?k`, where `k` is the argument's position counted
//! from 1.
use vstd::prelude::*;
use vstd::string::*;
use crate::num::{decimal, decimal_string, signed_decimal, signed_decimal_string};
use crate::query::{
    first_param, first_value, flag_param, flag_value, int_param, int_value, list_items, list_param,
    parse_epoch_millis, strings_view, values_of, QueryParams,
};

verus! {

/// An argument of a statement.
#[derive(Debug, PartialEq, Eq)]
pub enum SqlArg {
    Text(String),
    Integer(i64),
}

/// The abstract value of an argument.
pub enum ArgView {
    Text(Seq<char>),
    Integer(i64),
}

pub open spec fn arg_view(a: SqlArg) -> ArgView {
    match a {
        SqlArg::Text(s) => ArgView::Text(s@),
        SqlArg::Integer(i) => ArgView::Integer(i),
    }
}

/// A statement: its text and its arguments.
pub struct SqlQuery {
    pub sql: String,
    pub args: Vec<SqlArg>,
}

/// The abstract value of a statement.
pub type QueryView = (Seq<char>, Seq<ArgView>);

impl SqlQuery {
    /// The statement as plain values.
    pub open spec fn view_pair(&self) -> QueryView {
        (self.sql@, self.args@.map_values(|a: SqlArg| arg_view(a)))
    }
}

/// Appends fixed text.
pub open spec fn lit(q: QueryView, t: Seq<char>) -> QueryView {
    (q.0 + t, q.1)
}

/// Appends `pre`, then a placeholder for a new last argument `a`.
pub open spec fn param(q: QueryView, pre: Seq<char>, a: ArgView) -> QueryView {
    (q.0 + pre + seq!['?'] + decimal((q.1.len() + 1) as nat), q.1.push(a))
}

/// `param` when there is an argument, nothing otherwise.
pub open spec fn opt_param(q: QueryView, pre: Seq<char>, a: Option<ArgView>) -> QueryView {
    match a {
        Some(a) => param(q, pre, a),
        None => q,
    }
}

/// A text argument, when there is a value.
pub open spec fn text_arg(v: Option<Seq<char>>) -> Option<ArgView> {
    match v {
        Some(v) => Some(ArgView::Text(v)),
        None => None,
    }
}

/// An integer argument, when there is a value.
pub open spec fn int_arg(v: Option<i64>) -> Option<ArgView> {
    match v {
        Some(v) => Some(ArgView::Integer(v)),
        None => None,
    }
}

/// A pattern that matches any text containing `t`.
pub open spec fn like(t: Seq<char>) -> Seq<char> {
    seq!['%'] + t + seq!['%']
}

/// Placeholders for `items`, separated by `,` (the first one without).
pub open spec fn params_list(q: QueryView, items: Seq<Seq<char>>, first: bool) -> QueryView
    decreases items.len(),
{
    if items.len() == 0 {
        q
    } else {
        let sep = if first {
            Seq::<char>::empty()
        } else {
            seq![',']
        };
        params_list(param(q, sep, ArgView::Text(items[0])), items.drop_first(), false)
    }
}

/// `pre`, placeholders for `items` and `)`, when there are items.
pub open spec fn in_list(q: QueryView, pre: Seq<char>, items: Seq<Seq<char>>) -> QueryView {
    if items.len() == 0 {
        q
    } else {
        lit(params_list(lit(q, pre), items, true), seq![')'])
    }
}

/// `LIMIT` and `OFFSET` as arguments.
pub open spec fn paginate(q: QueryView, max: i64, first: i64) -> QueryView {
    param(param(q, " LIMIT "@, ArgView::Integer(max)), " OFFSET "@, ArgView::Integer(first))
}

/// An integer parameter with a default and a least value.
pub open spec fn bounded(v: Option<i64>, default: i64, least: i64) -> i64 {
    let x = match v {
        Some(x) => x,
        None => default,
    };
    if x < least {
        least
    } else {
        x
    }
}

/// The character's code after ASCII lower-casing.
pub open spec fn lower_code(c: char) -> u32 {
    if 'A' <= c && c <= 'Z' {
        (c as u32 + 32) as u32
    } else {
        c as u32
    }
}

/// `s` and `t` are equal regardless of ASCII case.
pub open spec fn eq_ignore_ascii_case(s: Seq<char>, t: Seq<char>) -> bool {
    s.len() == t.len() && forall|i: int| 0 <= i < s.len() ==> lower_code(#[trigger] s[i]) == lower_code(t[i])
}

/// The sort direction: ascending when the first `direction` is `asc` in
/// any ASCII case, descending otherwise.
pub open spec fn direction_of(pairs: Seq<(Seq<char>, Seq<char>)>) -> Seq<char> {
    let d = match first_value(pairs, "direction"@) {
        Some(v) => v,
        None => "desc"@,
    };
    if eq_ignore_ascii_case(d, "asc"@) {
        "ASC"@
    } else {
        "DESC"@
    }
}

impl SqlQuery {
    /// A statement with fixed text and a first argument.
    fn with_arg(text: &str, a: SqlArg) -> (r: SqlQuery)
        ensures
            r.view_pair() == (text@, seq![arg_view(a)]),
    {
        let mut args: Vec<SqlArg> = Vec::new();
        let ghost av = arg_view(a);
        args.push(a);
        let r = SqlQuery { sql: String::from_str(text), args };
        assert(r.view_pair().1 =~= seq![av]);
        r
    }

    /// Appends fixed text.
    fn push_sql(&mut self, t: &str)
        ensures
            final(self).view_pair() == lit(old(self).view_pair(), t@),
    {
        self.sql.append(t);
    }

    /// Appends `pre`, then a placeholder for a new last argument `a`.
    fn push_param(&mut self, pre: &str, a: SqlArg)
        ensures
            final(self).view_pair() == param(old(self).view_pair(), pre@, arg_view(a)),
    {
        proof {
            reveal_strlit("?");
        }
        let ghost before = self.view_pair();
        let k: u128 = self.args.len() as u128 + 1;
        self.sql.append(pre);
        self.sql.append("?");
        let digits = decimal_string(k);
        self.sql.append(digits.as_str());
        let ghost av = arg_view(a);
        self.args.push(a);
        assert(self.view_pair().1 =~= before.1.push(av));
    }

    /// Appends `pre` and a placeholder for a text argument, when given.
    fn push_opt_text(&mut self, pre: &str, v: Option<String>)
        ensures
            final(self).view_pair() == opt_param(
                old(self).view_pair(),
                pre@,
                text_arg(crate::query::opt_string_view(v)),
            ),
    {
        match v {
            Some(v) => self.push_param(pre, SqlArg::Text(v)),
            None => {},
        }
    }

    /// Appends `pre` and a placeholder for an integer argument, when given.
    fn push_opt_int(&mut self, pre: &str, v: Option<i64>)
        ensures
            final(self).view_pair() == opt_param(old(self).view_pair(), pre@, int_arg(v)),
    {
        match v {
            Some(v) => self.push_param(pre, SqlArg::Integer(v)),
            None => {},
        }
    }

    /// Appends `pre`, placeholders for `items` and `)`, when there are
    /// items.
    fn push_in_list(&mut self, pre: &str, items: Vec<String>)
        ensures
            final(self).view_pair() == in_list(old(self).view_pair(), pre@, strings_view(items@)),
    {
        let ghost all = strings_view(items@);
        let n = items.len();
        if n == 0 {
            return;
        }
        proof {
            reveal_strlit(",");
            reveal_strlit(")");
            reveal_strlit("");
        }
        self.push_sql(pre);
        let ghost start = self.view_pair();
        let mut i: usize = 0;
        assert(all.subrange(0, n as int) =~= all);
        while i < n
            invariant
                n == items@.len(),
                all == strings_view(items@),
                i <= n,
                params_list(start, all, true) == params_list(
                    self.view_pair(),
                    all.subrange(i as int, n as int),
                    i == 0,
                ),
            decreases n - i,
        {
            let ghost tail = all.subrange(i as int, n as int);
            assert(tail[0] == items@[i as int]@);
            assert(tail.drop_first() =~= all.subrange(i + 1, n as int));
            let sep = if i == 0 {
                ""
            } else {
                ","
            };
            let ghost want_sep = if i == 0 {
                Seq::<char>::empty()
            } else {
                seq![',']
            };
            proof {
                reveal_strlit(",");
                reveal_strlit("");
            }
            assert(sep@ =~= want_sep);
            let ghost q_before = self.view_pair();
            let item = items[i].clone();
            assert(item@ == tail[0]);
            self.push_param(sep, SqlArg::Text(item));
            assert(self.view_pair() == param(q_before, want_sep, ArgView::Text(tail[0])));
            i = i + 1;
        }
        assert(all.subrange(n as int, n as int) =~= Seq::<Seq<char>>::empty());
        self.push_sql(")");
    }

    /// Appends `LIMIT` and `OFFSET` as arguments.
    fn push_paginate(&mut self, max: i64, first: i64)
        ensures
            final(self).view_pair() == paginate(old(self).view_pair(), max, first),
    {
        self.push_param(" LIMIT ", SqlArg::Integer(max));
        self.push_param(" OFFSET ", SqlArg::Integer(first));
    }
}

fn like_string(t: &str) -> (r: String)
    ensures
        r@ == like(t@),
{
    proof {
        reveal_strlit("%");
    }
    let mut s = String::from_str("%");
    s.append(t);
    s.append("%");
    s
}

fn bounded_param(params: &QueryParams, key: &str, default: i64, least: i64) -> (r: i64)
    ensures
        r == bounded(int_value(params.pairs_view(), key@), default, least),
{
    let x = match int_param(params, key) {
        Some(x) => x,
        None => default,
    };
    if x < least {
        least
    } else {
        x
    }
}

fn str_eq_ignore_ascii_case(s: &str, t: &str) -> (r: bool)
    ensures
        r == eq_ignore_ascii_case(s@, t@),
{
    let n = s.unicode_len();
    if n != t.unicode_len() {
        return false;
    }
    let mut i: usize = 0;
    while i < n
        invariant
            n == s@.len(),
            n == t@.len(),
            i <= n,
            forall|j: int| 0 <= j < i ==> lower_code(#[trigger] s@[j]) == lower_code(t@[j]),
        decreases n - i,
    {
        let c = s.get_char(i);
        let d = t.get_char(i);
        let a: u32 = if 'A' <= c && c <= 'Z' {
            c as u32 + 32
        } else {
            c as u32
        };
        let b: u32 = if 'A' <= d && d <= 'Z' {
            d as u32 + 32
        } else {
            d as u32
        };
        if a != b {
            return false;
        }
        i = i + 1;
    }
    true
}

fn direction_param(params: &QueryParams) -> (r: &'static str)
    ensures
        r@ == direction_of(params.pairs_view()),
{
    let asc = match first_param(params, "direction") {
        Some(v) => str_eq_ignore_ascii_case(v.as_str(), "asc"),
        None => str_eq_ignore_ascii_case("desc", "asc"),
    };
    if asc {
        "ASC"
    } else {
        "DESC"
    }
}


/// The pairs of a query string, as plain values.
pub type Pairs = Seq<(Seq<char>, Seq<char>)>;

/// A column compared with a value: equal to it when `exact`, containing it
/// otherwise.
pub open spec fn match_param(q: QueryView, eq: Seq<char>, contains: Seq<char>, exact: bool, v: Option<Seq<char>>) -> QueryView {
    match v {
        Some(t) => if exact {
            param(q, eq, ArgView::Text(t))
        } else {
            param(q, contains, ArgView::Text(like(t)))
        },
        None => q,
    }
}

fn push_match(q: &mut SqlQuery, eq: &str, contains: &str, exact: bool, v: Option<String>)
    ensures
        final(q).view_pair() == match_param(
            old(q).view_pair(),
            eq@,
            contains@,
            exact,
            crate::query::opt_string_view(v),
        ),
{
    match v {
        Some(t) => if exact {
            q.push_param(eq, SqlArg::Text(t));
        } else {
            q.push_param(contains, SqlArg::Text(like_string(t.as_str())));
        },
        None => {},
    }
}

/// The query for `GET events`.
pub open spec fn events_plan(realm_id: Seq<char>, ps: Pairs) -> QueryView {
    let q0 = (
        "SELECT ID, EVENT_TIME, TYPE, REALM_ID, CLIENT_ID, USER_ID, SESSION_ID, IP_ADDRESS, ERROR, DETAILS_JSON, DETAILS_JSON_LONG_VALUE FROM EVENT_ENTITY WHERE REALM_ID=?1"@,
        seq![ArgView::Text(realm_id)],
    );
    let q1 = opt_param(q0, " AND CLIENT_ID="@, text_arg(first_value(ps, "client"@)));
    let q2 = opt_param(q1, " AND USER_ID="@, text_arg(first_value(ps, "user"@)));
    let q3 = opt_param(q2, " AND IP_ADDRESS="@, text_arg(first_value(ps, "ipAddress"@)));
    let q4 = opt_param(q3, " AND EVENT_TIME>="@, int_arg(int_value(ps, "dateFrom"@)));
    let q5 = opt_param(q4, " AND EVENT_TIME<="@, int_arg(int_value(ps, "dateTo"@)));
    let q6 = in_list(q5, " AND TYPE IN ("@, list_items(values_of(ps, "type"@)));
    let q7 = lit(lit(q6, " ORDER BY EVENT_TIME "@), direction_of(ps));
    paginate(q7, bounded(int_value(ps, "max"@), 100, 1), bounded(int_value(ps, "first"@), 0, 0))
}

/// The statement that lists the events of a realm: filtered by client,
/// user, address, time range and types, newest first unless
/// `direction=asc`, 100 at a time unless `max` says otherwise, from
/// `first`.
pub fn events_query(realm_id: &str, params: &QueryParams) -> (r: SqlQuery)
    ensures
        r.view_pair() == events_plan(realm_id@, params.pairs_view()),
{
    let mut q = SqlQuery::with_arg(
        "SELECT ID, EVENT_TIME, TYPE, REALM_ID, CLIENT_ID, USER_ID, SESSION_ID, IP_ADDRESS, ERROR, DETAILS_JSON, DETAILS_JSON_LONG_VALUE FROM EVENT_ENTITY WHERE REALM_ID=?1",
        SqlArg::Text(String::from_str(realm_id)),
    );
    q.push_opt_text(" AND CLIENT_ID=", first_param(params, "client"));
    q.push_opt_text(" AND USER_ID=", first_param(params, "user"));
    q.push_opt_text(" AND IP_ADDRESS=", first_param(params, "ipAddress"));
    q.push_opt_int(" AND EVENT_TIME>=", parse_epoch_millis(params, "dateFrom"));
    q.push_opt_int(" AND EVENT_TIME<=", parse_epoch_millis(params, "dateTo"));
    q.push_in_list(" AND TYPE IN (", list_param(params, "type"));
    q.push_sql(" ORDER BY EVENT_TIME ");
    q.push_sql(direction_param(params));
    let max = bounded_param(params, "max", 100, 1);
    let first = bounded_param(params, "first", 0, 0);
    q.push_paginate(max, first);
    q
}

/// The query for `GET admin-events`.
pub open spec fn admin_events_plan(realm_id: Seq<char>, ps: Pairs) -> QueryView {
    let q0 = (
        "SELECT ID, ADMIN_EVENT_TIME, REALM_ID, AUTH_REALM_ID, AUTH_CLIENT_ID, AUTH_USER_ID, IP_ADDRESS, OPERATION_TYPE, RESOURCE_TYPE, RESOURCE_PATH, REPRESENTATION, ERROR, DETAILS_JSON FROM ADMIN_EVENT_ENTITY WHERE REALM_ID=?1"@,
        seq![ArgView::Text(realm_id)],
    );
    let q1 = opt_param(q0, " AND AUTH_CLIENT_ID="@, text_arg(first_value(ps, "authClient"@)));
    let q2 = opt_param(q1, " AND AUTH_USER_ID="@, text_arg(first_value(ps, "authUser"@)));
    let q3 = opt_param(q2, " AND AUTH_REALM_ID="@, text_arg(first_value(ps, "authRealm"@)));
    let q4 = opt_param(q3, " AND IP_ADDRESS="@, text_arg(first_value(ps, "authIpAddress"@)));
    let q5 = opt_param(q4, " AND RESOURCE_PATH="@, text_arg(first_value(ps, "resourcePath"@)));
    let q6 = opt_param(q5, " AND ADMIN_EVENT_TIME>="@, int_arg(int_value(ps, "dateFrom"@)));
    let q7 = opt_param(q6, " AND ADMIN_EVENT_TIME<="@, int_arg(int_value(ps, "dateTo"@)));
    let q8 = in_list(q7, " AND OPERATION_TYPE IN ("@, list_items(values_of(ps, "operationTypes"@)));
    let q9 = in_list(q8, " AND RESOURCE_TYPE IN ("@, list_items(values_of(ps, "resourceTypes"@)));
    let q10 = lit(lit(q9, " ORDER BY ADMIN_EVENT_TIME "@), direction_of(ps));
    paginate(q10, bounded(int_value(ps, "max"@), 100, 1), bounded(int_value(ps, "first"@), 0, 0))
}

/// The statement that lists the admin events of a realm: filtered by the
/// acting client, user, realm and address, the resource path, the time
/// range, and the operation and resource types; newest first unless
/// `direction=asc`, 100 at a time unless `max` says otherwise, from
/// `first`.
pub fn admin_events_query(realm_id: &str, params: &QueryParams) -> (r: SqlQuery)
    ensures
        r.view_pair() == admin_events_plan(realm_id@, params.pairs_view()),
{
    let mut q = SqlQuery::with_arg(
        "SELECT ID, ADMIN_EVENT_TIME, REALM_ID, AUTH_REALM_ID, AUTH_CLIENT_ID, AUTH_USER_ID, IP_ADDRESS, OPERATION_TYPE, RESOURCE_TYPE, RESOURCE_PATH, REPRESENTATION, ERROR, DETAILS_JSON FROM ADMIN_EVENT_ENTITY WHERE REALM_ID=?1",
        SqlArg::Text(String::from_str(realm_id)),
    );
    q.push_opt_text(" AND AUTH_CLIENT_ID=", first_param(params, "authClient"));
    q.push_opt_text(" AND AUTH_USER_ID=", first_param(params, "authUser"));
    q.push_opt_text(" AND AUTH_REALM_ID=", first_param(params, "authRealm"));
    q.push_opt_text(" AND IP_ADDRESS=", first_param(params, "authIpAddress"));
    q.push_opt_text(" AND RESOURCE_PATH=", first_param(params, "resourcePath"));
    q.push_opt_int(" AND ADMIN_EVENT_TIME>=", parse_epoch_millis(params, "dateFrom"));
    q.push_opt_int(" AND ADMIN_EVENT_TIME<=", parse_epoch_millis(params, "dateTo"));
    q.push_in_list(" AND OPERATION_TYPE IN (", list_param(params, "operationTypes"));
    q.push_in_list(" AND RESOURCE_TYPE IN (", list_param(params, "resourceTypes"));
    q.push_sql(" ORDER BY ADMIN_EVENT_TIME ");
    q.push_sql(direction_param(params));
    let max = bounded_param(params, "max", 100, 1);
    let first = bounded_param(params, "first", 0, 0);
    q.push_paginate(max, first);
    q
}

/// The user search: user name, e-mail or either name equal to the term
/// when `exact`, containing it otherwise.
pub open spec fn user_search(q: QueryView, exact: bool, term: Option<Seq<char>>) -> QueryView {
    match term {
        Some(t) => if exact {
            let a = ArgView::Text(t);
            lit(
                param(
                    param(param(param(q, " AND (USERNAME="@, a), " OR EMAIL="@, a), " OR FIRST_NAME="@, a),
                    " OR LAST_NAME="@,
                    a,
                ),
                seq![')'],
            )
        } else {
            let a = ArgView::Text(like(t));
            lit(
                param(
                    param(
                        param(param(q, " AND (USERNAME LIKE "@, a), " OR EMAIL LIKE "@, a),
                        " OR FIRST_NAME LIKE "@,
                        a,
                    ),
                    " OR LAST_NAME LIKE "@,
                    a,
                ),
                seq![')'],
            )
        },
        None => q,
    }
}

/// The user filters: a search over user name, e-mail and both names, then
/// each of those fields on its own; exact when `exact=true`, by substring
/// otherwise.
pub open spec fn user_filters(q: QueryView, ps: Pairs) -> QueryView {
    let exact = flag_value(ps, "exact"@, false);
    let q1 = user_search(q, exact, first_value(ps, "search"@));
    let q2 = match_param(q1, " AND USERNAME="@, " AND USERNAME LIKE "@, exact, first_value(ps, "username"@));
    let q3 = match_param(q2, " AND EMAIL="@, " AND EMAIL LIKE "@, exact, first_value(ps, "email"@));
    let q4 = match_param(q3, " AND FIRST_NAME="@, " AND FIRST_NAME LIKE "@, exact, first_value(ps, "firstName"@));
    match_param(q4, " AND LAST_NAME="@, " AND LAST_NAME LIKE "@, exact, first_value(ps, "lastName"@))
}

fn push_user_search(q: &mut SqlQuery, exact: bool, term: Option<String>)
    ensures
        final(q).view_pair() == user_search(old(q).view_pair(), exact, crate::query::opt_string_view(term)),
{
    proof {
        reveal_strlit(")");
    }
    match term {
        Some(t) => if exact {
            q.push_param(" AND (USERNAME=", SqlArg::Text(t.clone()));
            q.push_param(" OR EMAIL=", SqlArg::Text(t.clone()));
            q.push_param(" OR FIRST_NAME=", SqlArg::Text(t.clone()));
            q.push_param(" OR LAST_NAME=", SqlArg::Text(t));
            q.push_sql(")");
        } else {
            let pattern = like_string(t.as_str());
            q.push_param(" AND (USERNAME LIKE ", SqlArg::Text(pattern.clone()));
            q.push_param(" OR EMAIL LIKE ", SqlArg::Text(pattern.clone()));
            q.push_param(" OR FIRST_NAME LIKE ", SqlArg::Text(pattern.clone()));
            q.push_param(" OR LAST_NAME LIKE ", SqlArg::Text(pattern));
            q.push_sql(")");
        },
        None => {},
    }
}

fn push_user_filters(q: &mut SqlQuery, params: &QueryParams)
    ensures
        final(q).view_pair() == user_filters(old(q).view_pair(), params.pairs_view()),
{
    let exact = flag_param(params, "exact", false);
    push_user_search(q, exact, first_param(params, "search"));
    push_match(q, " AND USERNAME=", " AND USERNAME LIKE ", exact, first_param(params, "username"));
    push_match(q, " AND EMAIL=", " AND EMAIL LIKE ", exact, first_param(params, "email"));
    push_match(q, " AND FIRST_NAME=", " AND FIRST_NAME LIKE ", exact, first_param(params, "firstName"));
    push_match(q, " AND LAST_NAME=", " AND LAST_NAME LIKE ", exact, first_param(params, "lastName"));
}

/// The query for `GET users`.
pub open spec fn users_plan(realm_id: Seq<char>, ps: Pairs) -> QueryView {
    lit(
        user_filters(("SELECT ID FROM USER_ENTITY WHERE REALM_ID=?1"@, seq![ArgView::Text(realm_id)]), ps),
        " ORDER BY USERNAME"@,
    )
}

/// The statement that lists the ids of a realm's users that pass the user
/// filters, by user name.
pub fn users_query(realm_id: &str, params: &QueryParams) -> (r: SqlQuery)
    ensures
        r.view_pair() == users_plan(realm_id@, params.pairs_view()),
{
    let mut q = SqlQuery::with_arg(
        "SELECT ID FROM USER_ENTITY WHERE REALM_ID=?1",
        SqlArg::Text(String::from_str(realm_id)),
    );
    push_user_filters(&mut q, params);
    q.push_sql(" ORDER BY USERNAME");
    q
}

/// The query for `GET users/count`.
pub open spec fn users_count_plan(realm_id: Seq<char>, ps: Pairs) -> QueryView {
    user_filters(("SELECT COUNT(*) AS CNT FROM USER_ENTITY WHERE REALM_ID=?1"@, seq![ArgView::Text(realm_id)]), ps)
}

/// The statement that counts a realm's users that pass the user filters.
pub fn users_count_query(realm_id: &str, params: &QueryParams) -> (r: SqlQuery)
    ensures
        r.view_pair() == users_count_plan(realm_id@, params.pairs_view()),
{
    let mut q = SqlQuery::with_arg(
        "SELECT COUNT(*) AS CNT FROM USER_ENTITY WHERE REALM_ID=?1",
        SqlArg::Text(String::from_str(realm_id)),
    );
    push_user_filters(&mut q, params);
    q
}

/// `q` with the text `x` put before its statement text.
pub open spec fn prefixed(x: Seq<char>, q: QueryView) -> QueryView {
    (x + q.0, q.1)
}

proof fn lemma_param_prefixed(x: Seq<char>, q: QueryView, pre: Seq<char>, a: ArgView)
    ensures
        param(prefixed(x, q), pre, a) == prefixed(x, param(q, pre, a)),
        lit(prefixed(x, q), pre) == prefixed(x, lit(q, pre)),
{
    assert(param(prefixed(x, q), pre, a).0 =~= prefixed(x, param(q, pre, a)).0);
    assert(lit(prefixed(x, q), pre).0 =~= prefixed(x, lit(q, pre)).0);
}

proof fn lemma_match_prefixed(x: Seq<char>, q: QueryView, eq: Seq<char>, contains: Seq<char>, exact: bool, v: Option<Seq<char>>)
    ensures
        match_param(prefixed(x, q), eq, contains, exact, v) == prefixed(x, match_param(q, eq, contains, exact, v)),
{
    if let Some(t) = v {
        lemma_param_prefixed(x, q, eq, ArgView::Text(t));
        lemma_param_prefixed(x, q, contains, ArgView::Text(like(t)));
    }
}

proof fn lemma_search_prefixed(x: Seq<char>, q: QueryView, exact: bool, term: Option<Seq<char>>)
    ensures
        user_search(prefixed(x, q), exact, term) == prefixed(x, user_search(q, exact, term)),
{
    if let Some(t) = term {
        let a = if exact { ArgView::Text(t) } else { ArgView::Text(like(t)) };
        let (p1, p2, p3, p4) = if exact {
            (" AND (USERNAME="@, " OR EMAIL="@, " OR FIRST_NAME="@, " OR LAST_NAME="@)
        } else {
            (" AND (USERNAME LIKE "@, " OR EMAIL LIKE "@, " OR FIRST_NAME LIKE "@, " OR LAST_NAME LIKE "@)
        };
        let q1 = param(q, p1, a);
        let q2 = param(q1, p2, a);
        let q3 = param(q2, p3, a);
        let q4 = param(q3, p4, a);
        lemma_param_prefixed(x, q, p1, a);
        lemma_param_prefixed(x, q1, p2, a);
        lemma_param_prefixed(x, q2, p3, a);
        lemma_param_prefixed(x, q3, p4, a);
        lemma_param_prefixed(x, q4, seq![')'], a);
    }
}

/// The user filters add the same text and the same arguments to any
/// statement with as many arguments.
proof fn lemma_user_filters_prefixed(x: Seq<char>, q: QueryView, ps: Pairs)
    ensures
        user_filters(prefixed(x, q), ps) == prefixed(x, user_filters(q, ps)),
{
    let exact = flag_value(ps, "exact"@, false);
    let q1 = user_search(q, exact, first_value(ps, "search"@));
    let q2 = match_param(q1, " AND USERNAME="@, " AND USERNAME LIKE "@, exact, first_value(ps, "username"@));
    let q3 = match_param(q2, " AND EMAIL="@, " AND EMAIL LIKE "@, exact, first_value(ps, "email"@));
    let q4 = match_param(q3, " AND FIRST_NAME="@, " AND FIRST_NAME LIKE "@, exact, first_value(ps, "firstName"@));
    lemma_search_prefixed(x, q, exact, first_value(ps, "search"@));
    lemma_match_prefixed(x, q1, " AND USERNAME="@, " AND USERNAME LIKE "@, exact, first_value(ps, "username"@));
    lemma_match_prefixed(x, q2, " AND EMAIL="@, " AND EMAIL LIKE "@, exact, first_value(ps, "email"@));
    lemma_match_prefixed(x, q3, " AND FIRST_NAME="@, " AND FIRST_NAME LIKE "@, exact, first_value(ps, "firstName"@));
    lemma_match_prefixed(x, q4, " AND LAST_NAME="@, " AND LAST_NAME LIKE "@, exact, first_value(ps, "lastName"@));
}

/// The conditions and arguments that the user filters add after the
/// realm's own condition, for the query parameters `ps`.
pub open spec fn user_filter_part(realm_id: Seq<char>, ps: Pairs) -> QueryView {
    user_filters((Seq::empty(), seq![ArgView::Text(realm_id)]), ps)
}

/// The user count and the user list filter alike: both statements are the
/// realm's condition followed by the same filter conditions with the same
/// arguments; they differ only in what they select and in the list's
/// order.
pub proof fn lemma_user_count_filters_like_list(realm_id: Seq<char>, ps: Pairs)
    ensures
        users_plan(realm_id, ps) == (
            "SELECT ID FROM USER_ENTITY WHERE REALM_ID=?1"@ + user_filter_part(realm_id, ps).0
                + " ORDER BY USERNAME"@,
            user_filter_part(realm_id, ps).1,
        ),
        users_count_plan(realm_id, ps) == (
            "SELECT COUNT(*) AS CNT FROM USER_ENTITY WHERE REALM_ID=?1"@ + user_filter_part(realm_id, ps).0,
            user_filter_part(realm_id, ps).1,
        ),
        users_plan(realm_id, ps).1 == users_count_plan(realm_id, ps).1,
{
    let base = (Seq::<char>::empty(), seq![ArgView::Text(realm_id)]);
    let sel = "SELECT ID FROM USER_ENTITY WHERE REALM_ID=?1"@;
    let cnt = "SELECT COUNT(*) AS CNT FROM USER_ENTITY WHERE REALM_ID=?1"@;
    assert(prefixed(sel, base) == (sel, seq![ArgView::Text(realm_id)])) by {
        assert(sel + Seq::<char>::empty() =~= sel);
    }
    assert(prefixed(cnt, base) == (cnt, seq![ArgView::Text(realm_id)])) by {
        assert(cnt + Seq::<char>::empty() =~= cnt);
    }
    lemma_user_filters_prefixed(sel, base, ps);
    lemma_user_filters_prefixed(cnt, base, ps);
}

/// The search term of the group listing: `search`, or else `q`.
pub open spec fn group_search(ps: Pairs) -> Option<Seq<char>> {
    match first_value(ps, "search"@) {
        Some(t) => Some(t),
        None => first_value(ps, "q"@),
    }
}

/// The query for `GET groups`.
pub open spec fn groups_plan(realm_id: Seq<char>, ps: Pairs) -> QueryView {
    let q0 = (
        "SELECT ID, NAME FROM KEYCLOAK_GROUP WHERE REALM_ID=?1 AND PARENT_GROUP IS NULL"@,
        seq![ArgView::Text(realm_id)],
    );
    let q1 = match_param(q0, " AND NAME = "@, " AND NAME LIKE "@, flag_value(ps, "exact"@, false), group_search(ps));
    paginate(lit(q1, " ORDER BY NAME"@), bounded(int_value(ps, "max"@), 100, 1), bounded(int_value(ps, "first"@), 0, 0))
}

/// The statement that lists a realm's top-level groups by name: filtered
/// by `search` (or `q`), exactly when `exact=true`; 100 at a time unless
/// `max` says otherwise, from `first`.
pub fn groups_query(realm_id: &str, params: &QueryParams) -> (r: SqlQuery)
    ensures
        r.view_pair() == groups_plan(realm_id@, params.pairs_view()),
{
    let mut q = SqlQuery::with_arg(
        "SELECT ID, NAME FROM KEYCLOAK_GROUP WHERE REALM_ID=?1 AND PARENT_GROUP IS NULL",
        SqlArg::Text(String::from_str(realm_id)),
    );
    let search = match first_param(params, "search") {
        Some(t) => Some(t),
        None => first_param(params, "q"),
    };
    push_match(&mut q, " AND NAME = ", " AND NAME LIKE ", flag_param(params, "exact", false), search);
    q.push_sql(" ORDER BY NAME");
    let max = bounded_param(params, "max", 100, 1);
    let first = bounded_param(params, "first", 0, 0);
    q.push_paginate(max, first);
    q
}

/// The query for `GET groups/{id}/children`.
pub open spec fn group_children_plan(realm_id: Seq<char>, group_id: Seq<char>, ps: Pairs) -> QueryView {
    let q0 = (
        "SELECT ID, NAME FROM KEYCLOAK_GROUP WHERE REALM_ID=?1 AND PARENT_GROUP=?2"@,
        seq![ArgView::Text(realm_id), ArgView::Text(group_id)],
    );
    let q1 = match_param(q0, " AND NAME = "@, " AND NAME LIKE "@, flag_value(ps, "exact"@, false), first_value(ps, "search"@));
    paginate(lit(q1, " ORDER BY NAME"@), bounded(int_value(ps, "max"@), 10, 1), bounded(int_value(ps, "first"@), 0, 0))
}

/// The statement that lists the children of a group by name: filtered by
/// `search`, exactly when `exact=true`; 10 at a time unless `max` says
/// otherwise, from `first`.
pub fn group_children_query(realm_id: &str, group_id: &str, params: &QueryParams) -> (r: SqlQuery)
    ensures
        r.view_pair() == group_children_plan(realm_id@, group_id@, params.pairs_view()),
{
    let mut q = SqlQuery::with_arg(
        "SELECT ID, NAME FROM KEYCLOAK_GROUP WHERE REALM_ID=?1 AND PARENT_GROUP=?2",
        SqlArg::Text(String::from_str(realm_id)),
    );
    let ghost q_one = q.view_pair();
    let ghost gid = ArgView::Text(group_id@);
    q.args.push(SqlArg::Text(String::from_str(group_id)));
    assert(q.view_pair().1 =~= q_one.1.push(gid));
    push_match(&mut q, " AND NAME = ", " AND NAME LIKE ", flag_param(params, "exact", false), first_param(params, "search"));
    q.push_sql(" ORDER BY NAME");
    let max = bounded_param(params, "max", 10, 1);
    let first = bounded_param(params, "first", 0, 0);
    q.push_paginate(max, first);
    q
}

/// The query for `GET groups/count`.
pub open spec fn groups_count_plan(realm_id: Seq<char>, ps: Pairs) -> QueryView {
    let q0 = ("SELECT COUNT(*) AS CNT FROM KEYCLOAK_GROUP WHERE REALM_ID=?1"@, seq![ArgView::Text(realm_id)]);
    let q1 = match_param(q0, " AND NAME LIKE "@, " AND NAME LIKE "@, false, first_value(ps, "search"@));
    if flag_value(ps, "top"@, false) {
        lit(q1, " AND PARENT_GROUP IS NULL"@)
    } else {
        q1
    }
}

/// The statement that counts a realm's groups whose names contain
/// `search`, only the top-level ones when `top=true`.
pub fn groups_count_query(realm_id: &str, params: &QueryParams) -> (r: SqlQuery)
    ensures
        r.view_pair() == groups_count_plan(realm_id@, params.pairs_view()),
{
    let mut q = SqlQuery::with_arg(
        "SELECT COUNT(*) AS CNT FROM KEYCLOAK_GROUP WHERE REALM_ID=?1",
        SqlArg::Text(String::from_str(realm_id)),
    );
    push_match(&mut q, " AND NAME LIKE ", " AND NAME LIKE ", false, first_param(params, "search"));
    if flag_param(params, "top", false) {
        q.push_sql(" AND PARENT_GROUP IS NULL");
    }
    q
}

/// The organization search: name or alias, exact when `exact=true`, by
/// substring otherwise.
pub open spec fn org_search(q: QueryView, ps: Pairs) -> QueryView {
    match first_value(ps, "search"@) {
        Some(t) => if flag_value(ps, "exact"@, false) {
            let a = ArgView::Text(t);
            lit(param(param(q, " AND (NAME="@, a), " OR ALIAS="@, a), seq![')'])
        } else {
            let a = ArgView::Text(like(t));
            lit(param(param(q, " AND (NAME LIKE "@, a), " OR ALIAS LIKE "@, a), seq![')'])
        },
        None => q,
    }
}

fn push_org_search(q: &mut SqlQuery, params: &QueryParams)
    ensures
        final(q).view_pair() == org_search(old(q).view_pair(), params.pairs_view()),
{
    proof {
        reveal_strlit(")");
    }
    match first_param(params, "search") {
        Some(t) => if flag_param(params, "exact", false) {
            q.push_param(" AND (NAME=", SqlArg::Text(t.clone()));
            q.push_param(" OR ALIAS=", SqlArg::Text(t));
            q.push_sql(")");
        } else {
            let pattern = like_string(t.as_str());
            q.push_param(" AND (NAME LIKE ", SqlArg::Text(pattern.clone()));
            q.push_param(" OR ALIAS LIKE ", SqlArg::Text(pattern));
            q.push_sql(")");
        },
        None => {},
    }
}

/// The query for `GET organizations`.
pub open spec fn organizations_plan(realm_id: Seq<char>, ps: Pairs) -> QueryView {
    let q0 = (
        "SELECT ID, NAME, ALIAS, DESCRIPTION, ENABLED, GROUP_ID, REDIRECT_URL FROM ORG WHERE REALM_ID=?1"@,
        seq![ArgView::Text(realm_id)],
    );
    paginate(
        lit(org_search(q0, ps), " ORDER BY NAME"@),
        bounded(int_value(ps, "max"@), 10, 1),
        bounded(int_value(ps, "first"@), 0, 0),
    )
}

/// The statement that lists a realm's organizations by name, filtered by
/// the organization search; 10 at a time unless `max` says otherwise, from
/// `first`.
pub fn organizations_query(realm_id: &str, params: &QueryParams) -> (r: SqlQuery)
    ensures
        r.view_pair() == organizations_plan(realm_id@, params.pairs_view()),
{
    let mut q = SqlQuery::with_arg(
        "SELECT ID, NAME, ALIAS, DESCRIPTION, ENABLED, GROUP_ID, REDIRECT_URL FROM ORG WHERE REALM_ID=?1",
        SqlArg::Text(String::from_str(realm_id)),
    );
    push_org_search(&mut q, params);
    q.push_sql(" ORDER BY NAME");
    let max = bounded_param(params, "max", 10, 1);
    let first = bounded_param(params, "first", 0, 0);
    q.push_paginate(max, first);
    q
}

/// The query for `GET organizations/count`.
pub open spec fn organizations_count_plan(realm_id: Seq<char>, ps: Pairs) -> QueryView {
    org_search(("SELECT COUNT(*) AS CNT FROM ORG WHERE REALM_ID=?1"@, seq![ArgView::Text(realm_id)]), ps)
}

/// The statement that counts a realm's organizations that pass the
/// organization search.
pub fn organizations_count_query(realm_id: &str, params: &QueryParams) -> (r: SqlQuery)
    ensures
        r.view_pair() == organizations_count_plan(realm_id@, params.pairs_view()),
{
    let mut q = SqlQuery::with_arg(
        "SELECT COUNT(*) AS CNT FROM ORG WHERE REALM_ID=?1",
        SqlArg::Text(String::from_str(realm_id)),
    );
    push_org_search(&mut q, params);
    q
}

/// The query for `GET identity-provider/instances`.
pub open spec fn identity_providers_plan(realm_id: Seq<char>, ps: Pairs) -> QueryView {
    let q0 = (
        "SELECT INTERNAL_ID, PROVIDER_ALIAS, PROVIDER_DISPLAY_NAME, PROVIDER_ID, ENABLED, ORGANIZATION_ID FROM IDENTITY_PROVIDER WHERE REALM_ID=?1"@,
        seq![ArgView::Text(realm_id)],
    );
    let q1 = match first_value(ps, "search"@) {
        Some(t) => {
            let a = ArgView::Text(like(t));
            lit(param(param(q0, " AND (PROVIDER_ALIAS LIKE "@, a), " OR PROVIDER_DISPLAY_NAME LIKE "@, a), seq![')'])
        },
        None => q0,
    };
    let q2 = opt_param(q1, " AND PROVIDER_ID="@, text_arg(first_value(ps, "type"@)));
    let q3 = if flag_value(ps, "realmOnly"@, false) {
        lit(q2, " AND ORGANIZATION_ID IS NULL"@)
    } else {
        q2
    };
    paginate(
        lit(q3, " ORDER BY PROVIDER_ALIAS"@),
        bounded(int_value(ps, "max"@), 100, 1),
        bounded(int_value(ps, "first"@), 0, 0),
    )
}

/// The statement that lists a realm's identity providers by alias:
/// filtered by a substring of alias or display name, by provider type, and
/// to those of no organization when `realmOnly=true`; 100 at a time unless
/// `max` says otherwise, from `first`.
pub fn identity_providers_query(realm_id: &str, params: &QueryParams) -> (r: SqlQuery)
    ensures
        r.view_pair() == identity_providers_plan(realm_id@, params.pairs_view()),
{
    proof {
        reveal_strlit(")");
    }
    let mut q = SqlQuery::with_arg(
        "SELECT INTERNAL_ID, PROVIDER_ALIAS, PROVIDER_DISPLAY_NAME, PROVIDER_ID, ENABLED, ORGANIZATION_ID FROM IDENTITY_PROVIDER WHERE REALM_ID=?1",
        SqlArg::Text(String::from_str(realm_id)),
    );
    match first_param(params, "search") {
        Some(t) => {
            let pattern = like_string(t.as_str());
            q.push_param(" AND (PROVIDER_ALIAS LIKE ", SqlArg::Text(pattern.clone()));
            q.push_param(" OR PROVIDER_DISPLAY_NAME LIKE ", SqlArg::Text(pattern));
            q.push_sql(")");
        },
        None => {},
    }
    q.push_opt_text(" AND PROVIDER_ID=", first_param(params, "type"));
    if flag_param(params, "realmOnly", false) {
        q.push_sql(" AND ORGANIZATION_ID IS NULL");
    }
    q.push_sql(" ORDER BY PROVIDER_ALIAS");
    let max = bounded_param(params, "max", 100, 1);
    let first = bounded_param(params, "first", 0, 0);
    q.push_paginate(max, first);
    q
}

/// The query for `GET clients`: `max` and `first` are written into the
/// text as numbers; a positive `first` without `max` reads from `first`
/// to the end.
pub open spec fn clients_plan(realm_id: Seq<char>, ps: Pairs) -> QueryView {
    let q0 = ("SELECT ID, CLIENT_ID FROM CLIENT WHERE REALM_ID=?1"@, seq![ArgView::Text(realm_id)]);
    let q1 = lit(opt_param(q0, " AND CLIENT_ID="@, text_arg(first_value(ps, "clientId"@))), " ORDER BY CLIENT_ID"@);
    let first = match int_value(ps, "first"@) {
        Some(f) => f,
        None => 0,
    };
    match int_value(ps, "max"@) {
        Some(limit) => {
            let q2 = lit(q1, " LIMIT "@ + signed_decimal(limit as int));
            if first > 0 {
                lit(q2, " OFFSET "@ + signed_decimal(first as int))
            } else {
                q2
            }
        },
        None => if first > 0 {
            lit(q1, " LIMIT -1 OFFSET "@ + signed_decimal(first as int))
        } else {
            q1
        },
    }
}

/// The statement that lists a realm's clients by client id, filtered by
/// `clientId`, with the window that `max` and `first` give.
pub fn clients_query(realm_id: &str, params: &QueryParams) -> (r: SqlQuery)
    ensures
        r.view_pair() == clients_plan(realm_id@, params.pairs_view()),
{
    let mut q = SqlQuery::with_arg(
        "SELECT ID, CLIENT_ID FROM CLIENT WHERE REALM_ID=?1",
        SqlArg::Text(String::from_str(realm_id)),
    );
    q.push_opt_text(" AND CLIENT_ID=", first_param(params, "clientId"));
    q.push_sql(" ORDER BY CLIENT_ID");
    let first = match int_param(params, "first") {
        Some(f) => f,
        None => 0,
    };
    match int_param(params, "max") {
        Some(limit) => {
            let ghost before = q.view_pair();
            q.push_sql(" LIMIT ");
            let digits = signed_decimal_string(limit);
            q.push_sql(digits.as_str());
            assert(q.view_pair() =~= lit(before, " LIMIT "@ + signed_decimal(limit as int)));
            if first > 0 {
                let ghost mid = q.view_pair();
                q.push_sql(" OFFSET ");
                let digits = signed_decimal_string(first);
                q.push_sql(digits.as_str());
                assert(q.view_pair() =~= lit(mid, " OFFSET "@ + signed_decimal(first as int)));
            }
        },
        None => if first > 0 {
            let ghost before = q.view_pair();
            q.push_sql(" LIMIT -1 OFFSET ");
            let digits = signed_decimal_string(first);
            q.push_sql(digits.as_str());
            assert(q.view_pair() =~= lit(before, " LIMIT -1 OFFSET "@ + signed_decimal(first as int)));
        },
    }
    q
}

/// The query for `GET components`.
pub open spec fn components_plan(realm_id: Seq<char>, ps: Pairs) -> QueryView {
    let q0 = ("SELECT ID FROM COMPONENT WHERE REALM_ID=?1"@, seq![ArgView::Text(realm_id)]);
    let q1 = opt_param(q0, " AND NAME="@, text_arg(first_value(ps, "name"@)));
    let q2 = opt_param(q1, " AND PARENT_ID="@, text_arg(first_value(ps, "parent"@)));
    let q3 = opt_param(q2, " AND PROVIDER_TYPE="@, text_arg(first_value(ps, "type"@)));
    lit(q3, " ORDER BY NAME"@)
}

/// The statement that lists the ids of a realm's components by name,
/// filtered by name, parent and provider type.
pub fn components_query(realm_id: &str, params: &QueryParams) -> (r: SqlQuery)
    ensures
        r.view_pair() == components_plan(realm_id@, params.pairs_view()),
{
    let mut q = SqlQuery::with_arg(
        "SELECT ID FROM COMPONENT WHERE REALM_ID=?1",
        SqlArg::Text(String::from_str(realm_id)),
    );
    q.push_opt_text(" AND NAME=", first_param(params, "name"));
    q.push_opt_text(" AND PARENT_ID=", first_param(params, "parent"));
    q.push_opt_text(" AND PROVIDER_TYPE=", first_param(params, "type"));
    q.push_sql(" ORDER BY NAME");
    q
}

/// The query for `GET roles`.
pub open spec fn roles_plan(realm_id: Seq<char>, ps: Pairs) -> QueryView {
    let q0 = ("SELECT ID FROM KEYCLOAK_ROLE WHERE REALM_ID=?1"@, seq![ArgView::Text(realm_id)]);
    lit(match_param(q0, " AND NAME LIKE "@, " AND NAME LIKE "@, false, first_value(ps, "search"@)), " ORDER BY NAME"@)
}

/// The statement that lists the ids of a realm's roles by name, filtered by
/// a substring of the name.
pub fn roles_query(realm_id: &str, params: &QueryParams) -> (r: SqlQuery)
    ensures
        r.view_pair() == roles_plan(realm_id@, params.pairs_view()),
{
    let mut q = SqlQuery::with_arg(
        "SELECT ID FROM KEYCLOAK_ROLE WHERE REALM_ID=?1",
        SqlArg::Text(String::from_str(realm_id)),
    );
    push_match(&mut q, " AND NAME LIKE ", " AND NAME LIKE ", false, first_param(params, "search"));
    q.push_sql(" ORDER BY NAME");
    q
}

/// The query for the protocol mappers of a client scope.
pub open spec fn protocol_mappers_plan(scope_id: Seq<char>, protocol: Option<Seq<char>>) -> QueryView {
    let q0 = (
        "SELECT ID, NAME, PROTOCOL, PROTOCOL_MAPPER_NAME FROM PROTOCOL_MAPPER WHERE CLIENT_SCOPE_ID=?1"@,
        seq![ArgView::Text(scope_id)],
    );
    lit(opt_param(q0, " AND PROTOCOL="@, text_arg(protocol)), " ORDER BY NAME"@)
}

/// The statement that lists the protocol mappers of a client scope by name,
/// only those of `protocol` when it is given.
pub fn protocol_mappers_query(scope_id: &str, protocol: Option<&str>) -> (r: SqlQuery)
    ensures
        r.view_pair() == protocol_mappers_plan(scope_id@, crate::text::opt_view(protocol)),
{
    let mut q = SqlQuery::with_arg(
        "SELECT ID, NAME, PROTOCOL, PROTOCOL_MAPPER_NAME FROM PROTOCOL_MAPPER WHERE CLIENT_SCOPE_ID=?1",
        SqlArg::Text(String::from_str(scope_id)),
    );
    let p = match protocol {
        Some(p) => Some(String::from_str(p)),
        None => None,
    };
    q.push_opt_text(" AND PROTOCOL=", p);
    q.push_sql(" ORDER BY NAME");
    q
}

/// The statement that finds a group by its name below `parent`, or among
/// the top groups when there is no parent.
pub open spec fn group_by_name_plan(realm_id: Seq<char>, name: Seq<char>, parent: Option<Seq<char>>) -> QueryView {
    match parent {
        Some(p) => (
            "SELECT ID FROM KEYCLOAK_GROUP WHERE REALM_ID=?1 AND NAME=?2 AND PARENT_GROUP=?3"@,
            seq![ArgView::Text(realm_id), ArgView::Text(name), ArgView::Text(p)],
        ),
        None => (
            "SELECT ID FROM KEYCLOAK_GROUP WHERE REALM_ID=?1 AND NAME=?2 AND PARENT_GROUP IS NULL"@,
            seq![ArgView::Text(realm_id), ArgView::Text(name)],
        ),
    }
}

/// The statement that finds a group by its name below `parent`, or among
/// the top groups when there is no parent.
pub fn group_by_name_query(realm_id: &str, name: &str, parent: Option<&str>) -> (r: SqlQuery)
    ensures
        r.view_pair() == group_by_name_plan(realm_id@, name@, crate::text::opt_view(parent)),
{
    let mut args: Vec<SqlArg> = Vec::new();
    args.push(SqlArg::Text(String::from_str(realm_id)));
    args.push(SqlArg::Text(String::from_str(name)));
    let sql = match parent {
        Some(p) => {
            args.push(SqlArg::Text(String::from_str(p)));
            String::from_str("SELECT ID FROM KEYCLOAK_GROUP WHERE REALM_ID=?1 AND NAME=?2 AND PARENT_GROUP=?3")
        },
        None => String::from_str(
            "SELECT ID FROM KEYCLOAK_GROUP WHERE REALM_ID=?1 AND NAME=?2 AND PARENT_GROUP IS NULL",
        ),
    };
    let r = SqlQuery { sql, args };
    assert(r.view_pair().1 =~= group_by_name_plan(realm_id@, name@, crate::text::opt_view(parent)).1);
    r
}

/// A non-negative count: negative values count as 0.
pub open spec fn non_negative(v: i64) -> i64 {
    if v < 0 {
        0
    } else {
        v
    }
}

/// The window `[start, end)` of `len` loaded items that `first` and `max`
/// select: skip `first` items, then take `max` (all of them when `max` is
/// not given); negative values count as 0.
pub open spec fn window(len: nat, first: Option<i64>, max: Option<i64>) -> (int, int) {
    let f = non_negative(
        match first {
            Some(f) => f,
            None => 0,
        },
    ) as usize;
    let m = non_negative(
        match max {
            Some(m) => m,
            None => len as i64,
        },
    ) as usize;
    let start = if f < len {
        f as int
    } else {
        len as int
    };
    let end = if start + m < len {
        start + m
    } else {
        len as int
    };
    (start, end)
}

/// Keeps the items that `first` and `max` select among `items`: skip
/// `first`, then take `max` (all when not given); negative values count
/// as 0.
pub fn take_page<T>(items: Vec<T>, params: &QueryParams) -> (r: Vec<T>)
    ensures
        ({
            let (start, end) = window(
                items@.len(),
                int_value(params.pairs_view(), "first"@),
                int_value(params.pairs_view(), "max"@),
            );
            r@ == items@.subrange(start, end)
        }),
{
    let len = items.len();
    let f = match int_param(params, "first") {
        Some(f) => f,
        None => 0,
    };
    let f: usize = if f < 0 {
        0
    } else {
        f as usize
    };
    let m = match int_param(params, "max") {
        Some(m) => m,
        None => len as i64,
    };
    let m: usize = if m < 0 {
        0
    } else {
        m as usize
    };
    let start = if f < len {
        f
    } else {
        len
    };
    let end = if m < len - start {
        start + m
    } else {
        len
    };
    let mut v = items;
    v.truncate(end);
    let page = v.split_off(start);
    page
}
} // verus!

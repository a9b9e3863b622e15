//! Laws of the planned statements, stated over what the statement text
//! says and which value each placeholder receives: a filter parameter is
//! compared with its own column, the organization search is by substring
//! unless `exact=true`, and the group count is restricted to top-level
//! groups exactly when `top=true`.
use vstd::prelude::*;
use vstd::string::*;
use crate::num::{decimal, digit_char, signed_decimal};
use crate::query::{first_value, int_value, list_items, values_of};
use crate::sql::{
    admin_events_plan, bounded, clients_plan, components_plan, groups_plan, identity_providers_plan,
    protocol_mappers_plan, roles_plan, direction_of, int_arg, events_plan, group_children_plan, groups_count_plan, in_list, lit,
    match_param, opt_param, organizations_count_plan, organizations_plan, org_search, paginate, param,
    params_list, text_arg, user_filters, user_search, users_count_plan, users_plan, ArgView, Pairs,
    QueryView,
};
use crate::text::ends_with;
use crate::fields::{layout, Kind, Layout};

verus! {

/// A decimal digit.
pub open spec fn is_digit(c: char) -> bool {
    '0' <= c && c <= '9'
}

/// Text that is empty or does not begin with a digit.
pub open spec fn no_digit_first(t: Seq<char>) -> bool {
    t.len() == 0 || !is_digit(t[0])
}

/// `p` occurs in `s` and is not followed by a digit, so that a placeholder
/// `?k` in `p` is the whole number `k`.
pub open spec fn occurs_whole(s: Seq<char>, p: Seq<char>) -> bool {
    exists|a: Seq<char>, b: Seq<char>| s == a + p + b && no_digit_first(b)
}

/// The statement compares the value `v` with what precedes its
/// placeholder: the text `pre` followed by `?k` occurs in it, and the
/// `k`th argument is `v`.
pub open spec fn binds(q: QueryView, pre: Seq<char>, v: ArgView) -> bool {
    exists|k: nat| 1 <= k <= q.1.len() && q.1[k - 1] == v && occurs_whole(q.0, pre + seq!['?'] + decimal(k))
}

proof fn lemma_decimal_digits(n: nat)
    ensures
        decimal(n).len() > 0,
        is_digit(decimal(n).last()),
    decreases n,
{
    if n >= 10 {
        lemma_decimal_digits(n / 10);
        assert((decimal(n / 10) + seq![digit_char(n % 10)]).last() == digit_char(n % 10));
    }
}

proof fn lemma_occurs_append(s: Seq<char>, p: Seq<char>, t: Seq<char>)
    requires
        occurs_whole(s, p),
        no_digit_first(t),
    ensures
        occurs_whole(s + t, p),
{
    let (a, b) = choose|a: Seq<char>, b: Seq<char>| s == a + p + b && no_digit_first(b);
    assert(s + t =~= a + p + (b + t));
    if b.len() > 0 {
        assert((b + t)[0] == b[0]);
    } else {
        assert(b + t =~= t);
    }
}

proof fn lemma_binds_lit(q: QueryView, t: Seq<char>, pre: Seq<char>, v: ArgView)
    requires
        binds(q, pre, v),
        no_digit_first(t),
    ensures
        binds(lit(q, t), pre, v),
{
    let k = choose|k: nat| 1 <= k <= q.1.len() && q.1[k - 1] == v && occurs_whole(q.0, pre + seq!['?'] + decimal(k));
    lemma_occurs_append(q.0, pre + seq!['?'] + decimal(k), t);
}

proof fn lemma_binds_param(q: QueryView, pre2: Seq<char>, a: ArgView, pre: Seq<char>, v: ArgView)
    requires
        binds(q, pre, v),
        no_digit_first(pre2),
    ensures
        binds(param(q, pre2, a), pre, v),
{
    let k = choose|k: nat| 1 <= k <= q.1.len() && q.1[k - 1] == v && occurs_whole(q.0, pre + seq!['?'] + decimal(k));
    let t = pre2 + seq!['?'] + decimal((q.1.len() + 1) as nat);
    if pre2.len() > 0 {
        assert(t[0] == pre2[0]);
    } else {
        assert(t[0] == '?');
    }
    lemma_occurs_append(q.0, pre + seq!['?'] + decimal(k), t);
    assert(param(q, pre2, a).0 =~= q.0 + t);
    assert(param(q, pre2, a).1[k - 1] == v);
}

proof fn lemma_binds_new(q: QueryView, pre: Seq<char>, v: ArgView)
    ensures
        binds(param(q, pre, v), pre, v),
{
    let k = (q.1.len() + 1) as nat;
    let p = pre + seq!['?'] + decimal(k);
    let r = param(q, pre, v);
    assert(r.0 =~= q.0 + p + Seq::<char>::empty());
    assert(occurs_whole(r.0, p));
    assert(r.1[k - 1] == v);
}

proof fn lemma_binds_opt(q: QueryView, pre2: Seq<char>, a: Option<ArgView>, pre: Seq<char>, v: ArgView)
    requires
        binds(q, pre, v),
        no_digit_first(pre2),
    ensures
        binds(opt_param(q, pre2, a), pre, v),
{
    if let Some(x) = a {
        lemma_binds_param(q, pre2, x, pre, v);
    }
}

proof fn lemma_binds_params_list(q: QueryView, items: Seq<Seq<char>>, first: bool, pre: Seq<char>, v: ArgView)
    requires
        binds(q, pre, v),
    ensures
        binds(params_list(q, items, first), pre, v),
    decreases items.len(),
{
    if items.len() > 0 {
        let sep = if first { Seq::<char>::empty() } else { seq![','] };
        lemma_binds_param(q, sep, ArgView::Text(items[0]), pre, v);
        lemma_binds_params_list(param(q, sep, ArgView::Text(items[0])), items.drop_first(), false, pre, v);
    }
}

proof fn lemma_binds_in_list(q: QueryView, pre2: Seq<char>, items: Seq<Seq<char>>, pre: Seq<char>, v: ArgView)
    requires
        binds(q, pre, v),
        no_digit_first(pre2),
    ensures
        binds(in_list(q, pre2, items), pre, v),
{
    if items.len() > 0 {
        lemma_binds_lit(q, pre2, pre, v);
        lemma_binds_params_list(lit(q, pre2), items, true, pre, v);
        lemma_binds_lit(params_list(lit(q, pre2), items, true), seq![')'], pre, v);
    }
}

proof fn lemma_binds_paginate(q: QueryView, max: i64, first: i64, pre: Seq<char>, v: ArgView)
    requires
        binds(q, pre, v),
    ensures
        binds(paginate(q, max, first), pre, v),
{
    reveal_strlit(" LIMIT ");
    reveal_strlit(" OFFSET ");
    lemma_binds_param(q, " LIMIT "@, ArgView::Integer(max), pre, v);
    lemma_binds_param(param(q, " LIMIT "@, ArgView::Integer(max)), " OFFSET "@, ArgView::Integer(first), pre, v);
}

proof fn lemma_direction_first(ps: Pairs)
    ensures
        no_digit_first(direction_of(ps)),
{
    reveal_strlit("ASC");
    reveal_strlit("DESC");
}

/// Each text filter of the admin-event listing compares its value with its
/// own column: `authClient` with `AUTH_CLIENT_ID`, `authUser` with
/// `AUTH_USER_ID`, `authRealm` with `AUTH_REALM_ID`, `authIpAddress` with
/// `IP_ADDRESS` and `resourcePath` with `RESOURCE_PATH`; the statement binds
/// the parameter's first value to the placeholder after that column.
#[verifier::rlimit(50)]
pub proof fn lemma_admin_event_filters(realm_id: Seq<char>, ps: Pairs)
    ensures
        first_value(ps, "authClient"@) matches Some(u) ==> binds(admin_events_plan(realm_id, ps), " AND AUTH_CLIENT_ID="@, ArgView::Text(u)),
        first_value(ps, "authUser"@) matches Some(u) ==> binds(admin_events_plan(realm_id, ps), " AND AUTH_USER_ID="@, ArgView::Text(u)),
        first_value(ps, "authRealm"@) matches Some(u) ==> binds(admin_events_plan(realm_id, ps), " AND AUTH_REALM_ID="@, ArgView::Text(u)),
        first_value(ps, "authIpAddress"@) matches Some(u) ==> binds(admin_events_plan(realm_id, ps), " AND IP_ADDRESS="@, ArgView::Text(u)),
        first_value(ps, "resourcePath"@) matches Some(u) ==> binds(admin_events_plan(realm_id, ps), " AND RESOURCE_PATH="@, ArgView::Text(u)),
{
    reveal_strlit(" AND AUTH_CLIENT_ID=");
    reveal_strlit(" AND AUTH_USER_ID=");
    reveal_strlit(" AND AUTH_REALM_ID=");
    reveal_strlit(" AND IP_ADDRESS=");
    reveal_strlit(" AND RESOURCE_PATH=");
    reveal_strlit(" AND ADMIN_EVENT_TIME>=");
    reveal_strlit(" AND ADMIN_EVENT_TIME<=");
    reveal_strlit(" AND OPERATION_TYPE IN (");
    reveal_strlit(" AND RESOURCE_TYPE IN (");
    reveal_strlit(" ORDER BY ADMIN_EVENT_TIME ");
    lemma_direction_first(ps);
    let q0 = (
        "SELECT ID, ADMIN_EVENT_TIME, REALM_ID, AUTH_REALM_ID, AUTH_CLIENT_ID, AUTH_USER_ID, IP_ADDRESS, OPERATION_TYPE, RESOURCE_TYPE, RESOURCE_PATH, REPRESENTATION, ERROR, DETAILS_JSON FROM ADMIN_EVENT_ENTITY WHERE REALM_ID=?1"@,
        seq![ArgView::Text(realm_id)],
    );
    let q1 = opt_param(q0, " AND AUTH_CLIENT_ID="@, text_arg(first_value(ps, "authClient"@)));
    let q2 = opt_param(q1, " AND AUTH_USER_ID="@, text_arg(first_value(ps, "authUser"@)));
    let q3 = opt_param(q2, " AND AUTH_REALM_ID="@, text_arg(first_value(ps, "authRealm"@)));
    let q4 = opt_param(q3, " AND IP_ADDRESS="@, text_arg(first_value(ps, "authIpAddress"@)));
    let q5 = opt_param(q4, " AND RESOURCE_PATH="@, text_arg(first_value(ps, "resourcePath"@)));
    let from = int_arg(int_value(ps, "dateFrom"@));
    let to = int_arg(int_value(ps, "dateTo"@));
    let ops = list_items(values_of(ps, "operationTypes"@));
    let res = list_items(values_of(ps, "resourceTypes"@));
    let q6 = opt_param(q5, " AND ADMIN_EVENT_TIME>="@, from);
    let q7 = opt_param(q6, " AND ADMIN_EVENT_TIME<="@, to);
    let q8 = in_list(q7, " AND OPERATION_TYPE IN ("@, ops);
    let q9 = in_list(q8, " AND RESOURCE_TYPE IN ("@, res);
    let q10a = lit(q9, " ORDER BY ADMIN_EVENT_TIME "@);
    let q10 = lit(q10a, direction_of(ps));
    let max = bounded(int_value(ps, "max"@), 100, 1);
    let first = bounded(int_value(ps, "first"@), 0, 0);
    assert(admin_events_plan(realm_id, ps) == paginate(q10, max, first));

    if let Some(u) = first_value(ps, "authClient"@) {
        let pre = " AND AUTH_CLIENT_ID="@;
        let v = ArgView::Text(u);
        lemma_binds_new(q0, pre, v);
        lemma_binds_opt(q1, " AND AUTH_USER_ID="@, text_arg(first_value(ps, "authUser"@)), pre, v);
        lemma_binds_opt(q2, " AND AUTH_REALM_ID="@, text_arg(first_value(ps, "authRealm"@)), pre, v);
        lemma_binds_opt(q3, " AND IP_ADDRESS="@, text_arg(first_value(ps, "authIpAddress"@)), pre, v);
        lemma_binds_opt(q4, " AND RESOURCE_PATH="@, text_arg(first_value(ps, "resourcePath"@)), pre, v);
        lemma_binds_opt(q5, " AND ADMIN_EVENT_TIME>="@, from, pre, v);
        lemma_binds_opt(q6, " AND ADMIN_EVENT_TIME<="@, to, pre, v);
        lemma_binds_in_list(q7, " AND OPERATION_TYPE IN ("@, ops, pre, v);
        lemma_binds_in_list(q8, " AND RESOURCE_TYPE IN ("@, res, pre, v);
        lemma_binds_lit(q9, " ORDER BY ADMIN_EVENT_TIME "@, pre, v);
        lemma_binds_lit(q10a, direction_of(ps), pre, v);
        lemma_binds_paginate(q10, max, first, pre, v);
    }
    if let Some(u) = first_value(ps, "authUser"@) {
        let pre = " AND AUTH_USER_ID="@;
        let v = ArgView::Text(u);
        lemma_binds_new(q1, pre, v);
        lemma_binds_opt(q2, " AND AUTH_REALM_ID="@, text_arg(first_value(ps, "authRealm"@)), pre, v);
        lemma_binds_opt(q3, " AND IP_ADDRESS="@, text_arg(first_value(ps, "authIpAddress"@)), pre, v);
        lemma_binds_opt(q4, " AND RESOURCE_PATH="@, text_arg(first_value(ps, "resourcePath"@)), pre, v);
        lemma_binds_opt(q5, " AND ADMIN_EVENT_TIME>="@, from, pre, v);
        lemma_binds_opt(q6, " AND ADMIN_EVENT_TIME<="@, to, pre, v);
        lemma_binds_in_list(q7, " AND OPERATION_TYPE IN ("@, ops, pre, v);
        lemma_binds_in_list(q8, " AND RESOURCE_TYPE IN ("@, res, pre, v);
        lemma_binds_lit(q9, " ORDER BY ADMIN_EVENT_TIME "@, pre, v);
        lemma_binds_lit(q10a, direction_of(ps), pre, v);
        lemma_binds_paginate(q10, max, first, pre, v);
    }
    if let Some(u) = first_value(ps, "authRealm"@) {
        let pre = " AND AUTH_REALM_ID="@;
        let v = ArgView::Text(u);
        lemma_binds_new(q2, pre, v);
        lemma_binds_opt(q3, " AND IP_ADDRESS="@, text_arg(first_value(ps, "authIpAddress"@)), pre, v);
        lemma_binds_opt(q4, " AND RESOURCE_PATH="@, text_arg(first_value(ps, "resourcePath"@)), pre, v);
        lemma_binds_opt(q5, " AND ADMIN_EVENT_TIME>="@, from, pre, v);
        lemma_binds_opt(q6, " AND ADMIN_EVENT_TIME<="@, to, pre, v);
        lemma_binds_in_list(q7, " AND OPERATION_TYPE IN ("@, ops, pre, v);
        lemma_binds_in_list(q8, " AND RESOURCE_TYPE IN ("@, res, pre, v);
        lemma_binds_lit(q9, " ORDER BY ADMIN_EVENT_TIME "@, pre, v);
        lemma_binds_lit(q10a, direction_of(ps), pre, v);
        lemma_binds_paginate(q10, max, first, pre, v);
    }
    if let Some(u) = first_value(ps, "authIpAddress"@) {
        let pre = " AND IP_ADDRESS="@;
        let v = ArgView::Text(u);
        lemma_binds_new(q3, pre, v);
        lemma_binds_opt(q4, " AND RESOURCE_PATH="@, text_arg(first_value(ps, "resourcePath"@)), pre, v);
        lemma_binds_opt(q5, " AND ADMIN_EVENT_TIME>="@, from, pre, v);
        lemma_binds_opt(q6, " AND ADMIN_EVENT_TIME<="@, to, pre, v);
        lemma_binds_in_list(q7, " AND OPERATION_TYPE IN ("@, ops, pre, v);
        lemma_binds_in_list(q8, " AND RESOURCE_TYPE IN ("@, res, pre, v);
        lemma_binds_lit(q9, " ORDER BY ADMIN_EVENT_TIME "@, pre, v);
        lemma_binds_lit(q10a, direction_of(ps), pre, v);
        lemma_binds_paginate(q10, max, first, pre, v);
    }
    if let Some(u) = first_value(ps, "resourcePath"@) {
        let pre = " AND RESOURCE_PATH="@;
        let v = ArgView::Text(u);
        lemma_binds_new(q4, pre, v);
        lemma_binds_opt(q5, " AND ADMIN_EVENT_TIME>="@, from, pre, v);
        lemma_binds_opt(q6, " AND ADMIN_EVENT_TIME<="@, to, pre, v);
        lemma_binds_in_list(q7, " AND OPERATION_TYPE IN ("@, ops, pre, v);
        lemma_binds_in_list(q8, " AND RESOURCE_TYPE IN ("@, res, pre, v);
        lemma_binds_lit(q9, " ORDER BY ADMIN_EVENT_TIME "@, pre, v);
        lemma_binds_lit(q10a, direction_of(ps), pre, v);
        lemma_binds_paginate(q10, max, first, pre, v);
    }
}

/// Each text filter of the event listing compares its value with its own
/// column: `client` with `CLIENT_ID`, `user` with `USER_ID` and `ipAddress`
/// with `IP_ADDRESS`.
#[verifier::rlimit(50)]
pub proof fn lemma_event_filters(realm_id: Seq<char>, ps: Pairs)
    ensures
        first_value(ps, "client"@) matches Some(u) ==> binds(events_plan(realm_id, ps), " AND CLIENT_ID="@, ArgView::Text(u)),
        first_value(ps, "user"@) matches Some(u) ==> binds(events_plan(realm_id, ps), " AND USER_ID="@, ArgView::Text(u)),
        first_value(ps, "ipAddress"@) matches Some(u) ==> binds(events_plan(realm_id, ps), " AND IP_ADDRESS="@, ArgView::Text(u)),
{
    reveal_strlit(" AND CLIENT_ID=");
    reveal_strlit(" AND USER_ID=");
    reveal_strlit(" AND IP_ADDRESS=");
    reveal_strlit(" AND EVENT_TIME>=");
    reveal_strlit(" AND EVENT_TIME<=");
    reveal_strlit(" AND TYPE IN (");
    reveal_strlit(" ORDER BY EVENT_TIME ");
    lemma_direction_first(ps);
    let q0 = (
        "SELECT ID, EVENT_TIME, TYPE, REALM_ID, CLIENT_ID, USER_ID, SESSION_ID, IP_ADDRESS, ERROR, DETAILS_JSON, DETAILS_JSON_LONG_VALUE FROM EVENT_ENTITY WHERE REALM_ID=?1"@,
        seq![ArgView::Text(realm_id)],
    );
    let q1 = opt_param(q0, " AND CLIENT_ID="@, text_arg(first_value(ps, "client"@)));
    let q2 = opt_param(q1, " AND USER_ID="@, text_arg(first_value(ps, "user"@)));
    let q3 = opt_param(q2, " AND IP_ADDRESS="@, text_arg(first_value(ps, "ipAddress"@)));
    let from = int_arg(int_value(ps, "dateFrom"@));
    let to = int_arg(int_value(ps, "dateTo"@));
    let types = list_items(values_of(ps, "type"@));
    let q4 = opt_param(q3, " AND EVENT_TIME>="@, from);
    let q5 = opt_param(q4, " AND EVENT_TIME<="@, to);
    let q6 = in_list(q5, " AND TYPE IN ("@, types);
    let q7a = lit(q6, " ORDER BY EVENT_TIME "@);
    let q7 = lit(q7a, direction_of(ps));
    let max = bounded(int_value(ps, "max"@), 100, 1);
    let first = bounded(int_value(ps, "first"@), 0, 0);
    assert(events_plan(realm_id, ps) == paginate(q7, max, first));

    if let Some(u) = first_value(ps, "client"@) {
        let pre = " AND CLIENT_ID="@;
        let v = ArgView::Text(u);
        lemma_binds_new(q0, pre, v);
        lemma_binds_opt(q1, " AND USER_ID="@, text_arg(first_value(ps, "user"@)), pre, v);
        lemma_binds_opt(q2, " AND IP_ADDRESS="@, text_arg(first_value(ps, "ipAddress"@)), pre, v);
        lemma_binds_opt(q3, " AND EVENT_TIME>="@, from, pre, v);
        lemma_binds_opt(q4, " AND EVENT_TIME<="@, to, pre, v);
        lemma_binds_in_list(q5, " AND TYPE IN ("@, types, pre, v);
        lemma_binds_lit(q6, " ORDER BY EVENT_TIME "@, pre, v);
        lemma_binds_lit(q7a, direction_of(ps), pre, v);
        lemma_binds_paginate(q7, max, first, pre, v);
    }
    if let Some(u) = first_value(ps, "user"@) {
        let pre = " AND USER_ID="@;
        let v = ArgView::Text(u);
        lemma_binds_new(q1, pre, v);
        lemma_binds_opt(q2, " AND IP_ADDRESS="@, text_arg(first_value(ps, "ipAddress"@)), pre, v);
        lemma_binds_opt(q3, " AND EVENT_TIME>="@, from, pre, v);
        lemma_binds_opt(q4, " AND EVENT_TIME<="@, to, pre, v);
        lemma_binds_in_list(q5, " AND TYPE IN ("@, types, pre, v);
        lemma_binds_lit(q6, " ORDER BY EVENT_TIME "@, pre, v);
        lemma_binds_lit(q7a, direction_of(ps), pre, v);
        lemma_binds_paginate(q7, max, first, pre, v);
    }
    if let Some(u) = first_value(ps, "ipAddress"@) {
        let pre = " AND IP_ADDRESS="@;
        let v = ArgView::Text(u);
        lemma_binds_new(q2, pre, v);
        lemma_binds_opt(q3, " AND EVENT_TIME>="@, from, pre, v);
        lemma_binds_opt(q4, " AND EVENT_TIME<="@, to, pre, v);
        lemma_binds_in_list(q5, " AND TYPE IN ("@, types, pre, v);
        lemma_binds_lit(q6, " ORDER BY EVENT_TIME "@, pre, v);
        lemma_binds_lit(q7a, direction_of(ps), pre, v);
        lemma_binds_paginate(q7, max, first, pre, v);
    }
}

/// The organization search, in both the listing and the count: with
/// `search=t`, the name and the alias are each compared with `t` exactly
/// when the first value of `exact` is `true`, and otherwise each must
/// contain it (`LIKE` with the pattern `%t%`).
pub proof fn lemma_organization_search(realm_id: Seq<char>, ps: Pairs)
    ensures
        first_value(ps, "search"@) matches Some(t) ==> {
            let exact = first_value(ps, "exact"@) == Some("true"@);
            let pattern = seq!['%'] + t + seq!['%'];
            forall|q: QueryView| q == organizations_plan(realm_id, ps) || q == organizations_count_plan(realm_id, ps) ==> {
                &&& exact ==> binds(q, " AND (NAME="@, ArgView::Text(t)) && binds(q, " OR ALIAS="@, ArgView::Text(t))
                &&& !exact ==> binds(q, " AND (NAME LIKE "@, ArgView::Text(pattern)) && binds(
                    q,
                    " OR ALIAS LIKE "@,
                    ArgView::Text(pattern),
                )
            }
        },
{
    reveal_strlit(" AND (NAME=");
    reveal_strlit(" OR ALIAS=");
    reveal_strlit(" AND (NAME LIKE ");
    reveal_strlit(" OR ALIAS LIKE ");
    reveal_strlit(" ORDER BY NAME");
    reveal_strlit("true");
    if let Some(t) = first_value(ps, "search"@) {
        let exact = crate::query::flag_value(ps, "exact"@, false);
        assert(exact == (first_value(ps, "exact"@) == Some("true"@)));
        let a = if exact { ArgView::Text(t) } else { ArgView::Text(crate::sql::like(t)) };
        let (p1, p2) = if exact {
            (" AND (NAME="@, " OR ALIAS="@)
        } else {
            (" AND (NAME LIKE "@, " OR ALIAS LIKE "@)
        };
        assert(!exact ==> a == ArgView::Text(seq!['%'] + t + seq!['%']));
        let bases = seq![
            ("SELECT ID, NAME, ALIAS, DESCRIPTION, ENABLED, GROUP_ID, REDIRECT_URL FROM ORG WHERE REALM_ID=?1"@, seq![ArgView::Text(realm_id)]),
            ("SELECT COUNT(*) AS CNT FROM ORG WHERE REALM_ID=?1"@, seq![ArgView::Text(realm_id)]),
        ];
        assert forall|i: int| 0 <= i < 2 implies binds(#[trigger] org_search(bases[i], ps), p1, a) && binds(org_search(bases[i], ps), p2, a) by {
            let q0 = bases[i];
            let q1 = param(q0, p1, a);
            let q2 = param(q1, p2, a);
            assert(org_search(q0, ps) == lit(q2, seq![')']));
            lemma_binds_new(q0, p1, a);
            lemma_binds_param(q1, p2, a, p1, a);
            lemma_binds_new(q1, p2, a);
            lemma_binds_lit(q2, seq![')'], p1, a);
            lemma_binds_lit(q2, seq![')'], p2, a);
        }
        let s0 = org_search(bases[0], ps);
        let listed = lit(s0, " ORDER BY NAME"@);
        let max = bounded(int_value(ps, "max"@), 10, 1);
        let first = bounded(int_value(ps, "first"@), 0, 0);
        assert(organizations_plan(realm_id, ps) == paginate(listed, max, first));
        assert(organizations_count_plan(realm_id, ps) == org_search(bases[1], ps));
        assert(binds(org_search(bases[0], ps), p1, a) && binds(org_search(bases[0], ps), p2, a));
        assert(binds(org_search(bases[1], ps), p1, a) && binds(org_search(bases[1], ps), p2, a));
        lemma_binds_lit(s0, " ORDER BY NAME"@, p1, a);
        lemma_binds_lit(s0, " ORDER BY NAME"@, p2, a);
        lemma_binds_paginate(listed, max, first, p1, a);
        lemma_binds_paginate(listed, max, first, p2, a);
    }
}

/// The group count is restricted to top-level groups exactly when the
/// first value of `top` is `true`: only then does its statement end with
/// the condition that the group has no parent.
pub proof fn lemma_group_count_top(realm_id: Seq<char>, ps: Pairs)
    ensures
        ends_with(groups_count_plan(realm_id, ps).0, " AND PARENT_GROUP IS NULL"@) <==> first_value(ps, "top"@)
            == Some("true"@),
        first_value(ps, "search"@) matches Some(t) ==> binds(
            groups_count_plan(realm_id, ps),
            " AND NAME LIKE "@,
            ArgView::Text(seq!['%'] + t + seq!['%']),
        ),
{
    reveal_strlit(" AND PARENT_GROUP IS NULL");
    reveal_strlit("SELECT COUNT(*) AS CNT FROM KEYCLOAK_GROUP WHERE REALM_ID=?1");
    reveal_strlit(" AND NAME LIKE ");
    reveal_strlit("true");
    let tail = " AND PARENT_GROUP IS NULL"@;
    let q0 = ("SELECT COUNT(*) AS CNT FROM KEYCLOAK_GROUP WHERE REALM_ID=?1"@, seq![ArgView::Text(realm_id)]);
    let q1 = match_param(q0, " AND NAME LIKE "@, " AND NAME LIKE "@, false, first_value(ps, "search"@));
    let top = crate::query::flag_value(ps, "top"@, false);
    assert(top == (first_value(ps, "top"@) == Some("true"@)));
    // Without the top condition the text ends with a placeholder's number
    // or with the realm's `?1`, not with the condition's last letter.
    assert(q1.0.len() > 0 && is_digit(q1.0.last())) by {
        if let Some(t) = first_value(ps, "search"@) {
            let d = decimal((q0.1.len() + 1) as nat);
            lemma_decimal_digits((q0.1.len() + 1) as nat);
            assert(q1.0 == q0.0 + " AND NAME LIKE "@ + seq!['?'] + d);
            assert(q1.0.last() == d.last());
        }
    }
    if top {
        assert(groups_count_plan(realm_id, ps).0 == q1.0 + tail);
        assert((q1.0 + tail).subrange(q1.0.len() as int, (q1.0 + tail).len() as int) =~= tail);
    } else {
        assert(groups_count_plan(realm_id, ps).0 == q1.0);
        if ends_with(q1.0, tail) {
            assert(q1.0.subrange(q1.0.len() - tail.len(), q1.0.len() as int)[tail.len() - 1] == q1.0.last());
            assert(tail[tail.len() - 1] == 'L');
        }
    }
    if let Some(t) = first_value(ps, "search"@) {
        assert(crate::sql::like(t) == seq!['%'] + t + seq!['%']);
        lemma_binds_new(q0, " AND NAME LIKE "@, ArgView::Text(crate::sql::like(t)));
        if top {
            lemma_binds_lit(q1, tail, " AND NAME LIKE "@, ArgView::Text(crate::sql::like(t)));
        }
    }
}

/// The column in which a layout keeps `key`: that of the first field with
/// that key.
pub open spec fn column_of(fs: Seq<(Seq<char>, Seq<char>, Kind)>, key: Seq<char>) -> Option<Seq<char>>
    decreases fs.len(),
{
    if fs.len() == 0 {
        None
    } else if fs[0].0 == key {
        Some(fs[0].1)
    } else {
        column_of(fs.drop_first(), key)
    }
}

/// A group's parent is kept in the column that the listing of a group's
/// children compares with the parent's id: the group layout keeps
/// `parentId` in `PARENT_GROUP`, the children statement binds the parent
/// to `PARENT_GROUP=`, and no two fields of the group layout share a
/// column, so the parent is never read from the group's own `ID`.
pub proof fn lemma_group_parent_column(realm_id: Seq<char>, group_id: Seq<char>, ps: Pairs)
    ensures
        column_of(layout(Layout::Group), "parentId"@) == Some("PARENT_GROUP"@),
        column_of(layout(Layout::Group), "id"@) == Some("ID"@),
        forall|i: int, j: int|
            0 <= i < j < layout(Layout::Group).len() ==> #[trigger] layout(Layout::Group)[i].1
                != #[trigger] layout(Layout::Group)[j].1,
        binds(
            group_children_plan(realm_id, group_id, ps),
            " AND "@ + "PARENT_GROUP"@ + "="@,
            ArgView::Text(group_id),
        ),
{
    reveal_strlit("id");
    reveal_strlit("name");
    reveal_strlit("description");
    reveal_strlit("parentId");
    reveal_strlit("ID");
    reveal_strlit("NAME");
    reveal_strlit("DESCRIPTION");
    reveal_strlit("PARENT_GROUP");
    reveal_strlit(" AND ");
    reveal_strlit("=");
    reveal_strlit(" AND NAME = ");
    reveal_strlit(" AND NAME LIKE ");
    reveal_strlit(" ORDER BY NAME");
    reveal_strlit("SELECT ID, NAME FROM KEYCLOAK_GROUP WHERE REALM_ID=?1 AND PARENT_GROUP=?2");
    reveal_strlit("SELECT ID, NAME FROM KEYCLOAK_GROUP WHERE REALM_ID=?1");
    let fs = layout(Layout::Group);
    assert(fs.len() == 4);
    assert(fs[0].1.len() == 2 && fs[1].1.len() == 4 && fs[2].1.len() == 11 && fs[3].1.len() == 12);
    assert(fs[0].0.len() == 2 && fs[1].0.len() == 4 && fs[2].0.len() == 11 && fs[3].0.len() == 8);
    assert(fs.drop_first().drop_first().drop_first().drop_first().len() == 0);
    assert(column_of(fs.drop_first().drop_first().drop_first(), "parentId"@) == Some("PARENT_GROUP"@));
    assert(column_of(fs.drop_first().drop_first(), "parentId"@) == Some("PARENT_GROUP"@));
    assert(column_of(fs.drop_first(), "parentId"@) == Some("PARENT_GROUP"@));
    // The children statement.
    let v = ArgView::Text(group_id);
    let pre = " AND "@ + "PARENT_GROUP"@ + "="@;
    let q0 = (
        "SELECT ID, NAME FROM KEYCLOAK_GROUP WHERE REALM_ID=?1 AND PARENT_GROUP=?2"@,
        seq![ArgView::Text(realm_id), ArgView::Text(group_id)],
    );
    assert(decimal(2) == seq!['2']);
    assert(q0.0 =~= "SELECT ID, NAME FROM KEYCLOAK_GROUP WHERE REALM_ID=?1"@ + (pre + seq!['?'] + decimal(2))
        + Seq::<char>::empty());
    assert(occurs_whole(q0.0, pre + seq!['?'] + decimal(2)));
    assert(binds(q0, pre, v));
    let exact = crate::query::flag_value(ps, "exact"@, false);
    let q1 = match_param(q0, " AND NAME = "@, " AND NAME LIKE "@, exact, first_value(ps, "search"@));
    if let Some(t) = first_value(ps, "search"@) {
        lemma_binds_param(q0, " AND NAME = "@, ArgView::Text(t), pre, v);
        lemma_binds_param(q0, " AND NAME LIKE "@, ArgView::Text(crate::sql::like(t)), pre, v);
    }
    let q2 = lit(q1, " ORDER BY NAME"@);
    lemma_binds_lit(q1, " ORDER BY NAME"@, pre, v);
    let max = bounded(int_value(ps, "max"@), 10, 1);
    let first = bounded(int_value(ps, "first"@), 0, 0);
    assert(group_children_plan(realm_id, group_id, ps) == paginate(q2, max, first));
    lemma_binds_paginate(q2, max, first, pre, v);
}

proof fn lemma_binds_match(
    q: QueryView,
    eq: Seq<char>,
    contains: Seq<char>,
    exact: bool,
    t: Option<Seq<char>>,
    pre: Seq<char>,
    v: ArgView,
)
    requires
        binds(q, pre, v),
        no_digit_first(eq),
        no_digit_first(contains),
    ensures
        binds(match_param(q, eq, contains, exact, t), pre, v),
{
    if let Some(x) = t {
        lemma_binds_param(q, eq, ArgView::Text(x), pre, v);
        lemma_binds_param(q, contains, ArgView::Text(crate::sql::like(x)), pre, v);
    }
}

/// What the user filters bind in the statement `q` for the parameters
/// `ps`: `username`, `email`, `firstName` and `lastName` each compared with
/// its own column (`USERNAME`, `EMAIL`, `FIRST_NAME`, `LAST_NAME`), and
/// `search` with all four; exactly when the first value of `exact` is
/// `true`, and otherwise by substring (`LIKE` with the pattern `%t%`).
pub open spec fn user_filters_bound(q: QueryView, ps: Pairs) -> bool {
    &&& (first_value(ps, "username"@) matches Some(u) ==> if first_value(ps, "exact"@) == Some("true"@) {
        binds(q, " AND USERNAME="@, ArgView::Text(u))
    } else {
        binds(q, " AND USERNAME LIKE "@, ArgView::Text(seq!['%'] + u + seq!['%']))
    })
    &&& (first_value(ps, "email"@) matches Some(u) ==> if first_value(ps, "exact"@) == Some("true"@) {
        binds(q, " AND EMAIL="@, ArgView::Text(u))
    } else {
        binds(q, " AND EMAIL LIKE "@, ArgView::Text(seq!['%'] + u + seq!['%']))
    })
    &&& (first_value(ps, "firstName"@) matches Some(u) ==> if first_value(ps, "exact"@) == Some("true"@) {
        binds(q, " AND FIRST_NAME="@, ArgView::Text(u))
    } else {
        binds(q, " AND FIRST_NAME LIKE "@, ArgView::Text(seq!['%'] + u + seq!['%']))
    })
    &&& (first_value(ps, "lastName"@) matches Some(u) ==> if first_value(ps, "exact"@) == Some("true"@) {
        binds(q, " AND LAST_NAME="@, ArgView::Text(u))
    } else {
        binds(q, " AND LAST_NAME LIKE "@, ArgView::Text(seq!['%'] + u + seq!['%']))
    })
    &&& (first_value(ps, "search"@) matches Some(t) ==> if first_value(ps, "exact"@) == Some("true"@) {
        binds(q, " AND (USERNAME="@, ArgView::Text(t))
    } else {
        binds(q, " AND (USERNAME LIKE "@, ArgView::Text(seq!['%'] + t + seq!['%']))
    })
    &&& (first_value(ps, "search"@) matches Some(t) ==> if first_value(ps, "exact"@) == Some("true"@) {
        binds(q, " OR EMAIL="@, ArgView::Text(t))
    } else {
        binds(q, " OR EMAIL LIKE "@, ArgView::Text(seq!['%'] + t + seq!['%']))
    })
    &&& (first_value(ps, "search"@) matches Some(t) ==> if first_value(ps, "exact"@) == Some("true"@) {
        binds(q, " OR FIRST_NAME="@, ArgView::Text(t))
    } else {
        binds(q, " OR FIRST_NAME LIKE "@, ArgView::Text(seq!['%'] + t + seq!['%']))
    })
    &&& (first_value(ps, "search"@) matches Some(t) ==> if first_value(ps, "exact"@) == Some("true"@) {
        binds(q, " OR LAST_NAME="@, ArgView::Text(t))
    } else {
        binds(q, " OR LAST_NAME LIKE "@, ArgView::Text(seq!['%'] + t + seq!['%']))
    })
}

#[verifier::rlimit(80)]
proof fn lemma_user_filters_bind(q: QueryView, ps: Pairs)
    ensures
        user_filters_bound(user_filters(q, ps), ps),
{
    reveal_strlit(" AND (USERNAME=");
    reveal_strlit(" OR EMAIL=");
    reveal_strlit(" OR FIRST_NAME=");
    reveal_strlit(" OR LAST_NAME=");
    reveal_strlit(" AND (USERNAME LIKE ");
    reveal_strlit(" OR EMAIL LIKE ");
    reveal_strlit(" OR FIRST_NAME LIKE ");
    reveal_strlit(" OR LAST_NAME LIKE ");
    reveal_strlit(" AND USERNAME=");
    reveal_strlit(" AND USERNAME LIKE ");
    reveal_strlit(" AND EMAIL=");
    reveal_strlit(" AND EMAIL LIKE ");
    reveal_strlit(" AND FIRST_NAME=");
    reveal_strlit(" AND FIRST_NAME LIKE ");
    reveal_strlit(" AND LAST_NAME=");
    reveal_strlit(" AND LAST_NAME LIKE ");
    reveal_strlit(" ORDER BY USERNAME");
    reveal_strlit("true");
    let exact = crate::query::flag_value(ps, "exact"@, false);
    assert(exact == (first_value(ps, "exact"@) == Some("true"@)));
    let q1 = user_search(q, exact, first_value(ps, "search"@));
    let q2 = match_param(q1, " AND USERNAME="@, " AND USERNAME LIKE "@, exact, first_value(ps, "username"@));
    let q3 = match_param(q2, " AND EMAIL="@, " AND EMAIL LIKE "@, exact, first_value(ps, "email"@));
    let q4 = match_param(q3, " AND FIRST_NAME="@, " AND FIRST_NAME LIKE "@, exact, first_value(ps, "firstName"@));
    let q5 = match_param(q4, " AND LAST_NAME="@, " AND LAST_NAME LIKE "@, exact, first_value(ps, "lastName"@));
    assert(user_filters(q, ps) == q5);

    if let Some(t) = first_value(ps, "search"@) {
        let a = if exact { ArgView::Text(t) } else { ArgView::Text(crate::sql::like(t)) };
        let ps4 = if exact {
            seq![" AND (USERNAME="@, " OR EMAIL="@, " OR FIRST_NAME="@, " OR LAST_NAME="@]
        } else {
            seq![" AND (USERNAME LIKE "@, " OR EMAIL LIKE "@, " OR FIRST_NAME LIKE "@, " OR LAST_NAME LIKE "@]
        };
        let s1 = param(q, ps4[0], a);
        let s2 = param(s1, ps4[1], a);
        let s3 = param(s2, ps4[2], a);
        let s4 = param(s3, ps4[3], a);
        assert(q1 == lit(s4, seq![')']));
        assert forall|i: int| 0 <= i < 4 implies binds(q1, #[trigger] ps4[i], a) by {
            let pre = ps4[i];
            if i == 0 {
                lemma_binds_new(q, pre, a);
                lemma_binds_param(s1, ps4[1], a, pre, a);
                lemma_binds_param(s2, ps4[2], a, pre, a);
                lemma_binds_param(s3, ps4[3], a, pre, a);
            } else if i == 1 {
                lemma_binds_new(s1, pre, a);
                lemma_binds_param(s2, ps4[2], a, pre, a);
                lemma_binds_param(s3, ps4[3], a, pre, a);
            } else if i == 2 {
                lemma_binds_new(s2, pre, a);
                lemma_binds_param(s3, ps4[3], a, pre, a);
            } else {
                lemma_binds_new(s3, pre, a);
            }
            lemma_binds_lit(s4, seq![')'], pre, a);
        }
        assert forall|i: int| 0 <= i < 4 implies binds(user_filters(q, ps), #[trigger] ps4[i], a) by {
            let pre = ps4[i];
            lemma_binds_match(q1, " AND USERNAME="@, " AND USERNAME LIKE "@, exact, first_value(ps, "username"@), pre, a);
            lemma_binds_match(q2, " AND EMAIL="@, " AND EMAIL LIKE "@, exact, first_value(ps, "email"@), pre, a);
            lemma_binds_match(q3, " AND FIRST_NAME="@, " AND FIRST_NAME LIKE "@, exact, first_value(ps, "firstName"@), pre, a);
            lemma_binds_match(q4, " AND LAST_NAME="@, " AND LAST_NAME LIKE "@, exact, first_value(ps, "lastName"@), pre, a);
        }
    }

    if let Some(u) = first_value(ps, "username"@) {
        let (pre, v) = if exact { (" AND USERNAME="@, ArgView::Text(u)) } else { (" AND USERNAME LIKE "@, ArgView::Text(crate::sql::like(u))) };
        lemma_binds_new(q1, pre, v);
        lemma_binds_match(q2, " AND EMAIL="@, " AND EMAIL LIKE "@, exact, first_value(ps, "email"@), pre, v);
        lemma_binds_match(q3, " AND FIRST_NAME="@, " AND FIRST_NAME LIKE "@, exact, first_value(ps, "firstName"@), pre, v);
        lemma_binds_match(q4, " AND LAST_NAME="@, " AND LAST_NAME LIKE "@, exact, first_value(ps, "lastName"@), pre, v);
        assert(binds(user_filters(q, ps), pre, v));
    }
    if let Some(u) = first_value(ps, "email"@) {
        let (pre, v) = if exact { (" AND EMAIL="@, ArgView::Text(u)) } else { (" AND EMAIL LIKE "@, ArgView::Text(crate::sql::like(u))) };
        lemma_binds_new(q2, pre, v);
        lemma_binds_match(q3, " AND FIRST_NAME="@, " AND FIRST_NAME LIKE "@, exact, first_value(ps, "firstName"@), pre, v);
        lemma_binds_match(q4, " AND LAST_NAME="@, " AND LAST_NAME LIKE "@, exact, first_value(ps, "lastName"@), pre, v);
        assert(binds(user_filters(q, ps), pre, v));
    }
    if let Some(u) = first_value(ps, "firstName"@) {
        let (pre, v) = if exact { (" AND FIRST_NAME="@, ArgView::Text(u)) } else { (" AND FIRST_NAME LIKE "@, ArgView::Text(crate::sql::like(u))) };
        lemma_binds_new(q3, pre, v);
        lemma_binds_match(q4, " AND LAST_NAME="@, " AND LAST_NAME LIKE "@, exact, first_value(ps, "lastName"@), pre, v);
        assert(binds(user_filters(q, ps), pre, v));
    }
    if let Some(u) = first_value(ps, "lastName"@) {
        let (pre, v) = if exact { (" AND LAST_NAME="@, ArgView::Text(u)) } else { (" AND LAST_NAME LIKE "@, ArgView::Text(crate::sql::like(u))) };
        lemma_binds_new(q4, pre, v);
        assert(binds(user_filters(q, ps), pre, v));
    }

}

proof fn lemma_user_filters_bound_lit(q: QueryView, t: Seq<char>, ps: Pairs)
    requires
        user_filters_bound(q, ps),
        no_digit_first(t),
    ensures
        user_filters_bound(lit(q, t), ps),
{
    if let Some(u) = first_value(ps, "username"@) {
        if first_value(ps, "exact"@) == Some("true"@) {
            lemma_binds_lit(q, t, " AND USERNAME="@, ArgView::Text(u));
        } else {
            lemma_binds_lit(q, t, " AND USERNAME LIKE "@, ArgView::Text(seq!['%'] + u + seq!['%']));
        }
    }
    if let Some(u) = first_value(ps, "email"@) {
        if first_value(ps, "exact"@) == Some("true"@) {
            lemma_binds_lit(q, t, " AND EMAIL="@, ArgView::Text(u));
        } else {
            lemma_binds_lit(q, t, " AND EMAIL LIKE "@, ArgView::Text(seq!['%'] + u + seq!['%']));
        }
    }
    if let Some(u) = first_value(ps, "firstName"@) {
        if first_value(ps, "exact"@) == Some("true"@) {
            lemma_binds_lit(q, t, " AND FIRST_NAME="@, ArgView::Text(u));
        } else {
            lemma_binds_lit(q, t, " AND FIRST_NAME LIKE "@, ArgView::Text(seq!['%'] + u + seq!['%']));
        }
    }
    if let Some(u) = first_value(ps, "lastName"@) {
        if first_value(ps, "exact"@) == Some("true"@) {
            lemma_binds_lit(q, t, " AND LAST_NAME="@, ArgView::Text(u));
        } else {
            lemma_binds_lit(q, t, " AND LAST_NAME LIKE "@, ArgView::Text(seq!['%'] + u + seq!['%']));
        }
    }
    if let Some(u) = first_value(ps, "search"@) {
        if first_value(ps, "exact"@) == Some("true"@) {
            lemma_binds_lit(q, t, " AND (USERNAME="@, ArgView::Text(u));
        } else {
            lemma_binds_lit(q, t, " AND (USERNAME LIKE "@, ArgView::Text(seq!['%'] + u + seq!['%']));
        }
    }
    if let Some(u) = first_value(ps, "search"@) {
        if first_value(ps, "exact"@) == Some("true"@) {
            lemma_binds_lit(q, t, " OR EMAIL="@, ArgView::Text(u));
        } else {
            lemma_binds_lit(q, t, " OR EMAIL LIKE "@, ArgView::Text(seq!['%'] + u + seq!['%']));
        }
    }
    if let Some(u) = first_value(ps, "search"@) {
        if first_value(ps, "exact"@) == Some("true"@) {
            lemma_binds_lit(q, t, " OR FIRST_NAME="@, ArgView::Text(u));
        } else {
            lemma_binds_lit(q, t, " OR FIRST_NAME LIKE "@, ArgView::Text(seq!['%'] + u + seq!['%']));
        }
    }
    if let Some(u) = first_value(ps, "search"@) {
        if first_value(ps, "exact"@) == Some("true"@) {
            lemma_binds_lit(q, t, " OR LAST_NAME="@, ArgView::Text(u));
        } else {
            lemma_binds_lit(q, t, " OR LAST_NAME LIKE "@, ArgView::Text(seq!['%'] + u + seq!['%']));
        }
    }
}

/// The user list and the user count compare each user filter with its own
/// column, exactly when `exact=true` and by substring otherwise (see
/// `user_filters_bound`).
pub proof fn lemma_user_filter_columns(realm_id: Seq<char>, ps: Pairs)
    ensures
        user_filters_bound(users_plan(realm_id, ps), ps),
        user_filters_bound(users_count_plan(realm_id, ps), ps),
{
    reveal_strlit(" ORDER BY USERNAME");
    let a = user_filters(("SELECT ID FROM USER_ENTITY WHERE REALM_ID=?1"@, seq![ArgView::Text(realm_id)]), ps);
    lemma_user_filters_bind(("SELECT ID FROM USER_ENTITY WHERE REALM_ID=?1"@, seq![ArgView::Text(realm_id)]), ps);
    lemma_user_filters_bind(("SELECT COUNT(*) AS CNT FROM USER_ENTITY WHERE REALM_ID=?1"@, seq![ArgView::Text(realm_id)]), ps);
    lemma_user_filters_bound_lit(a, " ORDER BY USERNAME"@, ps);
}

/// The group listings compare their search term with the group's name:
/// the top-level listing takes `search`, or else `q`, and the children
/// listing takes `search`; exactly when the first value of `exact` is
/// `true`, and otherwise by substring (`LIKE` with the pattern `%t%`).
pub proof fn lemma_group_search(realm_id: Seq<char>, group_id: Seq<char>, ps: Pairs)
    ensures
        ({
            let term = match first_value(ps, "search"@) {
                Some(t) => Some(t),
                None => first_value(ps, "q"@),
            };
            term matches Some(t) ==> if first_value(ps, "exact"@) == Some("true"@) {
                binds(groups_plan(realm_id, ps), " AND NAME = "@, ArgView::Text(t))
            } else {
                binds(groups_plan(realm_id, ps), " AND NAME LIKE "@, ArgView::Text(seq!['%'] + t + seq!['%']))
            }
        }),
        first_value(ps, "search"@) matches Some(t) ==> if first_value(ps, "exact"@) == Some("true"@) {
            binds(group_children_plan(realm_id, group_id, ps), " AND NAME = "@, ArgView::Text(t))
        } else {
            binds(
                group_children_plan(realm_id, group_id, ps),
                " AND NAME LIKE "@,
                ArgView::Text(seq!['%'] + t + seq!['%']),
            )
        },
{
    reveal_strlit(" AND NAME = ");
    reveal_strlit(" AND NAME LIKE ");
    reveal_strlit(" ORDER BY NAME");
    reveal_strlit("true");
    let exact = crate::query::flag_value(ps, "exact"@, false);
    assert(exact == (first_value(ps, "exact"@) == Some("true"@)));
    let bases = seq![
        ("SELECT ID, NAME FROM KEYCLOAK_GROUP WHERE REALM_ID=?1 AND PARENT_GROUP IS NULL"@, seq![ArgView::Text(realm_id)]),
        (
            "SELECT ID, NAME FROM KEYCLOAK_GROUP WHERE REALM_ID=?1 AND PARENT_GROUP=?2"@,
            seq![ArgView::Text(realm_id), ArgView::Text(group_id)],
        ),
    ];
    let terms = seq![crate::sql::group_search(ps), first_value(ps, "search"@)];
    let maxes = seq![bounded(int_value(ps, "max"@), 100, 1), bounded(int_value(ps, "max"@), 10, 1)];
    let first = bounded(int_value(ps, "first"@), 0, 0);
    assert(groups_plan(realm_id, ps) == paginate(
        lit(match_param(bases[0], " AND NAME = "@, " AND NAME LIKE "@, exact, terms[0]), " ORDER BY NAME"@),
        maxes[0],
        first,
    ));
    assert(group_children_plan(realm_id, group_id, ps) == paginate(
        lit(match_param(bases[1], " AND NAME = "@, " AND NAME LIKE "@, exact, terms[1]), " ORDER BY NAME"@),
        maxes[1],
        first,
    ));
    assert forall|i: int| 0 <= i < 2 implies (#[trigger] terms[i] matches Some(t) ==> {
        let pl = paginate(
            lit(match_param(bases[i], " AND NAME = "@, " AND NAME LIKE "@, exact, terms[i]), " ORDER BY NAME"@),
            maxes[i],
            first,
        );
        if exact {
            binds(pl, " AND NAME = "@, ArgView::Text(t))
        } else {
            binds(pl, " AND NAME LIKE "@, ArgView::Text(seq!['%'] + t + seq!['%']))
        }
    }) by {
        if let Some(t) = terms[i] {
            let (pre, v) = if exact {
                (" AND NAME = "@, ArgView::Text(t))
            } else {
                (" AND NAME LIKE "@, ArgView::Text(crate::sql::like(t)))
            };
            let q1 = match_param(bases[i], " AND NAME = "@, " AND NAME LIKE "@, exact, terms[i]);
            lemma_binds_new(bases[i], pre, v);
            lemma_binds_lit(q1, " ORDER BY NAME"@, pre, v);
            lemma_binds_paginate(lit(q1, " ORDER BY NAME"@), maxes[i], first, pre, v);
        }
    }
}

/// The filters of the component, client, role, identity-provider and
/// protocol-mapper listings compare each parameter with its own column:
/// a component's `name`, `parent` and `type` with `NAME`, `PARENT_ID` and
/// `PROVIDER_TYPE`; a client's `clientId` with `CLIENT_ID`; a role's
/// `search` with `NAME` by substring; an identity provider's `search` with
/// its alias and display name by substring, its `type` with
/// `PROVIDER_ID`, and `realmOnly=true` keeps the providers of no
/// organization; a protocol mapper's protocol with `PROTOCOL`.
#[verifier::rlimit(50)]
pub proof fn lemma_listing_filter_columns(realm_id: Seq<char>, ps: Pairs, protocol: Option<Seq<char>>)
    ensures
        first_value(ps, "name"@) matches Some(u) ==> binds(components_plan(realm_id, ps), " AND NAME="@, ArgView::Text(u)),
        first_value(ps, "parent"@) matches Some(u) ==> binds(components_plan(realm_id, ps), " AND PARENT_ID="@, ArgView::Text(u)),
        first_value(ps, "type"@) matches Some(u) ==> binds(components_plan(realm_id, ps), " AND PROVIDER_TYPE="@, ArgView::Text(u)),
        first_value(ps, "clientId"@) matches Some(u) ==> binds(clients_plan(realm_id, ps), " AND CLIENT_ID="@, ArgView::Text(u)),
        first_value(ps, "search"@) matches Some(t) ==> binds(
            roles_plan(realm_id, ps),
            " AND NAME LIKE "@,
            ArgView::Text(seq!['%'] + t + seq!['%']),
        ),
        first_value(ps, "search"@) matches Some(t) ==> binds(
            identity_providers_plan(realm_id, ps),
            " AND (PROVIDER_ALIAS LIKE "@,
            ArgView::Text(seq!['%'] + t + seq!['%']),
        ) && binds(
            identity_providers_plan(realm_id, ps),
            " OR PROVIDER_DISPLAY_NAME LIKE "@,
            ArgView::Text(seq!['%'] + t + seq!['%']),
        ),
        first_value(ps, "type"@) matches Some(u) ==> binds(identity_providers_plan(realm_id, ps), " AND PROVIDER_ID="@, ArgView::Text(u)),
        first_value(ps, "realmOnly"@) == Some("true"@) ==> occurs_whole(
            identity_providers_plan(realm_id, ps).0,
            " AND ORGANIZATION_ID IS NULL"@,
        ),
        protocol matches Some(p) ==> binds(protocol_mappers_plan(realm_id, protocol), " AND PROTOCOL="@, ArgView::Text(p)),
{
    reveal_strlit(" AND NAME=");
    reveal_strlit(" AND PARENT_ID=");
    reveal_strlit(" AND PROVIDER_TYPE=");
    reveal_strlit(" ORDER BY NAME");
    reveal_strlit(" AND CLIENT_ID=");
    reveal_strlit(" ORDER BY CLIENT_ID");
    reveal_strlit(" LIMIT ");
    reveal_strlit(" OFFSET ");
    reveal_strlit(" LIMIT -1 OFFSET ");
    reveal_strlit(" AND NAME LIKE ");
    reveal_strlit(" AND (PROVIDER_ALIAS LIKE ");
    reveal_strlit(" OR PROVIDER_DISPLAY_NAME LIKE ");
    reveal_strlit(" AND PROVIDER_ID=");
    reveal_strlit(" AND ORGANIZATION_ID IS NULL");
    reveal_strlit(" ORDER BY PROVIDER_ALIAS");
    reveal_strlit(" AND PROTOCOL=");
    reveal_strlit("true");
    // Components.
    let c0 = ("SELECT ID FROM COMPONENT WHERE REALM_ID=?1"@, seq![ArgView::Text(realm_id)]);
    let c1 = opt_param(c0, " AND NAME="@, text_arg(first_value(ps, "name"@)));
    let c2 = opt_param(c1, " AND PARENT_ID="@, text_arg(first_value(ps, "parent"@)));
    let c3 = opt_param(c2, " AND PROVIDER_TYPE="@, text_arg(first_value(ps, "type"@)));
    assert(components_plan(realm_id, ps) == lit(c3, " ORDER BY NAME"@));
    if let Some(u) = first_value(ps, "name"@) {
        let v = ArgView::Text(u);
        lemma_binds_new(c0, " AND NAME="@, v);
        lemma_binds_opt(c1, " AND PARENT_ID="@, text_arg(first_value(ps, "parent"@)), " AND NAME="@, v);
        lemma_binds_opt(c2, " AND PROVIDER_TYPE="@, text_arg(first_value(ps, "type"@)), " AND NAME="@, v);
        lemma_binds_lit(c3, " ORDER BY NAME"@, " AND NAME="@, v);
    }
    if let Some(u) = first_value(ps, "parent"@) {
        let v = ArgView::Text(u);
        lemma_binds_new(c1, " AND PARENT_ID="@, v);
        lemma_binds_opt(c2, " AND PROVIDER_TYPE="@, text_arg(first_value(ps, "type"@)), " AND PARENT_ID="@, v);
        lemma_binds_lit(c3, " ORDER BY NAME"@, " AND PARENT_ID="@, v);
    }
    if let Some(u) = first_value(ps, "type"@) {
        let v = ArgView::Text(u);
        lemma_binds_new(c2, " AND PROVIDER_TYPE="@, v);
        lemma_binds_lit(c3, " ORDER BY NAME"@, " AND PROVIDER_TYPE="@, v);
    }
    // Clients.
    if let Some(u) = first_value(ps, "clientId"@) {
        let v = ArgView::Text(u);
        let k0 = ("SELECT ID, CLIENT_ID FROM CLIENT WHERE REALM_ID=?1"@, seq![ArgView::Text(realm_id)]);
        let k1 = lit(opt_param(k0, " AND CLIENT_ID="@, text_arg(first_value(ps, "clientId"@))), " ORDER BY CLIENT_ID"@);
        lemma_binds_new(k0, " AND CLIENT_ID="@, v);
        lemma_binds_lit(param(k0, " AND CLIENT_ID="@, v), " ORDER BY CLIENT_ID"@, " AND CLIENT_ID="@, v);
        let first = match int_value(ps, "first"@) {
            Some(f) => f,
            None => 0,
        };
        match int_value(ps, "max"@) {
            Some(limit) => {
                let t2 = " LIMIT "@ + signed_decimal(limit as int);
                assert(t2[0] == ' ');
                lemma_binds_lit(k1, t2, " AND CLIENT_ID="@, v);
                let t3 = " OFFSET "@ + signed_decimal(first as int);
                assert(t3[0] == ' ');
                lemma_binds_lit(lit(k1, t2), t3, " AND CLIENT_ID="@, v);
            },
            None => {
                let t2 = " LIMIT -1 OFFSET "@ + signed_decimal(first as int);
                assert(t2[0] == ' ');
                lemma_binds_lit(k1, t2, " AND CLIENT_ID="@, v);
            },
        }
    }
    // Roles.
    if let Some(t) = first_value(ps, "search"@) {
        let r0 = ("SELECT ID FROM KEYCLOAK_ROLE WHERE REALM_ID=?1"@, seq![ArgView::Text(realm_id)]);
        let v = ArgView::Text(crate::sql::like(t));
        lemma_binds_new(r0, " AND NAME LIKE "@, v);
        lemma_binds_lit(param(r0, " AND NAME LIKE "@, v), " ORDER BY NAME"@, " AND NAME LIKE "@, v);
    }
    // Identity providers.
    let i0 = (
        "SELECT INTERNAL_ID, PROVIDER_ALIAS, PROVIDER_DISPLAY_NAME, PROVIDER_ID, ENABLED, ORGANIZATION_ID FROM IDENTITY_PROVIDER WHERE REALM_ID=?1"@,
        seq![ArgView::Text(realm_id)],
    );
    let i1 = match first_value(ps, "search"@) {
        Some(t) => {
            let a = ArgView::Text(crate::sql::like(t));
            lit(param(param(i0, " AND (PROVIDER_ALIAS LIKE "@, a), " OR PROVIDER_DISPLAY_NAME LIKE "@, a), seq![')'])
        },
        None => i0,
    };
    let i2 = opt_param(i1, " AND PROVIDER_ID="@, text_arg(first_value(ps, "type"@)));
    let realm_only = crate::query::flag_value(ps, "realmOnly"@, false);
    let i3 = if realm_only { lit(i2, " AND ORGANIZATION_ID IS NULL"@) } else { i2 };
    let i4 = lit(i3, " ORDER BY PROVIDER_ALIAS"@);
    let max = bounded(int_value(ps, "max"@), 100, 1);
    let first = bounded(int_value(ps, "first"@), 0, 0);
    assert(identity_providers_plan(realm_id, ps) == paginate(i4, max, first));
    assert forall|pre: Seq<char>, v: ArgView| binds(i2, pre, v) implies #[trigger] binds(paginate(i4, max, first), pre, v) by {
        if realm_only {
            lemma_binds_lit(i2, " AND ORGANIZATION_ID IS NULL"@, pre, v);
        }
        lemma_binds_lit(i3, " ORDER BY PROVIDER_ALIAS"@, pre, v);
        lemma_binds_paginate(i4, max, first, pre, v);
    }
    if let Some(t) = first_value(ps, "search"@) {
        let a = ArgView::Text(crate::sql::like(t));
        let j1 = param(i0, " AND (PROVIDER_ALIAS LIKE "@, a);
        let j2 = param(j1, " OR PROVIDER_DISPLAY_NAME LIKE "@, a);
        lemma_binds_new(i0, " AND (PROVIDER_ALIAS LIKE "@, a);
        lemma_binds_param(j1, " OR PROVIDER_DISPLAY_NAME LIKE "@, a, " AND (PROVIDER_ALIAS LIKE "@, a);
        lemma_binds_new(j1, " OR PROVIDER_DISPLAY_NAME LIKE "@, a);
        lemma_binds_lit(j2, seq![')'], " AND (PROVIDER_ALIAS LIKE "@, a);
        lemma_binds_lit(j2, seq![')'], " OR PROVIDER_DISPLAY_NAME LIKE "@, a);
        lemma_binds_opt(i1, " AND PROVIDER_ID="@, text_arg(first_value(ps, "type"@)), " AND (PROVIDER_ALIAS LIKE "@, a);
        lemma_binds_opt(i1, " AND PROVIDER_ID="@, text_arg(first_value(ps, "type"@)), " OR PROVIDER_DISPLAY_NAME LIKE "@, a);
        assert(binds(paginate(i4, max, first), " AND (PROVIDER_ALIAS LIKE "@, a));
        assert(binds(paginate(i4, max, first), " OR PROVIDER_DISPLAY_NAME LIKE "@, a));
    }
    if let Some(u) = first_value(ps, "type"@) {
        lemma_binds_new(i1, " AND PROVIDER_ID="@, ArgView::Text(u));
        assert(binds(paginate(i4, max, first), " AND PROVIDER_ID="@, ArgView::Text(u)));
    }
    if realm_only {
        let tail = " AND ORGANIZATION_ID IS NULL"@;
        assert(i3.0 =~= i2.0 + tail + Seq::<char>::empty());
        assert(occurs_whole(i3.0, tail));
        lemma_occurs_append(i3.0, tail, " ORDER BY PROVIDER_ALIAS"@);
        let l1 = " LIMIT "@ + seq!['?'] + decimal((i4.1.len() + 1) as nat);
        lemma_occurs_append(i4.0, tail, l1);
        let p1 = param(i4, " LIMIT "@, ArgView::Integer(max));
        assert(p1.0 =~= i4.0 + l1);
        let l2 = " OFFSET "@ + seq!['?'] + decimal((p1.1.len() + 1) as nat);
        lemma_occurs_append(p1.0, tail, l2);
        assert(param(p1, " OFFSET "@, ArgView::Integer(first)).0 =~= p1.0 + l2);
    }
    // Protocol mappers.
    if let Some(pr) = protocol {
        let m0 = (
            "SELECT ID, NAME, PROTOCOL, PROTOCOL_MAPPER_NAME FROM PROTOCOL_MAPPER WHERE CLIENT_SCOPE_ID=?1"@,
            seq![ArgView::Text(realm_id)],
        );
        lemma_binds_new(m0, " AND PROTOCOL="@, ArgView::Text(pr));
        lemma_binds_lit(param(m0, " AND PROTOCOL="@, ArgView::Text(pr)), " ORDER BY NAME"@, " AND PROTOCOL="@, ArgView::Text(pr));
    }
}

} // verus!

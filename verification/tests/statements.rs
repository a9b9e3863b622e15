use admin_api::query::parse_query_params;
use admin_api::sql::{
    admin_events_query, clients_query, components_query, events_query, group_by_name_query,
    group_children_query, groups_count_query, groups_query, identity_providers_query,
    organizations_count_query, organizations_query, protocol_mappers_query, roles_query, take_page,
    users_count_query, users_query, SqlArg,
};

fn text(s: &str) -> SqlArg {
    SqlArg::Text(s.to_string())
}

const EVENT_COLUMNS: &str = "SELECT ID, EVENT_TIME, TYPE, REALM_ID, CLIENT_ID, USER_ID, SESSION_ID, IP_ADDRESS, ERROR, DETAILS_JSON, DETAILS_JSON_LONG_VALUE FROM EVENT_ENTITY WHERE REALM_ID=?1";

#[test]
fn events_without_filters() {
    let q = events_query("r1", &parse_query_params(""));
    assert_eq!(q.sql, format!("{EVENT_COLUMNS} ORDER BY EVENT_TIME DESC LIMIT ?2 OFFSET ?3"));
    assert_eq!(q.args, vec![text("r1"), SqlArg::Integer(100), SqlArg::Integer(0)]);
}

#[test]
fn events_with_every_filter() {
    let params = parse_query_params(
        "client=app&user=u1&ipAddress=10.0.0.1&dateFrom=5&dateTo=9&type=LOGIN,%20LOGOUT&direction=ASC&max=0&first=-4",
    );
    let q = events_query("r1", &params);
    assert_eq!(
        q.sql,
        format!(
            "{EVENT_COLUMNS} AND CLIENT_ID=?2 AND USER_ID=?3 AND IP_ADDRESS=?4 AND EVENT_TIME>=?5 AND EVENT_TIME<=?6 AND TYPE IN (?7,?8) ORDER BY EVENT_TIME ASC LIMIT ?9 OFFSET ?10"
        )
    );
    assert_eq!(
        q.args,
        vec![
            text("r1"),
            text("app"),
            text("u1"),
            text("10.0.0.1"),
            SqlArg::Integer(5),
            SqlArg::Integer(9),
            text("LOGIN"),
            text("%20LOGOUT"),
            SqlArg::Integer(1),
            SqlArg::Integer(0),
        ]
    );
}

#[test]
fn events_ignore_bad_dates() {
    let q = events_query("r1", &parse_query_params("dateFrom=yesterday&direction=up"));
    assert_eq!(q.sql, format!("{EVENT_COLUMNS} ORDER BY EVENT_TIME DESC LIMIT ?2 OFFSET ?3"));
}

#[test]
fn admin_events_start_with_the_realm() {
    let q = admin_events_query("r1", &parse_query_params(""));
    assert!(q.sql.contains("REALM_ID=?1"));
    assert_eq!(q.args[0], text("r1"));
    assert!(q.sql.ends_with(" LIMIT ?2 OFFSET ?3"));
}

#[test]
fn users_by_substring_and_exactly() {
    let q = users_query("r1", &parse_query_params("search=ann"));
    assert_eq!(
        q.sql,
        "SELECT ID FROM USER_ENTITY WHERE REALM_ID=?1 AND (USERNAME LIKE ?2 OR EMAIL LIKE ?3 OR FIRST_NAME LIKE ?4 OR LAST_NAME LIKE ?5) ORDER BY USERNAME"
    );
    assert_eq!(q.args, vec![text("r1"), text("%ann%"), text("%ann%"), text("%ann%"), text("%ann%")]);

    let q = users_query("r1", &parse_query_params("username=ann&exact=true"));
    assert_eq!(q.sql, "SELECT ID FROM USER_ENTITY WHERE REALM_ID=?1 AND USERNAME=?2 ORDER BY USERNAME");
    assert_eq!(q.args, vec![text("r1"), text("ann")]);

    let q = users_count_query("r1", &parse_query_params("email=a@b"));
    assert_eq!(q.sql, "SELECT COUNT(*) AS CNT FROM USER_ENTITY WHERE REALM_ID=?1 AND EMAIL LIKE ?2");
    assert_eq!(q.args, vec![text("r1"), text("%a@b%")]);
}

#[test]
fn groups_use_search_or_q() {
    let q = groups_query("r1", &parse_query_params("q=ops&max=20&first=40"));
    assert_eq!(
        q.sql,
        "SELECT ID, NAME FROM KEYCLOAK_GROUP WHERE REALM_ID=?1 AND PARENT_GROUP IS NULL AND NAME LIKE ?2 ORDER BY NAME LIMIT ?3 OFFSET ?4"
    );
    assert_eq!(q.args, vec![text("r1"), text("%ops%"), SqlArg::Integer(20), SqlArg::Integer(40)]);

    let q = group_children_query("r1", "g1", &parse_query_params("search=dev&exact=true"));
    assert_eq!(
        q.sql,
        "SELECT ID, NAME FROM KEYCLOAK_GROUP WHERE REALM_ID=?1 AND PARENT_GROUP=?2 AND NAME = ?3 ORDER BY NAME LIMIT ?4 OFFSET ?5"
    );
    assert_eq!(q.args, vec![text("r1"), text("g1"), text("dev"), SqlArg::Integer(10), SqlArg::Integer(0)]);

    let q = groups_count_query("r1", &parse_query_params(""));
    assert_eq!(q.args[0], text("r1"));
}

#[test]
fn group_lookup_by_name() {
    let q = group_by_name_query("r1", "team", Some("g0"));
    assert_eq!(q.sql, "SELECT ID FROM KEYCLOAK_GROUP WHERE REALM_ID=?1 AND NAME=?2 AND PARENT_GROUP=?3");
    assert_eq!(q.args, vec![text("r1"), text("team"), text("g0")]);
    let q = group_by_name_query("r1", "team", None);
    assert_eq!(q.sql, "SELECT ID FROM KEYCLOAK_GROUP WHERE REALM_ID=?1 AND NAME=?2 AND PARENT_GROUP IS NULL");
    assert_eq!(q.args, vec![text("r1"), text("team")]);
}

#[test]
fn organizations_default_to_ten() {
    let q = organizations_query("r1", &parse_query_params(""));
    assert_eq!(
        q.sql,
        "SELECT ID, NAME, ALIAS, DESCRIPTION, ENABLED, GROUP_ID, REDIRECT_URL FROM ORG WHERE REALM_ID=?1 ORDER BY NAME LIMIT ?2 OFFSET ?3"
    );
    assert_eq!(q.args, vec![text("r1"), SqlArg::Integer(10), SqlArg::Integer(0)]);
    let q = organizations_count_query("r1", &parse_query_params(""));
    assert_eq!(q.args, vec![text("r1")]);
}

#[test]
fn identity_providers_filters() {
    let q = identity_providers_query("r1", &parse_query_params("search=git&type=github&realmOnly=true"));
    assert_eq!(
        q.sql,
        "SELECT INTERNAL_ID, PROVIDER_ALIAS, PROVIDER_DISPLAY_NAME, PROVIDER_ID, ENABLED, ORGANIZATION_ID FROM IDENTITY_PROVIDER WHERE REALM_ID=?1 AND (PROVIDER_ALIAS LIKE ?2 OR PROVIDER_DISPLAY_NAME LIKE ?3) AND PROVIDER_ID=?4 AND ORGANIZATION_ID IS NULL ORDER BY PROVIDER_ALIAS LIMIT ?5 OFFSET ?6"
    );
    assert_eq!(
        q.args,
        vec![text("r1"), text("%git%"), text("%git%"), text("github"), SqlArg::Integer(100), SqlArg::Integer(0)]
    );
}

#[test]
fn clients_window_is_written_in_the_text() {
    let q = clients_query("r1", &parse_query_params("clientId=app&max=5&first=10"));
    assert_eq!(
        q.sql,
        "SELECT ID, CLIENT_ID FROM CLIENT WHERE REALM_ID=?1 AND CLIENT_ID=?2 ORDER BY CLIENT_ID LIMIT 5 OFFSET 10"
    );
    assert_eq!(q.args, vec![text("r1"), text("app")]);
    let q = clients_query("r1", &parse_query_params("first=3"));
    assert_eq!(q.sql, "SELECT ID, CLIENT_ID FROM CLIENT WHERE REALM_ID=?1 ORDER BY CLIENT_ID LIMIT -1 OFFSET 3");
    let q = clients_query("r1", &parse_query_params("max=-2"));
    assert_eq!(q.sql, "SELECT ID, CLIENT_ID FROM CLIENT WHERE REALM_ID=?1 ORDER BY CLIENT_ID LIMIT -2");
}

#[test]
fn components_and_roles() {
    let q = components_query("r1", &parse_query_params("parent=r1&type=org.keycloak.keys.KeyProvider"));
    assert_eq!(q.sql, "SELECT ID FROM COMPONENT WHERE REALM_ID=?1 AND PARENT_ID=?2 AND PROVIDER_TYPE=?3 ORDER BY NAME");
    assert_eq!(q.args, vec![text("r1"), text("r1"), text("org.keycloak.keys.KeyProvider")]);
    let q = roles_query("r1", &parse_query_params("search=adm"));
    assert_eq!(q.sql, "SELECT ID FROM KEYCLOAK_ROLE WHERE REALM_ID=?1 AND NAME LIKE ?2 ORDER BY NAME");
    assert_eq!(q.args, vec![text("r1"), text("%adm%")]);
}

#[test]
fn protocol_mappers_by_protocol() {
    let q = protocol_mappers_query("s1", Some("openid-connect"));
    assert_eq!(
        q.sql,
        "SELECT ID, NAME, PROTOCOL, PROTOCOL_MAPPER_NAME FROM PROTOCOL_MAPPER WHERE CLIENT_SCOPE_ID=?1 AND PROTOCOL=?2 ORDER BY NAME"
    );
    assert_eq!(q.args, vec![text("s1"), text("openid-connect")]);
    let q = protocol_mappers_query("s1", None);
    assert_eq!(q.args, vec![text("s1")]);
}

#[test]
fn pages_skip_then_take() {
    let items: Vec<i32> = (0..10).collect();
    assert_eq!(take_page(items.clone(), &parse_query_params("first=2&max=3")), vec![2, 3, 4]);
    assert_eq!(take_page(items.clone(), &parse_query_params("first=8&max=5")), vec![8, 9]);
    assert_eq!(take_page(items.clone(), &parse_query_params("first=20")), Vec::<i32>::new());
    assert_eq!(take_page(items.clone(), &parse_query_params("first=-1&max=-1")), Vec::<i32>::new());
    assert_eq!(take_page(items.clone(), &parse_query_params("")), items);
}

#[test]
fn user_count_filters_like_user_list() {
    for query in ["", "search=ann", "username=ann&exact=true", "email=a@b&firstName=A&lastName=B", "search=x&exact=true&email=e"] {
        let params = parse_query_params(query);
        let list = users_query("r1", &params);
        let count = users_count_query("r1", &params);
        assert_eq!(list.args, count.args, "query {query}");
        let list_filter = list
            .sql
            .strip_prefix("SELECT ID FROM USER_ENTITY WHERE REALM_ID=?1")
            .and_then(|s| s.strip_suffix(" ORDER BY USERNAME"))
            .unwrap();
        let count_filter = count.sql.strip_prefix("SELECT COUNT(*) AS CNT FROM USER_ENTITY WHERE REALM_ID=?1").unwrap();
        assert_eq!(list_filter, count_filter, "query {query}");
    }
}

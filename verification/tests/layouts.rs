use admin_api::fields::{insert_statement, layout_fields, update_statement, Kind, Layout};

fn columns_with(lead: &[&'static str], layout: Layout) -> Vec<&'static str> {
    let mut columns = lead.to_vec();
    columns.extend(layout_fields(layout).iter().map(|field| field.1));
    columns
}

#[test]
fn insert_statements_bind_every_column() {
    assert_eq!(
        insert_statement("USER_ENTITY", &columns_with(&["ID", "REALM_ID"], Layout::UserStored)),
        "INSERT INTO USER_ENTITY (ID, REALM_ID, USERNAME, EMAIL, FIRST_NAME, LAST_NAME, ENABLED, EMAIL_VERIFIED, CREATED_TIMESTAMP, NOT_BEFORE) VALUES (?1, ?2, ?3, ?4, ?5, ?6, ?7, ?8, ?9, ?10)"
    );
    assert_eq!(insert_statement("T", &vec!["A"]), "INSERT INTO T (A) VALUES (?1)");
    assert_eq!(insert_statement("T", &Vec::new()), "INSERT INTO T () VALUES ()");
}

#[test]
fn update_statements_bind_keys_last() {
    assert_eq!(
        update_statement("COMPONENT", &columns_with(&[], Layout::ComponentStored), &vec!["ID", "REALM_ID"]),
        "UPDATE COMPONENT SET NAME=?1, PARENT_ID=?2, PROVIDER_ID=?3, PROVIDER_TYPE=?4, SUB_TYPE=?5 WHERE ID=?6 AND REALM_ID=?7"
    );
    assert_eq!(update_statement("T", &vec!["A", "B"], &vec!["K"]), "UPDATE T SET A=?1, B=?2 WHERE K=?3");
}

#[test]
fn realm_statements_cover_every_setting() {
    assert_eq!(
        insert_statement("REALM", &columns_with(&["ID", "NAME"], Layout::Realm)),
        "INSERT INTO REALM (ID, NAME, ENABLED, SSL_REQUIRED, REGISTRATION_ALLOWED, LOGIN_WITH_EMAIL_ALLOWED, DUPLICATE_EMAILS_ALLOWED, RESET_PASSWORD_ALLOWED, EDIT_USERNAME_ALLOWED, REMEMBER_ME, VERIFY_EMAIL, INTERNATIONALIZATION_ENABLED, DEFAULT_LOCALE, LOGIN_THEME, ACCOUNT_THEME, ADMIN_THEME, EMAIL_THEME, EVENTS_ENABLED, EVENTS_EXPIRATION, ADMIN_EVENTS_ENABLED, ADMIN_EVENTS_DETAILS_ENABLED, PASSWORD_POLICY, OTP_POLICY_ALG, OTP_POLICY_TYPE, OTP_POLICY_DIGITS, OTP_POLICY_PERIOD, OTP_POLICY_COUNTER, OTP_POLICY_WINDOW, ACCESS_TOKEN_LIFESPAN, SSO_IDLE_TIMEOUT, SSO_MAX_LIFESPAN, OFFLINE_SESSION_IDLE_TIMEOUT, ACCESS_CODE_LIFESPAN, LOGIN_LIFESPAN, USER_ACTION_LIFESPAN, NOT_BEFORE, REFRESH_TOKEN_MAX_REUSE, REVOKE_REFRESH_TOKEN, REG_EMAIL_AS_USERNAME, REGISTRATION_FLOW, RESET_CREDENTIALS_FLOW, BROWSER_FLOW, DIRECT_GRANT_FLOW, CLIENT_AUTH_FLOW, DOCKER_AUTH_FLOW, MASTER_ADMIN_CLIENT, DEFAULT_ROLE) VALUES (?1, ?2, ?3, ?4, ?5, ?6, ?7, ?8, ?9, ?10, ?11, ?12, ?13, ?14, ?15, ?16, ?17, ?18, ?19, ?20, ?21, ?22, ?23, ?24, ?25, ?26, ?27, ?28, ?29, ?30, ?31, ?32, ?33, ?34, ?35, ?36, ?37, ?38, ?39, ?40, ?41, ?42, ?43, ?44, ?45, ?46, ?47)"
    );
    assert_eq!(
        update_statement("REALM", &columns_with(&["NAME"], Layout::Realm), &vec!["ID"]),
        "UPDATE REALM SET NAME=?1, ENABLED=?2, SSL_REQUIRED=?3, REGISTRATION_ALLOWED=?4, LOGIN_WITH_EMAIL_ALLOWED=?5, DUPLICATE_EMAILS_ALLOWED=?6, RESET_PASSWORD_ALLOWED=?7, EDIT_USERNAME_ALLOWED=?8, REMEMBER_ME=?9, VERIFY_EMAIL=?10, INTERNATIONALIZATION_ENABLED=?11, DEFAULT_LOCALE=?12, LOGIN_THEME=?13, ACCOUNT_THEME=?14, ADMIN_THEME=?15, EMAIL_THEME=?16, EVENTS_ENABLED=?17, EVENTS_EXPIRATION=?18, ADMIN_EVENTS_ENABLED=?19, ADMIN_EVENTS_DETAILS_ENABLED=?20, PASSWORD_POLICY=?21, OTP_POLICY_ALG=?22, OTP_POLICY_TYPE=?23, OTP_POLICY_DIGITS=?24, OTP_POLICY_PERIOD=?25, OTP_POLICY_COUNTER=?26, OTP_POLICY_WINDOW=?27, ACCESS_TOKEN_LIFESPAN=?28, SSO_IDLE_TIMEOUT=?29, SSO_MAX_LIFESPAN=?30, OFFLINE_SESSION_IDLE_TIMEOUT=?31, ACCESS_CODE_LIFESPAN=?32, LOGIN_LIFESPAN=?33, USER_ACTION_LIFESPAN=?34, NOT_BEFORE=?35, REFRESH_TOKEN_MAX_REUSE=?36, REVOKE_REFRESH_TOKEN=?37, REG_EMAIL_AS_USERNAME=?38, REGISTRATION_FLOW=?39, RESET_CREDENTIALS_FLOW=?40, BROWSER_FLOW=?41, DIRECT_GRANT_FLOW=?42, CLIENT_AUTH_FLOW=?43, DOCKER_AUTH_FLOW=?44, MASTER_ADMIN_CLIENT=?45, DEFAULT_ROLE=?46 WHERE ID=?47"
    );
}

#[test]
fn layouts_list_key_column_and_kind() {
    let user = layout_fields(Layout::UserStored);
    assert_eq!(user.len(), 8);
    assert_eq!(user[0], ("username", "USERNAME", Kind::Text));
    assert_eq!(user[4], ("enabled", "ENABLED", Kind::Flag));
    assert_eq!(user[6], ("createdTimestamp", "CREATED_TIMESTAMP", Kind::Int));
    let realm = layout_fields(Layout::Realm);
    assert_eq!(realm.len(), 45);
    assert_eq!(realm[1], ("sslRequired", "SSL_REQUIRED", Kind::Text));
    let flows = layout_fields(Layout::AuthFlow);
    assert_eq!(flows.iter().map(|f| f.0).collect::<Vec<_>>(), vec!["id", "alias", "description", "providerId", "topLevel", "builtIn"]);
}

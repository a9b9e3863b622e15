use admin_api::query::{
    first_param, flag_param, int_param, join_commas, list_param, parse_epoch_millis,
    parse_query_params, query_param, split_trimmed,
};

#[test]
fn query_param_takes_the_first_match() {
    assert_eq!(query_param("a=1&b=2", "b"), Some("2".to_string()));
    assert_eq!(query_param("a=1&a=2", "a"), Some("1".to_string()));
    assert_eq!(query_param("flag&b=2", "flag"), Some(String::new()));
    assert_eq!(query_param("x=1=2", "x"), Some("1=2".to_string()));
    assert_eq!(query_param("&&a=3", "a"), Some("3".to_string()));
    assert_eq!(query_param("a=1", "c"), None);
    assert_eq!(query_param("", "a"), None);
    assert_eq!(query_param("a%20b=1", "a b"), None);
}

#[test]
fn parsed_params_keep_every_value_in_order() {
    let params = parse_query_params("max=5&max=7&first=2&=9&name=");
    assert_eq!(first_param(&params, "max"), Some("5".to_string()));
    assert_eq!(first_param(&params, "first"), Some("2".to_string()));
    assert_eq!(first_param(&params, "name"), Some(String::new()));
    assert_eq!(first_param(&params, ""), None);
    assert_eq!(first_param(&params, "missing"), None);
}

#[test]
fn integer_params_parse_like_i64() {
    let params = parse_query_params("max=25&first=-3&bad=1x&dateFrom=1700000000000&big=9223372036854775808");
    assert_eq!(int_param(&params, "max"), Some(25));
    assert_eq!(int_param(&params, "first"), Some(-3));
    assert_eq!(int_param(&params, "bad"), None);
    assert_eq!(int_param(&params, "big"), None);
    assert_eq!(int_param(&params, "missing"), None);
    assert_eq!(parse_epoch_millis(&params, "dateFrom"), Some(1_700_000_000_000));
}

#[test]
fn list_params_split_trim_and_drop_empty_items() {
    let params = parse_query_params("type=LOGIN, LOGOUT ,,CODE_TO_TOKEN&type=%20&type=REGISTER&other=x");
    assert_eq!(
        list_param(&params, "type"),
        vec!["LOGIN", "LOGOUT", "CODE_TO_TOKEN", "%20", "REGISTER"]
    );
    assert!(list_param(&params, "missing").is_empty());
    let params = parse_query_params("type=,%20,");
    assert_eq!(list_param(&params, "type"), vec!["%20"]);
    let params = parse_query_params("type= , ");
    assert!(list_param(&params, "type").is_empty());
}

#[test]
fn flags_are_true_only_for_true() {
    let params = parse_query_params("exact=true&brief=TRUE&other=1");
    assert!(flag_param(&params, "exact", false));
    assert!(!flag_param(&params, "brief", true));
    assert!(!flag_param(&params, "other", true));
    assert!(flag_param(&params, "missing", true));
    assert!(!flag_param(&params, "missing", false));
}

#[test]
fn split_trimmed_cuts_at_one_character() {
    assert_eq!(split_trimmed(" a ; b ;; ", ";"), vec!["a", "b"]);
    assert!(split_trimmed("", ",").is_empty());
    assert_eq!(split_trimmed("one", ","), vec!["one"]);
}

#[test]
fn joined_lists_split_back() {
    let parts = vec!["openid".to_string(), "profile".to_string(), "email".to_string()];
    let joined = join_commas(&parts);
    assert_eq!(joined, "openid,profile,email");
    let back: Vec<String> = joined.split(',').map(String::from).collect();
    assert_eq!(back, parts);
    assert_eq!(join_commas(&Vec::new()), "");
    assert_eq!(join_commas(&vec!["solo".to_string()]), "solo");
    assert_eq!(join_commas(&vec![String::new(), String::new()]), ",");
}

#[test]
fn direct_lookup_agrees_with_parsed_params() {
    for query in ["a=1&b=2&a=3", "&&x=&y=2", "=1&k=v", "k&k=v", "", "q=a=b"] {
        let params = parse_query_params(query);
        for key in ["a", "b", "x", "y", "k", "q", "missing"] {
            assert_eq!(query_param(query, key), first_param(&params, key), "query {query:?} key {key:?}");
        }
    }
}

#[test]
fn joined_query_strings_join_their_values() {
    let a = "roles=admin,user&first=1";
    let b = "roles=viewer&x=y&roles=ops";
    let joined = format!("{a}&{b}");
    let mut expected = list_param(&parse_query_params(a), "roles");
    expected.extend(list_param(&parse_query_params(b), "roles"));
    assert_eq!(list_param(&parse_query_params(&joined), "roles"), expected);
    assert_eq!(expected, vec!["admin", "user", "viewer", "ops"]);
    assert_eq!(first_param(&parse_query_params(&joined), "first"), Some("1".to_string()));
    assert_eq!(first_param(&parse_query_params(&joined), "x"), Some("y".to_string()));
}

use admin_api::route::{
    allows, decide, endpoint_methods, method_to_str, route, split_realm_path, Decision, HttpMethod,
    RouteKind, ScopeFamily,
};

fn routed(path: &str) -> Option<(RouteKind, String, String, String)> {
    route(path).map(|r| (r.kind, r.realm.to_string(), r.id.to_string(), r.sub.to_string()))
}

fn expect(path: &str, kind: RouteKind, realm: &str, id: &str, sub: &str) {
    assert_eq!(
        routed(path),
        Some((kind, realm.to_string(), id.to_string(), sub.to_string())),
        "path {path}"
    );
}

#[test]
fn split_realm_path_takes_first_segment() {
    assert_eq!(split_realm_path("/admin/realms/master"), Some(("master", "")));
    assert_eq!(split_realm_path("/admin/realms/master/"), Some(("master", "")));
    assert_eq!(split_realm_path("/admin/realms/master/users/42"), Some(("master", "users/42")));
    assert_eq!(split_realm_path("/admin/realms/"), None);
    assert_eq!(split_realm_path("/admin/realms//users"), None);
    assert_eq!(split_realm_path("/admin/realms"), None);
    assert_eq!(split_realm_path("/other/realms/x"), None);
}

#[test]
fn routes_realm_level_endpoints() {
    expect("/admin/realms", RouteKind::Realms, "", "", "");
    expect("/admin/realms/demo", RouteKind::Realm, "demo", "", "");
    expect("/admin/realms/demo/", RouteKind::Realm, "demo", "", "");
    expect("/admin/realms/demo/events", RouteKind::Events, "demo", "", "");
    expect("/admin/realms/demo/events/config", RouteKind::EventsConfig, "demo", "", "");
    expect("/admin/realms/demo/admin-events", RouteKind::AdminEvents, "demo", "", "");
    expect("/admin/realms/demo/keys", RouteKind::Keys, "demo", "", "");
    expect("/admin/realms/demo/localization", RouteKind::Localizations, "demo", "", "");
    expect(
        "/admin/realms/demo/attack-detection/brute-force/users/u1",
        RouteKind::BruteForceUser,
        "demo",
        "u1",
        "",
    );
    expect(
        "/admin/realms/demo/attack-detection/brute-force/users",
        RouteKind::BruteForceUsers,
        "demo",
        "",
        "",
    );
    expect("/admin/realms/demo/clients-initial-access/t1", RouteKind::ClientInitialAccess, "demo", "t1", "");
    expect("/admin/realms/demo/client-types", RouteKind::ClientTypes, "demo", "", "");
}

#[test]
fn routes_clients_groups_and_roles() {
    expect("/admin/realms/demo/clients", RouteKind::Clients, "demo", "", "");
    expect("/admin/realms/demo/clients/c-1", RouteKind::Client, "demo", "c-1", "");
    assert_eq!(routed("/admin/realms/demo/clients/c-1/roles"), None);
    expect("/admin/realms/demo/group-by-path/top/child", RouteKind::GroupByPath, "demo", "top/child", "");
    expect("/admin/realms/demo/groups", RouteKind::Groups, "demo", "", "");
    expect("/admin/realms/demo/groups/count", RouteKind::GroupsCount, "demo", "", "");
    expect("/admin/realms/demo/groups/g1", RouteKind::Group, "demo", "g1", "");
    expect("/admin/realms/demo/groups/g1/children", RouteKind::GroupChildren, "demo", "g1", "");
    expect("/admin/realms/demo/roles", RouteKind::Roles, "demo", "", "");
    expect("/admin/realms/demo/roles/admin", RouteKind::Role, "demo", "admin", "");
    expect("/admin/realms/demo/roles/admin/composites", RouteKind::RoleComposites, "demo", "admin", "");
    expect(
        "/admin/realms/demo/roles/admin/composites/realm",
        RouteKind::RoleCompositesRealm,
        "demo",
        "admin",
        "",
    );
    expect(
        "/admin/realms/demo/roles/admin/composites/clients/app",
        RouteKind::RoleCompositesClient,
        "demo",
        "admin",
        "app",
    );
    expect(
        "/admin/realms/demo/roles-by-id/r1/management/permissions",
        RouteKind::RoleByIdPermissions,
        "demo",
        "r1",
        "",
    );
    expect("/admin/realms/demo/roles-by-id/r1", RouteKind::RoleById, "demo", "r1", "");
}

#[test]
fn routes_users_workflows_and_localization() {
    expect("/admin/realms/demo/users", RouteKind::Users, "demo", "", "");
    expect("/admin/realms/demo/users/count", RouteKind::UsersCount, "demo", "", "");
    expect("/admin/realms/demo/users/profile/metadata", RouteKind::UsersProfileMetadata, "demo", "", "");
    expect("/admin/realms/demo/users/u1", RouteKind::User, "demo", "u1", "");
    expect("/admin/realms/demo/users/u1/sessions", RouteKind::UserSessions, "demo", "u1", "");
    expect("/admin/realms/demo/workflows", RouteKind::Workflows, "demo", "", "");
    expect("/admin/realms/demo/workflows/w1", RouteKind::Workflow, "demo", "w1", "");
    expect("/admin/realms/demo/workflows/scheduled/res", RouteKind::WorkflowScheduled, "demo", "res", "");
    expect("/admin/realms/demo/sessions/s1", RouteKind::Session, "demo", "s1", "");
    expect("/admin/realms/demo/localization/en", RouteKind::LocalizationLocale, "demo", "en", "");
    expect("/admin/realms/demo/localization/en/greeting", RouteKind::LocalizationKey, "demo", "en", "greeting");
}

#[test]
fn routes_organizations() {
    expect("/admin/realms/demo/organizations", RouteKind::Organizations, "demo", "", "");
    expect("/admin/realms/demo/organizations/count", RouteKind::OrganizationsCount, "demo", "", "");
    expect(
        "/admin/realms/demo/organizations/members/m1/organizations",
        RouteKind::MemberOrganizations,
        "demo",
        "m1",
        "",
    );
    expect("/admin/realms/demo/organizations/o1", RouteKind::Organization, "demo", "o1", "");
    expect("/admin/realms/demo/organizations/o1/members", RouteKind::OrgMembers, "demo", "o1", "");
    expect("/admin/realms/demo/organizations/o1/members/count", RouteKind::OrgMembersCount, "demo", "o1", "");
    expect("/admin/realms/demo/organizations/o1/members/m2", RouteKind::OrgMember, "demo", "o1", "m2");
    expect(
        "/admin/realms/demo/organizations/o1/members/m2/organizations",
        RouteKind::OrgMemberOrganizations,
        "demo",
        "o1",
        "m2",
    );
    expect(
        "/admin/realms/demo/organizations/o1/invitations/i1/resend",
        RouteKind::OrgInvitationResend,
        "demo",
        "o1",
        "i1",
    );
    expect(
        "/admin/realms/demo/organizations/o1/identity-providers/idp",
        RouteKind::OrgIdentityProvider,
        "demo",
        "o1",
        "idp",
    );
}

#[test]
fn routes_identity_providers_and_components() {
    expect("/admin/realms/demo/identity-provider/instances", RouteKind::IdpInstances, "demo", "", "");
    expect("/admin/realms/demo/identity-provider/instances/gh", RouteKind::IdpInstance, "demo", "gh", "");
    expect(
        "/admin/realms/demo/identity-provider/instances/gh/mappers/m1",
        RouteKind::IdpMapper,
        "demo",
        "gh",
        "m1",
    );
    expect("/admin/realms/demo/identity-provider/providers/oidc", RouteKind::IdpProvider, "demo", "oidc", "");
    expect("/admin/realms/demo/components/c1", RouteKind::Component, "demo", "c1", "");
    expect(
        "/admin/realms/demo/components/c1/sub-component-types",
        RouteKind::ComponentSubtypes,
        "demo",
        "c1",
        "",
    );
}

#[test]
fn routes_client_scopes_of_both_families() {
    expect("/admin/realms/demo/client-scopes", RouteKind::ClientScopes(ScopeFamily::Scopes), "demo", "", "");
    expect(
        "/admin/realms/demo/client-templates",
        RouteKind::ClientScopes(ScopeFamily::Templates),
        "demo",
        "",
        "",
    );
    expect("/admin/realms/demo/client-scopes/s1", RouteKind::ClientScope(ScopeFamily::Scopes), "demo", "s1", "");
    expect(
        "/admin/realms/demo/client-scopes/s1/protocol-mappers/models/pm",
        RouteKind::ProtocolMapper(ScopeFamily::Scopes),
        "demo",
        "s1",
        "pm",
    );
    expect(
        "/admin/realms/demo/client-templates/s1/scope-mappings/clients/app/available",
        RouteKind::ScopeMappingsClientAvailable(ScopeFamily::Templates),
        "demo",
        "s1",
        "app",
    );
    expect(
        "/admin/realms/demo/client-scopes/s1/scope-mappings/realm",
        RouteKind::ScopeMappingsRealm(ScopeFamily::Scopes),
        "demo",
        "s1",
        "",
    );
}

#[test]
fn routes_authentication() {
    expect(
        "/admin/realms/demo/authentication/form-providers",
        RouteKind::FormProviders,
        "demo",
        "",
        "",
    );
    expect(
        "/admin/realms/demo/authentication/required-actions/VERIFY_EMAIL/raise-priority",
        RouteKind::RequiredActionRaisePriority,
        "demo",
        "VERIFY_EMAIL",
        "",
    );
    expect(
        "/admin/realms/demo/authentication/executions/e1/config/c1",
        RouteKind::AuthExecutionConfigById,
        "demo",
        "e1",
        "c1",
    );
    expect("/admin/realms/demo/authentication/flows", RouteKind::AuthFlows, "demo", "", "");
    expect(
        "/admin/realms/demo/authentication/flows/browser/executions",
        RouteKind::AuthFlowExecutions,
        "demo",
        "browser",
        "",
    );
}

#[test]
fn unknown_paths_are_not_routed() {
    assert_eq!(routed("/"), None);
    assert_eq!(routed("/admin/realms/demo/unknown"), None);
    assert_eq!(routed("/admin/realms/demo/users/u1/extra"), None);
    assert_eq!(routed("/admin/realms/demo/groups/"), None);
    assert_eq!(routed("/admin/realms/demo/group-by-path/"), None);
}

#[test]
fn decide_checks_the_method() {
    match decide("/admin/realms/demo/keys", HttpMethod::Get) {
        Decision::Dispatch(r) => {
            assert_eq!(r.kind, RouteKind::Keys);
            assert_eq!(r.realm, "demo");
        }
        _ => panic!("expected a dispatch"),
    }
    assert!(matches!(decide("/admin/realms/demo/keys", HttpMethod::Post), Decision::MethodNotAllowed));
    assert!(matches!(decide("/admin/realms/demo/keys", HttpMethod::Patch), Decision::MethodNotAllowed));
    assert!(matches!(decide("/nowhere", HttpMethod::Get), Decision::NotImplemented));
    assert!(matches!(
        decide("/admin/realms/demo/client-scopes/s1/protocol-mappers/protocol", HttpMethod::Get),
        Decision::MethodNotAllowed
    ));
}

#[test]
fn endpoint_methods_table() {
    let m = endpoint_methods(RouteKind::Realm);
    assert!(m.get && m.put && m.delete && !m.post);
    let m = endpoint_methods(RouteKind::Realms);
    assert!(m.get && m.post && !m.put && !m.delete);
    assert!(allows(RouteKind::Session, HttpMethod::Delete));
    assert!(!allows(RouteKind::Session, HttpMethod::Get));
    assert!(allows(RouteKind::AuthExecutionLowerPriority, HttpMethod::Post));
    assert!(!allows(RouteKind::Users, HttpMethod::Head));
}

#[test]
fn method_names() {
    assert_eq!(method_to_str(HttpMethod::Get), "GET");
    assert_eq!(method_to_str(HttpMethod::Delete), "DELETE");
    assert_eq!(method_to_str(HttpMethod::Patch), "PATCH");
    assert_eq!(method_to_str(HttpMethod::Other), "UNKNOWN");
}

#[test]
fn routed_paths_read_back() {
    // A path rebuilt from its route is the same path.
    for path in [
        "/admin/realms/demo/roles/admin/composites/clients/app",
        "/admin/realms/demo/organizations/o1/invitations/i1",
        "/admin/realms/demo/client-scopes/s1/protocol-mappers/protocol/openid",
    ] {
        let r = route(path).expect("routed");
        let rebuilt = match r.kind {
            RouteKind::RoleCompositesClient => format!("/admin/realms/{}/roles/{}/composites/clients/{}", r.realm, r.id, r.sub),
            RouteKind::OrgInvitation => format!("/admin/realms/{}/organizations/{}/invitations/{}", r.realm, r.id, r.sub),
            RouteKind::ProtocolMappersByProtocol(ScopeFamily::Scopes) => {
                format!("/admin/realms/{}/client-scopes/{}/protocol-mappers/protocol/{}", r.realm, r.id, r.sub)
            }
            other => panic!("unexpected route {other:?}"),
        };
        assert_eq!(rebuilt, path);
    }
}

#[test]
fn client_templates_route_like_client_scopes() {
    let tails = [
        "",
        "/s1",
        "/s1/protocol-mappers/models",
        "/s1/protocol-mappers/models/m1",
        "/s1/scope-mappings/realm",
        "/s1/scope-mappings/clients/c1/available",
        "/s1/extra/deep/path",
        "x",
        "/",
    ];
    for tail in tails {
        let scopes = format!("/admin/realms/demo/client-scopes{tail}");
        let templates = format!("/admin/realms/demo/client-templates{tail}");
        let a = routed(&scopes);
        let b = routed(&templates);
        match (a, b) {
            (None, None) => {}
            (Some((ka, ra, ia, sa)), Some((kb, rb, ib, sb))) => {
                assert_eq!((ra, ia, sa), (rb, ib, sb), "tail {tail}");
                assert_eq!(format!("{ka:?}").replace("(Scopes)", "(Templates)"), format!("{kb:?}"), "tail {tail}");
            }
            other => panic!("tail {tail}: {other:?}"),
        }
    }
    expect("/admin/realms/demo/client-templates/s1", RouteKind::ClientScope(ScopeFamily::Templates), "demo", "s1", "");
}

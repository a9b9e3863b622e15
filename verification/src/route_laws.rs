//! Laws of the router that fix what it answers, stated over whole paths
//! and methods rather than over the rule tables.
use vstd::prelude::*;
use vstd::string::*;
use crate::family::lemma_differs_at;
use crate::route::{
    below, decision_of, methods_of, realm_split, rest_routes_a, rest_routes_b, rest_routes_c,
    route_of, seg_after, seg_before, serves, user_paths, component_paths, execution_paths, flow_paths, group_paths,
    idp_paths, organization_paths, required_action_paths, role_paths, DecisionView, HttpMethod, RouteKind,
};
use crate::text::{
    ends_with, find, is_segment, lemma_find_from_props, lemma_first_char, split_once, starts_with, strip_prefix,
    strip_suffix,
};

verus! {

/// The realm and the rest of `/admin/realms/{realm}/{rest}`.
proof fn lemma_realm_and_rest(realm: Seq<char>, rest: Seq<char>)
    requires
        is_segment(realm),
    ensures
        realm_split("/admin/realms/"@ + realm + "/"@ + rest) == Some((realm, rest)),
{
    reveal_strlit("/");
    let path = "/admin/realms/"@ + realm + "/"@ + rest;
    let t = realm + "/"@ + rest;
    assert(path =~= "/admin/realms/"@ + t);
    assert(starts_with(path, "/admin/realms/"@)) by {
        assert(path.subrange(0, "/admin/realms/"@.len() as int) =~= "/admin/realms/"@);
    }
    assert(path.subrange("/admin/realms/"@.len() as int, path.len() as int) =~= t);
    assert("/"@ =~= seq!['/']);
    assert forall|j: int| 0 <= j < realm.len() implies t[j] != '/' by {
        assert(t[j] == realm[j]);
        if realm[j] == '/' {
            assert(realm.contains('/'));
        }
    }
    lemma_first_char(t, '/', realm.len() as int);
    assert(t.subrange(0, realm.len() as int) =~= realm);
    assert(t.subrange(realm.len() + 1int, t.len() as int) =~= rest);
}

/// `users/` followed by two different tails are different.
proof fn lemma_users_tail(id: Seq<char>, tail: Seq<char>)
    requires
        id != tail,
    ensures
        "users/"@ + id != "users/"@ + tail,
{
    if "users/"@ + id == "users/"@ + tail {
        let n = "users/"@.len() as int;
        assert(("users/"@ + id).subrange(n, n + id.len()) =~= id);
        assert(("users/"@ + tail).subrange(n, n + tail.len()) =~= tail);
    }
}

/// Below `users/`, a segment that is not `count` or `profile` is a user:
/// the path names the single-user endpoint with that user.
#[verifier::rlimit(50)]
proof fn lemma_users_rest(id: Seq<char>)
    requires
        is_segment(id),
        id != "count"@,
        id != "profile"@,
    ensures
        rest_routes_a("users/"@ + id) == Some((RouteKind::User, id, Seq::<char>::empty())),
{
    let rest = "users/"@ + id;
    reveal_strlit("events");
    reveal_strlit("events/config");
    reveal_strlit("admin-events");
    reveal_strlit("keys");
    reveal_strlit("localization");
    reveal_strlit("attack-detection/brute-force/users/");
    reveal_strlit("attack-detection/brute-force/users");
    reveal_strlit("clients");
    reveal_strlit("components");
    reveal_strlit("identity-provider/instances");
    reveal_strlit("clients-initial-access");
    reveal_strlit("clients-initial-access/");
    reveal_strlit("client-description-converter");
    reveal_strlit("credential-registrators");
    reveal_strlit("identity-provider/import-config");
    reveal_strlit("groups");
    reveal_strlit("groups/count");
    reveal_strlit("client-policies/policies");
    reveal_strlit("client-policies/profiles");
    reveal_strlit("client-registration-policy/providers");
    reveal_strlit("client-session-stats");
    reveal_strlit("client-types");
    reveal_strlit("identity-provider/upload-certificate");
    reveal_strlit("clients/");
    reveal_strlit("group-by-path/");
    reveal_strlit("groups/");
    reveal_strlit("roles");
    reveal_strlit("roles/");
    reveal_strlit("roles-by-id/");
    reveal_strlit("users");
    reveal_strlit("users/count");
    reveal_strlit("users/profile");
    reveal_strlit("users/profile/metadata");
    reveal_strlit("users-management-permissions");
    reveal_strlit("workflows");
    reveal_strlit("workflows/");
    reveal_strlit("users/");
    reveal_strlit("sessions/");
    reveal_strlit("localization/");
    reveal_strlit("count");
    reveal_strlit("profile");
    reveal_strlit("profile/metadata");
    reveal_strlit("/sessions");
    assert(forall|i: int| 0 <= i < 6 ==> rest[i] == "users/"@[i]);
    lemma_differs_at(rest, "events"@, 0);
    lemma_differs_at(rest, "events/config"@, 0);
    lemma_differs_at(rest, "admin-events"@, 0);
    lemma_differs_at(rest, "keys"@, 0);
    lemma_differs_at(rest, "localization"@, 0);
    lemma_differs_at(rest, "attack-detection/brute-force/users/"@, 0);
    lemma_differs_at(rest, "attack-detection/brute-force/users"@, 0);
    lemma_differs_at(rest, "clients"@, 0);
    lemma_differs_at(rest, "components"@, 0);
    lemma_differs_at(rest, "identity-provider/instances"@, 0);
    lemma_differs_at(rest, "clients-initial-access"@, 0);
    lemma_differs_at(rest, "clients-initial-access/"@, 0);
    lemma_differs_at(rest, "client-description-converter"@, 0);
    lemma_differs_at(rest, "credential-registrators"@, 0);
    lemma_differs_at(rest, "identity-provider/import-config"@, 0);
    lemma_differs_at(rest, "groups"@, 0);
    lemma_differs_at(rest, "groups/count"@, 0);
    lemma_differs_at(rest, "client-policies/policies"@, 0);
    lemma_differs_at(rest, "client-policies/profiles"@, 0);
    lemma_differs_at(rest, "client-registration-policy/providers"@, 0);
    lemma_differs_at(rest, "client-session-stats"@, 0);
    lemma_differs_at(rest, "client-types"@, 0);
    lemma_differs_at(rest, "identity-provider/upload-certificate"@, 0);
    lemma_differs_at(rest, "clients/"@, 0);
    lemma_differs_at(rest, "group-by-path/"@, 0);
    lemma_differs_at(rest, "groups/"@, 0);
    lemma_differs_at(rest, "roles"@, 0);
    lemma_differs_at(rest, "roles/"@, 0);
    lemma_differs_at(rest, "roles-by-id/"@, 0);
    lemma_differs_at(rest, "users-management-permissions"@, 5);
    lemma_differs_at(rest, "workflows"@, 0);
    lemma_differs_at(rest, "workflows/"@, 0);
    lemma_differs_at(rest, "sessions/"@, 0);
    lemma_differs_at(rest, "localization/"@, 0);
    assert(rest != "users"@) by {
        assert(rest.len() != "users"@.len());
    }
    assert("users/count"@ =~= "users/"@ + "count"@);
    assert("users/profile"@ =~= "users/"@ + "profile"@);
    assert("users/profile/metadata"@ =~= "users/"@ + "profile/metadata"@);
    lemma_users_tail(id, "count"@);
    lemma_users_tail(id, "profile"@);
    assert("profile/metadata"@.contains('/')) by {
        assert("profile/metadata"@[7] == '/');
    }
    lemma_users_tail(id, "profile/metadata"@);
    assert(starts_with(rest, "users/"@)) by {
        assert(rest.subrange(0, 6) =~= "users/"@);
    }
    assert(rest.subrange(6, rest.len() as int) =~= id);
    assert(strip_prefix(rest, "users/"@) == Some(id));
    assert(seg_before(id, "/sessions"@) is None) by {
        if ends_with(id, "/sessions"@) {
            assert(id.subrange(id.len() - 9, id.len() as int)[0] == '/');
            assert(id[id.len() - 9] == '/');
            assert(id.contains('/'));
        }
    }
    assert(user_paths(id) == Some((RouteKind::User, id, Seq::<char>::empty())));
    assert(below(rest, "users/"@, 4) == Some((RouteKind::User, id, Seq::<char>::empty())));
    assert(rest_routes_c(rest) == Some((RouteKind::User, id, Seq::<char>::empty())));
    assert(rest_routes_b(rest) == rest_routes_c(rest));
}

/// A user's path `/admin/realms/{realm}/users/{id}`, for an `id` that is a
/// segment other than `count` and `profile` (which name the user count and
/// the user profile), names the single-user endpoint with that realm and
/// user; it serves GET, PUT and DELETE, and any other method is answered
/// 405.
pub proof fn lemma_user_endpoint(realm: Seq<char>, id: Seq<char>, m: HttpMethod)
    requires
        is_segment(realm),
        is_segment(id),
        id != "count"@,
        id != "profile"@,
    ensures
        route_of("/admin/realms/"@ + realm + "/users/"@ + id) == Some(
            (RouteKind::User, realm, id, Seq::<char>::empty()),
        ),
        decision_of("/admin/realms/"@ + realm + "/users/"@ + id, m) == (if m is Get || m is Put || m is Delete {
            DecisionView::Dispatch(RouteKind::User, realm, id, Seq::<char>::empty())
        } else {
            DecisionView::MethodNotAllowed
        }),
{
    reveal_strlit("/users/");
    reveal_strlit("users/");
    reveal_strlit("/");
    reveal_strlit("/admin/realms");
    reveal_strlit("/admin/realms/");
    let p = "/admin/realms/"@ + realm + "/users/"@ + id;
    assert(p =~= "/admin/realms/"@ + realm + "/"@ + ("users/"@ + id));
    assert(p != "/admin/realms"@) by {
        assert(p.len() != "/admin/realms"@.len());
    }
    lemma_realm_and_rest(realm, "users/"@ + id);
    lemma_users_rest(id);
}

/// The methods each endpoint serves, listed method by method: the
/// endpoints that answer GET, POST, PUT and DELETE, and that no endpoint
/// serves any other method.
pub proof fn lemma_methods_by_method(k: RouteKind, m: HttpMethod)
    ensures
        serves(k, HttpMethod::Get) <==> !(k is BruteForceUsers || k is ClientInitialAccess || k is ClientDescriptionConverter || k is IdpImportConfig || k is IdpUploadCertificate || k is Session || k is OrgInvitationResend || k is OrgMembersInviteExisting || k is OrgMembersInviteUser || k is ProtocolMappersAddModels || k is ProtocolMappersNoProtocol || k is RegisterRequiredAction || k is AuthExecutions || k is RequiredActionLowerPriority || k is RequiredActionRaisePriority || k is AuthExecutionLowerPriority || k is AuthExecutionRaisePriority),
        serves(k, HttpMethod::Post) <==> (k is Realms || k is Clients || k is Components || k is IdpInstances || k is ClientsInitialAccess || k is ClientDescriptionConverter || k is IdpImportConfig || k is Groups || k is IdpUploadCertificate || k is GroupChildren || k is Roles || k is RoleComposites || k is RoleCompositesRealm || k is RoleCompositesClient || k is RoleByIdComposites || k is RoleByIdCompositesRealm || k is RoleByIdCompositesClient || k is Users || k is LocalizationLocale || k is Organizations || k is OrgIdentityProviders || k is OrgInvitationResend || k is OrgMembersInviteExisting || k is OrgMembersInviteUser || k is OrgMembers || k is IdpMappers || k is ClientScopes || k is ProtocolMappersAddModels || k is ProtocolMappers || k is ScopeMappingsRealm || k is ScopeMappingsClient || k is RegisterRequiredAction || k is AuthExecutions || k is RequiredActionLowerPriority || k is RequiredActionRaisePriority || k is AuthExecutionConfig || k is AuthExecutionLowerPriority || k is AuthExecutionRaisePriority || k is AuthExecutionConfigById || k is AuthFlows),
        serves(k, HttpMethod::Put) <==> (k is Realm || k is EventsConfig || k is ClientPolicies || k is ClientProfiles || k is ClientTypes || k is Client || k is Group || k is Role || k is RoleByIdPermissions || k is RoleById || k is UsersProfile || k is UsersManagementPermissions || k is User || k is LocalizationKey || k is Organization || k is IdpPermissions || k is IdpMapper || k is IdpInstance || k is Component || k is ProtocolMapper || k is ClientScope || k is RequiredActionConfig || k is RequiredAction || k is AuthFlowExecutions || k is AuthFlow),
        serves(k, HttpMethod::Delete) <==> (k is Realm || k is Events || k is AdminEvents || k is BruteForceUser || k is BruteForceUsers || k is ClientInitialAccess || k is Client || k is Group || k is RoleComposites || k is RoleCompositesRealm || k is RoleCompositesClient || k is Role || k is RoleByIdComposites || k is RoleByIdCompositesRealm || k is RoleByIdCompositesClient || k is RoleById || k is User || k is Session || k is LocalizationKey || k is LocalizationLocale || k is OrgIdentityProvider || k is OrgInvitation || k is OrgMember || k is Organization || k is IdpMapper || k is IdpInstance || k is Component || k is ProtocolMapper || k is ScopeMappingsRealm || k is ScopeMappingsClient || k is ClientScope || k is RequiredActionConfig || k is RequiredAction || k is AuthExecution || k is AuthFlow),
        !(m is Get || m is Post || m is Put || m is Delete) ==> !serves(k, m),
{
}

/// A segment holds no `/`, so it neither ends with nor contains text that
/// starts with `/`.
pub broadcast proof fn lemma_segment_no_suffix(t: Seq<char>, p: Seq<char>)
    ensures
        is_segment(t) && p.len() > 0 && p[0] == '/' ==> #[trigger] strip_suffix(t, p) is None,
{
    if is_segment(t) && p.len() > 0 && p[0] == '/' && ends_with(t, p) {
        let k = t.len() - p.len();
        assert(t.subrange(k, t.len() as int)[0] == t[k]);
        assert(t.contains('/'));
    }
}

pub broadcast proof fn lemma_segment_no_split(t: Seq<char>, p: Seq<char>)
    ensures
        is_segment(t) && p.len() > 0 && p[0] == '/' ==> #[trigger] split_once(t, p) is None,
{
    lemma_find_from_props(t, p, 0);
    if is_segment(t) && p.len() > 0 && p[0] == '/' {
        if let Some(k) = find(t, p) {
            assert(t.subrange(k, k + p.len())[0] == t[k]);
            assert(t.contains('/'));
        }
    }
}

/// A prefix followed by two different tails gives two different texts.
proof fn lemma_tail_ne(pre: Seq<char>, id: Seq<char>, tail: Seq<char>)
    requires
        id != tail,
    ensures
        pre + id != pre + tail,
{
    if pre + id == pre + tail {
        let n = pre.len() as int;
        assert((pre + id).len() == (pre + tail).len());
        assert((pre + id).subrange(n, n + id.len()) =~= id);
        assert((pre + tail).subrange(n, n + id.len()) =~= tail);
    }
}

/// A prefix followed by a segment neither is nor starts with the prefix
/// followed by a tail that holds `/`.
proof fn lemma_prefix_tail(pre: Seq<char>, id: Seq<char>, tail: Seq<char>, j: int)
    requires
        is_segment(id),
        0 <= j < tail.len(),
        tail[j] == '/',
    ensures
        !starts_with(pre + id, pre + tail),
        pre + id != pre + tail,
        strip_prefix(pre + id, pre + tail) is None,
        seg_after(pre + id, pre + tail) is None,
{
    let n = pre.len() as int;
    if starts_with(pre + id, pre + tail) {
        assert((pre + id).subrange(0, (pre + tail).len() as int)[n + j] == (pre + id)[n + j]);
        assert((pre + tail)[n + j] == '/');
        assert(id[j] == '/');
        assert(id.contains('/'));
    }
    if pre + id == pre + tail {
        assert((pre + id)[n + j] == id[j]);
        assert(id.contains('/'));
    }
}

/// Below `groups/`, a segment other than `count` names the endpoint `Group`.
#[verifier::rlimit(80)]
proof fn lemma_group_rest(id: Seq<char>)
    requires
        is_segment(id),
        id != "count"@,
    ensures
        rest_routes_a("groups/"@ + id) == Some((RouteKind::Group, id, Seq::<char>::empty())),
{
    broadcast use lemma_segment_no_suffix, lemma_segment_no_split;

    let rest = "groups/"@ + id;
    reveal_strlit("/children");
    reveal_strlit("admin-events");
    reveal_strlit("attack-detection/brute-force/users");
    reveal_strlit("attack-detection/brute-force/users/");
    reveal_strlit("authentication/authenticator-providers");
    reveal_strlit("authentication/client-authenticator-providers");
    reveal_strlit("authentication/executions");
    reveal_strlit("authentication/executions/");
    reveal_strlit("authentication/flows");
    reveal_strlit("authentication/flows/");
    reveal_strlit("authentication/form-action-providers");
    reveal_strlit("authentication/form-providers");
    reveal_strlit("authentication/register-required-action");
    reveal_strlit("authentication/required-actions");
    reveal_strlit("authentication/required-actions/");
    reveal_strlit("authentication/unregistered-required-actions");
    reveal_strlit("client-description-converter");
    reveal_strlit("client-policies/policies");
    reveal_strlit("client-policies/profiles");
    reveal_strlit("client-registration-policy/providers");
    reveal_strlit("client-scopes");
    reveal_strlit("client-scopes/");
    reveal_strlit("client-session-stats");
    reveal_strlit("client-templates");
    reveal_strlit("client-templates/");
    reveal_strlit("client-types");
    reveal_strlit("clients");
    reveal_strlit("clients-initial-access");
    reveal_strlit("clients-initial-access/");
    reveal_strlit("clients/");
    reveal_strlit("components");
    reveal_strlit("components/");
    reveal_strlit("count");
    reveal_strlit("credential-registrators");
    reveal_strlit("events");
    reveal_strlit("events/config");
    reveal_strlit("group-by-path/");
    reveal_strlit("groups");
    reveal_strlit("groups/");
    reveal_strlit("groups/count");
    reveal_strlit("identity-provider/import-config");
    reveal_strlit("identity-provider/instances");
    reveal_strlit("identity-provider/instances/");
    reveal_strlit("identity-provider/providers/");
    reveal_strlit("identity-provider/upload-certificate");
    reveal_strlit("keys");
    reveal_strlit("localization");
    reveal_strlit("localization/");
    reveal_strlit("organizations");
    reveal_strlit("organizations/");
    reveal_strlit("organizations/count");
    reveal_strlit("organizations/members/");
    reveal_strlit("roles");
    reveal_strlit("roles-by-id/");
    reveal_strlit("roles/");
    reveal_strlit("sessions/");
    reveal_strlit("users");
    reveal_strlit("users-management-permissions");
    reveal_strlit("users/");
    reveal_strlit("users/count");
    reveal_strlit("users/profile");
    reveal_strlit("users/profile/metadata");
    reveal_strlit("workflows");
    reveal_strlit("workflows/");
    assert(forall|i: int| 0 <= i < "groups/"@.len() ==> rest[i] == "groups/"@[i]);
    lemma_differs_at(rest, "events"@, 0);
    lemma_differs_at(rest, "events/config"@, 0);
    lemma_differs_at(rest, "admin-events"@, 0);
    lemma_differs_at(rest, "keys"@, 0);
    lemma_differs_at(rest, "localization"@, 0);
    lemma_differs_at(rest, "attack-detection/brute-force/users/"@, 0);
    lemma_differs_at(rest, "attack-detection/brute-force/users"@, 0);
    lemma_differs_at(rest, "clients"@, 0);
    lemma_differs_at(rest, "components"@, 0);
    lemma_differs_at(rest, "identity-provider/instances"@, 0);
    lemma_differs_at(rest, "clients-initial-access"@, 0);
    lemma_differs_at(rest, "clients-initial-access/"@, 0);
    lemma_differs_at(rest, "client-description-converter"@, 0);
    lemma_differs_at(rest, "credential-registrators"@, 0);
    lemma_differs_at(rest, "identity-provider/import-config"@, 0);
    assert(rest != "groups"@) by { assert(rest.len() != "groups"@.len()); }
    lemma_tail_ne("groups/"@, id, "count"@);
    assert("groups/count"@ =~= "groups/"@ + "count"@);
    lemma_differs_at(rest, "client-policies/policies"@, 0);
    lemma_differs_at(rest, "client-policies/profiles"@, 0);
    lemma_differs_at(rest, "client-registration-policy/providers"@, 0);
    lemma_differs_at(rest, "client-session-stats"@, 0);
    lemma_differs_at(rest, "client-types"@, 0);
    lemma_differs_at(rest, "identity-provider/upload-certificate"@, 0);
    lemma_differs_at(rest, "clients/"@, 0);
    lemma_differs_at(rest, "group-by-path/"@, 5);
    lemma_differs_at(rest, "roles"@, 0);
    lemma_differs_at(rest, "roles/"@, 0);
    lemma_differs_at(rest, "roles-by-id/"@, 0);
    lemma_differs_at(rest, "users"@, 0);
    lemma_differs_at(rest, "users/count"@, 0);
    lemma_differs_at(rest, "users/profile"@, 0);
    lemma_differs_at(rest, "users/profile/metadata"@, 0);
    lemma_differs_at(rest, "users-management-permissions"@, 0);
    lemma_differs_at(rest, "workflows"@, 0);
    lemma_differs_at(rest, "workflows/"@, 0);
    lemma_differs_at(rest, "users/"@, 0);
    lemma_differs_at(rest, "sessions/"@, 0);
    lemma_differs_at(rest, "localization/"@, 0);
    lemma_differs_at(rest, "organizations/members/"@, 0);
    lemma_differs_at(rest, "organizations"@, 0);
    lemma_differs_at(rest, "organizations/count"@, 0);
    lemma_differs_at(rest, "organizations/"@, 0);
    lemma_differs_at(rest, "identity-provider/instances/"@, 0);
    lemma_differs_at(rest, "identity-provider/providers/"@, 0);
    lemma_differs_at(rest, "components/"@, 0);
    lemma_differs_at(rest, "client-scopes"@, 0);
    lemma_differs_at(rest, "client-templates"@, 0);
    lemma_differs_at(rest, "client-scopes/"@, 0);
    lemma_differs_at(rest, "client-templates/"@, 0);
    lemma_differs_at(rest, "authentication/authenticator-providers"@, 0);
    lemma_differs_at(rest, "authentication/client-authenticator-providers"@, 0);
    lemma_differs_at(rest, "authentication/form-action-providers"@, 0);
    lemma_differs_at(rest, "authentication/form-providers"@, 0);
    lemma_differs_at(rest, "authentication/unregistered-required-actions"@, 0);
    lemma_differs_at(rest, "authentication/register-required-action"@, 0);
    lemma_differs_at(rest, "authentication/required-actions"@, 0);
    lemma_differs_at(rest, "authentication/executions"@, 0);
    lemma_differs_at(rest, "authentication/required-actions/"@, 0);
    lemma_differs_at(rest, "authentication/executions/"@, 0);
    lemma_differs_at(rest, "authentication/flows"@, 0);
    lemma_differs_at(rest, "authentication/flows/"@, 0);
    assert(starts_with(rest, "groups/"@)) by {
        assert(rest.subrange(0, "groups/"@.len() as int) =~= "groups/"@);
    }
    assert(rest.subrange("groups/"@.len() as int, rest.len() as int) =~= id);
    assert(strip_prefix(rest, "groups/"@) == Some(id));
    assert(group_paths(id) == Some((RouteKind::Group, id, Seq::<char>::empty())));
}

/// The path `/admin/realms/{realm}/groups/{id}`, for a segment `id` other than `count`, names
/// the endpoint `Group` with that realm and id; it serves GET, PUT, DELETE,
/// and any other method is answered 405.
pub proof fn lemma_group_endpoint(realm: Seq<char>, id: Seq<char>, m: HttpMethod)
    requires
        is_segment(realm),
        is_segment(id),
        id != "count"@,
    ensures
        route_of("/admin/realms/"@ + realm + "/"@ + "groups/"@ + id) == Some(
            (RouteKind::Group, realm, id, Seq::<char>::empty()),
        ),
        decision_of("/admin/realms/"@ + realm + "/"@ + "groups/"@ + id, m) == (if m is Get || m is Put || m is Delete {
            DecisionView::Dispatch(RouteKind::Group, realm, id, Seq::<char>::empty())
        } else {
            DecisionView::MethodNotAllowed
        }),
{
    reveal_strlit("/");
    reveal_strlit("/admin/realms");
    reveal_strlit("/admin/realms/");
    reveal_strlit("groups/");
    let p = "/admin/realms/"@ + realm + "/"@ + "groups/"@ + id;
    assert(p =~= "/admin/realms/"@ + realm + "/"@ + ("groups/"@ + id));
    assert(p != "/admin/realms"@) by {
        assert(p.len() != "/admin/realms"@.len());
    }
    lemma_realm_and_rest(realm, "groups/"@ + id);
    lemma_group_rest(id);
}

/// Below `roles/`, a segment names the endpoint `Role`.
#[verifier::rlimit(80)]
proof fn lemma_role_rest(id: Seq<char>)
    requires
        is_segment(id),

    ensures
        rest_routes_a("roles/"@ + id) == Some((RouteKind::Role, id, Seq::<char>::empty())),
{
    broadcast use lemma_segment_no_suffix, lemma_segment_no_split;

    let rest = "roles/"@ + id;
    reveal_strlit("/composites");
    reveal_strlit("/composites/clients/");
    reveal_strlit("/composites/realm");
    reveal_strlit("admin-events");
    reveal_strlit("attack-detection/brute-force/users");
    reveal_strlit("attack-detection/brute-force/users/");
    reveal_strlit("authentication/authenticator-providers");
    reveal_strlit("authentication/client-authenticator-providers");
    reveal_strlit("authentication/executions");
    reveal_strlit("authentication/executions/");
    reveal_strlit("authentication/flows");
    reveal_strlit("authentication/flows/");
    reveal_strlit("authentication/form-action-providers");
    reveal_strlit("authentication/form-providers");
    reveal_strlit("authentication/register-required-action");
    reveal_strlit("authentication/required-actions");
    reveal_strlit("authentication/required-actions/");
    reveal_strlit("authentication/unregistered-required-actions");
    reveal_strlit("client-description-converter");
    reveal_strlit("client-policies/policies");
    reveal_strlit("client-policies/profiles");
    reveal_strlit("client-registration-policy/providers");
    reveal_strlit("client-scopes");
    reveal_strlit("client-scopes/");
    reveal_strlit("client-session-stats");
    reveal_strlit("client-templates");
    reveal_strlit("client-templates/");
    reveal_strlit("client-types");
    reveal_strlit("clients");
    reveal_strlit("clients-initial-access");
    reveal_strlit("clients-initial-access/");
    reveal_strlit("clients/");
    reveal_strlit("components");
    reveal_strlit("components/");
    reveal_strlit("credential-registrators");
    reveal_strlit("events");
    reveal_strlit("events/config");
    reveal_strlit("group-by-path/");
    reveal_strlit("groups");
    reveal_strlit("groups/");
    reveal_strlit("groups/count");
    reveal_strlit("identity-provider/import-config");
    reveal_strlit("identity-provider/instances");
    reveal_strlit("identity-provider/instances/");
    reveal_strlit("identity-provider/providers/");
    reveal_strlit("identity-provider/upload-certificate");
    reveal_strlit("keys");
    reveal_strlit("localization");
    reveal_strlit("localization/");
    reveal_strlit("organizations");
    reveal_strlit("organizations/");
    reveal_strlit("organizations/count");
    reveal_strlit("organizations/members/");
    reveal_strlit("roles");
    reveal_strlit("roles-by-id/");
    reveal_strlit("roles/");
    reveal_strlit("sessions/");
    reveal_strlit("users");
    reveal_strlit("users-management-permissions");
    reveal_strlit("users/");
    reveal_strlit("users/count");
    reveal_strlit("users/profile");
    reveal_strlit("users/profile/metadata");
    reveal_strlit("workflows");
    reveal_strlit("workflows/");
    assert(forall|i: int| 0 <= i < "roles/"@.len() ==> rest[i] == "roles/"@[i]);
    lemma_differs_at(rest, "events"@, 0);
    lemma_differs_at(rest, "events/config"@, 0);
    lemma_differs_at(rest, "admin-events"@, 0);
    lemma_differs_at(rest, "keys"@, 0);
    lemma_differs_at(rest, "localization"@, 0);
    lemma_differs_at(rest, "attack-detection/brute-force/users/"@, 0);
    lemma_differs_at(rest, "attack-detection/brute-force/users"@, 0);
    lemma_differs_at(rest, "clients"@, 0);
    lemma_differs_at(rest, "components"@, 0);
    lemma_differs_at(rest, "identity-provider/instances"@, 0);
    lemma_differs_at(rest, "clients-initial-access"@, 0);
    lemma_differs_at(rest, "clients-initial-access/"@, 0);
    lemma_differs_at(rest, "client-description-converter"@, 0);
    lemma_differs_at(rest, "credential-registrators"@, 0);
    lemma_differs_at(rest, "identity-provider/import-config"@, 0);
    lemma_differs_at(rest, "groups"@, 0);
    lemma_differs_at(rest, "groups/count"@, 0);
    lemma_differs_at(rest, "client-policies/policies"@, 0);
    lemma_differs_at(rest, "client-policies/profiles"@, 0);
    lemma_differs_at(rest, "client-registration-policy/providers"@, 0);
    lemma_differs_at(rest, "client-session-stats"@, 0);
    lemma_differs_at(rest, "client-types"@, 0);
    lemma_differs_at(rest, "identity-provider/upload-certificate"@, 0);
    lemma_differs_at(rest, "clients/"@, 0);
    lemma_differs_at(rest, "group-by-path/"@, 0);
    lemma_differs_at(rest, "groups/"@, 0);
    assert(rest != "roles"@) by { assert(rest.len() != "roles"@.len()); }
    lemma_differs_at(rest, "roles-by-id/"@, 5);
    lemma_differs_at(rest, "users"@, 0);
    lemma_differs_at(rest, "users/count"@, 0);
    lemma_differs_at(rest, "users/profile"@, 0);
    lemma_differs_at(rest, "users/profile/metadata"@, 0);
    lemma_differs_at(rest, "users-management-permissions"@, 0);
    lemma_differs_at(rest, "workflows"@, 0);
    lemma_differs_at(rest, "workflows/"@, 0);
    lemma_differs_at(rest, "users/"@, 0);
    lemma_differs_at(rest, "sessions/"@, 0);
    lemma_differs_at(rest, "localization/"@, 0);
    lemma_differs_at(rest, "organizations/members/"@, 0);
    lemma_differs_at(rest, "organizations"@, 0);
    lemma_differs_at(rest, "organizations/count"@, 0);
    lemma_differs_at(rest, "organizations/"@, 0);
    lemma_differs_at(rest, "identity-provider/instances/"@, 0);
    lemma_differs_at(rest, "identity-provider/providers/"@, 0);
    lemma_differs_at(rest, "components/"@, 0);
    lemma_differs_at(rest, "client-scopes"@, 0);
    lemma_differs_at(rest, "client-templates"@, 0);
    lemma_differs_at(rest, "client-scopes/"@, 0);
    lemma_differs_at(rest, "client-templates/"@, 0);
    lemma_differs_at(rest, "authentication/authenticator-providers"@, 0);
    lemma_differs_at(rest, "authentication/client-authenticator-providers"@, 0);
    lemma_differs_at(rest, "authentication/form-action-providers"@, 0);
    lemma_differs_at(rest, "authentication/form-providers"@, 0);
    lemma_differs_at(rest, "authentication/unregistered-required-actions"@, 0);
    lemma_differs_at(rest, "authentication/register-required-action"@, 0);
    lemma_differs_at(rest, "authentication/required-actions"@, 0);
    lemma_differs_at(rest, "authentication/executions"@, 0);
    lemma_differs_at(rest, "authentication/required-actions/"@, 0);
    lemma_differs_at(rest, "authentication/executions/"@, 0);
    lemma_differs_at(rest, "authentication/flows"@, 0);
    lemma_differs_at(rest, "authentication/flows/"@, 0);
    assert(starts_with(rest, "roles/"@)) by {
        assert(rest.subrange(0, "roles/"@.len() as int) =~= "roles/"@);
    }
    assert(rest.subrange("roles/"@.len() as int, rest.len() as int) =~= id);
    assert(strip_prefix(rest, "roles/"@) == Some(id));
    assert(role_paths(id) == Some((RouteKind::Role, id, Seq::<char>::empty())));
}

/// The path `/admin/realms/{realm}/roles/{id}`, for a segment `id`, names
/// the endpoint `Role` with that realm and id; it serves GET, PUT, DELETE,
/// and any other method is answered 405.
pub proof fn lemma_role_endpoint(realm: Seq<char>, id: Seq<char>, m: HttpMethod)
    requires
        is_segment(realm),
        is_segment(id),

    ensures
        route_of("/admin/realms/"@ + realm + "/"@ + "roles/"@ + id) == Some(
            (RouteKind::Role, realm, id, Seq::<char>::empty()),
        ),
        decision_of("/admin/realms/"@ + realm + "/"@ + "roles/"@ + id, m) == (if m is Get || m is Put || m is Delete {
            DecisionView::Dispatch(RouteKind::Role, realm, id, Seq::<char>::empty())
        } else {
            DecisionView::MethodNotAllowed
        }),
{
    reveal_strlit("/");
    reveal_strlit("/admin/realms");
    reveal_strlit("/admin/realms/");
    reveal_strlit("roles/");
    let p = "/admin/realms/"@ + realm + "/"@ + "roles/"@ + id;
    assert(p =~= "/admin/realms/"@ + realm + "/"@ + ("roles/"@ + id));
    assert(p != "/admin/realms"@) by {
        assert(p.len() != "/admin/realms"@.len());
    }
    lemma_realm_and_rest(realm, "roles/"@ + id);
    lemma_role_rest(id);
}

/// Below `clients/`, a segment names the endpoint `Client`.
#[verifier::rlimit(80)]
proof fn lemma_client_rest(id: Seq<char>)
    requires
        is_segment(id),

    ensures
        rest_routes_a("clients/"@ + id) == Some((RouteKind::Client, id, Seq::<char>::empty())),
{
    broadcast use lemma_segment_no_suffix, lemma_segment_no_split;

    let rest = "clients/"@ + id;
    reveal_strlit("admin-events");
    reveal_strlit("attack-detection/brute-force/users");
    reveal_strlit("attack-detection/brute-force/users/");
    reveal_strlit("authentication/authenticator-providers");
    reveal_strlit("authentication/client-authenticator-providers");
    reveal_strlit("authentication/executions");
    reveal_strlit("authentication/executions/");
    reveal_strlit("authentication/flows");
    reveal_strlit("authentication/flows/");
    reveal_strlit("authentication/form-action-providers");
    reveal_strlit("authentication/form-providers");
    reveal_strlit("authentication/register-required-action");
    reveal_strlit("authentication/required-actions");
    reveal_strlit("authentication/required-actions/");
    reveal_strlit("authentication/unregistered-required-actions");
    reveal_strlit("client-description-converter");
    reveal_strlit("client-policies/policies");
    reveal_strlit("client-policies/profiles");
    reveal_strlit("client-registration-policy/providers");
    reveal_strlit("client-scopes");
    reveal_strlit("client-scopes/");
    reveal_strlit("client-session-stats");
    reveal_strlit("client-templates");
    reveal_strlit("client-templates/");
    reveal_strlit("client-types");
    reveal_strlit("clients");
    reveal_strlit("clients-initial-access");
    reveal_strlit("clients-initial-access/");
    reveal_strlit("clients/");
    reveal_strlit("components");
    reveal_strlit("components/");
    reveal_strlit("credential-registrators");
    reveal_strlit("events");
    reveal_strlit("events/config");
    reveal_strlit("group-by-path/");
    reveal_strlit("groups");
    reveal_strlit("groups/");
    reveal_strlit("groups/count");
    reveal_strlit("identity-provider/import-config");
    reveal_strlit("identity-provider/instances");
    reveal_strlit("identity-provider/instances/");
    reveal_strlit("identity-provider/providers/");
    reveal_strlit("identity-provider/upload-certificate");
    reveal_strlit("keys");
    reveal_strlit("localization");
    reveal_strlit("localization/");
    reveal_strlit("organizations");
    reveal_strlit("organizations/");
    reveal_strlit("organizations/count");
    reveal_strlit("organizations/members/");
    reveal_strlit("roles");
    reveal_strlit("roles-by-id/");
    reveal_strlit("roles/");
    reveal_strlit("sessions/");
    reveal_strlit("users");
    reveal_strlit("users-management-permissions");
    reveal_strlit("users/");
    reveal_strlit("users/count");
    reveal_strlit("users/profile");
    reveal_strlit("users/profile/metadata");
    reveal_strlit("workflows");
    reveal_strlit("workflows/");
    assert(forall|i: int| 0 <= i < "clients/"@.len() ==> rest[i] == "clients/"@[i]);
    lemma_differs_at(rest, "events"@, 0);
    lemma_differs_at(rest, "events/config"@, 0);
    lemma_differs_at(rest, "admin-events"@, 0);
    lemma_differs_at(rest, "keys"@, 0);
    lemma_differs_at(rest, "localization"@, 0);
    lemma_differs_at(rest, "attack-detection/brute-force/users/"@, 0);
    lemma_differs_at(rest, "attack-detection/brute-force/users"@, 0);
    assert(rest != "clients"@) by { assert(rest.len() != "clients"@.len()); }
    lemma_differs_at(rest, "components"@, 1);
    lemma_differs_at(rest, "identity-provider/instances"@, 0);
    lemma_differs_at(rest, "clients-initial-access"@, 7);
    lemma_differs_at(rest, "clients-initial-access/"@, 7);
    lemma_differs_at(rest, "client-description-converter"@, 6);
    lemma_differs_at(rest, "credential-registrators"@, 1);
    lemma_differs_at(rest, "identity-provider/import-config"@, 0);
    lemma_differs_at(rest, "groups"@, 0);
    lemma_differs_at(rest, "groups/count"@, 0);
    lemma_differs_at(rest, "client-policies/policies"@, 6);
    lemma_differs_at(rest, "client-policies/profiles"@, 6);
    lemma_differs_at(rest, "client-registration-policy/providers"@, 6);
    lemma_differs_at(rest, "client-session-stats"@, 6);
    lemma_differs_at(rest, "client-types"@, 6);
    lemma_differs_at(rest, "identity-provider/upload-certificate"@, 0);
    lemma_differs_at(rest, "group-by-path/"@, 0);
    lemma_differs_at(rest, "groups/"@, 0);
    lemma_differs_at(rest, "roles"@, 0);
    lemma_differs_at(rest, "roles/"@, 0);
    lemma_differs_at(rest, "roles-by-id/"@, 0);
    lemma_differs_at(rest, "users"@, 0);
    lemma_differs_at(rest, "users/count"@, 0);
    lemma_differs_at(rest, "users/profile"@, 0);
    lemma_differs_at(rest, "users/profile/metadata"@, 0);
    lemma_differs_at(rest, "users-management-permissions"@, 0);
    lemma_differs_at(rest, "workflows"@, 0);
    lemma_differs_at(rest, "workflows/"@, 0);
    lemma_differs_at(rest, "users/"@, 0);
    lemma_differs_at(rest, "sessions/"@, 0);
    lemma_differs_at(rest, "localization/"@, 0);
    lemma_differs_at(rest, "organizations/members/"@, 0);
    lemma_differs_at(rest, "organizations"@, 0);
    lemma_differs_at(rest, "organizations/count"@, 0);
    lemma_differs_at(rest, "organizations/"@, 0);
    lemma_differs_at(rest, "identity-provider/instances/"@, 0);
    lemma_differs_at(rest, "identity-provider/providers/"@, 0);
    lemma_differs_at(rest, "components/"@, 1);
    lemma_differs_at(rest, "client-scopes"@, 6);
    lemma_differs_at(rest, "client-templates"@, 6);
    lemma_differs_at(rest, "client-scopes/"@, 6);
    lemma_differs_at(rest, "client-templates/"@, 6);
    lemma_differs_at(rest, "authentication/authenticator-providers"@, 0);
    lemma_differs_at(rest, "authentication/client-authenticator-providers"@, 0);
    lemma_differs_at(rest, "authentication/form-action-providers"@, 0);
    lemma_differs_at(rest, "authentication/form-providers"@, 0);
    lemma_differs_at(rest, "authentication/unregistered-required-actions"@, 0);
    lemma_differs_at(rest, "authentication/register-required-action"@, 0);
    lemma_differs_at(rest, "authentication/required-actions"@, 0);
    lemma_differs_at(rest, "authentication/executions"@, 0);
    lemma_differs_at(rest, "authentication/required-actions/"@, 0);
    lemma_differs_at(rest, "authentication/executions/"@, 0);
    lemma_differs_at(rest, "authentication/flows"@, 0);
    lemma_differs_at(rest, "authentication/flows/"@, 0);
    assert(starts_with(rest, "clients/"@)) by {
        assert(rest.subrange(0, "clients/"@.len() as int) =~= "clients/"@);
    }
    assert(rest.subrange("clients/"@.len() as int, rest.len() as int) =~= id);
    assert(strip_prefix(rest, "clients/"@) == Some(id));
    assert(seg_after(rest, "clients/"@) == Some(id));
}

/// The path `/admin/realms/{realm}/clients/{id}`, for a segment `id`, names
/// the endpoint `Client` with that realm and id; it serves GET, PUT, DELETE,
/// and any other method is answered 405.
pub proof fn lemma_client_endpoint(realm: Seq<char>, id: Seq<char>, m: HttpMethod)
    requires
        is_segment(realm),
        is_segment(id),

    ensures
        route_of("/admin/realms/"@ + realm + "/"@ + "clients/"@ + id) == Some(
            (RouteKind::Client, realm, id, Seq::<char>::empty()),
        ),
        decision_of("/admin/realms/"@ + realm + "/"@ + "clients/"@ + id, m) == (if m is Get || m is Put || m is Delete {
            DecisionView::Dispatch(RouteKind::Client, realm, id, Seq::<char>::empty())
        } else {
            DecisionView::MethodNotAllowed
        }),
{
    reveal_strlit("/");
    reveal_strlit("/admin/realms");
    reveal_strlit("/admin/realms/");
    reveal_strlit("clients/");
    let p = "/admin/realms/"@ + realm + "/"@ + "clients/"@ + id;
    assert(p =~= "/admin/realms/"@ + realm + "/"@ + ("clients/"@ + id));
    assert(p != "/admin/realms"@) by {
        assert(p.len() != "/admin/realms"@.len());
    }
    lemma_realm_and_rest(realm, "clients/"@ + id);
    lemma_client_rest(id);
}

/// Below `organizations/`, a segment other than `count` names the endpoint `Organization`.
#[verifier::rlimit(80)]
proof fn lemma_organization_rest(id: Seq<char>)
    requires
        is_segment(id),
        id != "count"@,
    ensures
        rest_routes_a("organizations/"@ + id) == Some((RouteKind::Organization, id, Seq::<char>::empty())),
{
    broadcast use lemma_segment_no_suffix, lemma_segment_no_split;

    let rest = "organizations/"@ + id;
    reveal_strlit("/identity-providers");
    reveal_strlit("/identity-providers/");
    reveal_strlit("/invitations");
    reveal_strlit("/members");
    reveal_strlit("admin-events");
    reveal_strlit("attack-detection/brute-force/users");
    reveal_strlit("attack-detection/brute-force/users/");
    reveal_strlit("authentication/authenticator-providers");
    reveal_strlit("authentication/client-authenticator-providers");
    reveal_strlit("authentication/executions");
    reveal_strlit("authentication/executions/");
    reveal_strlit("authentication/flows");
    reveal_strlit("authentication/flows/");
    reveal_strlit("authentication/form-action-providers");
    reveal_strlit("authentication/form-providers");
    reveal_strlit("authentication/register-required-action");
    reveal_strlit("authentication/required-actions");
    reveal_strlit("authentication/required-actions/");
    reveal_strlit("authentication/unregistered-required-actions");
    reveal_strlit("client-description-converter");
    reveal_strlit("client-policies/policies");
    reveal_strlit("client-policies/profiles");
    reveal_strlit("client-registration-policy/providers");
    reveal_strlit("client-scopes");
    reveal_strlit("client-scopes/");
    reveal_strlit("client-session-stats");
    reveal_strlit("client-templates");
    reveal_strlit("client-templates/");
    reveal_strlit("client-types");
    reveal_strlit("clients");
    reveal_strlit("clients-initial-access");
    reveal_strlit("clients-initial-access/");
    reveal_strlit("clients/");
    reveal_strlit("components");
    reveal_strlit("components/");
    reveal_strlit("count");
    reveal_strlit("credential-registrators");
    reveal_strlit("events");
    reveal_strlit("events/config");
    reveal_strlit("group-by-path/");
    reveal_strlit("groups");
    reveal_strlit("groups/");
    reveal_strlit("groups/count");
    reveal_strlit("identity-provider/import-config");
    reveal_strlit("identity-provider/instances");
    reveal_strlit("identity-provider/instances/");
    reveal_strlit("identity-provider/providers/");
    reveal_strlit("identity-provider/upload-certificate");
    reveal_strlit("keys");
    reveal_strlit("localization");
    reveal_strlit("localization/");
    reveal_strlit("members/");
    reveal_strlit("organizations");
    reveal_strlit("organizations/");
    reveal_strlit("organizations/count");
    reveal_strlit("organizations/members/");
    reveal_strlit("roles");
    reveal_strlit("roles-by-id/");
    reveal_strlit("roles/");
    reveal_strlit("sessions/");
    reveal_strlit("users");
    reveal_strlit("users-management-permissions");
    reveal_strlit("users/");
    reveal_strlit("users/count");
    reveal_strlit("users/profile");
    reveal_strlit("users/profile/metadata");
    reveal_strlit("workflows");
    reveal_strlit("workflows/");
    assert(forall|i: int| 0 <= i < "organizations/"@.len() ==> rest[i] == "organizations/"@[i]);
    lemma_differs_at(rest, "events"@, 0);
    lemma_differs_at(rest, "events/config"@, 0);
    lemma_differs_at(rest, "admin-events"@, 0);
    lemma_differs_at(rest, "keys"@, 0);
    lemma_differs_at(rest, "localization"@, 0);
    lemma_differs_at(rest, "attack-detection/brute-force/users/"@, 0);
    lemma_differs_at(rest, "attack-detection/brute-force/users"@, 0);
    lemma_differs_at(rest, "clients"@, 0);
    lemma_differs_at(rest, "components"@, 0);
    lemma_differs_at(rest, "identity-provider/instances"@, 0);
    lemma_differs_at(rest, "clients-initial-access"@, 0);
    lemma_differs_at(rest, "clients-initial-access/"@, 0);
    lemma_differs_at(rest, "client-description-converter"@, 0);
    lemma_differs_at(rest, "credential-registrators"@, 0);
    lemma_differs_at(rest, "identity-provider/import-config"@, 0);
    lemma_differs_at(rest, "groups"@, 0);
    lemma_differs_at(rest, "groups/count"@, 0);
    lemma_differs_at(rest, "client-policies/policies"@, 0);
    lemma_differs_at(rest, "client-policies/profiles"@, 0);
    lemma_differs_at(rest, "client-registration-policy/providers"@, 0);
    lemma_differs_at(rest, "client-session-stats"@, 0);
    lemma_differs_at(rest, "client-types"@, 0);
    lemma_differs_at(rest, "identity-provider/upload-certificate"@, 0);
    lemma_differs_at(rest, "clients/"@, 0);
    lemma_differs_at(rest, "group-by-path/"@, 0);
    lemma_differs_at(rest, "groups/"@, 0);
    lemma_differs_at(rest, "roles"@, 0);
    lemma_differs_at(rest, "roles/"@, 0);
    lemma_differs_at(rest, "roles-by-id/"@, 0);
    lemma_differs_at(rest, "users"@, 0);
    lemma_differs_at(rest, "users/count"@, 0);
    lemma_differs_at(rest, "users/profile"@, 0);
    lemma_differs_at(rest, "users/profile/metadata"@, 0);
    lemma_differs_at(rest, "users-management-permissions"@, 0);
    lemma_differs_at(rest, "workflows"@, 0);
    lemma_differs_at(rest, "workflows/"@, 0);
    lemma_differs_at(rest, "users/"@, 0);
    lemma_differs_at(rest, "sessions/"@, 0);
    lemma_differs_at(rest, "localization/"@, 0);
    lemma_prefix_tail("organizations/"@, id, "members/"@, 7);
    assert("organizations/members/"@ =~= "organizations/"@ + "members/"@);
    assert(rest != "organizations"@) by { assert(rest.len() != "organizations"@.len()); }
    lemma_tail_ne("organizations/"@, id, "count"@);
    assert("organizations/count"@ =~= "organizations/"@ + "count"@);
    lemma_differs_at(rest, "identity-provider/instances/"@, 0);
    lemma_differs_at(rest, "identity-provider/providers/"@, 0);
    lemma_differs_at(rest, "components/"@, 0);
    lemma_differs_at(rest, "client-scopes"@, 0);
    lemma_differs_at(rest, "client-templates"@, 0);
    lemma_differs_at(rest, "client-scopes/"@, 0);
    lemma_differs_at(rest, "client-templates/"@, 0);
    lemma_differs_at(rest, "authentication/authenticator-providers"@, 0);
    lemma_differs_at(rest, "authentication/client-authenticator-providers"@, 0);
    lemma_differs_at(rest, "authentication/form-action-providers"@, 0);
    lemma_differs_at(rest, "authentication/form-providers"@, 0);
    lemma_differs_at(rest, "authentication/unregistered-required-actions"@, 0);
    lemma_differs_at(rest, "authentication/register-required-action"@, 0);
    lemma_differs_at(rest, "authentication/required-actions"@, 0);
    lemma_differs_at(rest, "authentication/executions"@, 0);
    lemma_differs_at(rest, "authentication/required-actions/"@, 0);
    lemma_differs_at(rest, "authentication/executions/"@, 0);
    lemma_differs_at(rest, "authentication/flows"@, 0);
    lemma_differs_at(rest, "authentication/flows/"@, 0);
    assert(starts_with(rest, "organizations/"@)) by {
        assert(rest.subrange(0, "organizations/"@.len() as int) =~= "organizations/"@);
    }
    assert(rest.subrange("organizations/"@.len() as int, rest.len() as int) =~= id);
    assert(strip_prefix(rest, "organizations/"@) == Some(id));
    reveal_strlit("/invitations/");
    reveal_strlit("/members/");
    assert(split_once(id, "/invitations/"@) is None);
    assert(split_once(id, "/members/"@) is None);
    assert(crate::route::org_nested_paths(id) is None);
    assert(organization_paths(id) == Some((RouteKind::Organization, id, Seq::<char>::empty())));
}

/// The path `/admin/realms/{realm}/organizations/{id}`, for a segment `id` other than `count`, names
/// the endpoint `Organization` with that realm and id; it serves GET, PUT, DELETE,
/// and any other method is answered 405.
pub proof fn lemma_organization_endpoint(realm: Seq<char>, id: Seq<char>, m: HttpMethod)
    requires
        is_segment(realm),
        is_segment(id),
        id != "count"@,
    ensures
        route_of("/admin/realms/"@ + realm + "/"@ + "organizations/"@ + id) == Some(
            (RouteKind::Organization, realm, id, Seq::<char>::empty()),
        ),
        decision_of("/admin/realms/"@ + realm + "/"@ + "organizations/"@ + id, m) == (if m is Get || m is Put || m is Delete {
            DecisionView::Dispatch(RouteKind::Organization, realm, id, Seq::<char>::empty())
        } else {
            DecisionView::MethodNotAllowed
        }),
{
    reveal_strlit("/");
    reveal_strlit("/admin/realms");
    reveal_strlit("/admin/realms/");
    reveal_strlit("organizations/");
    let p = "/admin/realms/"@ + realm + "/"@ + "organizations/"@ + id;
    assert(p =~= "/admin/realms/"@ + realm + "/"@ + ("organizations/"@ + id));
    assert(p != "/admin/realms"@) by {
        assert(p.len() != "/admin/realms"@.len());
    }
    lemma_realm_and_rest(realm, "organizations/"@ + id);
    lemma_organization_rest(id);
}

/// Below `components/`, a segment names the endpoint `Component`.
#[verifier::rlimit(80)]
proof fn lemma_component_rest(id: Seq<char>)
    requires
        is_segment(id),

    ensures
        rest_routes_a("components/"@ + id) == Some((RouteKind::Component, id, Seq::<char>::empty())),
{
    broadcast use lemma_segment_no_suffix, lemma_segment_no_split;

    let rest = "components/"@ + id;
    reveal_strlit("/sub-component-types");
    reveal_strlit("admin-events");
    reveal_strlit("attack-detection/brute-force/users");
    reveal_strlit("attack-detection/brute-force/users/");
    reveal_strlit("authentication/authenticator-providers");
    reveal_strlit("authentication/client-authenticator-providers");
    reveal_strlit("authentication/executions");
    reveal_strlit("authentication/executions/");
    reveal_strlit("authentication/flows");
    reveal_strlit("authentication/flows/");
    reveal_strlit("authentication/form-action-providers");
    reveal_strlit("authentication/form-providers");
    reveal_strlit("authentication/register-required-action");
    reveal_strlit("authentication/required-actions");
    reveal_strlit("authentication/required-actions/");
    reveal_strlit("authentication/unregistered-required-actions");
    reveal_strlit("client-description-converter");
    reveal_strlit("client-policies/policies");
    reveal_strlit("client-policies/profiles");
    reveal_strlit("client-registration-policy/providers");
    reveal_strlit("client-scopes");
    reveal_strlit("client-scopes/");
    reveal_strlit("client-session-stats");
    reveal_strlit("client-templates");
    reveal_strlit("client-templates/");
    reveal_strlit("client-types");
    reveal_strlit("clients");
    reveal_strlit("clients-initial-access");
    reveal_strlit("clients-initial-access/");
    reveal_strlit("clients/");
    reveal_strlit("components");
    reveal_strlit("components/");
    reveal_strlit("credential-registrators");
    reveal_strlit("events");
    reveal_strlit("events/config");
    reveal_strlit("group-by-path/");
    reveal_strlit("groups");
    reveal_strlit("groups/");
    reveal_strlit("groups/count");
    reveal_strlit("identity-provider/import-config");
    reveal_strlit("identity-provider/instances");
    reveal_strlit("identity-provider/instances/");
    reveal_strlit("identity-provider/providers/");
    reveal_strlit("identity-provider/upload-certificate");
    reveal_strlit("keys");
    reveal_strlit("localization");
    reveal_strlit("localization/");
    reveal_strlit("organizations");
    reveal_strlit("organizations/");
    reveal_strlit("organizations/count");
    reveal_strlit("organizations/members/");
    reveal_strlit("roles");
    reveal_strlit("roles-by-id/");
    reveal_strlit("roles/");
    reveal_strlit("sessions/");
    reveal_strlit("users");
    reveal_strlit("users-management-permissions");
    reveal_strlit("users/");
    reveal_strlit("users/count");
    reveal_strlit("users/profile");
    reveal_strlit("users/profile/metadata");
    reveal_strlit("workflows");
    reveal_strlit("workflows/");
    assert(forall|i: int| 0 <= i < "components/"@.len() ==> rest[i] == "components/"@[i]);
    lemma_differs_at(rest, "events"@, 0);
    lemma_differs_at(rest, "events/config"@, 0);
    lemma_differs_at(rest, "admin-events"@, 0);
    lemma_differs_at(rest, "keys"@, 0);
    lemma_differs_at(rest, "localization"@, 0);
    lemma_differs_at(rest, "attack-detection/brute-force/users/"@, 0);
    lemma_differs_at(rest, "attack-detection/brute-force/users"@, 0);
    lemma_differs_at(rest, "clients"@, 1);
    assert(rest != "components"@) by { assert(rest.len() != "components"@.len()); }
    lemma_differs_at(rest, "identity-provider/instances"@, 0);
    lemma_differs_at(rest, "clients-initial-access"@, 1);
    lemma_differs_at(rest, "clients-initial-access/"@, 1);
    lemma_differs_at(rest, "client-description-converter"@, 1);
    lemma_differs_at(rest, "credential-registrators"@, 1);
    lemma_differs_at(rest, "identity-provider/import-config"@, 0);
    lemma_differs_at(rest, "groups"@, 0);
    lemma_differs_at(rest, "groups/count"@, 0);
    lemma_differs_at(rest, "client-policies/policies"@, 1);
    lemma_differs_at(rest, "client-policies/profiles"@, 1);
    lemma_differs_at(rest, "client-registration-policy/providers"@, 1);
    lemma_differs_at(rest, "client-session-stats"@, 1);
    lemma_differs_at(rest, "client-types"@, 1);
    lemma_differs_at(rest, "identity-provider/upload-certificate"@, 0);
    lemma_differs_at(rest, "clients/"@, 1);
    lemma_differs_at(rest, "group-by-path/"@, 0);
    lemma_differs_at(rest, "groups/"@, 0);
    lemma_differs_at(rest, "roles"@, 0);
    lemma_differs_at(rest, "roles/"@, 0);
    lemma_differs_at(rest, "roles-by-id/"@, 0);
    lemma_differs_at(rest, "users"@, 0);
    lemma_differs_at(rest, "users/count"@, 0);
    lemma_differs_at(rest, "users/profile"@, 0);
    lemma_differs_at(rest, "users/profile/metadata"@, 0);
    lemma_differs_at(rest, "users-management-permissions"@, 0);
    lemma_differs_at(rest, "workflows"@, 0);
    lemma_differs_at(rest, "workflows/"@, 0);
    lemma_differs_at(rest, "users/"@, 0);
    lemma_differs_at(rest, "sessions/"@, 0);
    lemma_differs_at(rest, "localization/"@, 0);
    lemma_differs_at(rest, "organizations/members/"@, 0);
    lemma_differs_at(rest, "organizations"@, 0);
    lemma_differs_at(rest, "organizations/count"@, 0);
    lemma_differs_at(rest, "organizations/"@, 0);
    lemma_differs_at(rest, "identity-provider/instances/"@, 0);
    lemma_differs_at(rest, "identity-provider/providers/"@, 0);
    lemma_differs_at(rest, "client-scopes"@, 1);
    lemma_differs_at(rest, "client-templates"@, 1);
    lemma_differs_at(rest, "client-scopes/"@, 1);
    lemma_differs_at(rest, "client-templates/"@, 1);
    lemma_differs_at(rest, "authentication/authenticator-providers"@, 0);
    lemma_differs_at(rest, "authentication/client-authenticator-providers"@, 0);
    lemma_differs_at(rest, "authentication/form-action-providers"@, 0);
    lemma_differs_at(rest, "authentication/form-providers"@, 0);
    lemma_differs_at(rest, "authentication/unregistered-required-actions"@, 0);
    lemma_differs_at(rest, "authentication/register-required-action"@, 0);
    lemma_differs_at(rest, "authentication/required-actions"@, 0);
    lemma_differs_at(rest, "authentication/executions"@, 0);
    lemma_differs_at(rest, "authentication/required-actions/"@, 0);
    lemma_differs_at(rest, "authentication/executions/"@, 0);
    lemma_differs_at(rest, "authentication/flows"@, 0);
    lemma_differs_at(rest, "authentication/flows/"@, 0);
    assert(starts_with(rest, "components/"@)) by {
        assert(rest.subrange(0, "components/"@.len() as int) =~= "components/"@);
    }
    assert(rest.subrange("components/"@.len() as int, rest.len() as int) =~= id);
    assert(strip_prefix(rest, "components/"@) == Some(id));
    assert(component_paths(id) == Some((RouteKind::Component, id, Seq::<char>::empty())));
}

/// The path `/admin/realms/{realm}/components/{id}`, for a segment `id`, names
/// the endpoint `Component` with that realm and id; it serves GET, PUT, DELETE,
/// and any other method is answered 405.
pub proof fn lemma_component_endpoint(realm: Seq<char>, id: Seq<char>, m: HttpMethod)
    requires
        is_segment(realm),
        is_segment(id),

    ensures
        route_of("/admin/realms/"@ + realm + "/"@ + "components/"@ + id) == Some(
            (RouteKind::Component, realm, id, Seq::<char>::empty()),
        ),
        decision_of("/admin/realms/"@ + realm + "/"@ + "components/"@ + id, m) == (if m is Get || m is Put || m is Delete {
            DecisionView::Dispatch(RouteKind::Component, realm, id, Seq::<char>::empty())
        } else {
            DecisionView::MethodNotAllowed
        }),
{
    reveal_strlit("/");
    reveal_strlit("/admin/realms");
    reveal_strlit("/admin/realms/");
    reveal_strlit("components/");
    let p = "/admin/realms/"@ + realm + "/"@ + "components/"@ + id;
    assert(p =~= "/admin/realms/"@ + realm + "/"@ + ("components/"@ + id));
    assert(p != "/admin/realms"@) by {
        assert(p.len() != "/admin/realms"@.len());
    }
    lemma_realm_and_rest(realm, "components/"@ + id);
    lemma_component_rest(id);
}

/// Below `identity-provider/instances/`, a segment names the endpoint `IdpInstance`.
#[verifier::rlimit(80)]
proof fn lemma_identity_provider_rest(id: Seq<char>)
    requires
        is_segment(id),

    ensures
        rest_routes_a("identity-provider/instances/"@ + id) == Some((RouteKind::IdpInstance, id, Seq::<char>::empty())),
{
    broadcast use lemma_segment_no_suffix, lemma_segment_no_split;

    let rest = "identity-provider/instances/"@ + id;
    reveal_strlit("/export");
    reveal_strlit("/management/permissions");
    reveal_strlit("/mapper-types");
    reveal_strlit("/mappers");
    reveal_strlit("/mappers/");
    reveal_strlit("/reload-keys");
    reveal_strlit("admin-events");
    reveal_strlit("attack-detection/brute-force/users");
    reveal_strlit("attack-detection/brute-force/users/");
    reveal_strlit("authentication/authenticator-providers");
    reveal_strlit("authentication/client-authenticator-providers");
    reveal_strlit("authentication/executions");
    reveal_strlit("authentication/executions/");
    reveal_strlit("authentication/flows");
    reveal_strlit("authentication/flows/");
    reveal_strlit("authentication/form-action-providers");
    reveal_strlit("authentication/form-providers");
    reveal_strlit("authentication/register-required-action");
    reveal_strlit("authentication/required-actions");
    reveal_strlit("authentication/required-actions/");
    reveal_strlit("authentication/unregistered-required-actions");
    reveal_strlit("client-description-converter");
    reveal_strlit("client-policies/policies");
    reveal_strlit("client-policies/profiles");
    reveal_strlit("client-registration-policy/providers");
    reveal_strlit("client-scopes");
    reveal_strlit("client-scopes/");
    reveal_strlit("client-session-stats");
    reveal_strlit("client-templates");
    reveal_strlit("client-templates/");
    reveal_strlit("client-types");
    reveal_strlit("clients");
    reveal_strlit("clients-initial-access");
    reveal_strlit("clients-initial-access/");
    reveal_strlit("clients/");
    reveal_strlit("components");
    reveal_strlit("components/");
    reveal_strlit("credential-registrators");
    reveal_strlit("events");
    reveal_strlit("events/config");
    reveal_strlit("group-by-path/");
    reveal_strlit("groups");
    reveal_strlit("groups/");
    reveal_strlit("groups/count");
    reveal_strlit("identity-provider/import-config");
    reveal_strlit("identity-provider/instances");
    reveal_strlit("identity-provider/instances/");
    reveal_strlit("identity-provider/providers/");
    reveal_strlit("identity-provider/upload-certificate");
    reveal_strlit("keys");
    reveal_strlit("localization");
    reveal_strlit("localization/");
    reveal_strlit("organizations");
    reveal_strlit("organizations/");
    reveal_strlit("organizations/count");
    reveal_strlit("organizations/members/");
    reveal_strlit("roles");
    reveal_strlit("roles-by-id/");
    reveal_strlit("roles/");
    reveal_strlit("sessions/");
    reveal_strlit("users");
    reveal_strlit("users-management-permissions");
    reveal_strlit("users/");
    reveal_strlit("users/count");
    reveal_strlit("users/profile");
    reveal_strlit("users/profile/metadata");
    reveal_strlit("workflows");
    reveal_strlit("workflows/");
    assert(forall|i: int| 0 <= i < "identity-provider/instances/"@.len() ==> rest[i] == "identity-provider/instances/"@[i]);
    lemma_differs_at(rest, "events"@, 0);
    lemma_differs_at(rest, "events/config"@, 0);
    lemma_differs_at(rest, "admin-events"@, 0);
    lemma_differs_at(rest, "keys"@, 0);
    lemma_differs_at(rest, "localization"@, 0);
    lemma_differs_at(rest, "attack-detection/brute-force/users/"@, 0);
    lemma_differs_at(rest, "attack-detection/brute-force/users"@, 0);
    lemma_differs_at(rest, "clients"@, 0);
    lemma_differs_at(rest, "components"@, 0);
    assert(rest != "identity-provider/instances"@) by { assert(rest.len() != "identity-provider/instances"@.len()); }
    lemma_differs_at(rest, "clients-initial-access"@, 0);
    lemma_differs_at(rest, "clients-initial-access/"@, 0);
    lemma_differs_at(rest, "client-description-converter"@, 0);
    lemma_differs_at(rest, "credential-registrators"@, 0);
    lemma_differs_at(rest, "identity-provider/import-config"@, 19);
    lemma_differs_at(rest, "groups"@, 0);
    lemma_differs_at(rest, "groups/count"@, 0);
    lemma_differs_at(rest, "client-policies/policies"@, 0);
    lemma_differs_at(rest, "client-policies/profiles"@, 0);
    lemma_differs_at(rest, "client-registration-policy/providers"@, 0);
    lemma_differs_at(rest, "client-session-stats"@, 0);
    lemma_differs_at(rest, "client-types"@, 0);
    lemma_differs_at(rest, "identity-provider/upload-certificate"@, 18);
    lemma_differs_at(rest, "clients/"@, 0);
    lemma_differs_at(rest, "group-by-path/"@, 0);
    lemma_differs_at(rest, "groups/"@, 0);
    lemma_differs_at(rest, "roles"@, 0);
    lemma_differs_at(rest, "roles/"@, 0);
    lemma_differs_at(rest, "roles-by-id/"@, 0);
    lemma_differs_at(rest, "users"@, 0);
    lemma_differs_at(rest, "users/count"@, 0);
    lemma_differs_at(rest, "users/profile"@, 0);
    lemma_differs_at(rest, "users/profile/metadata"@, 0);
    lemma_differs_at(rest, "users-management-permissions"@, 0);
    lemma_differs_at(rest, "workflows"@, 0);
    lemma_differs_at(rest, "workflows/"@, 0);
    lemma_differs_at(rest, "users/"@, 0);
    lemma_differs_at(rest, "sessions/"@, 0);
    lemma_differs_at(rest, "localization/"@, 0);
    lemma_differs_at(rest, "organizations/members/"@, 0);
    lemma_differs_at(rest, "organizations"@, 0);
    lemma_differs_at(rest, "organizations/count"@, 0);
    lemma_differs_at(rest, "organizations/"@, 0);
    lemma_differs_at(rest, "identity-provider/providers/"@, 18);
    lemma_differs_at(rest, "components/"@, 0);
    lemma_differs_at(rest, "client-scopes"@, 0);
    lemma_differs_at(rest, "client-templates"@, 0);
    lemma_differs_at(rest, "client-scopes/"@, 0);
    lemma_differs_at(rest, "client-templates/"@, 0);
    lemma_differs_at(rest, "authentication/authenticator-providers"@, 0);
    lemma_differs_at(rest, "authentication/client-authenticator-providers"@, 0);
    lemma_differs_at(rest, "authentication/form-action-providers"@, 0);
    lemma_differs_at(rest, "authentication/form-providers"@, 0);
    lemma_differs_at(rest, "authentication/unregistered-required-actions"@, 0);
    lemma_differs_at(rest, "authentication/register-required-action"@, 0);
    lemma_differs_at(rest, "authentication/required-actions"@, 0);
    lemma_differs_at(rest, "authentication/executions"@, 0);
    lemma_differs_at(rest, "authentication/required-actions/"@, 0);
    lemma_differs_at(rest, "authentication/executions/"@, 0);
    lemma_differs_at(rest, "authentication/flows"@, 0);
    lemma_differs_at(rest, "authentication/flows/"@, 0);
    assert(starts_with(rest, "identity-provider/instances/"@)) by {
        assert(rest.subrange(0, "identity-provider/instances/"@.len() as int) =~= "identity-provider/instances/"@);
    }
    assert(rest.subrange("identity-provider/instances/"@.len() as int, rest.len() as int) =~= id);
    assert(strip_prefix(rest, "identity-provider/instances/"@) == Some(id));
    assert(idp_paths(id) == Some((RouteKind::IdpInstance, id, Seq::<char>::empty())));
}

/// The path `/admin/realms/{realm}/identity-provider/instances/{id}`, for a segment `id`, names
/// the endpoint `IdpInstance` with that realm and id; it serves GET, PUT, DELETE,
/// and any other method is answered 405.
pub proof fn lemma_identity_provider_endpoint(realm: Seq<char>, id: Seq<char>, m: HttpMethod)
    requires
        is_segment(realm),
        is_segment(id),

    ensures
        route_of("/admin/realms/"@ + realm + "/"@ + "identity-provider/instances/"@ + id) == Some(
            (RouteKind::IdpInstance, realm, id, Seq::<char>::empty()),
        ),
        decision_of("/admin/realms/"@ + realm + "/"@ + "identity-provider/instances/"@ + id, m) == (if m is Get || m is Put || m is Delete {
            DecisionView::Dispatch(RouteKind::IdpInstance, realm, id, Seq::<char>::empty())
        } else {
            DecisionView::MethodNotAllowed
        }),
{
    reveal_strlit("/");
    reveal_strlit("/admin/realms");
    reveal_strlit("/admin/realms/");
    reveal_strlit("identity-provider/instances/");
    let p = "/admin/realms/"@ + realm + "/"@ + "identity-provider/instances/"@ + id;
    assert(p =~= "/admin/realms/"@ + realm + "/"@ + ("identity-provider/instances/"@ + id));
    assert(p != "/admin/realms"@) by {
        assert(p.len() != "/admin/realms"@.len());
    }
    lemma_realm_and_rest(realm, "identity-provider/instances/"@ + id);
    lemma_identity_provider_rest(id);
}

/// Below `authentication/required-actions/`, a segment names the endpoint `RequiredAction`.
#[verifier::rlimit(80)]
proof fn lemma_required_action_rest(id: Seq<char>)
    requires
        is_segment(id),

    ensures
        rest_routes_a("authentication/required-actions/"@ + id) == Some((RouteKind::RequiredAction, id, Seq::<char>::empty())),
{
    broadcast use lemma_segment_no_suffix, lemma_segment_no_split;

    let rest = "authentication/required-actions/"@ + id;
    reveal_strlit("/config");
    reveal_strlit("/config-description");
    reveal_strlit("/lower-priority");
    reveal_strlit("/raise-priority");
    reveal_strlit("admin-events");
    reveal_strlit("attack-detection/brute-force/users");
    reveal_strlit("attack-detection/brute-force/users/");
    reveal_strlit("authentication/authenticator-providers");
    reveal_strlit("authentication/client-authenticator-providers");
    reveal_strlit("authentication/executions");
    reveal_strlit("authentication/executions/");
    reveal_strlit("authentication/flows");
    reveal_strlit("authentication/flows/");
    reveal_strlit("authentication/form-action-providers");
    reveal_strlit("authentication/form-providers");
    reveal_strlit("authentication/register-required-action");
    reveal_strlit("authentication/required-actions");
    reveal_strlit("authentication/required-actions/");
    reveal_strlit("authentication/unregistered-required-actions");
    reveal_strlit("client-description-converter");
    reveal_strlit("client-policies/policies");
    reveal_strlit("client-policies/profiles");
    reveal_strlit("client-registration-policy/providers");
    reveal_strlit("client-scopes");
    reveal_strlit("client-scopes/");
    reveal_strlit("client-session-stats");
    reveal_strlit("client-templates");
    reveal_strlit("client-templates/");
    reveal_strlit("client-types");
    reveal_strlit("clients");
    reveal_strlit("clients-initial-access");
    reveal_strlit("clients-initial-access/");
    reveal_strlit("clients/");
    reveal_strlit("components");
    reveal_strlit("components/");
    reveal_strlit("credential-registrators");
    reveal_strlit("events");
    reveal_strlit("events/config");
    reveal_strlit("group-by-path/");
    reveal_strlit("groups");
    reveal_strlit("groups/");
    reveal_strlit("groups/count");
    reveal_strlit("identity-provider/import-config");
    reveal_strlit("identity-provider/instances");
    reveal_strlit("identity-provider/instances/");
    reveal_strlit("identity-provider/providers/");
    reveal_strlit("identity-provider/upload-certificate");
    reveal_strlit("keys");
    reveal_strlit("localization");
    reveal_strlit("localization/");
    reveal_strlit("organizations");
    reveal_strlit("organizations/");
    reveal_strlit("organizations/count");
    reveal_strlit("organizations/members/");
    reveal_strlit("roles");
    reveal_strlit("roles-by-id/");
    reveal_strlit("roles/");
    reveal_strlit("sessions/");
    reveal_strlit("users");
    reveal_strlit("users-management-permissions");
    reveal_strlit("users/");
    reveal_strlit("users/count");
    reveal_strlit("users/profile");
    reveal_strlit("users/profile/metadata");
    reveal_strlit("workflows");
    reveal_strlit("workflows/");
    assert(forall|i: int| 0 <= i < "authentication/required-actions/"@.len() ==> rest[i] == "authentication/required-actions/"@[i]);
    lemma_differs_at(rest, "events"@, 0);
    lemma_differs_at(rest, "events/config"@, 0);
    lemma_differs_at(rest, "admin-events"@, 1);
    lemma_differs_at(rest, "keys"@, 0);
    lemma_differs_at(rest, "localization"@, 0);
    lemma_differs_at(rest, "attack-detection/brute-force/users/"@, 1);
    lemma_differs_at(rest, "attack-detection/brute-force/users"@, 1);
    lemma_differs_at(rest, "clients"@, 0);
    lemma_differs_at(rest, "components"@, 0);
    lemma_differs_at(rest, "identity-provider/instances"@, 0);
    lemma_differs_at(rest, "clients-initial-access"@, 0);
    lemma_differs_at(rest, "clients-initial-access/"@, 0);
    lemma_differs_at(rest, "client-description-converter"@, 0);
    lemma_differs_at(rest, "credential-registrators"@, 0);
    lemma_differs_at(rest, "identity-provider/import-config"@, 0);
    lemma_differs_at(rest, "groups"@, 0);
    lemma_differs_at(rest, "groups/count"@, 0);
    lemma_differs_at(rest, "client-policies/policies"@, 0);
    lemma_differs_at(rest, "client-policies/profiles"@, 0);
    lemma_differs_at(rest, "client-registration-policy/providers"@, 0);
    lemma_differs_at(rest, "client-session-stats"@, 0);
    lemma_differs_at(rest, "client-types"@, 0);
    lemma_differs_at(rest, "identity-provider/upload-certificate"@, 0);
    lemma_differs_at(rest, "clients/"@, 0);
    lemma_differs_at(rest, "group-by-path/"@, 0);
    lemma_differs_at(rest, "groups/"@, 0);
    lemma_differs_at(rest, "roles"@, 0);
    lemma_differs_at(rest, "roles/"@, 0);
    lemma_differs_at(rest, "roles-by-id/"@, 0);
    lemma_differs_at(rest, "users"@, 0);
    lemma_differs_at(rest, "users/count"@, 0);
    lemma_differs_at(rest, "users/profile"@, 0);
    lemma_differs_at(rest, "users/profile/metadata"@, 0);
    lemma_differs_at(rest, "users-management-permissions"@, 0);
    lemma_differs_at(rest, "workflows"@, 0);
    lemma_differs_at(rest, "workflows/"@, 0);
    lemma_differs_at(rest, "users/"@, 0);
    lemma_differs_at(rest, "sessions/"@, 0);
    lemma_differs_at(rest, "localization/"@, 0);
    lemma_differs_at(rest, "organizations/members/"@, 0);
    lemma_differs_at(rest, "organizations"@, 0);
    lemma_differs_at(rest, "organizations/count"@, 0);
    lemma_differs_at(rest, "organizations/"@, 0);
    lemma_differs_at(rest, "identity-provider/instances/"@, 0);
    lemma_differs_at(rest, "identity-provider/providers/"@, 0);
    lemma_differs_at(rest, "components/"@, 0);
    lemma_differs_at(rest, "client-scopes"@, 0);
    lemma_differs_at(rest, "client-templates"@, 0);
    lemma_differs_at(rest, "client-scopes/"@, 0);
    lemma_differs_at(rest, "client-templates/"@, 0);
    lemma_differs_at(rest, "authentication/authenticator-providers"@, 15);
    lemma_differs_at(rest, "authentication/client-authenticator-providers"@, 15);
    lemma_differs_at(rest, "authentication/form-action-providers"@, 15);
    lemma_differs_at(rest, "authentication/form-providers"@, 15);
    lemma_differs_at(rest, "authentication/unregistered-required-actions"@, 15);
    lemma_differs_at(rest, "authentication/register-required-action"@, 17);
    assert(rest != "authentication/required-actions"@) by { assert(rest.len() != "authentication/required-actions"@.len()); }
    lemma_differs_at(rest, "authentication/executions"@, 15);
    lemma_differs_at(rest, "authentication/executions/"@, 15);
    lemma_differs_at(rest, "authentication/flows"@, 15);
    lemma_differs_at(rest, "authentication/flows/"@, 15);
    assert(starts_with(rest, "authentication/required-actions/"@)) by {
        assert(rest.subrange(0, "authentication/required-actions/"@.len() as int) =~= "authentication/required-actions/"@);
    }
    assert(rest.subrange("authentication/required-actions/"@.len() as int, rest.len() as int) =~= id);
    assert(strip_prefix(rest, "authentication/required-actions/"@) == Some(id));
    assert(required_action_paths(id) == Some((RouteKind::RequiredAction, id, Seq::<char>::empty())));
}

/// The path `/admin/realms/{realm}/authentication/required-actions/{id}`, for a segment `id`, names
/// the endpoint `RequiredAction` with that realm and id; it serves GET, PUT, DELETE,
/// and any other method is answered 405.
pub proof fn lemma_required_action_endpoint(realm: Seq<char>, id: Seq<char>, m: HttpMethod)
    requires
        is_segment(realm),
        is_segment(id),

    ensures
        route_of("/admin/realms/"@ + realm + "/"@ + "authentication/required-actions/"@ + id) == Some(
            (RouteKind::RequiredAction, realm, id, Seq::<char>::empty()),
        ),
        decision_of("/admin/realms/"@ + realm + "/"@ + "authentication/required-actions/"@ + id, m) == (if m is Get || m is Put || m is Delete {
            DecisionView::Dispatch(RouteKind::RequiredAction, realm, id, Seq::<char>::empty())
        } else {
            DecisionView::MethodNotAllowed
        }),
{
    reveal_strlit("/");
    reveal_strlit("/admin/realms");
    reveal_strlit("/admin/realms/");
    reveal_strlit("authentication/required-actions/");
    let p = "/admin/realms/"@ + realm + "/"@ + "authentication/required-actions/"@ + id;
    assert(p =~= "/admin/realms/"@ + realm + "/"@ + ("authentication/required-actions/"@ + id));
    assert(p != "/admin/realms"@) by {
        assert(p.len() != "/admin/realms"@.len());
    }
    lemma_realm_and_rest(realm, "authentication/required-actions/"@ + id);
    lemma_required_action_rest(id);
}

/// Below `authentication/executions/`, a segment names the endpoint `AuthExecution`.
#[verifier::rlimit(80)]
proof fn lemma_execution_rest(id: Seq<char>)
    requires
        is_segment(id),

    ensures
        rest_routes_a("authentication/executions/"@ + id) == Some((RouteKind::AuthExecution, id, Seq::<char>::empty())),
{
    broadcast use lemma_segment_no_suffix, lemma_segment_no_split;

    let rest = "authentication/executions/"@ + id;
    reveal_strlit("/config");
    reveal_strlit("/config/");
    reveal_strlit("/lower-priority");
    reveal_strlit("/raise-priority");
    reveal_strlit("admin-events");
    reveal_strlit("attack-detection/brute-force/users");
    reveal_strlit("attack-detection/brute-force/users/");
    reveal_strlit("authentication/authenticator-providers");
    reveal_strlit("authentication/client-authenticator-providers");
    reveal_strlit("authentication/executions");
    reveal_strlit("authentication/executions/");
    reveal_strlit("authentication/flows");
    reveal_strlit("authentication/flows/");
    reveal_strlit("authentication/form-action-providers");
    reveal_strlit("authentication/form-providers");
    reveal_strlit("authentication/register-required-action");
    reveal_strlit("authentication/required-actions");
    reveal_strlit("authentication/required-actions/");
    reveal_strlit("authentication/unregistered-required-actions");
    reveal_strlit("client-description-converter");
    reveal_strlit("client-policies/policies");
    reveal_strlit("client-policies/profiles");
    reveal_strlit("client-registration-policy/providers");
    reveal_strlit("client-scopes");
    reveal_strlit("client-scopes/");
    reveal_strlit("client-session-stats");
    reveal_strlit("client-templates");
    reveal_strlit("client-templates/");
    reveal_strlit("client-types");
    reveal_strlit("clients");
    reveal_strlit("clients-initial-access");
    reveal_strlit("clients-initial-access/");
    reveal_strlit("clients/");
    reveal_strlit("components");
    reveal_strlit("components/");
    reveal_strlit("credential-registrators");
    reveal_strlit("events");
    reveal_strlit("events/config");
    reveal_strlit("group-by-path/");
    reveal_strlit("groups");
    reveal_strlit("groups/");
    reveal_strlit("groups/count");
    reveal_strlit("identity-provider/import-config");
    reveal_strlit("identity-provider/instances");
    reveal_strlit("identity-provider/instances/");
    reveal_strlit("identity-provider/providers/");
    reveal_strlit("identity-provider/upload-certificate");
    reveal_strlit("keys");
    reveal_strlit("localization");
    reveal_strlit("localization/");
    reveal_strlit("organizations");
    reveal_strlit("organizations/");
    reveal_strlit("organizations/count");
    reveal_strlit("organizations/members/");
    reveal_strlit("roles");
    reveal_strlit("roles-by-id/");
    reveal_strlit("roles/");
    reveal_strlit("sessions/");
    reveal_strlit("users");
    reveal_strlit("users-management-permissions");
    reveal_strlit("users/");
    reveal_strlit("users/count");
    reveal_strlit("users/profile");
    reveal_strlit("users/profile/metadata");
    reveal_strlit("workflows");
    reveal_strlit("workflows/");
    assert(forall|i: int| 0 <= i < "authentication/executions/"@.len() ==> rest[i] == "authentication/executions/"@[i]);
    lemma_differs_at(rest, "events"@, 0);
    lemma_differs_at(rest, "events/config"@, 0);
    lemma_differs_at(rest, "admin-events"@, 1);
    lemma_differs_at(rest, "keys"@, 0);
    lemma_differs_at(rest, "localization"@, 0);
    lemma_differs_at(rest, "attack-detection/brute-force/users/"@, 1);
    lemma_differs_at(rest, "attack-detection/brute-force/users"@, 1);
    lemma_differs_at(rest, "clients"@, 0);
    lemma_differs_at(rest, "components"@, 0);
    lemma_differs_at(rest, "identity-provider/instances"@, 0);
    lemma_differs_at(rest, "clients-initial-access"@, 0);
    lemma_differs_at(rest, "clients-initial-access/"@, 0);
    lemma_differs_at(rest, "client-description-converter"@, 0);
    lemma_differs_at(rest, "credential-registrators"@, 0);
    lemma_differs_at(rest, "identity-provider/import-config"@, 0);
    lemma_differs_at(rest, "groups"@, 0);
    lemma_differs_at(rest, "groups/count"@, 0);
    lemma_differs_at(rest, "client-policies/policies"@, 0);
    lemma_differs_at(rest, "client-policies/profiles"@, 0);
    lemma_differs_at(rest, "client-registration-policy/providers"@, 0);
    lemma_differs_at(rest, "client-session-stats"@, 0);
    lemma_differs_at(rest, "client-types"@, 0);
    lemma_differs_at(rest, "identity-provider/upload-certificate"@, 0);
    lemma_differs_at(rest, "clients/"@, 0);
    lemma_differs_at(rest, "group-by-path/"@, 0);
    lemma_differs_at(rest, "groups/"@, 0);
    lemma_differs_at(rest, "roles"@, 0);
    lemma_differs_at(rest, "roles/"@, 0);
    lemma_differs_at(rest, "roles-by-id/"@, 0);
    lemma_differs_at(rest, "users"@, 0);
    lemma_differs_at(rest, "users/count"@, 0);
    lemma_differs_at(rest, "users/profile"@, 0);
    lemma_differs_at(rest, "users/profile/metadata"@, 0);
    lemma_differs_at(rest, "users-management-permissions"@, 0);
    lemma_differs_at(rest, "workflows"@, 0);
    lemma_differs_at(rest, "workflows/"@, 0);
    lemma_differs_at(rest, "users/"@, 0);
    lemma_differs_at(rest, "sessions/"@, 0);
    lemma_differs_at(rest, "localization/"@, 0);
    lemma_differs_at(rest, "organizations/members/"@, 0);
    lemma_differs_at(rest, "organizations"@, 0);
    lemma_differs_at(rest, "organizations/count"@, 0);
    lemma_differs_at(rest, "organizations/"@, 0);
    lemma_differs_at(rest, "identity-provider/instances/"@, 0);
    lemma_differs_at(rest, "identity-provider/providers/"@, 0);
    lemma_differs_at(rest, "components/"@, 0);
    lemma_differs_at(rest, "client-scopes"@, 0);
    lemma_differs_at(rest, "client-templates"@, 0);
    lemma_differs_at(rest, "client-scopes/"@, 0);
    lemma_differs_at(rest, "client-templates/"@, 0);
    lemma_differs_at(rest, "authentication/authenticator-providers"@, 15);
    lemma_differs_at(rest, "authentication/client-authenticator-providers"@, 15);
    lemma_differs_at(rest, "authentication/form-action-providers"@, 15);
    lemma_differs_at(rest, "authentication/form-providers"@, 15);
    lemma_differs_at(rest, "authentication/unregistered-required-actions"@, 15);
    lemma_differs_at(rest, "authentication/register-required-action"@, 15);
    lemma_differs_at(rest, "authentication/required-actions"@, 15);
    assert(rest != "authentication/executions"@) by { assert(rest.len() != "authentication/executions"@.len()); }
    lemma_differs_at(rest, "authentication/required-actions/"@, 15);
    lemma_differs_at(rest, "authentication/flows"@, 15);
    lemma_differs_at(rest, "authentication/flows/"@, 15);
    assert(starts_with(rest, "authentication/executions/"@)) by {
        assert(rest.subrange(0, "authentication/executions/"@.len() as int) =~= "authentication/executions/"@);
    }
    assert(rest.subrange("authentication/executions/"@.len() as int, rest.len() as int) =~= id);
    assert(strip_prefix(rest, "authentication/executions/"@) == Some(id));
    assert(execution_paths(id) == Some((RouteKind::AuthExecution, id, Seq::<char>::empty())));
}

/// The path `/admin/realms/{realm}/authentication/executions/{id}`, for a segment `id`, names
/// the endpoint `AuthExecution` with that realm and id; it serves GET, DELETE,
/// and any other method is answered 405.
pub proof fn lemma_execution_endpoint(realm: Seq<char>, id: Seq<char>, m: HttpMethod)
    requires
        is_segment(realm),
        is_segment(id),

    ensures
        route_of("/admin/realms/"@ + realm + "/"@ + "authentication/executions/"@ + id) == Some(
            (RouteKind::AuthExecution, realm, id, Seq::<char>::empty()),
        ),
        decision_of("/admin/realms/"@ + realm + "/"@ + "authentication/executions/"@ + id, m) == (if m is Get || m is Delete {
            DecisionView::Dispatch(RouteKind::AuthExecution, realm, id, Seq::<char>::empty())
        } else {
            DecisionView::MethodNotAllowed
        }),
{
    reveal_strlit("/");
    reveal_strlit("/admin/realms");
    reveal_strlit("/admin/realms/");
    reveal_strlit("authentication/executions/");
    let p = "/admin/realms/"@ + realm + "/"@ + "authentication/executions/"@ + id;
    assert(p =~= "/admin/realms/"@ + realm + "/"@ + ("authentication/executions/"@ + id));
    assert(p != "/admin/realms"@) by {
        assert(p.len() != "/admin/realms"@.len());
    }
    lemma_realm_and_rest(realm, "authentication/executions/"@ + id);
    lemma_execution_rest(id);
}

/// Below `authentication/flows/`, a segment names the endpoint `AuthFlow`.
#[verifier::rlimit(80)]
proof fn lemma_flow_rest(id: Seq<char>)
    requires
        is_segment(id),

    ensures
        rest_routes_a("authentication/flows/"@ + id) == Some((RouteKind::AuthFlow, id, Seq::<char>::empty())),
{
    broadcast use lemma_segment_no_suffix, lemma_segment_no_split;

    let rest = "authentication/flows/"@ + id;
    reveal_strlit("/executions");
    reveal_strlit("admin-events");
    reveal_strlit("attack-detection/brute-force/users");
    reveal_strlit("attack-detection/brute-force/users/");
    reveal_strlit("authentication/authenticator-providers");
    reveal_strlit("authentication/client-authenticator-providers");
    reveal_strlit("authentication/executions");
    reveal_strlit("authentication/executions/");
    reveal_strlit("authentication/flows");
    reveal_strlit("authentication/flows/");
    reveal_strlit("authentication/form-action-providers");
    reveal_strlit("authentication/form-providers");
    reveal_strlit("authentication/register-required-action");
    reveal_strlit("authentication/required-actions");
    reveal_strlit("authentication/required-actions/");
    reveal_strlit("authentication/unregistered-required-actions");
    reveal_strlit("client-description-converter");
    reveal_strlit("client-policies/policies");
    reveal_strlit("client-policies/profiles");
    reveal_strlit("client-registration-policy/providers");
    reveal_strlit("client-scopes");
    reveal_strlit("client-scopes/");
    reveal_strlit("client-session-stats");
    reveal_strlit("client-templates");
    reveal_strlit("client-templates/");
    reveal_strlit("client-types");
    reveal_strlit("clients");
    reveal_strlit("clients-initial-access");
    reveal_strlit("clients-initial-access/");
    reveal_strlit("clients/");
    reveal_strlit("components");
    reveal_strlit("components/");
    reveal_strlit("credential-registrators");
    reveal_strlit("events");
    reveal_strlit("events/config");
    reveal_strlit("group-by-path/");
    reveal_strlit("groups");
    reveal_strlit("groups/");
    reveal_strlit("groups/count");
    reveal_strlit("identity-provider/import-config");
    reveal_strlit("identity-provider/instances");
    reveal_strlit("identity-provider/instances/");
    reveal_strlit("identity-provider/providers/");
    reveal_strlit("identity-provider/upload-certificate");
    reveal_strlit("keys");
    reveal_strlit("localization");
    reveal_strlit("localization/");
    reveal_strlit("organizations");
    reveal_strlit("organizations/");
    reveal_strlit("organizations/count");
    reveal_strlit("organizations/members/");
    reveal_strlit("roles");
    reveal_strlit("roles-by-id/");
    reveal_strlit("roles/");
    reveal_strlit("sessions/");
    reveal_strlit("users");
    reveal_strlit("users-management-permissions");
    reveal_strlit("users/");
    reveal_strlit("users/count");
    reveal_strlit("users/profile");
    reveal_strlit("users/profile/metadata");
    reveal_strlit("workflows");
    reveal_strlit("workflows/");
    assert(forall|i: int| 0 <= i < "authentication/flows/"@.len() ==> rest[i] == "authentication/flows/"@[i]);
    lemma_differs_at(rest, "events"@, 0);
    lemma_differs_at(rest, "events/config"@, 0);
    lemma_differs_at(rest, "admin-events"@, 1);
    lemma_differs_at(rest, "keys"@, 0);
    lemma_differs_at(rest, "localization"@, 0);
    lemma_differs_at(rest, "attack-detection/brute-force/users/"@, 1);
    lemma_differs_at(rest, "attack-detection/brute-force/users"@, 1);
    lemma_differs_at(rest, "clients"@, 0);
    lemma_differs_at(rest, "components"@, 0);
    lemma_differs_at(rest, "identity-provider/instances"@, 0);
    lemma_differs_at(rest, "clients-initial-access"@, 0);
    lemma_differs_at(rest, "clients-initial-access/"@, 0);
    lemma_differs_at(rest, "client-description-converter"@, 0);
    lemma_differs_at(rest, "credential-registrators"@, 0);
    lemma_differs_at(rest, "identity-provider/import-config"@, 0);
    lemma_differs_at(rest, "groups"@, 0);
    lemma_differs_at(rest, "groups/count"@, 0);
    lemma_differs_at(rest, "client-policies/policies"@, 0);
    lemma_differs_at(rest, "client-policies/profiles"@, 0);
    lemma_differs_at(rest, "client-registration-policy/providers"@, 0);
    lemma_differs_at(rest, "client-session-stats"@, 0);
    lemma_differs_at(rest, "client-types"@, 0);
    lemma_differs_at(rest, "identity-provider/upload-certificate"@, 0);
    lemma_differs_at(rest, "clients/"@, 0);
    lemma_differs_at(rest, "group-by-path/"@, 0);
    lemma_differs_at(rest, "groups/"@, 0);
    lemma_differs_at(rest, "roles"@, 0);
    lemma_differs_at(rest, "roles/"@, 0);
    lemma_differs_at(rest, "roles-by-id/"@, 0);
    lemma_differs_at(rest, "users"@, 0);
    lemma_differs_at(rest, "users/count"@, 0);
    lemma_differs_at(rest, "users/profile"@, 0);
    lemma_differs_at(rest, "users/profile/metadata"@, 0);
    lemma_differs_at(rest, "users-management-permissions"@, 0);
    lemma_differs_at(rest, "workflows"@, 0);
    lemma_differs_at(rest, "workflows/"@, 0);
    lemma_differs_at(rest, "users/"@, 0);
    lemma_differs_at(rest, "sessions/"@, 0);
    lemma_differs_at(rest, "localization/"@, 0);
    lemma_differs_at(rest, "organizations/members/"@, 0);
    lemma_differs_at(rest, "organizations"@, 0);
    lemma_differs_at(rest, "organizations/count"@, 0);
    lemma_differs_at(rest, "organizations/"@, 0);
    lemma_differs_at(rest, "identity-provider/instances/"@, 0);
    lemma_differs_at(rest, "identity-provider/providers/"@, 0);
    lemma_differs_at(rest, "components/"@, 0);
    lemma_differs_at(rest, "client-scopes"@, 0);
    lemma_differs_at(rest, "client-templates"@, 0);
    lemma_differs_at(rest, "client-scopes/"@, 0);
    lemma_differs_at(rest, "client-templates/"@, 0);
    lemma_differs_at(rest, "authentication/authenticator-providers"@, 15);
    lemma_differs_at(rest, "authentication/client-authenticator-providers"@, 15);
    lemma_differs_at(rest, "authentication/form-action-providers"@, 16);
    lemma_differs_at(rest, "authentication/form-providers"@, 16);
    lemma_differs_at(rest, "authentication/unregistered-required-actions"@, 15);
    lemma_differs_at(rest, "authentication/register-required-action"@, 15);
    lemma_differs_at(rest, "authentication/required-actions"@, 15);
    lemma_differs_at(rest, "authentication/executions"@, 15);
    lemma_differs_at(rest, "authentication/required-actions/"@, 15);
    lemma_differs_at(rest, "authentication/executions/"@, 15);
    assert(rest != "authentication/flows"@) by { assert(rest.len() != "authentication/flows"@.len()); }
    assert(starts_with(rest, "authentication/flows/"@)) by {
        assert(rest.subrange(0, "authentication/flows/"@.len() as int) =~= "authentication/flows/"@);
    }
    assert(rest.subrange("authentication/flows/"@.len() as int, rest.len() as int) =~= id);
    assert(strip_prefix(rest, "authentication/flows/"@) == Some(id));
    assert(flow_paths(id) == Some((RouteKind::AuthFlow, id, Seq::<char>::empty())));
}

/// The path `/admin/realms/{realm}/authentication/flows/{id}`, for a segment `id`, names
/// the endpoint `AuthFlow` with that realm and id; it serves GET, PUT, DELETE,
/// and any other method is answered 405.
pub proof fn lemma_flow_endpoint(realm: Seq<char>, id: Seq<char>, m: HttpMethod)
    requires
        is_segment(realm),
        is_segment(id),

    ensures
        route_of("/admin/realms/"@ + realm + "/"@ + "authentication/flows/"@ + id) == Some(
            (RouteKind::AuthFlow, realm, id, Seq::<char>::empty()),
        ),
        decision_of("/admin/realms/"@ + realm + "/"@ + "authentication/flows/"@ + id, m) == (if m is Get || m is Put || m is Delete {
            DecisionView::Dispatch(RouteKind::AuthFlow, realm, id, Seq::<char>::empty())
        } else {
            DecisionView::MethodNotAllowed
        }),
{
    reveal_strlit("/");
    reveal_strlit("/admin/realms");
    reveal_strlit("/admin/realms/");
    reveal_strlit("authentication/flows/");
    let p = "/admin/realms/"@ + realm + "/"@ + "authentication/flows/"@ + id;
    assert(p =~= "/admin/realms/"@ + realm + "/"@ + ("authentication/flows/"@ + id));
    assert(p != "/admin/realms"@) by {
        assert(p.len() != "/admin/realms"@.len());
    }
    lemma_realm_and_rest(realm, "authentication/flows/"@ + id);
    lemma_flow_rest(id);
}

} // verus!

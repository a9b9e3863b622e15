//! `client-templates` is the older name of `client-scopes`: every path
//! below one routes as the same path below the other, to the same
//! endpoint of the other family.
use vstd::prelude::*;
use vstd::string::*;
use crate::route::{
    below, rest_routes_a, rest_routes_b, rest_routes_c, rest_routes_d, rest_routes_e,
    decision_of, member_organizations, methods_of, realm_split, route_of, serves, DecisionView, HttpMethod, scope_client_paths, scope_mapper_paths,
    scope_mapping_paths, scope_paths, seg_after, HitView, RouteKind, ScopeFamily,
};
use crate::text::{find, is_segment, lemma_first_char, starts_with, strip_prefix};

verus! {

/// An endpoint moved to the family `f`: a client-scope endpoint becomes the
/// same endpoint of `f`; any other endpoint stays as it is.
pub open spec fn in_family(k: RouteKind, f: ScopeFamily) -> RouteKind {
    match k {
        RouteKind::ClientScopes(_) => RouteKind::ClientScopes(f),
        RouteKind::ProtocolMappersAddModels(_) => RouteKind::ProtocolMappersAddModels(f),
        RouteKind::ProtocolMappers(_) => RouteKind::ProtocolMappers(f),
        RouteKind::ProtocolMappersNoProtocol(_) => RouteKind::ProtocolMappersNoProtocol(f),
        RouteKind::ProtocolMappersByProtocol(_) => RouteKind::ProtocolMappersByProtocol(f),
        RouteKind::ProtocolMapper(_) => RouteKind::ProtocolMapper(f),
        RouteKind::ScopeMappings(_) => RouteKind::ScopeMappings(f),
        RouteKind::ScopeMappingsRealm(_) => RouteKind::ScopeMappingsRealm(f),
        RouteKind::ScopeMappingsRealmAvailable(_) => RouteKind::ScopeMappingsRealmAvailable(f),
        RouteKind::ScopeMappingsRealmComposite(_) => RouteKind::ScopeMappingsRealmComposite(f),
        RouteKind::ScopeMappingsClientAvailable(_) => RouteKind::ScopeMappingsClientAvailable(f),
        RouteKind::ScopeMappingsClientComposite(_) => RouteKind::ScopeMappingsClientComposite(f),
        RouteKind::ScopeMappingsClient(_) => RouteKind::ScopeMappingsClient(f),
        RouteKind::ClientScope(_) => RouteKind::ClientScope(f),
        _ => k,
    }
}

/// A sub-router's answer with its endpoint moved to the family `f`.
pub open spec fn hit_in_family(h: Option<HitView>, f: ScopeFamily) -> Option<HitView> {
    match h {
        Some((k, a, b)) => Some((in_family(k, f), a, b)),
        None => None,
    }
}

/// A route with its endpoint moved to the family `f`.
pub open spec fn route_in_family(
    r: Option<(RouteKind, Seq<char>, Seq<char>, Seq<char>)>,
    f: ScopeFamily,
) -> Option<(RouteKind, Seq<char>, Seq<char>, Seq<char>)> {
    match r {
        Some((k, realm, a, b)) => Some((in_family(k, f), realm, a, b)),
        None => None,
    }
}

/// A string that differs from `p` at position `i` is neither `p` nor
/// begins with it.
pub proof fn lemma_differs_at(s: Seq<char>, p: Seq<char>, i: int)
    requires
        0 <= i < p.len(),
        i < s.len(),
        s[i] != p[i],
    ensures
        s != p,
        !starts_with(s, p),
        strip_prefix(s, p) is None,
        seg_after(s, p) is None,
{
    if starts_with(s, p) {
        assert(s.subrange(0, p.len() as int)[i] == s[i]);
    }
}

/// Below `client-templates/`, every path goes to the endpoint that it
/// reaches below `client-scopes/`, moved to the older family.
proof fn lemma_scope_paths_family(t: Seq<char>)
    ensures
        scope_paths(ScopeFamily::Templates, t) == hit_in_family(
            scope_paths(ScopeFamily::Scopes, t),
            ScopeFamily::Templates,
        ),
{
    assert(scope_mapper_paths(ScopeFamily::Templates, t) == hit_in_family(
        scope_mapper_paths(ScopeFamily::Scopes, t),
        ScopeFamily::Templates,
    ));
    let clients_t = match crate::route::org_split(t, "/scope-mappings/clients/"@) {
        Some((s, c)) => scope_client_paths(ScopeFamily::Templates, s, c),
        None => None,
    };
    let clients_s = match crate::route::org_split(t, "/scope-mappings/clients/"@) {
        Some((s, c)) => scope_client_paths(ScopeFamily::Scopes, s, c),
        None => None,
    };
    assert(clients_t == hit_in_family(clients_s, ScopeFamily::Templates));
    assert(scope_mapping_paths(ScopeFamily::Templates, t) == hit_in_family(
        scope_mapping_paths(ScopeFamily::Scopes, t),
        ScopeFamily::Templates,
    ));
}

/// No rule tried before the client-scope rules matches a path below
/// `client-scopes` or `client-templates`, and no rule after them does.
#[verifier::rlimit(50)]
proof fn lemma_only_scope_rules(rest: Seq<char>, base: Seq<char>, s: Seq<char>)
    requires
        base == "client-scopes"@ || base == "client-templates"@,
        rest == base + s,
    ensures
        rest_routes_a(rest) == (if rest == "client-scopes"@ {
            Some((RouteKind::ClientScopes(ScopeFamily::Scopes), Seq::<char>::empty(), Seq::<char>::empty()))
        } else if rest == "client-templates"@ {
            Some((RouteKind::ClientScopes(ScopeFamily::Templates), Seq::<char>::empty(), Seq::<char>::empty()))
        } else if below(rest, "client-scopes/"@, 9) is Some {
            below(rest, "client-scopes/"@, 9)
        } else {
            below(rest, "client-templates/"@, 10)
        }),
{
    reveal_strlit("client-scopes");
    reveal_strlit("client-templates");
    reveal_strlit("events");
    reveal_strlit("events/config");
    reveal_strlit("admin-events");
    reveal_strlit("keys");
    reveal_strlit("localization");
    reveal_strlit("attack-detection/brute-force/users/");
    reveal_strlit("attack-detection/brute-force/users");
    reveal_strlit("clients");
    reveal_strlit("components");
    reveal_strlit("identity-provider/instances");
    reveal_strlit("clients-initial-access");
    reveal_strlit("clients-initial-access/");
    reveal_strlit("client-description-converter");
    reveal_strlit("credential-registrators");
    reveal_strlit("identity-provider/import-config");
    reveal_strlit("groups");
    reveal_strlit("groups/count");
    reveal_strlit("client-policies/policies");
    reveal_strlit("client-policies/profiles");
    reveal_strlit("client-registration-policy/providers");
    reveal_strlit("client-session-stats");
    reveal_strlit("client-types");
    reveal_strlit("identity-provider/upload-certificate");
    reveal_strlit("clients/");
    reveal_strlit("group-by-path/");
    reveal_strlit("groups/");
    reveal_strlit("roles");
    reveal_strlit("roles/");
    reveal_strlit("roles-by-id/");
    reveal_strlit("users");
    reveal_strlit("users/count");
    reveal_strlit("users/profile");
    reveal_strlit("users/profile/metadata");
    reveal_strlit("users-management-permissions");
    reveal_strlit("workflows");
    reveal_strlit("workflows/");
    reveal_strlit("users/");
    reveal_strlit("sessions/");
    reveal_strlit("localization/");
    reveal_strlit("organizations/members/");
    reveal_strlit("organizations");
    reveal_strlit("organizations/count");
    reveal_strlit("organizations/");
    reveal_strlit("identity-provider/instances/");
    reveal_strlit("identity-provider/providers/");
    reveal_strlit("components/");
    reveal_strlit("authentication/authenticator-providers");
    reveal_strlit("authentication/client-authenticator-providers");
    reveal_strlit("authentication/form-action-providers");
    reveal_strlit("authentication/form-providers");
    reveal_strlit("authentication/unregistered-required-actions");
    reveal_strlit("authentication/register-required-action");
    reveal_strlit("authentication/required-actions");
    reveal_strlit("authentication/executions");
    reveal_strlit("authentication/required-actions/");
    reveal_strlit("authentication/executions/");
    reveal_strlit("authentication/flows");
    reveal_strlit("authentication/flows/");
    assert(forall|i: int| 0 <= i < base.len() ==> rest[i] == base[i]);
    lemma_differs_at(rest, "events"@, 0);
    lemma_differs_at(rest, "events/config"@, 0);
    lemma_differs_at(rest, "admin-events"@, 0);
    lemma_differs_at(rest, "keys"@, 0);
    lemma_differs_at(rest, "localization"@, 0);
    lemma_differs_at(rest, "attack-detection/brute-force/users/"@, 0);
    lemma_differs_at(rest, "attack-detection/brute-force/users"@, 0);
    lemma_differs_at(rest, "clients"@, 6);
    lemma_differs_at(rest, "components"@, 1);
    lemma_differs_at(rest, "identity-provider/instances"@, 0);
    lemma_differs_at(rest, "clients-initial-access"@, 6);
    lemma_differs_at(rest, "clients-initial-access/"@, 6);
    lemma_differs_at(rest, "client-description-converter"@, 7);
    lemma_differs_at(rest, "credential-registrators"@, 1);
    lemma_differs_at(rest, "identity-provider/import-config"@, 0);
    lemma_differs_at(rest, "groups"@, 0);
    lemma_differs_at(rest, "groups/count"@, 0);
    lemma_differs_at(rest, "client-policies/policies"@, 7);
    lemma_differs_at(rest, "client-policies/profiles"@, 7);
    lemma_differs_at(rest, "client-registration-policy/providers"@, 7);
    lemma_differs_at(rest, "client-session-stats"@, 9);
    lemma_differs_at(rest, "client-types"@, 8);
    lemma_differs_at(rest, "identity-provider/upload-certificate"@, 0);
    lemma_differs_at(rest, "clients/"@, 6);
    lemma_differs_at(rest, "group-by-path/"@, 0);
    lemma_differs_at(rest, "groups/"@, 0);
    lemma_differs_at(rest, "roles"@, 0);
    lemma_differs_at(rest, "roles/"@, 0);
    lemma_differs_at(rest, "roles-by-id/"@, 0);
    lemma_differs_at(rest, "users"@, 0);
    lemma_differs_at(rest, "users/count"@, 0);
    lemma_differs_at(rest, "users/profile"@, 0);
    lemma_differs_at(rest, "users/profile/metadata"@, 0);
    lemma_differs_at(rest, "users-management-permissions"@, 0);
    lemma_differs_at(rest, "workflows"@, 0);
    lemma_differs_at(rest, "workflows/"@, 0);
    lemma_differs_at(rest, "users/"@, 0);
    lemma_differs_at(rest, "sessions/"@, 0);
    lemma_differs_at(rest, "localization/"@, 0);
    lemma_differs_at(rest, "organizations/members/"@, 0);
    lemma_differs_at(rest, "organizations"@, 0);
    lemma_differs_at(rest, "organizations/count"@, 0);
    lemma_differs_at(rest, "organizations/"@, 0);
    lemma_differs_at(rest, "identity-provider/instances/"@, 0);
    lemma_differs_at(rest, "identity-provider/providers/"@, 0);
    lemma_differs_at(rest, "components/"@, 1);
    lemma_differs_at(rest, "authentication/authenticator-providers"@, 0);
    lemma_differs_at(rest, "authentication/client-authenticator-providers"@, 0);
    lemma_differs_at(rest, "authentication/form-action-providers"@, 0);
    lemma_differs_at(rest, "authentication/form-providers"@, 0);
    lemma_differs_at(rest, "authentication/unregistered-required-actions"@, 0);
    lemma_differs_at(rest, "authentication/register-required-action"@, 0);
    lemma_differs_at(rest, "authentication/required-actions"@, 0);
    lemma_differs_at(rest, "authentication/executions"@, 0);
    lemma_differs_at(rest, "authentication/required-actions/"@, 0);
    lemma_differs_at(rest, "authentication/executions/"@, 0);
    lemma_differs_at(rest, "authentication/flows"@, 0);
    lemma_differs_at(rest, "authentication/flows/"@, 0);
    assert(member_organizations(rest) is None);
    assert(rest_routes_e(rest) is None);
    assert(rest_routes_c(rest) == rest_routes_d(rest));
    assert(rest_routes_b(rest) == rest_routes_c(rest));
}

/// The realm and the rest of `/admin/realms/{realm}/{rest}`.
proof fn lemma_realm_and_rest(realm: Seq<char>, rest: Seq<char>)
    requires
        is_segment(realm),
    ensures
        realm_split("/admin/realms/"@ + realm + "/"@ + rest) == Some((realm, rest)),
{
    reveal_strlit("/");
    let path = "/admin/realms/"@ + realm + "/"@ + rest;
    let t = realm + "/"@ + rest;
    assert(path =~= "/admin/realms/"@ + t);
    assert(starts_with(path, "/admin/realms/"@)) by {
        assert(path.subrange(0, "/admin/realms/"@.len() as int) =~= "/admin/realms/"@);
    }
    assert(path.subrange("/admin/realms/"@.len() as int, path.len() as int) =~= t);
    assert("/"@ =~= seq!['/']);
    assert forall|j: int| 0 <= j < realm.len() implies t[j] != '/' by {
        assert(t[j] == realm[j]);
        if realm[j] == '/' {
            assert(realm.contains('/'));
        }
    }
    lemma_first_char(t, '/', realm.len() as int);
    assert(t.subrange(0, realm.len() as int) =~= realm);
    assert(t.subrange(realm.len() + 1int, t.len() as int) =~= rest);
}

/// `client-templates` routes like `client-scopes`: in any realm, a path
/// below `client-templates` names the endpoint that the same path below
/// `client-scopes` names, moved to the older family, with the same realm
/// and captures; and neither is routed when the other is not.
pub proof fn lemma_templates_route_like_scopes(realm: Seq<char>, s: Seq<char>)
    requires
        is_segment(realm),
    ensures
        route_of("/admin/realms/"@ + realm + "/client-templates"@ + s) == route_in_family(
            route_of("/admin/realms/"@ + realm + "/client-scopes"@ + s),
            ScopeFamily::Templates,
        ),
{
    reveal_strlit("/client-templates");
    reveal_strlit("/client-scopes");
    reveal_strlit("client-scopes");
    reveal_strlit("client-templates");
    reveal_strlit("client-scopes/");
    reveal_strlit("client-templates/");
    reveal_strlit("/");
    reveal_strlit("/admin/realms");
    reveal_strlit("/admin/realms/");
    let rs = "client-scopes"@ + s;
    let rt = "client-templates"@ + s;
    let ps = "/admin/realms/"@ + realm + "/client-scopes"@ + s;
    let pt = "/admin/realms/"@ + realm + "/client-templates"@ + s;
    assert(ps =~= "/admin/realms/"@ + realm + "/"@ + rs);
    assert(pt =~= "/admin/realms/"@ + realm + "/"@ + rt);
    assert(ps != "/admin/realms"@) by {
        assert(ps.len() != "/admin/realms"@.len());
    }
    assert(pt != "/admin/realms"@) by {
        assert(pt.len() != "/admin/realms"@.len());
    }
    lemma_realm_and_rest(realm, rs);
    lemma_realm_and_rest(realm, rt);
    lemma_only_scope_rules(rs, "client-scopes"@, s);
    lemma_only_scope_rules(rt, "client-templates"@, s);
    // The two rests are never each other's base name.
    assert(rs != "client-templates"@) by {
        assert(rs[7] != "client-templates"@[7]);
    }
    assert(rt != "client-scopes"@) by {
        assert(rt[7] != "client-scopes"@[7]);
    }
    lemma_differs_at(rs, "client-templates/"@, 7);
    lemma_differs_at(rt, "client-scopes/"@, 7);
    if s.len() == 0 {
        assert(rs =~= "client-scopes"@);
        assert(rt =~= "client-templates"@);
    } else {
        assert(rs != "client-scopes"@) by {
            assert(rs.len() != "client-scopes"@.len());
        }
        assert(rt != "client-templates"@) by {
            assert(rt.len() != "client-templates"@.len());
        }
        if s[0] == '/' {
            let u = s.drop_first();
            assert(rs.subrange(0, 14) =~= "client-scopes/"@);
            assert(rs.subrange(14, rs.len() as int) =~= u);
            assert(rt.subrange(0, 17) =~= "client-templates/"@);
            assert(rt.subrange(17, rt.len() as int) =~= u);
            assert(strip_prefix(rs, "client-scopes/"@) == Some(u));
            assert(strip_prefix(rt, "client-templates/"@) == Some(u));
            lemma_scope_paths_family(u);
        } else {
            lemma_differs_at(rs, "client-scopes/"@, 13);
            lemma_differs_at(rt, "client-templates/"@, 16);
        }
    }
}

/// A decision with its endpoint moved to the family `f`.
pub open spec fn decision_in_family(d: DecisionView, f: ScopeFamily) -> DecisionView {
    match d {
        DecisionView::Dispatch(k, realm, a, b) => DecisionView::Dispatch(in_family(k, f), realm, a, b),
        other => other,
    }
}

/// An endpoint serves the same methods in either family.
proof fn lemma_methods_in_family(k: RouteKind, f: ScopeFamily)
    ensures
        methods_of(in_family(k, f)) == methods_of(k),
{
}

/// A request below `client-templates` is decided as the same request
/// below `client-scopes`: dispatched to the same endpoint of the older
/// family with the same realm and captures, or refused with the same
/// answer.
pub proof fn lemma_templates_decided_like_scopes(realm: Seq<char>, s: Seq<char>, m: HttpMethod)
    requires
        is_segment(realm),
    ensures
        decision_of("/admin/realms/"@ + realm + "/client-templates"@ + s, m) == decision_in_family(
            decision_of("/admin/realms/"@ + realm + "/client-scopes"@ + s, m),
            ScopeFamily::Templates,
        ),
{
    lemma_templates_route_like_scopes(realm, s);
    if let Some((k, r, a, b)) = route_of("/admin/realms/"@ + realm + "/client-scopes"@ + s) {
        lemma_methods_in_family(k, ScopeFamily::Templates);
        assert(serves(in_family(k, ScopeFamily::Templates), m) == serves(k, m));
    }
}

} // verus!

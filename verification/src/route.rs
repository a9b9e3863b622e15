//! The admin API's URL router: which endpoint a request path names, and
//! the path segments that it captures.
//!
//! Every path below `/admin/realms/{realm}/` is matched by an ordered list
//! of rules; the first rule that applies wins.  A captured identifier is a
//! path segment (not empty, no `/`), except the tail of `group-by-path/`,
//! which may span several segments.
use vstd::prelude::*;
use crate::text::{
    find, is_segment, lemma_split_once_concat, occurs_at, lemma_strip_prefix_concat, lemma_strip_suffix_concat, lemma_find_from_props, str_find, opt_pair_view, opt_view, split_once, str_contains_char, str_eq, str_is_segment,
    str_split_once, str_strip_prefix, str_strip_suffix, strip_prefix, strip_suffix,
};

verus! {

/// Whether an endpoint lives under `client-scopes/` or under its older
/// alias `client-templates/`.
#[derive(Clone, Copy, Debug, PartialEq, Eq, Structural)]
pub enum ScopeFamily {
    Scopes,
    Templates,
}

/// The endpoints of the admin API.  The comment after each variant gives
/// the path below `/admin/realms/{realm}/`; `{id}` and `{sub}` are the two
/// captured segments.
#[derive(Clone, Copy, Debug, PartialEq, Eq, Structural)]
pub enum RouteKind {
    /// `/admin/realms` itself
    Realms,
    /// the realm itself
    Realm,
    /// `events`
    Events,
    /// `events/config`
    EventsConfig,
    /// `admin-events`
    AdminEvents,
    /// `keys`
    Keys,
    /// `localization`
    Localizations,
    /// `attack-detection/brute-force/users/{id}`
    BruteForceUser,
    /// `attack-detection/brute-force/users`
    BruteForceUsers,
    /// `clients`
    Clients,
    /// `components`
    Components,
    /// `identity-provider/instances`
    IdpInstances,
    /// `clients-initial-access`
    ClientsInitialAccess,
    /// `clients-initial-access/{id}`
    ClientInitialAccess,
    /// `client-description-converter`
    ClientDescriptionConverter,
    /// `credential-registrators`
    CredentialRegistrators,
    /// `identity-provider/import-config`
    IdpImportConfig,
    /// `groups`
    Groups,
    /// `groups/count`
    GroupsCount,
    /// `client-policies/policies`
    ClientPolicies,
    /// `client-policies/profiles`
    ClientProfiles,
    /// `client-registration-policy/providers`
    ClientRegistrationProviders,
    /// `client-session-stats`
    ClientSessionStats,
    /// `client-types`
    ClientTypes,
    /// `identity-provider/upload-certificate`
    IdpUploadCertificate,
    /// `clients/{id}`
    Client,
    /// `group-by-path/{id}`, where `{id}` may hold `/`
    GroupByPath,
    /// `groups/{id}/children`
    GroupChildren,
    /// `groups/{id}`
    Group,
    /// `roles`
    Roles,
    /// `roles/{id}/composites`
    RoleComposites,
    /// `roles/{id}/composites/realm`
    RoleCompositesRealm,
    /// `roles/{id}/composites/clients/{sub}`
    RoleCompositesClient,
    /// `roles/{id}`
    Role,
    /// `roles-by-id/{id}/management/permissions`
    RoleByIdPermissions,
    /// `roles-by-id/{id}/composites`
    RoleByIdComposites,
    /// `roles-by-id/{id}/composites/realm`
    RoleByIdCompositesRealm,
    /// `roles-by-id/{id}/composites/clients/{sub}`
    RoleByIdCompositesClient,
    /// `roles-by-id/{id}`
    RoleById,
    /// `users`
    Users,
    /// `users/count`
    UsersCount,
    /// `users/profile`
    UsersProfile,
    /// `users/profile/metadata`
    UsersProfileMetadata,
    /// `users-management-permissions`
    UsersManagementPermissions,
    /// `workflows`
    Workflows,
    /// `workflows/scheduled/{id}`
    WorkflowScheduled,
    /// `workflows/{id}`
    Workflow,
    /// `users/{id}/sessions`
    UserSessions,
    /// `users/{id}`
    User,
    /// `sessions/{id}`
    Session,
    /// `localization/{id}/{sub}`: a locale and a key
    LocalizationKey,
    /// `localization/{id}`: a locale
    LocalizationLocale,
    /// `organizations`
    Organizations,
    /// `organizations/count`
    OrganizationsCount,
    /// `organizations/members/{id}/organizations`
    MemberOrganizations,
    /// `organizations/{id}/identity-providers`
    OrgIdentityProviders,
    /// `organizations/{id}/identity-providers/{sub}`
    OrgIdentityProvider,
    /// `organizations/{id}/invitations`
    OrgInvitations,
    /// `organizations/{id}/invitations/{sub}/resend`
    OrgInvitationResend,
    /// `organizations/{id}/invitations/{sub}`
    OrgInvitation,
    /// `organizations/{id}/members/count`
    OrgMembersCount,
    /// `organizations/{id}/members/invite-existing-user`
    OrgMembersInviteExisting,
    /// `organizations/{id}/members/invite-user`
    OrgMembersInviteUser,
    /// `organizations/{id}/members/{sub}/organizations`
    OrgMemberOrganizations,
    /// `organizations/{id}/members/{sub}`
    OrgMember,
    /// `organizations/{id}/members`
    OrgMembers,
    /// `organizations/{id}`
    Organization,
    /// `identity-provider/instances/{id}/management/permissions`
    IdpPermissions,
    /// `identity-provider/instances/{id}/mapper-types`
    IdpMapperTypes,
    /// `identity-provider/instances/{id}/mappers`
    IdpMappers,
    /// `identity-provider/instances/{id}/mappers/{sub}`
    IdpMapper,
    /// `identity-provider/instances/{id}/export`
    IdpExport,
    /// `identity-provider/instances/{id}/reload-keys`
    IdpReloadKeys,
    /// `identity-provider/instances/{id}`
    IdpInstance,
    /// `identity-provider/providers/{id}`
    IdpProvider,
    /// `components/{id}/sub-component-types`
    ComponentSubtypes,
    /// `components/{id}`
    Component,
    /// `client-scopes` or `client-templates`
    ClientScopes(ScopeFamily),
    /// `client-scopes/{id}/protocol-mappers/add-models`
    ProtocolMappersAddModels(ScopeFamily),
    /// `client-scopes/{id}/protocol-mappers/models`
    ProtocolMappers(ScopeFamily),
    /// `client-scopes/{id}/protocol-mappers/protocol`, which no method serves
    ProtocolMappersNoProtocol(ScopeFamily),
    /// `client-scopes/{id}/protocol-mappers/protocol/{sub}`
    ProtocolMappersByProtocol(ScopeFamily),
    /// `client-scopes/{id}/protocol-mappers/models/{sub}`
    ProtocolMapper(ScopeFamily),
    /// `client-scopes/{id}/scope-mappings`
    ScopeMappings(ScopeFamily),
    /// `client-scopes/{id}/scope-mappings/realm`
    ScopeMappingsRealm(ScopeFamily),
    /// `client-scopes/{id}/scope-mappings/realm/available`
    ScopeMappingsRealmAvailable(ScopeFamily),
    /// `client-scopes/{id}/scope-mappings/realm/composite`
    ScopeMappingsRealmComposite(ScopeFamily),
    /// `client-scopes/{id}/scope-mappings/clients/{sub}/available`
    ScopeMappingsClientAvailable(ScopeFamily),
    /// `client-scopes/{id}/scope-mappings/clients/{sub}/composite`
    ScopeMappingsClientComposite(ScopeFamily),
    /// `client-scopes/{id}/scope-mappings/clients/{sub}`
    ScopeMappingsClient(ScopeFamily),
    /// `client-scopes/{id}`
    ClientScope(ScopeFamily),
    /// `authentication/authenticator-providers`
    AuthenticatorProviders,
    /// `authentication/client-authenticator-providers`
    ClientAuthenticatorProviders,
    /// `authentication/form-action-providers`
    FormActionProviders,
    /// `authentication/form-providers`
    FormProviders,
    /// `authentication/unregistered-required-actions`
    UnregisteredRequiredActions,
    /// `authentication/register-required-action`
    RegisterRequiredAction,
    /// `authentication/required-actions`
    RequiredActions,
    /// `authentication/executions`
    AuthExecutions,
    /// `authentication/required-actions/{id}/config`
    RequiredActionConfig,
    /// `authentication/required-actions/{id}/config-description`
    RequiredActionConfigDescription,
    /// `authentication/required-actions/{id}/lower-priority`
    RequiredActionLowerPriority,
    /// `authentication/required-actions/{id}/raise-priority`
    RequiredActionRaisePriority,
    /// `authentication/required-actions/{id}`
    RequiredAction,
    /// `authentication/executions/{id}/config`
    AuthExecutionConfig,
    /// `authentication/executions/{id}/lower-priority`
    AuthExecutionLowerPriority,
    /// `authentication/executions/{id}/raise-priority`
    AuthExecutionRaisePriority,
    /// `authentication/executions/{id}/config/{sub}`
    AuthExecutionConfigById,
    /// `authentication/executions/{id}`
    AuthExecution,
    /// `authentication/flows`
    AuthFlows,
    /// `authentication/flows/{id}/executions`
    AuthFlowExecutions,
    /// `authentication/flows/{id}`
    AuthFlow,
}

/// A routed request path: the endpoint, the realm (empty for `Realms`) and
/// up to two captured segments (empty where the endpoint has fewer).
pub struct Route<'a> {
    pub kind: RouteKind,
    pub realm: &'a str,
    pub id: &'a str,
    pub sub: &'a str,
}

/// A match below the realm: the endpoint and its two captures.
pub type Hit<'a> = (RouteKind, &'a str, &'a str);

/// The abstract value of a match below the realm.
pub type HitView = (RouteKind, Seq<char>, Seq<char>);

impl<'a> Route<'a> {
    /// The route as plain values.
    pub open spec fn view_tuple(&self) -> (RouteKind, Seq<char>, Seq<char>, Seq<char>) {
        (self.kind, self.realm@, self.id@, self.sub@)
    }
}

pub open spec fn hit_view(h: Option<Hit>) -> Option<HitView> {
    match h {
        Some((k, a, b)) => Some((k, a@, b@)),
        None => None,
    }
}

pub open spec fn route_view(r: Option<Route>) -> Option<(RouteKind, Seq<char>, Seq<char>, Seq<char>)> {
    match r {
        Some(r) => Some(r.view_tuple()),
        None => None,
    }
}

pub open spec fn none() -> Seq<char> {
    Seq::empty()
}

/// A match with no capture.
pub open spec fn hit0(k: RouteKind) -> Option<HitView> {
    Some((k, none(), none()))
}

/// A match with one capture.
pub open spec fn hit1(k: RouteKind, a: Seq<char>) -> Option<HitView> {
    Some((k, a, none()))
}

/// A match with two captures.
pub open spec fn hit2(k: RouteKind, a: Seq<char>, b: Seq<char>) -> Option<HitView> {
    Some((k, a, b))
}

/// The rest of `s` after `p`, when it is a path segment.
pub open spec fn seg_after(s: Seq<char>, p: Seq<char>) -> Option<Seq<char>> {
    match strip_prefix(s, p) {
        Some(t) => if is_segment(t) { Some(t) } else { None },
        None => None,
    }
}

/// The part of `s` before the suffix `p`, when it is a path segment.
pub open spec fn seg_before(s: Seq<char>, p: Seq<char>) -> Option<Seq<char>> {
    match strip_suffix(s, p) {
        Some(t) => if is_segment(t) { Some(t) } else { None },
        None => None,
    }
}

/// The parts of `s` around the first `p`, when both are path segments.
pub open spec fn seg_pair(s: Seq<char>, p: Seq<char>) -> Option<(Seq<char>, Seq<char>)> {
    match split_once(s, p) {
        Some((a, b)) => if is_segment(a) && is_segment(b) { Some((a, b)) } else { None },
        None => None,
    }
}

fn empty_str() -> (r: &'static str)
    ensures
        r@ == none(),
{
    proof {
        reveal_strlit("");
    }
    ""
}

fn hit0_of<'a>(k: RouteKind) -> (r: Option<Hit<'a>>)
    ensures
        hit_view(r) == hit0(k),
{
    Some((k, empty_str(), empty_str()))
}

fn hit1_of<'a>(k: RouteKind, a: &'a str) -> (r: Option<Hit<'a>>)
    ensures
        hit_view(r) == hit1(k, a@),
{
    Some((k, a, empty_str()))
}

fn str_seg_after<'a>(s: &'a str, p: &str) -> (r: Option<&'a str>)
    ensures
        opt_view(r) == seg_after(s@, p@),
{
    match str_strip_prefix(s, p) {
        Some(t) => if str_is_segment(t) { Some(t) } else { None },
        None => None,
    }
}

fn str_seg_before<'a>(s: &'a str, p: &str) -> (r: Option<&'a str>)
    ensures
        opt_view(r) == seg_before(s@, p@),
{
    match str_strip_suffix(s, p) {
        Some(t) => if str_is_segment(t) { Some(t) } else { None },
        None => None,
    }
}

fn str_seg_pair<'a>(s: &'a str, p: &str) -> (r: Option<(&'a str, &'a str)>)
    ensures
        opt_pair_view(r) == seg_pair(s@, p@),
{
    match str_split_once(s, p) {
        Some((a, b)) => if str_is_segment(a) && str_is_segment(b) { Some((a, b)) } else { None },
        None => None,
    }
}

// ----------------------------------------------------------------------
// Sub-routers: the tail after a collection prefix such as `roles/`.
// ----------------------------------------------------------------------

/// Routes below `groups/`.
pub open spec fn group_paths(t: Seq<char>) -> Option<HitView> {
    if let Some(g) = seg_before(t, "/children"@) {
        hit1(RouteKind::GroupChildren, g)
    } else if is_segment(t) {
        hit1(RouteKind::Group, t)
    } else {
        None
    }
}

fn exec_group_paths<'a>(t: &'a str) -> (r: Option<Hit<'a>>)
    ensures
        hit_view(r) == group_paths(t@),
{
    if let Some(g) = str_seg_before(t, "/children") {
        return hit1_of(RouteKind::GroupChildren, g);
    }
    if str_is_segment(t) {
        return hit1_of(RouteKind::Group, t);
    }
    None
}

/// Routes below `roles/`.
pub open spec fn role_paths(t: Seq<char>) -> Option<HitView> {
    if let Some(n) = seg_before(t, "/composites"@) {
        hit1(RouteKind::RoleComposites, n)
    } else if let Some(n) = seg_before(t, "/composites/realm"@) {
        hit1(RouteKind::RoleCompositesRealm, n)
    } else if let Some((n, c)) = seg_pair(t, "/composites/clients/"@) {
        hit2(RouteKind::RoleCompositesClient, n, c)
    } else if is_segment(t) {
        hit1(RouteKind::Role, t)
    } else {
        None
    }
}

fn exec_role_paths<'a>(t: &'a str) -> (r: Option<Hit<'a>>)
    ensures
        hit_view(r) == role_paths(t@),
{
    if let Some(n) = str_seg_before(t, "/composites") {
        return hit1_of(RouteKind::RoleComposites, n);
    }
    if let Some(n) = str_seg_before(t, "/composites/realm") {
        return hit1_of(RouteKind::RoleCompositesRealm, n);
    }
    if let Some((n, c)) = str_seg_pair(t, "/composites/clients/") {
        return Some((RouteKind::RoleCompositesClient, n, c));
    }
    if str_is_segment(t) {
        return hit1_of(RouteKind::Role, t);
    }
    None
}

/// Routes below `roles-by-id/`.
pub open spec fn role_by_id_paths(t: Seq<char>) -> Option<HitView> {
    if let Some(n) = seg_before(t, "/management/permissions"@) {
        hit1(RouteKind::RoleByIdPermissions, n)
    } else if let Some(n) = seg_before(t, "/composites"@) {
        hit1(RouteKind::RoleByIdComposites, n)
    } else if let Some(n) = seg_before(t, "/composites/realm"@) {
        hit1(RouteKind::RoleByIdCompositesRealm, n)
    } else if let Some((n, c)) = seg_pair(t, "/composites/clients/"@) {
        hit2(RouteKind::RoleByIdCompositesClient, n, c)
    } else if is_segment(t) {
        hit1(RouteKind::RoleById, t)
    } else {
        None
    }
}

fn exec_role_by_id_paths<'a>(t: &'a str) -> (r: Option<Hit<'a>>)
    ensures
        hit_view(r) == role_by_id_paths(t@),
{
    if let Some(n) = str_seg_before(t, "/management/permissions") {
        return hit1_of(RouteKind::RoleByIdPermissions, n);
    }
    if let Some(n) = str_seg_before(t, "/composites") {
        return hit1_of(RouteKind::RoleByIdComposites, n);
    }
    if let Some(n) = str_seg_before(t, "/composites/realm") {
        return hit1_of(RouteKind::RoleByIdCompositesRealm, n);
    }
    if let Some((n, c)) = str_seg_pair(t, "/composites/clients/") {
        return Some((RouteKind::RoleByIdCompositesClient, n, c));
    }
    if str_is_segment(t) {
        return hit1_of(RouteKind::RoleById, t);
    }
    None
}

/// Routes below `workflows/`.
pub open spec fn workflow_paths(t: Seq<char>) -> Option<HitView> {
    if let Some(r) = seg_after(t, "scheduled/"@) {
        hit1(RouteKind::WorkflowScheduled, r)
    } else if is_segment(t) {
        hit1(RouteKind::Workflow, t)
    } else {
        None
    }
}

fn exec_workflow_paths<'a>(t: &'a str) -> (r: Option<Hit<'a>>)
    ensures
        hit_view(r) == workflow_paths(t@),
{
    if let Some(r) = str_seg_after(t, "scheduled/") {
        return hit1_of(RouteKind::WorkflowScheduled, r);
    }
    if str_is_segment(t) {
        return hit1_of(RouteKind::Workflow, t);
    }
    None
}

/// Routes below `users/`.
pub open spec fn user_paths(t: Seq<char>) -> Option<HitView> {
    if let Some(u) = seg_before(t, "/sessions"@) {
        hit1(RouteKind::UserSessions, u)
    } else if is_segment(t) {
        hit1(RouteKind::User, t)
    } else {
        None
    }
}

fn exec_user_paths<'a>(t: &'a str) -> (r: Option<Hit<'a>>)
    ensures
        hit_view(r) == user_paths(t@),
{
    if let Some(u) = str_seg_before(t, "/sessions") {
        return hit1_of(RouteKind::UserSessions, u);
    }
    if str_is_segment(t) {
        return hit1_of(RouteKind::User, t);
    }
    None
}

/// Routes below `localization/`: a locale, or a locale and a key.  A tail
/// that holds a `/` names a key or nothing.
pub open spec fn localization_paths(t: Seq<char>) -> Option<HitView> {
    if let Some((l, k)) = split_once(t, "/"@) {
        if is_segment(l) && is_segment(k) {
            hit2(RouteKind::LocalizationKey, l, k)
        } else {
            None
        }
    } else if is_segment(t) {
        hit1(RouteKind::LocalizationLocale, t)
    } else {
        None
    }
}

fn exec_localization_paths<'a>(t: &'a str) -> (r: Option<Hit<'a>>)
    ensures
        hit_view(r) == localization_paths(t@),
{
    if let Some((l, k)) = str_split_once(t, "/") {
        if str_is_segment(l) && str_is_segment(k) {
            return Some((RouteKind::LocalizationKey, l, k));
        }
        return None;
    }
    if str_is_segment(t) {
        return hit1_of(RouteKind::LocalizationLocale, t);
    }
    None
}

/// Routes below `organizations/{id}/invitations/`, given the organization.
pub open spec fn invitation_paths(o: Seq<char>, rest: Seq<char>) -> Option<HitView> {
    if let Some(i) = seg_before(rest, "/resend"@) {
        hit2(RouteKind::OrgInvitationResend, o, i)
    } else if !rest.contains('/') {
        hit2(RouteKind::OrgInvitation, o, rest)
    } else {
        None
    }
}

/// Routes below `organizations/{id}/members/`, given the organization.
pub open spec fn member_paths(o: Seq<char>, rest: Seq<char>) -> Option<HitView> {
    if rest == "count"@ {
        hit1(RouteKind::OrgMembersCount, o)
    } else if rest == "invite-existing-user"@ {
        hit1(RouteKind::OrgMembersInviteExisting, o)
    } else if rest == "invite-user"@ {
        hit1(RouteKind::OrgMembersInviteUser, o)
    } else if let Some(m) = seg_before(rest, "/organizations"@) {
        hit2(RouteKind::OrgMemberOrganizations, o, m)
    } else if !rest.contains('/') {
        hit2(RouteKind::OrgMember, o, rest)
    } else {
        None
    }
}

/// The organization and the rest of the tail around `sep`, when the
/// organization is a segment and the rest is not empty.
pub open spec fn org_split(t: Seq<char>, sep: Seq<char>) -> Option<(Seq<char>, Seq<char>)> {
    match split_once(t, sep) {
        Some((o, r)) => if is_segment(o) && r.len() > 0 { Some((o, r)) } else { None },
        None => None,
    }
}

/// Routes of invitations and members below `organizations/`.
pub open spec fn org_nested_paths(t: Seq<char>) -> Option<HitView> {
    let inv = match org_split(t, "/invitations/"@) {
        Some((o, r)) => invitation_paths(o, r),
        None => None,
    };
    let mem = match org_split(t, "/members/"@) {
        Some((o, r)) => member_paths(o, r),
        None => None,
    };
    if inv is Some {
        inv
    } else {
        mem
    }
}

/// Routes below `organizations/`.
pub open spec fn organization_paths(t: Seq<char>) -> Option<HitView> {
    if let Some(o) = seg_before(t, "/identity-providers"@) {
        hit1(RouteKind::OrgIdentityProviders, o)
    } else if let Some((o, a)) = seg_pair(t, "/identity-providers/"@) {
        hit2(RouteKind::OrgIdentityProvider, o, a)
    } else if let Some(o) = seg_before(t, "/invitations"@) {
        hit1(RouteKind::OrgInvitations, o)
    } else if org_nested_paths(t) is Some {
        org_nested_paths(t)
    } else if let Some(o) = seg_before(t, "/members"@) {
        hit1(RouteKind::OrgMembers, o)
    } else if is_segment(t) {
        hit1(RouteKind::Organization, t)
    } else {
        None
    }
}

fn exec_org_split<'a>(t: &'a str, sep: &str) -> (r: Option<(&'a str, &'a str)>)
    ensures
        opt_pair_view(r) == org_split(t@, sep@),
{
    match str_split_once(t, sep) {
        Some((o, r)) => if str_is_segment(o) && r.unicode_len() > 0 { Some((o, r)) } else { None },
        None => None,
    }
}

fn exec_invitation_paths<'a>(o: &'a str, rest: &'a str) -> (r: Option<Hit<'a>>)
    ensures
        hit_view(r) == invitation_paths(o@, rest@),
{
    if let Some(i) = str_seg_before(rest, "/resend") {
        return Some((RouteKind::OrgInvitationResend, o, i));
    }
    if !str_contains_char(rest, '/') {
        return Some((RouteKind::OrgInvitation, o, rest));
    }
    None
}

fn exec_member_paths<'a>(o: &'a str, rest: &'a str) -> (r: Option<Hit<'a>>)
    ensures
        hit_view(r) == member_paths(o@, rest@),
{
    if str_eq(rest, "count") {
        return hit1_of(RouteKind::OrgMembersCount, o);
    }
    if str_eq(rest, "invite-existing-user") {
        return hit1_of(RouteKind::OrgMembersInviteExisting, o);
    }
    if str_eq(rest, "invite-user") {
        return hit1_of(RouteKind::OrgMembersInviteUser, o);
    }
    if let Some(m) = str_seg_before(rest, "/organizations") {
        return Some((RouteKind::OrgMemberOrganizations, o, m));
    }
    if !str_contains_char(rest, '/') {
        return Some((RouteKind::OrgMember, o, rest));
    }
    None
}

fn exec_org_nested_paths<'a>(t: &'a str) -> (r: Option<Hit<'a>>)
    ensures
        hit_view(r) == org_nested_paths(t@),
{
    if let Some((o, r)) = exec_org_split(t, "/invitations/") {
        let h = exec_invitation_paths(o, r);
        if h.is_some() {
            return h;
        }
    }
    if let Some((o, r)) = exec_org_split(t, "/members/") {
        return exec_member_paths(o, r);
    }
    None
}

fn exec_organization_paths<'a>(t: &'a str) -> (r: Option<Hit<'a>>)
    ensures
        hit_view(r) == organization_paths(t@),
{
    if let Some(o) = str_seg_before(t, "/identity-providers") {
        return hit1_of(RouteKind::OrgIdentityProviders, o);
    }
    if let Some((o, a)) = str_seg_pair(t, "/identity-providers/") {
        return Some((RouteKind::OrgIdentityProvider, o, a));
    }
    if let Some(o) = str_seg_before(t, "/invitations") {
        return hit1_of(RouteKind::OrgInvitations, o);
    }
    let nested = exec_org_nested_paths(t);
    if nested.is_some() {
        return nested;
    }
    if let Some(o) = str_seg_before(t, "/members") {
        return hit1_of(RouteKind::OrgMembers, o);
    }
    if str_is_segment(t) {
        return hit1_of(RouteKind::Organization, t);
    }
    None
}

/// Routes below `identity-provider/instances/`.
pub open spec fn idp_paths(t: Seq<char>) -> Option<HitView> {
    if let Some(a) = seg_before(t, "/management/permissions"@) {
        hit1(RouteKind::IdpPermissions, a)
    } else if let Some(a) = seg_before(t, "/mapper-types"@) {
        hit1(RouteKind::IdpMapperTypes, a)
    } else if let Some(a) = seg_before(t, "/mappers"@) {
        hit1(RouteKind::IdpMappers, a)
    } else if let Some((a, m)) = seg_pair(t, "/mappers/"@) {
        hit2(RouteKind::IdpMapper, a, m)
    } else if let Some(a) = seg_before(t, "/export"@) {
        hit1(RouteKind::IdpExport, a)
    } else if let Some(a) = seg_before(t, "/reload-keys"@) {
        hit1(RouteKind::IdpReloadKeys, a)
    } else if is_segment(t) {
        hit1(RouteKind::IdpInstance, t)
    } else {
        None
    }
}

fn exec_idp_paths<'a>(t: &'a str) -> (r: Option<Hit<'a>>)
    ensures
        hit_view(r) == idp_paths(t@),
{
    if let Some(a) = str_seg_before(t, "/management/permissions") {
        return hit1_of(RouteKind::IdpPermissions, a);
    }
    if let Some(a) = str_seg_before(t, "/mapper-types") {
        return hit1_of(RouteKind::IdpMapperTypes, a);
    }
    if let Some(a) = str_seg_before(t, "/mappers") {
        return hit1_of(RouteKind::IdpMappers, a);
    }
    if let Some((a, m)) = str_seg_pair(t, "/mappers/") {
        return Some((RouteKind::IdpMapper, a, m));
    }
    if let Some(a) = str_seg_before(t, "/export") {
        return hit1_of(RouteKind::IdpExport, a);
    }
    if let Some(a) = str_seg_before(t, "/reload-keys") {
        return hit1_of(RouteKind::IdpReloadKeys, a);
    }
    if str_is_segment(t) {
        return hit1_of(RouteKind::IdpInstance, t);
    }
    None
}

/// Routes below `components/`.
pub open spec fn component_paths(t: Seq<char>) -> Option<HitView> {
    if let Some(c) = seg_before(t, "/sub-component-types"@) {
        hit1(RouteKind::ComponentSubtypes, c)
    } else if is_segment(t) {
        hit1(RouteKind::Component, t)
    } else {
        None
    }
}

fn exec_component_paths<'a>(t: &'a str) -> (r: Option<Hit<'a>>)
    ensures
        hit_view(r) == component_paths(t@),
{
    if let Some(c) = str_seg_before(t, "/sub-component-types") {
        return hit1_of(RouteKind::ComponentSubtypes, c);
    }
    if str_is_segment(t) {
        return hit1_of(RouteKind::Component, t);
    }
    None
}

/// Routes below `client-scopes/{id}/scope-mappings/clients/`, given the
/// scope.
pub open spec fn scope_client_paths(f: ScopeFamily, s: Seq<char>, c: Seq<char>) -> Option<HitView> {
    if let Some(n) = seg_before(c, "/available"@) {
        hit2(RouteKind::ScopeMappingsClientAvailable(f), s, n)
    } else if let Some(n) = seg_before(c, "/composite"@) {
        hit2(RouteKind::ScopeMappingsClientComposite(f), s, n)
    } else if !c.contains('/') {
        hit2(RouteKind::ScopeMappingsClient(f), s, c)
    } else {
        None
    }
}

/// The protocol-mapper routes below `client-scopes/`.
pub open spec fn scope_mapper_paths(f: ScopeFamily, t: Seq<char>) -> Option<HitView> {
    if let Some(s) = seg_before(t, "/protocol-mappers/add-models"@) {
        hit1(RouteKind::ProtocolMappersAddModels(f), s)
    } else if let Some(s) = seg_before(t, "/protocol-mappers/models"@) {
        hit1(RouteKind::ProtocolMappers(f), s)
    } else if let Some(s) = seg_before(t, "/protocol-mappers/protocol"@) {
        hit1(RouteKind::ProtocolMappersNoProtocol(f), s)
    } else if let Some((s, p)) = seg_pair(t, "/protocol-mappers/protocol/"@) {
        hit2(RouteKind::ProtocolMappersByProtocol(f), s, p)
    } else if let Some((s, m)) = seg_pair(t, "/protocol-mappers/models/"@) {
        hit2(RouteKind::ProtocolMapper(f), s, m)
    } else {
        None
    }
}

/// The scope-mapping routes below `client-scopes/`.
pub open spec fn scope_mapping_paths(f: ScopeFamily, t: Seq<char>) -> Option<HitView> {
    let clients = match org_split(t, "/scope-mappings/clients/"@) {
        Some((s, c)) => scope_client_paths(f, s, c),
        None => None,
    };
    if let Some(s) = seg_before(t, "/scope-mappings"@) {
        hit1(RouteKind::ScopeMappings(f), s)
    } else if let Some(s) = seg_before(t, "/scope-mappings/realm"@) {
        hit1(RouteKind::ScopeMappingsRealm(f), s)
    } else if let Some(s) = seg_before(t, "/scope-mappings/realm/available"@) {
        hit1(RouteKind::ScopeMappingsRealmAvailable(f), s)
    } else if let Some(s) = seg_before(t, "/scope-mappings/realm/composite"@) {
        hit1(RouteKind::ScopeMappingsRealmComposite(f), s)
    } else {
        clients
    }
}

/// Routes below `client-scopes/` or `client-templates/`.
pub open spec fn scope_paths(f: ScopeFamily, t: Seq<char>) -> Option<HitView> {
    if scope_mapper_paths(f, t) is Some {
        scope_mapper_paths(f, t)
    } else if scope_mapping_paths(f, t) is Some {
        scope_mapping_paths(f, t)
    } else if is_segment(t) {
        hit1(RouteKind::ClientScope(f), t)
    } else {
        None
    }
}

fn exec_scope_client_paths<'a>(f: ScopeFamily, s: &'a str, c: &'a str) -> (r: Option<Hit<'a>>)
    ensures
        hit_view(r) == scope_client_paths(f, s@, c@),
{
    if let Some(n) = str_seg_before(c, "/available") {
        return Some((RouteKind::ScopeMappingsClientAvailable(f), s, n));
    }
    if let Some(n) = str_seg_before(c, "/composite") {
        return Some((RouteKind::ScopeMappingsClientComposite(f), s, n));
    }
    if !str_contains_char(c, '/') {
        return Some((RouteKind::ScopeMappingsClient(f), s, c));
    }
    None
}

fn exec_scope_mapper_paths<'a>(f: ScopeFamily, t: &'a str) -> (r: Option<Hit<'a>>)
    ensures
        hit_view(r) == scope_mapper_paths(f, t@),
{
    if let Some(s) = str_seg_before(t, "/protocol-mappers/add-models") {
        return hit1_of(RouteKind::ProtocolMappersAddModels(f), s);
    }
    if let Some(s) = str_seg_before(t, "/protocol-mappers/models") {
        return hit1_of(RouteKind::ProtocolMappers(f), s);
    }
    if let Some(s) = str_seg_before(t, "/protocol-mappers/protocol") {
        return hit1_of(RouteKind::ProtocolMappersNoProtocol(f), s);
    }
    if let Some((s, p)) = str_seg_pair(t, "/protocol-mappers/protocol/") {
        return Some((RouteKind::ProtocolMappersByProtocol(f), s, p));
    }
    if let Some((s, m)) = str_seg_pair(t, "/protocol-mappers/models/") {
        return Some((RouteKind::ProtocolMapper(f), s, m));
    }
    None
}

fn exec_scope_mapping_paths<'a>(f: ScopeFamily, t: &'a str) -> (r: Option<Hit<'a>>)
    ensures
        hit_view(r) == scope_mapping_paths(f, t@),
{
    if let Some(s) = str_seg_before(t, "/scope-mappings") {
        return hit1_of(RouteKind::ScopeMappings(f), s);
    }
    if let Some(s) = str_seg_before(t, "/scope-mappings/realm") {
        return hit1_of(RouteKind::ScopeMappingsRealm(f), s);
    }
    if let Some(s) = str_seg_before(t, "/scope-mappings/realm/available") {
        return hit1_of(RouteKind::ScopeMappingsRealmAvailable(f), s);
    }
    if let Some(s) = str_seg_before(t, "/scope-mappings/realm/composite") {
        return hit1_of(RouteKind::ScopeMappingsRealmComposite(f), s);
    }
    if let Some((s, c)) = exec_org_split(t, "/scope-mappings/clients/") {
        return exec_scope_client_paths(f, s, c);
    }
    None
}

fn exec_scope_paths<'a>(f: ScopeFamily, t: &'a str) -> (r: Option<Hit<'a>>)
    ensures
        hit_view(r) == scope_paths(f, t@),
{
    let m = exec_scope_mapper_paths(f, t);
    if m.is_some() {
        return m;
    }
    let s = exec_scope_mapping_paths(f, t);
    if s.is_some() {
        return s;
    }
    if str_is_segment(t) {
        return hit1_of(RouteKind::ClientScope(f), t);
    }
    None
}

/// Routes below `authentication/required-actions/`.
pub open spec fn required_action_paths(t: Seq<char>) -> Option<HitView> {
    if let Some(a) = seg_before(t, "/config"@) {
        hit1(RouteKind::RequiredActionConfig, a)
    } else if let Some(a) = seg_before(t, "/config-description"@) {
        hit1(RouteKind::RequiredActionConfigDescription, a)
    } else if let Some(a) = seg_before(t, "/lower-priority"@) {
        hit1(RouteKind::RequiredActionLowerPriority, a)
    } else if let Some(a) = seg_before(t, "/raise-priority"@) {
        hit1(RouteKind::RequiredActionRaisePriority, a)
    } else if is_segment(t) {
        hit1(RouteKind::RequiredAction, t)
    } else {
        None
    }
}

fn exec_required_action_paths<'a>(t: &'a str) -> (r: Option<Hit<'a>>)
    ensures
        hit_view(r) == required_action_paths(t@),
{
    if let Some(a) = str_seg_before(t, "/config") {
        return hit1_of(RouteKind::RequiredActionConfig, a);
    }
    if let Some(a) = str_seg_before(t, "/config-description") {
        return hit1_of(RouteKind::RequiredActionConfigDescription, a);
    }
    if let Some(a) = str_seg_before(t, "/lower-priority") {
        return hit1_of(RouteKind::RequiredActionLowerPriority, a);
    }
    if let Some(a) = str_seg_before(t, "/raise-priority") {
        return hit1_of(RouteKind::RequiredActionRaisePriority, a);
    }
    if str_is_segment(t) {
        return hit1_of(RouteKind::RequiredAction, t);
    }
    None
}

/// Routes below `authentication/executions/`.
pub open spec fn execution_paths(t: Seq<char>) -> Option<HitView> {
    if let Some(e) = seg_before(t, "/config"@) {
        hit1(RouteKind::AuthExecutionConfig, e)
    } else if let Some(e) = seg_before(t, "/lower-priority"@) {
        hit1(RouteKind::AuthExecutionLowerPriority, e)
    } else if let Some(e) = seg_before(t, "/raise-priority"@) {
        hit1(RouteKind::AuthExecutionRaisePriority, e)
    } else if let Some((e, c)) = seg_pair(t, "/config/"@) {
        hit2(RouteKind::AuthExecutionConfigById, e, c)
    } else if is_segment(t) {
        hit1(RouteKind::AuthExecution, t)
    } else {
        None
    }
}

fn exec_execution_paths<'a>(t: &'a str) -> (r: Option<Hit<'a>>)
    ensures
        hit_view(r) == execution_paths(t@),
{
    if let Some(e) = str_seg_before(t, "/config") {
        return hit1_of(RouteKind::AuthExecutionConfig, e);
    }
    if let Some(e) = str_seg_before(t, "/lower-priority") {
        return hit1_of(RouteKind::AuthExecutionLowerPriority, e);
    }
    if let Some(e) = str_seg_before(t, "/raise-priority") {
        return hit1_of(RouteKind::AuthExecutionRaisePriority, e);
    }
    if let Some((e, c)) = str_seg_pair(t, "/config/") {
        return Some((RouteKind::AuthExecutionConfigById, e, c));
    }
    if str_is_segment(t) {
        return hit1_of(RouteKind::AuthExecution, t);
    }
    None
}

/// Routes below `authentication/flows/`.  A tail that ends in
/// `/executions` names the executions of a flow or nothing.
pub open spec fn flow_paths(t: Seq<char>) -> Option<HitView> {
    if let Some(a) = strip_suffix(t, "/executions"@) {
        if is_segment(a) {
            hit1(RouteKind::AuthFlowExecutions, a)
        } else {
            None
        }
    } else if is_segment(t) {
        hit1(RouteKind::AuthFlow, t)
    } else {
        None
    }
}

fn exec_flow_paths<'a>(t: &'a str) -> (r: Option<Hit<'a>>)
    ensures
        hit_view(r) == flow_paths(t@),
{
    if let Some(a) = str_strip_suffix(t, "/executions") {
        if str_is_segment(a) {
            return hit1_of(RouteKind::AuthFlowExecutions, a);
        }
        return None;
    }
    if str_is_segment(t) {
        return hit1_of(RouteKind::AuthFlow, t);
    }
    None
}


// ----------------------------------------------------------------------
// The rules below the realm, in the order in which they are tried.
// ----------------------------------------------------------------------

/// The first rules: the realm itself, events, keys, clients and their
/// fixed sub-resources, and `group-by-path/`.
pub open spec fn rest_routes_a(rest: Seq<char>) -> Option<HitView> {
    if rest.len() == 0 {
        hit0(RouteKind::Realm)
    } else if rest == "events"@ {
        hit0(RouteKind::Events)
    } else if rest == "events/config"@ {
        hit0(RouteKind::EventsConfig)
    } else if rest == "admin-events"@ {
        hit0(RouteKind::AdminEvents)
    } else if rest == "keys"@ {
        hit0(RouteKind::Keys)
    } else if rest == "localization"@ {
        hit0(RouteKind::Localizations)
    } else if let Some(u) = seg_after(rest, "attack-detection/brute-force/users/"@) {
        hit1(RouteKind::BruteForceUser, u)
    } else if rest == "attack-detection/brute-force/users"@ {
        hit0(RouteKind::BruteForceUsers)
    } else if rest == "clients"@ {
        hit0(RouteKind::Clients)
    } else if rest == "components"@ {
        hit0(RouteKind::Components)
    } else if rest == "identity-provider/instances"@ {
        hit0(RouteKind::IdpInstances)
    } else if rest == "clients-initial-access"@ {
        hit0(RouteKind::ClientsInitialAccess)
    } else if let Some(t) = seg_after(rest, "clients-initial-access/"@) {
        hit1(RouteKind::ClientInitialAccess, t)
    } else {
        rest_routes_b(rest)
    }
}

/// Fixed resources of clients, groups, policies and identity providers.
pub open spec fn rest_routes_b(rest: Seq<char>) -> Option<HitView> {
    if rest == "client-description-converter"@ {
        hit0(RouteKind::ClientDescriptionConverter)
    } else if rest == "credential-registrators"@ {
        hit0(RouteKind::CredentialRegistrators)
    } else if rest == "identity-provider/import-config"@ {
        hit0(RouteKind::IdpImportConfig)
    } else if rest == "groups"@ {
        hit0(RouteKind::Groups)
    } else if rest == "groups/count"@ {
        hit0(RouteKind::GroupsCount)
    } else if rest == "client-policies/policies"@ {
        hit0(RouteKind::ClientPolicies)
    } else if rest == "client-policies/profiles"@ {
        hit0(RouteKind::ClientProfiles)
    } else if rest == "client-registration-policy/providers"@ {
        hit0(RouteKind::ClientRegistrationProviders)
    } else if rest == "client-session-stats"@ {
        hit0(RouteKind::ClientSessionStats)
    } else if rest == "client-types"@ {
        hit0(RouteKind::ClientTypes)
    } else if rest == "identity-provider/upload-certificate"@ {
        hit0(RouteKind::IdpUploadCertificate)
    } else if let Some(c) = seg_after(rest, "clients/"@) {
        hit1(RouteKind::Client, c)
    } else if let Some(t) = strip_prefix(rest, "group-by-path/"@) {
        if t.len() > 0 {
            hit1(RouteKind::GroupByPath, t)
        } else {
            rest_routes_c(rest)
        }
    } else {
        rest_routes_c(rest)
    }
}

/// `h` below `prefix`: the sub-router's answer for the tail after the prefix.
pub open spec fn below(rest: Seq<char>, prefix: Seq<char>, which: int) -> Option<HitView> {
    match strip_prefix(rest, prefix) {
        Some(t) => if which == 0 {
            group_paths(t)
        } else if which == 1 {
            role_paths(t)
        } else if which == 2 {
            role_by_id_paths(t)
        } else if which == 3 {
            workflow_paths(t)
        } else if which == 4 {
            user_paths(t)
        } else if which == 5 {
            localization_paths(t)
        } else if which == 6 {
            organization_paths(t)
        } else if which == 7 {
            idp_paths(t)
        } else if which == 8 {
            component_paths(t)
        } else if which == 9 {
            scope_paths(ScopeFamily::Scopes, t)
        } else if which == 10 {
            scope_paths(ScopeFamily::Templates, t)
        } else if which == 11 {
            required_action_paths(t)
        } else if which == 12 {
            execution_paths(t)
        } else {
            flow_paths(t)
        },
        None => None,
    }
}

/// Groups, roles, users, workflows, sessions and localization.
pub open spec fn rest_routes_c(rest: Seq<char>) -> Option<HitView> {
    if below(rest, "groups/"@, 0) is Some {
        below(rest, "groups/"@, 0)
    } else if rest == "roles"@ {
        hit0(RouteKind::Roles)
    } else if below(rest, "roles/"@, 1) is Some {
        below(rest, "roles/"@, 1)
    } else if below(rest, "roles-by-id/"@, 2) is Some {
        below(rest, "roles-by-id/"@, 2)
    } else if rest == "users"@ {
        hit0(RouteKind::Users)
    } else if rest == "users/count"@ {
        hit0(RouteKind::UsersCount)
    } else if rest == "users/profile"@ {
        hit0(RouteKind::UsersProfile)
    } else if rest == "users/profile/metadata"@ {
        hit0(RouteKind::UsersProfileMetadata)
    } else if rest == "users-management-permissions"@ {
        hit0(RouteKind::UsersManagementPermissions)
    } else if rest == "workflows"@ {
        hit0(RouteKind::Workflows)
    } else if below(rest, "workflows/"@, 3) is Some {
        below(rest, "workflows/"@, 3)
    } else if below(rest, "users/"@, 4) is Some {
        below(rest, "users/"@, 4)
    } else if let Some(s) = seg_after(rest, "sessions/"@) {
        hit1(RouteKind::Session, s)
    } else if below(rest, "localization/"@, 5) is Some {
        below(rest, "localization/"@, 5)
    } else {
        rest_routes_d(rest)
    }
}

/// The organizations of a member, below `organizations/members/`.
pub open spec fn member_organizations(rest: Seq<char>) -> Option<HitView> {
    match strip_prefix(rest, "organizations/members/"@) {
        Some(m) => match seg_before(m, "/organizations"@) {
            Some(t) => hit1(RouteKind::MemberOrganizations, t),
            None => None,
        },
        None => None,
    }
}

/// Organizations, identity providers, components and client scopes.
pub open spec fn rest_routes_d(rest: Seq<char>) -> Option<HitView> {
    if rest == "organizations"@ {
        hit0(RouteKind::Organizations)
    } else if rest == "organizations/count"@ {
        hit0(RouteKind::OrganizationsCount)
    } else if member_organizations(rest) is Some {
        member_organizations(rest)
    } else if below(rest, "organizations/"@, 6) is Some {
        below(rest, "organizations/"@, 6)
    } else if below(rest, "identity-provider/instances/"@, 7) is Some {
        below(rest, "identity-provider/instances/"@, 7)
    } else if let Some(p) = seg_after(rest, "identity-provider/providers/"@) {
        hit1(RouteKind::IdpProvider, p)
    } else if below(rest, "components/"@, 8) is Some {
        below(rest, "components/"@, 8)
    } else if rest == "client-scopes"@ {
        hit0(RouteKind::ClientScopes(ScopeFamily::Scopes))
    } else if rest == "client-templates"@ {
        hit0(RouteKind::ClientScopes(ScopeFamily::Templates))
    } else if below(rest, "client-scopes/"@, 9) is Some {
        below(rest, "client-scopes/"@, 9)
    } else if below(rest, "client-templates/"@, 10) is Some {
        below(rest, "client-templates/"@, 10)
    } else {
        rest_routes_e(rest)
    }
}

/// The authentication resources.
pub open spec fn rest_routes_e(rest: Seq<char>) -> Option<HitView> {
    if rest == "authentication/authenticator-providers"@ {
        hit0(RouteKind::AuthenticatorProviders)
    } else if rest == "authentication/client-authenticator-providers"@ {
        hit0(RouteKind::ClientAuthenticatorProviders)
    } else if rest == "authentication/form-action-providers"@ {
        hit0(RouteKind::FormActionProviders)
    } else if rest == "authentication/form-providers"@ {
        hit0(RouteKind::FormProviders)
    } else if rest == "authentication/unregistered-required-actions"@ {
        hit0(RouteKind::UnregisteredRequiredActions)
    } else if rest == "authentication/register-required-action"@ {
        hit0(RouteKind::RegisterRequiredAction)
    } else if rest == "authentication/required-actions"@ {
        hit0(RouteKind::RequiredActions)
    } else if rest == "authentication/executions"@ {
        hit0(RouteKind::AuthExecutions)
    } else if below(rest, "authentication/required-actions/"@, 11) is Some {
        below(rest, "authentication/required-actions/"@, 11)
    } else if below(rest, "authentication/executions/"@, 12) is Some {
        below(rest, "authentication/executions/"@, 12)
    } else if rest == "authentication/flows"@ {
        hit0(RouteKind::AuthFlows)
    } else {
        below(rest, "authentication/flows/"@, 13)
    }
}

/// The realm and the rest of a path below `/admin/realms/`: the realm is
/// the first segment, the rest follows its `/` (empty when there is none).
pub open spec fn realm_split(path: Seq<char>) -> Option<(Seq<char>, Seq<char>)> {
    match strip_prefix(path, "/admin/realms/"@) {
        Some(t) => {
            let (realm, rest) = match find(t, "/"@) {
                Some(i) => (t.subrange(0, i), t.subrange(i + 1, t.len() as int)),
                None => (t, Seq::<char>::empty()),
            };
            if realm.len() == 0 {
                None
            } else {
                Some((realm, rest))
            }
        },
        None => None,
    }
}

/// The endpoint that a request path names, with the realm and the captured
/// segments; `None` for a path that no rule matches.
pub open spec fn route_of(path: Seq<char>) -> Option<(RouteKind, Seq<char>, Seq<char>, Seq<char>)> {
    if path == "/admin/realms"@ {
        Some((RouteKind::Realms, none(), none(), none()))
    } else {
        match realm_split(path) {
            Some((realm, rest)) => match rest_routes_a(rest) {
                Some((k, a, b)) => Some((k, realm, a, b)),
                None => None,
            },
            None => None,
        }
    }
}

fn exec_rest_routes_a<'a>(rest: &'a str) -> (r: Option<Hit<'a>>)
    ensures
        hit_view(r) == rest_routes_a(rest@),
{
    if rest.unicode_len() == 0 {
        return hit0_of(RouteKind::Realm);
    }
    if str_eq(rest, "events") {
        return hit0_of(RouteKind::Events);
    }
    if str_eq(rest, "events/config") {
        return hit0_of(RouteKind::EventsConfig);
    }
    if str_eq(rest, "admin-events") {
        return hit0_of(RouteKind::AdminEvents);
    }
    if str_eq(rest, "keys") {
        return hit0_of(RouteKind::Keys);
    }
    if str_eq(rest, "localization") {
        return hit0_of(RouteKind::Localizations);
    }
    if let Some(u) = str_seg_after(rest, "attack-detection/brute-force/users/") {
        return hit1_of(RouteKind::BruteForceUser, u);
    }
    if str_eq(rest, "attack-detection/brute-force/users") {
        return hit0_of(RouteKind::BruteForceUsers);
    }
    if str_eq(rest, "clients") {
        return hit0_of(RouteKind::Clients);
    }
    if str_eq(rest, "components") {
        return hit0_of(RouteKind::Components);
    }
    if str_eq(rest, "identity-provider/instances") {
        return hit0_of(RouteKind::IdpInstances);
    }
    if str_eq(rest, "clients-initial-access") {
        return hit0_of(RouteKind::ClientsInitialAccess);
    }
    if let Some(t) = str_seg_after(rest, "clients-initial-access/") {
        return hit1_of(RouteKind::ClientInitialAccess, t);
    }
    exec_rest_routes_b(rest)
}

fn exec_rest_routes_b<'a>(rest: &'a str) -> (r: Option<Hit<'a>>)
    ensures
        hit_view(r) == rest_routes_b(rest@),
{
    if str_eq(rest, "client-description-converter") {
        return hit0_of(RouteKind::ClientDescriptionConverter);
    }
    if str_eq(rest, "credential-registrators") {
        return hit0_of(RouteKind::CredentialRegistrators);
    }
    if str_eq(rest, "identity-provider/import-config") {
        return hit0_of(RouteKind::IdpImportConfig);
    }
    if str_eq(rest, "groups") {
        return hit0_of(RouteKind::Groups);
    }
    if str_eq(rest, "groups/count") {
        return hit0_of(RouteKind::GroupsCount);
    }
    if str_eq(rest, "client-policies/policies") {
        return hit0_of(RouteKind::ClientPolicies);
    }
    if str_eq(rest, "client-policies/profiles") {
        return hit0_of(RouteKind::ClientProfiles);
    }
    if str_eq(rest, "client-registration-policy/providers") {
        return hit0_of(RouteKind::ClientRegistrationProviders);
    }
    if str_eq(rest, "client-session-stats") {
        return hit0_of(RouteKind::ClientSessionStats);
    }
    if str_eq(rest, "client-types") {
        return hit0_of(RouteKind::ClientTypes);
    }
    if str_eq(rest, "identity-provider/upload-certificate") {
        return hit0_of(RouteKind::IdpUploadCertificate);
    }
    if let Some(c) = str_seg_after(rest, "clients/") {
        return hit1_of(RouteKind::Client, c);
    }
    if let Some(t) = str_strip_prefix(rest, "group-by-path/") {
        if t.unicode_len() > 0 {
            return hit1_of(RouteKind::GroupByPath, t);
        }
    }
    exec_rest_routes_c(rest)
}

fn exec_rest_routes_c<'a>(rest: &'a str) -> (r: Option<Hit<'a>>)
    ensures
        hit_view(r) == rest_routes_c(rest@),
{
    if let Some(t) = str_strip_prefix(rest, "groups/") {
        let h = exec_group_paths(t);
        if h.is_some() {
            return h;
        }
    }
    if str_eq(rest, "roles") {
        return hit0_of(RouteKind::Roles);
    }
    if let Some(t) = str_strip_prefix(rest, "roles/") {
        let h = exec_role_paths(t);
        if h.is_some() {
            return h;
        }
    }
    if let Some(t) = str_strip_prefix(rest, "roles-by-id/") {
        let h = exec_role_by_id_paths(t);
        if h.is_some() {
            return h;
        }
    }
    if str_eq(rest, "users") {
        return hit0_of(RouteKind::Users);
    }
    if str_eq(rest, "users/count") {
        return hit0_of(RouteKind::UsersCount);
    }
    if str_eq(rest, "users/profile") {
        return hit0_of(RouteKind::UsersProfile);
    }
    if str_eq(rest, "users/profile/metadata") {
        return hit0_of(RouteKind::UsersProfileMetadata);
    }
    if str_eq(rest, "users-management-permissions") {
        return hit0_of(RouteKind::UsersManagementPermissions);
    }
    if str_eq(rest, "workflows") {
        return hit0_of(RouteKind::Workflows);
    }
    if let Some(t) = str_strip_prefix(rest, "workflows/") {
        let h = exec_workflow_paths(t);
        if h.is_some() {
            return h;
        }
    }
    if let Some(t) = str_strip_prefix(rest, "users/") {
        let h = exec_user_paths(t);
        if h.is_some() {
            return h;
        }
    }
    if let Some(s) = str_seg_after(rest, "sessions/") {
        return hit1_of(RouteKind::Session, s);
    }
    if let Some(t) = str_strip_prefix(rest, "localization/") {
        let h = exec_localization_paths(t);
        if h.is_some() {
            return h;
        }
    }
    exec_rest_routes_d(rest)
}

fn exec_member_organizations<'a>(rest: &'a str) -> (r: Option<Hit<'a>>)
    ensures
        hit_view(r) == member_organizations(rest@),
{
    match str_strip_prefix(rest, "organizations/members/") {
        Some(m) => match str_seg_before(m, "/organizations") {
            Some(t) => hit1_of(RouteKind::MemberOrganizations, t),
            None => None,
        },
        None => None,
    }
}

fn exec_rest_routes_d<'a>(rest: &'a str) -> (r: Option<Hit<'a>>)
    ensures
        hit_view(r) == rest_routes_d(rest@),
{
    if str_eq(rest, "organizations") {
        return hit0_of(RouteKind::Organizations);
    }
    if str_eq(rest, "organizations/count") {
        return hit0_of(RouteKind::OrganizationsCount);
    }
    let m = exec_member_organizations(rest);
    if m.is_some() {
        return m;
    }
    if let Some(t) = str_strip_prefix(rest, "organizations/") {
        let h = exec_organization_paths(t);
        if h.is_some() {
            return h;
        }
    }
    if let Some(t) = str_strip_prefix(rest, "identity-provider/instances/") {
        let h = exec_idp_paths(t);
        if h.is_some() {
            return h;
        }
    }
    if let Some(p) = str_seg_after(rest, "identity-provider/providers/") {
        return hit1_of(RouteKind::IdpProvider, p);
    }
    if let Some(t) = str_strip_prefix(rest, "components/") {
        let h = exec_component_paths(t);
        if h.is_some() {
            return h;
        }
    }
    if str_eq(rest, "client-scopes") {
        return hit0_of(RouteKind::ClientScopes(ScopeFamily::Scopes));
    }
    if str_eq(rest, "client-templates") {
        return hit0_of(RouteKind::ClientScopes(ScopeFamily::Templates));
    }
    if let Some(t) = str_strip_prefix(rest, "client-scopes/") {
        let h = exec_scope_paths(ScopeFamily::Scopes, t);
        if h.is_some() {
            return h;
        }
    }
    if let Some(t) = str_strip_prefix(rest, "client-templates/") {
        let h = exec_scope_paths(ScopeFamily::Templates, t);
        if h.is_some() {
            return h;
        }
    }
    exec_rest_routes_e(rest)
}

fn exec_rest_routes_e<'a>(rest: &'a str) -> (r: Option<Hit<'a>>)
    ensures
        hit_view(r) == rest_routes_e(rest@),
{
    if str_eq(rest, "authentication/authenticator-providers") {
        return hit0_of(RouteKind::AuthenticatorProviders);
    }
    if str_eq(rest, "authentication/client-authenticator-providers") {
        return hit0_of(RouteKind::ClientAuthenticatorProviders);
    }
    if str_eq(rest, "authentication/form-action-providers") {
        return hit0_of(RouteKind::FormActionProviders);
    }
    if str_eq(rest, "authentication/form-providers") {
        return hit0_of(RouteKind::FormProviders);
    }
    if str_eq(rest, "authentication/unregistered-required-actions") {
        return hit0_of(RouteKind::UnregisteredRequiredActions);
    }
    if str_eq(rest, "authentication/register-required-action") {
        return hit0_of(RouteKind::RegisterRequiredAction);
    }
    if str_eq(rest, "authentication/required-actions") {
        return hit0_of(RouteKind::RequiredActions);
    }
    if str_eq(rest, "authentication/executions") {
        return hit0_of(RouteKind::AuthExecutions);
    }
    if let Some(t) = str_strip_prefix(rest, "authentication/required-actions/") {
        let h = exec_required_action_paths(t);
        if h.is_some() {
            return h;
        }
    }
    if let Some(t) = str_strip_prefix(rest, "authentication/executions/") {
        let h = exec_execution_paths(t);
        if h.is_some() {
            return h;
        }
    }
    if str_eq(rest, "authentication/flows") {
        return hit0_of(RouteKind::AuthFlows);
    }
    if let Some(t) = str_strip_prefix(rest, "authentication/flows/") {
        return exec_flow_paths(t);
    }
    None
}

/// Splits a path below `/admin/realms/` into the realm and the rest: the
/// realm is the first segment and must not be empty; the rest is what
/// follows its `/`, or empty.
pub fn split_realm_path<'a>(path: &'a str) -> (r: Option<(&'a str, &'a str)>)
    ensures
        opt_pair_view(r) == realm_split(path@),
{
    let tail = match str_strip_prefix(path, "/admin/realms/") {
        Some(t) => t,
        None => return None,
    };
    let n = tail.unicode_len();
    let (realm, rest) = match str_find(tail, "/") {
        Some(i) => {
            proof {
                lemma_find_from_props(tail@, "/"@, 0);
                reveal_strlit("/");
            }
            (tail.substring_char(0, i), tail.substring_char(i + 1, n))
        },
        None => (tail, empty_str()),
    };
    if realm.unicode_len() == 0 {
        return None;
    }
    Some((realm, rest))
}

/// The endpoint that a request path names, with the realm and the captured
/// segments; `None` when no rule matches the path.
pub fn route(path: &str) -> (r: Option<Route>)
    ensures
        route_view(r) == route_of(path@),
{
    if str_eq(path, "/admin/realms") {
        return Some(Route { kind: RouteKind::Realms, realm: empty_str(), id: empty_str(), sub: empty_str() });
    }
    match split_realm_path(path) {
        Some((realm, rest)) => match exec_rest_routes_a(rest) {
            Some((kind, id, sub)) => Some(Route { kind, realm, id, sub }),
            None => None,
        },
        None => None,
    }
}

/// An HTTP request method.
#[derive(Clone, Copy, Debug, PartialEq, Eq, Structural)]
pub enum HttpMethod {
    Get,
    Head,
    Post,
    Put,
    Delete,
    Connect,
    Options,
    Trace,
    Patch,
    Other,
}

/// The name of a method as it appears on the wire; `UNKNOWN` for others.
pub open spec fn method_name(m: HttpMethod) -> Seq<char> {
    match m {
        HttpMethod::Get => "GET"@,
        HttpMethod::Head => "HEAD"@,
        HttpMethod::Post => "POST"@,
        HttpMethod::Put => "PUT"@,
        HttpMethod::Delete => "DELETE"@,
        HttpMethod::Connect => "CONNECT"@,
        HttpMethod::Options => "OPTIONS"@,
        HttpMethod::Trace => "TRACE"@,
        HttpMethod::Patch => "PATCH"@,
        HttpMethod::Other => "UNKNOWN"@,
    }
}

/// The name of a method as it appears on the wire; `UNKNOWN` for others.
pub fn method_to_str(m: HttpMethod) -> (r: &'static str)
    ensures
        r@ == method_name(m),
{
    match m {
        HttpMethod::Get => "GET",
        HttpMethod::Head => "HEAD",
        HttpMethod::Post => "POST",
        HttpMethod::Put => "PUT",
        HttpMethod::Delete => "DELETE",
        HttpMethod::Connect => "CONNECT",
        HttpMethod::Options => "OPTIONS",
        HttpMethod::Trace => "TRACE",
        HttpMethod::Patch => "PATCH",
        HttpMethod::Other => "UNKNOWN",
    }
}

/// The methods that an endpoint serves.
#[derive(Clone, Copy, Debug, PartialEq, Eq, Structural)]
pub struct Methods {
    pub get: bool,
    pub post: bool,
    pub put: bool,
    pub delete: bool,
}

/// The methods that each endpoint serves.
pub open spec fn methods_of(k: RouteKind) -> Methods {
    match k {
        RouteKind::Keys
        | RouteKind::Localizations
        | RouteKind::CredentialRegistrators
        | RouteKind::GroupsCount
        | RouteKind::ClientRegistrationProviders
        | RouteKind::ClientSessionStats
        | RouteKind::GroupByPath
        | RouteKind::UsersCount
        | RouteKind::UsersProfileMetadata
        | RouteKind::Workflows
        | RouteKind::WorkflowScheduled
        | RouteKind::Workflow
        | RouteKind::UserSessions
        | RouteKind::OrganizationsCount
        | RouteKind::MemberOrganizations
        | RouteKind::OrgInvitations
        | RouteKind::OrgMembersCount
        | RouteKind::OrgMemberOrganizations
        | RouteKind::IdpMapperTypes
        | RouteKind::IdpExport
        | RouteKind::IdpReloadKeys
        | RouteKind::IdpProvider
        | RouteKind::ComponentSubtypes
        | RouteKind::ProtocolMappersByProtocol(_)
        | RouteKind::ScopeMappings(_)
        | RouteKind::ScopeMappingsRealmAvailable(_)
        | RouteKind::ScopeMappingsRealmComposite(_)
        | RouteKind::ScopeMappingsClientAvailable(_)
        | RouteKind::ScopeMappingsClientComposite(_)
        | RouteKind::AuthenticatorProviders
        | RouteKind::ClientAuthenticatorProviders
        | RouteKind::FormActionProviders
        | RouteKind::FormProviders
        | RouteKind::UnregisteredRequiredActions
        | RouteKind::RequiredActions
        | RouteKind::RequiredActionConfigDescription => Methods { get: true, post: false, put: false, delete: false },
        RouteKind::Realms
        | RouteKind::Clients
        | RouteKind::Components
        | RouteKind::IdpInstances
        | RouteKind::ClientsInitialAccess
        | RouteKind::Groups
        | RouteKind::GroupChildren
        | RouteKind::Roles
        | RouteKind::Users
        | RouteKind::Organizations
        | RouteKind::OrgIdentityProviders
        | RouteKind::OrgMembers
        | RouteKind::IdpMappers
        | RouteKind::ClientScopes(_)
        | RouteKind::ProtocolMappers(_)
        | RouteKind::AuthExecutionConfig
        | RouteKind::AuthExecutionConfigById
        | RouteKind::AuthFlows => Methods { get: true, post: true, put: false, delete: false },
        RouteKind::Realm
        | RouteKind::Client
        | RouteKind::Group
        | RouteKind::Role
        | RouteKind::RoleById
        | RouteKind::User
        | RouteKind::LocalizationKey
        | RouteKind::Organization
        | RouteKind::IdpMapper
        | RouteKind::IdpInstance
        | RouteKind::Component
        | RouteKind::ProtocolMapper(_)
        | RouteKind::ClientScope(_)
        | RouteKind::RequiredActionConfig
        | RouteKind::RequiredAction
        | RouteKind::AuthFlow => Methods { get: true, post: false, put: true, delete: true },
        RouteKind::Events
        | RouteKind::AdminEvents
        | RouteKind::BruteForceUser
        | RouteKind::OrgIdentityProvider
        | RouteKind::OrgInvitation
        | RouteKind::OrgMember
        | RouteKind::AuthExecution => Methods { get: true, post: false, put: false, delete: true },
        RouteKind::EventsConfig
        | RouteKind::ClientPolicies
        | RouteKind::ClientProfiles
        | RouteKind::ClientTypes
        | RouteKind::RoleByIdPermissions
        | RouteKind::UsersProfile
        | RouteKind::UsersManagementPermissions
        | RouteKind::IdpPermissions
        | RouteKind::AuthFlowExecutions => Methods { get: true, post: false, put: true, delete: false },
        RouteKind::RoleComposites
        | RouteKind::RoleCompositesRealm
        | RouteKind::RoleCompositesClient
        | RouteKind::RoleByIdComposites
        | RouteKind::RoleByIdCompositesRealm
        | RouteKind::RoleByIdCompositesClient
        | RouteKind::LocalizationLocale
        | RouteKind::ScopeMappingsRealm(_)
        | RouteKind::ScopeMappingsClient(_) => Methods { get: true, post: true, put: false, delete: true },
        RouteKind::ClientDescriptionConverter
        | RouteKind::IdpImportConfig
        | RouteKind::IdpUploadCertificate
        | RouteKind::OrgInvitationResend
        | RouteKind::OrgMembersInviteExisting
        | RouteKind::OrgMembersInviteUser
        | RouteKind::ProtocolMappersAddModels(_)
        | RouteKind::RegisterRequiredAction
        | RouteKind::AuthExecutions
        | RouteKind::RequiredActionLowerPriority
        | RouteKind::RequiredActionRaisePriority
        | RouteKind::AuthExecutionLowerPriority
        | RouteKind::AuthExecutionRaisePriority => Methods { get: false, post: true, put: false, delete: false },
        RouteKind::BruteForceUsers
        | RouteKind::ClientInitialAccess
        | RouteKind::Session => Methods { get: false, post: false, put: false, delete: true },
        RouteKind::ProtocolMappersNoProtocol(_) => Methods { get: false, post: false, put: false, delete: false },
    }
}

/// The methods that an endpoint serves.
pub fn endpoint_methods(k: RouteKind) -> (r: Methods)
    ensures
        r == methods_of(k),
{
    match k {
        RouteKind::Keys
        | RouteKind::Localizations
        | RouteKind::CredentialRegistrators
        | RouteKind::GroupsCount
        | RouteKind::ClientRegistrationProviders
        | RouteKind::ClientSessionStats
        | RouteKind::GroupByPath
        | RouteKind::UsersCount
        | RouteKind::UsersProfileMetadata
        | RouteKind::Workflows
        | RouteKind::WorkflowScheduled
        | RouteKind::Workflow
        | RouteKind::UserSessions
        | RouteKind::OrganizationsCount
        | RouteKind::MemberOrganizations
        | RouteKind::OrgInvitations
        | RouteKind::OrgMembersCount
        | RouteKind::OrgMemberOrganizations
        | RouteKind::IdpMapperTypes
        | RouteKind::IdpExport
        | RouteKind::IdpReloadKeys
        | RouteKind::IdpProvider
        | RouteKind::ComponentSubtypes
        | RouteKind::ProtocolMappersByProtocol(_)
        | RouteKind::ScopeMappings(_)
        | RouteKind::ScopeMappingsRealmAvailable(_)
        | RouteKind::ScopeMappingsRealmComposite(_)
        | RouteKind::ScopeMappingsClientAvailable(_)
        | RouteKind::ScopeMappingsClientComposite(_)
        | RouteKind::AuthenticatorProviders
        | RouteKind::ClientAuthenticatorProviders
        | RouteKind::FormActionProviders
        | RouteKind::FormProviders
        | RouteKind::UnregisteredRequiredActions
        | RouteKind::RequiredActions
        | RouteKind::RequiredActionConfigDescription => Methods { get: true, post: false, put: false, delete: false },
        RouteKind::Realms
        | RouteKind::Clients
        | RouteKind::Components
        | RouteKind::IdpInstances
        | RouteKind::ClientsInitialAccess
        | RouteKind::Groups
        | RouteKind::GroupChildren
        | RouteKind::Roles
        | RouteKind::Users
        | RouteKind::Organizations
        | RouteKind::OrgIdentityProviders
        | RouteKind::OrgMembers
        | RouteKind::IdpMappers
        | RouteKind::ClientScopes(_)
        | RouteKind::ProtocolMappers(_)
        | RouteKind::AuthExecutionConfig
        | RouteKind::AuthExecutionConfigById
        | RouteKind::AuthFlows => Methods { get: true, post: true, put: false, delete: false },
        RouteKind::Realm
        | RouteKind::Client
        | RouteKind::Group
        | RouteKind::Role
        | RouteKind::RoleById
        | RouteKind::User
        | RouteKind::LocalizationKey
        | RouteKind::Organization
        | RouteKind::IdpMapper
        | RouteKind::IdpInstance
        | RouteKind::Component
        | RouteKind::ProtocolMapper(_)
        | RouteKind::ClientScope(_)
        | RouteKind::RequiredActionConfig
        | RouteKind::RequiredAction
        | RouteKind::AuthFlow => Methods { get: true, post: false, put: true, delete: true },
        RouteKind::Events
        | RouteKind::AdminEvents
        | RouteKind::BruteForceUser
        | RouteKind::OrgIdentityProvider
        | RouteKind::OrgInvitation
        | RouteKind::OrgMember
        | RouteKind::AuthExecution => Methods { get: true, post: false, put: false, delete: true },
        RouteKind::EventsConfig
        | RouteKind::ClientPolicies
        | RouteKind::ClientProfiles
        | RouteKind::ClientTypes
        | RouteKind::RoleByIdPermissions
        | RouteKind::UsersProfile
        | RouteKind::UsersManagementPermissions
        | RouteKind::IdpPermissions
        | RouteKind::AuthFlowExecutions => Methods { get: true, post: false, put: true, delete: false },
        RouteKind::RoleComposites
        | RouteKind::RoleCompositesRealm
        | RouteKind::RoleCompositesClient
        | RouteKind::RoleByIdComposites
        | RouteKind::RoleByIdCompositesRealm
        | RouteKind::RoleByIdCompositesClient
        | RouteKind::LocalizationLocale
        | RouteKind::ScopeMappingsRealm(_)
        | RouteKind::ScopeMappingsClient(_) => Methods { get: true, post: true, put: false, delete: true },
        RouteKind::ClientDescriptionConverter
        | RouteKind::IdpImportConfig
        | RouteKind::IdpUploadCertificate
        | RouteKind::OrgInvitationResend
        | RouteKind::OrgMembersInviteExisting
        | RouteKind::OrgMembersInviteUser
        | RouteKind::ProtocolMappersAddModels(_)
        | RouteKind::RegisterRequiredAction
        | RouteKind::AuthExecutions
        | RouteKind::RequiredActionLowerPriority
        | RouteKind::RequiredActionRaisePriority
        | RouteKind::AuthExecutionLowerPriority
        | RouteKind::AuthExecutionRaisePriority => Methods { get: false, post: true, put: false, delete: false },
        RouteKind::BruteForceUsers
        | RouteKind::ClientInitialAccess
        | RouteKind::Session => Methods { get: false, post: false, put: false, delete: true },
        RouteKind::ProtocolMappersNoProtocol(_) => Methods { get: false, post: false, put: false, delete: false },
    }
}

/// Whether an endpoint serves a method.
pub open spec fn serves(k: RouteKind, m: HttpMethod) -> bool {
    let ms = methods_of(k);
    match m {
        HttpMethod::Get => ms.get,
        HttpMethod::Post => ms.post,
        HttpMethod::Put => ms.put,
        HttpMethod::Delete => ms.delete,
        _ => false,
    }
}

/// Whether an endpoint serves a method.
pub fn allows(k: RouteKind, m: HttpMethod) -> (r: bool)
    ensures
        r == serves(k, m),
{
    let ms = endpoint_methods(k);
    match m {
        HttpMethod::Get => ms.get,
        HttpMethod::Post => ms.post,
        HttpMethod::Put => ms.put,
        HttpMethod::Delete => ms.delete,
        _ => false,
    }
}

/// What the API does with a request: hand it to an endpoint, answer 405
/// because the endpoint does not serve the method, or answer 501 because
/// no endpoint matches the path.
pub enum Decision<'a> {
    Dispatch(Route<'a>),
    MethodNotAllowed,
    NotImplemented,
}

/// The abstract value of a decision.
pub enum DecisionView {
    Dispatch(RouteKind, Seq<char>, Seq<char>, Seq<char>),
    MethodNotAllowed,
    NotImplemented,
}

pub open spec fn decision_view(d: Decision) -> DecisionView {
    match d {
        Decision::Dispatch(r) => DecisionView::Dispatch(r.kind, r.realm@, r.id@, r.sub@),
        Decision::MethodNotAllowed => DecisionView::MethodNotAllowed,
        Decision::NotImplemented => DecisionView::NotImplemented,
    }
}

/// The decision for a request with method `m` and path `path`.
pub open spec fn decision_of(path: Seq<char>, m: HttpMethod) -> DecisionView {
    match route_of(path) {
        Some((k, realm, a, b)) => if serves(k, m) {
            DecisionView::Dispatch(k, realm, a, b)
        } else {
            DecisionView::MethodNotAllowed
        },
        None => DecisionView::NotImplemented,
    }
}

/// Decides what to do with a request: route the path, then check that the
/// endpoint serves the method.
pub fn decide(path: &str, m: HttpMethod) -> (r: Decision)
    ensures
        decision_view(r) == decision_of(path@, m),
{
    match route(path) {
        Some(r) => if allows(r.kind, m) {
            Decision::Dispatch(r)
        } else {
            Decision::MethodNotAllowed
        },
        None => Decision::NotImplemented,
    }
}

// ----------------------------------------------------------------------
// What a route reads back as: every endpoint's path, and the captures it
// admits.
// ----------------------------------------------------------------------

/// The prefix of the client-scope endpoints of a family.
pub open spec fn scope_prefix(f: ScopeFamily) -> Seq<char> {
    match f {
        ScopeFamily::Scopes => "client-scopes/"@,
        ScopeFamily::Templates => "client-templates/"@,
    }
}

/// The collection of client scopes of a family.
pub open spec fn scope_base(f: ScopeFamily) -> Seq<char> {
    match f {
        ScopeFamily::Scopes => "client-scopes"@,
        ScopeFamily::Templates => "client-templates"@,
    }
}

/// The shape of an endpoint's path below the realm: the text before the
/// first capture, between the captures and after the last one, and the
/// number of captures.
pub open spec fn template(k: RouteKind) -> (Seq<char>, Seq<char>, Seq<char>, nat) {
    match k {
        RouteKind::Realm => (none(), none(), none(), 0),
        RouteKind::Events => ("events"@, none(), none(), 0),
        RouteKind::EventsConfig => ("events/config"@, none(), none(), 0),
        RouteKind::AdminEvents => ("admin-events"@, none(), none(), 0),
        RouteKind::Keys => ("keys"@, none(), none(), 0),
        RouteKind::Localizations => ("localization"@, none(), none(), 0),
        RouteKind::BruteForceUser => ("attack-detection/brute-force/users/"@, none(), none(), 1),
        RouteKind::BruteForceUsers => ("attack-detection/brute-force/users"@, none(), none(), 0),
        RouteKind::Clients => ("clients"@, none(), none(), 0),
        RouteKind::Components => ("components"@, none(), none(), 0),
        RouteKind::IdpInstances => ("identity-provider/instances"@, none(), none(), 0),
        RouteKind::ClientsInitialAccess => ("clients-initial-access"@, none(), none(), 0),
        RouteKind::ClientInitialAccess => ("clients-initial-access/"@, none(), none(), 1),
        RouteKind::ClientDescriptionConverter => ("client-description-converter"@, none(), none(), 0),
        RouteKind::CredentialRegistrators => ("credential-registrators"@, none(), none(), 0),
        RouteKind::IdpImportConfig => ("identity-provider/import-config"@, none(), none(), 0),
        RouteKind::Groups => ("groups"@, none(), none(), 0),
        RouteKind::GroupsCount => ("groups/count"@, none(), none(), 0),
        RouteKind::ClientPolicies => ("client-policies/policies"@, none(), none(), 0),
        RouteKind::ClientProfiles => ("client-policies/profiles"@, none(), none(), 0),
        RouteKind::ClientRegistrationProviders => ("client-registration-policy/providers"@, none(), none(), 0),
        RouteKind::ClientSessionStats => ("client-session-stats"@, none(), none(), 0),
        RouteKind::ClientTypes => ("client-types"@, none(), none(), 0),
        RouteKind::IdpUploadCertificate => ("identity-provider/upload-certificate"@, none(), none(), 0),
        RouteKind::Client => ("clients/"@, none(), none(), 1),
        RouteKind::GroupByPath => ("group-by-path/"@, none(), none(), 1),
        RouteKind::GroupChildren => ("groups/"@, none(), "/children"@, 1),
        RouteKind::Group => ("groups/"@, none(), none(), 1),
        RouteKind::Roles => ("roles"@, none(), none(), 0),
        RouteKind::RoleComposites => ("roles/"@, none(), "/composites"@, 1),
        RouteKind::RoleCompositesRealm => ("roles/"@, none(), "/composites/realm"@, 1),
        RouteKind::RoleCompositesClient => ("roles/"@, "/composites/clients/"@, none(), 2),
        RouteKind::Role => ("roles/"@, none(), none(), 1),
        RouteKind::RoleByIdPermissions => ("roles-by-id/"@, none(), "/management/permissions"@, 1),
        RouteKind::RoleByIdComposites => ("roles-by-id/"@, none(), "/composites"@, 1),
        RouteKind::RoleByIdCompositesRealm => ("roles-by-id/"@, none(), "/composites/realm"@, 1),
        RouteKind::RoleByIdCompositesClient => ("roles-by-id/"@, "/composites/clients/"@, none(), 2),
        RouteKind::RoleById => ("roles-by-id/"@, none(), none(), 1),
        RouteKind::Users => ("users"@, none(), none(), 0),
        RouteKind::UsersCount => ("users/count"@, none(), none(), 0),
        RouteKind::UsersProfile => ("users/profile"@, none(), none(), 0),
        RouteKind::UsersProfileMetadata => ("users/profile/metadata"@, none(), none(), 0),
        RouteKind::UsersManagementPermissions => ("users-management-permissions"@, none(), none(), 0),
        RouteKind::Workflows => ("workflows"@, none(), none(), 0),
        RouteKind::WorkflowScheduled => ("workflows/scheduled/"@, none(), none(), 1),
        RouteKind::Workflow => ("workflows/"@, none(), none(), 1),
        RouteKind::UserSessions => ("users/"@, none(), "/sessions"@, 1),
        RouteKind::User => ("users/"@, none(), none(), 1),
        RouteKind::Session => ("sessions/"@, none(), none(), 1),
        RouteKind::LocalizationKey => ("localization/"@, "/"@, none(), 2),
        RouteKind::LocalizationLocale => ("localization/"@, none(), none(), 1),
        RouteKind::Organizations => ("organizations"@, none(), none(), 0),
        RouteKind::OrganizationsCount => ("organizations/count"@, none(), none(), 0),
        RouteKind::MemberOrganizations => ("organizations/members/"@, none(), "/organizations"@, 1),
        RouteKind::OrgIdentityProviders => ("organizations/"@, none(), "/identity-providers"@, 1),
        RouteKind::OrgIdentityProvider => ("organizations/"@, "/identity-providers/"@, none(), 2),
        RouteKind::OrgInvitations => ("organizations/"@, none(), "/invitations"@, 1),
        RouteKind::OrgInvitationResend => ("organizations/"@, "/invitations/"@, "/resend"@, 2),
        RouteKind::OrgInvitation => ("organizations/"@, "/invitations/"@, none(), 2),
        RouteKind::OrgMembersCount => ("organizations/"@, none(), "/members/count"@, 1),
        RouteKind::OrgMembersInviteExisting => ("organizations/"@, none(), "/members/invite-existing-user"@, 1),
        RouteKind::OrgMembersInviteUser => ("organizations/"@, none(), "/members/invite-user"@, 1),
        RouteKind::OrgMemberOrganizations => ("organizations/"@, "/members/"@, "/organizations"@, 2),
        RouteKind::OrgMember => ("organizations/"@, "/members/"@, none(), 2),
        RouteKind::OrgMembers => ("organizations/"@, none(), "/members"@, 1),
        RouteKind::Organization => ("organizations/"@, none(), none(), 1),
        RouteKind::IdpPermissions => ("identity-provider/instances/"@, none(), "/management/permissions"@, 1),
        RouteKind::IdpMapperTypes => ("identity-provider/instances/"@, none(), "/mapper-types"@, 1),
        RouteKind::IdpMappers => ("identity-provider/instances/"@, none(), "/mappers"@, 1),
        RouteKind::IdpMapper => ("identity-provider/instances/"@, "/mappers/"@, none(), 2),
        RouteKind::IdpExport => ("identity-provider/instances/"@, none(), "/export"@, 1),
        RouteKind::IdpReloadKeys => ("identity-provider/instances/"@, none(), "/reload-keys"@, 1),
        RouteKind::IdpInstance => ("identity-provider/instances/"@, none(), none(), 1),
        RouteKind::IdpProvider => ("identity-provider/providers/"@, none(), none(), 1),
        RouteKind::ComponentSubtypes => ("components/"@, none(), "/sub-component-types"@, 1),
        RouteKind::Component => ("components/"@, none(), none(), 1),
        RouteKind::ClientScopes(f) => (scope_base(f), none(), none(), 0),
        RouteKind::ProtocolMappersAddModels(f) => (scope_prefix(f), none(), "/protocol-mappers/add-models"@, 1),
        RouteKind::ProtocolMappers(f) => (scope_prefix(f), none(), "/protocol-mappers/models"@, 1),
        RouteKind::ProtocolMappersNoProtocol(f) => (scope_prefix(f), none(), "/protocol-mappers/protocol"@, 1),
        RouteKind::ProtocolMappersByProtocol(f) => (scope_prefix(f), "/protocol-mappers/protocol/"@, none(), 2),
        RouteKind::ProtocolMapper(f) => (scope_prefix(f), "/protocol-mappers/models/"@, none(), 2),
        RouteKind::ScopeMappings(f) => (scope_prefix(f), none(), "/scope-mappings"@, 1),
        RouteKind::ScopeMappingsRealm(f) => (scope_prefix(f), none(), "/scope-mappings/realm"@, 1),
        RouteKind::ScopeMappingsRealmAvailable(f) => (scope_prefix(f), none(), "/scope-mappings/realm/available"@, 1),
        RouteKind::ScopeMappingsRealmComposite(f) => (scope_prefix(f), none(), "/scope-mappings/realm/composite"@, 1),
        RouteKind::ScopeMappingsClientAvailable(f) => (scope_prefix(f), "/scope-mappings/clients/"@, "/available"@, 2),
        RouteKind::ScopeMappingsClientComposite(f) => (scope_prefix(f), "/scope-mappings/clients/"@, "/composite"@, 2),
        RouteKind::ScopeMappingsClient(f) => (scope_prefix(f), "/scope-mappings/clients/"@, none(), 2),
        RouteKind::ClientScope(f) => (scope_prefix(f), none(), none(), 1),
        RouteKind::AuthenticatorProviders => ("authentication/authenticator-providers"@, none(), none(), 0),
        RouteKind::ClientAuthenticatorProviders => ("authentication/client-authenticator-providers"@, none(), none(), 0),
        RouteKind::FormActionProviders => ("authentication/form-action-providers"@, none(), none(), 0),
        RouteKind::FormProviders => ("authentication/form-providers"@, none(), none(), 0),
        RouteKind::UnregisteredRequiredActions => ("authentication/unregistered-required-actions"@, none(), none(), 0),
        RouteKind::RegisterRequiredAction => ("authentication/register-required-action"@, none(), none(), 0),
        RouteKind::RequiredActions => ("authentication/required-actions"@, none(), none(), 0),
        RouteKind::AuthExecutions => ("authentication/executions"@, none(), none(), 0),
        RouteKind::RequiredActionConfig => ("authentication/required-actions/"@, none(), "/config"@, 1),
        RouteKind::RequiredActionConfigDescription => ("authentication/required-actions/"@, none(), "/config-description"@, 1),
        RouteKind::RequiredActionLowerPriority => ("authentication/required-actions/"@, none(), "/lower-priority"@, 1),
        RouteKind::RequiredActionRaisePriority => ("authentication/required-actions/"@, none(), "/raise-priority"@, 1),
        RouteKind::RequiredAction => ("authentication/required-actions/"@, none(), none(), 1),
        RouteKind::AuthExecutionConfig => ("authentication/executions/"@, none(), "/config"@, 1),
        RouteKind::AuthExecutionLowerPriority => ("authentication/executions/"@, none(), "/lower-priority"@, 1),
        RouteKind::AuthExecutionRaisePriority => ("authentication/executions/"@, none(), "/raise-priority"@, 1),
        RouteKind::AuthExecutionConfigById => ("authentication/executions/"@, "/config/"@, none(), 2),
        RouteKind::AuthExecution => ("authentication/executions/"@, none(), none(), 1),
        RouteKind::AuthFlows => ("authentication/flows"@, none(), none(), 0),
        RouteKind::AuthFlowExecutions => ("authentication/flows/"@, none(), "/executions"@, 1),
        RouteKind::AuthFlow => ("authentication/flows/"@, none(), none(), 1),
        RouteKind::Realms => ("/admin/realms"@, none(), none(), 0),
    }
}

/// The path below the realm of an endpoint with its captures.
pub open spec fn fill(k: RouteKind, a: Seq<char>, b: Seq<char>) -> Seq<char> {
    let (pre, mid, post, arity) = template(k);
    if arity == 0 {
        pre
    } else if arity == 1 {
        pre + a + post
    } else {
        pre + a + mid + b + post
    }
}

/// The request path of an endpoint with its realm and captures.
pub open spec fn render(k: RouteKind, realm: Seq<char>, a: Seq<char>, b: Seq<char>) -> Seq<char> {
    if k == RouteKind::Realms {
        "/admin/realms"@
    } else if k == RouteKind::Realm {
        "/admin/realms/"@ + realm
    } else {
        "/admin/realms/"@ + realm + "/"@ + fill(k, a, b)
    }
}

/// The captures that an endpoint admits: as many as its template has, each
/// a path segment, except that `group-by-path` takes any non-empty tail;
/// unused captures are empty.
pub open spec fn captures_ok(k: RouteKind, a: Seq<char>, b: Seq<char>) -> bool {
    let arity = template(k).3;
    if arity == 0 {
        a.len() == 0 && b.len() == 0
    } else if arity == 1 {
        (if k == RouteKind::GroupByPath {
            a.len() > 0
        } else {
            is_segment(a)
        }) && b.len() == 0
    } else {
        is_segment(a) && is_segment(b)
    }
}

proof fn lemma_group_paths(t: Seq<char>)
    ensures
        group_paths(t) matches Some((k, a, b)) ==> "groups/"@ + t == fill(k, a, b) && captures_ok(k, a, b),
{
    broadcast use lemma_strip_prefix_concat, lemma_strip_suffix_concat, lemma_split_once_concat;
}

proof fn lemma_role_paths(t: Seq<char>)
    ensures
        role_paths(t) matches Some((k, a, b)) ==> "roles/"@ + t == fill(k, a, b) && captures_ok(k, a, b),
{
    broadcast use lemma_strip_prefix_concat, lemma_strip_suffix_concat, lemma_split_once_concat;
}

proof fn lemma_role_by_id_paths(t: Seq<char>)
    ensures
        role_by_id_paths(t) matches Some((k, a, b)) ==> "roles-by-id/"@ + t == fill(k, a, b) && captures_ok(k, a, b),
{
    broadcast use lemma_strip_prefix_concat, lemma_strip_suffix_concat, lemma_split_once_concat;
}

proof fn lemma_workflow_paths(t: Seq<char>)
    ensures
        workflow_paths(t) matches Some((k, a, b)) ==> "workflows/"@ + t == fill(k, a, b) && captures_ok(k, a, b),
{
    broadcast use lemma_strip_prefix_concat, lemma_strip_suffix_concat, lemma_split_once_concat;

    reveal_strlit("workflows/");
    reveal_strlit("scheduled/");
    reveal_strlit("workflows/scheduled/");
    assert("workflows/"@ + "scheduled/"@ =~= "workflows/scheduled/"@);
}

proof fn lemma_user_paths(t: Seq<char>)
    ensures
        user_paths(t) matches Some((k, a, b)) ==> "users/"@ + t == fill(k, a, b) && captures_ok(k, a, b),
{
    broadcast use lemma_strip_prefix_concat, lemma_strip_suffix_concat, lemma_split_once_concat;
}

proof fn lemma_localization_paths(t: Seq<char>)
    ensures
        localization_paths(t) matches Some((k, a, b)) ==> "localization/"@ + t == fill(k, a, b) && captures_ok(k, a, b),
{
    broadcast use lemma_strip_prefix_concat, lemma_strip_suffix_concat, lemma_split_once_concat;
}

proof fn lemma_idp_paths(t: Seq<char>)
    ensures
        idp_paths(t) matches Some((k, a, b)) ==> "identity-provider/instances/"@ + t == fill(k, a, b) && captures_ok(k, a, b),
{
    broadcast use lemma_strip_prefix_concat, lemma_strip_suffix_concat, lemma_split_once_concat;
}

proof fn lemma_component_paths(t: Seq<char>)
    ensures
        component_paths(t) matches Some((k, a, b)) ==> "components/"@ + t == fill(k, a, b) && captures_ok(k, a, b),
{
    broadcast use lemma_strip_prefix_concat, lemma_strip_suffix_concat, lemma_split_once_concat;
}

proof fn lemma_required_action_paths(t: Seq<char>)
    ensures
        required_action_paths(t) matches Some((k, a, b)) ==> "authentication/required-actions/"@ + t == fill(k, a, b) && captures_ok(k, a, b),
{
    broadcast use lemma_strip_prefix_concat, lemma_strip_suffix_concat, lemma_split_once_concat;
}

proof fn lemma_execution_paths(t: Seq<char>)
    ensures
        execution_paths(t) matches Some((k, a, b)) ==> "authentication/executions/"@ + t == fill(k, a, b) && captures_ok(k, a, b),
{
    broadcast use lemma_strip_prefix_concat, lemma_strip_suffix_concat, lemma_split_once_concat;
}

proof fn lemma_flow_paths(t: Seq<char>)
    ensures
        flow_paths(t) matches Some((k, a, b)) ==> "authentication/flows/"@ + t == fill(k, a, b) && captures_ok(k, a, b),
{
    broadcast use lemma_strip_prefix_concat, lemma_strip_suffix_concat, lemma_split_once_concat;
}

proof fn lemma_invitation_paths(o: Seq<char>, r: Seq<char>)
    requires
        is_segment(o),
        r.len() > 0,
    ensures
        invitation_paths(o, r) matches Some((k, a, b)) ==> "organizations/"@ + o + "/invitations/"@ + r == fill(k, a, b)
            && captures_ok(k, a, b),
{
    broadcast use lemma_strip_suffix_concat;
}

proof fn lemma_member_paths(o: Seq<char>, r: Seq<char>)
    requires
        is_segment(o),
        r.len() > 0,
    ensures
        member_paths(o, r) matches Some((k, a, b)) ==> "organizations/"@ + o + "/members/"@ + r == fill(k, a, b)
            && captures_ok(k, a, b),
{
    broadcast use lemma_strip_suffix_concat;

    reveal_strlit("/members/");
    reveal_strlit("count");
    reveal_strlit("invite-existing-user");
    reveal_strlit("invite-user");
    reveal_strlit("/members/count");
    reveal_strlit("/members/invite-existing-user");
    reveal_strlit("/members/invite-user");
    assert("/members/"@ + "count"@ =~= "/members/count"@);
    assert("/members/"@ + "invite-existing-user"@ =~= "/members/invite-existing-user"@);
    assert("/members/"@ + "invite-user"@ =~= "/members/invite-user"@);
}

proof fn lemma_org_nested_paths(t: Seq<char>)
    ensures
        org_nested_paths(t) matches Some((k, a, b)) ==> "organizations/"@ + t == fill(k, a, b) && captures_ok(k, a, b),
{
    broadcast use lemma_split_once_concat;

    if let Some((o, r)) = org_split(t, "/invitations/"@) {
        lemma_invitation_paths(o, r);
    }
    if let Some((o, r)) = org_split(t, "/members/"@) {
        lemma_member_paths(o, r);
    }
}

proof fn lemma_organization_paths(t: Seq<char>)
    ensures
        organization_paths(t) matches Some((k, a, b)) ==> "organizations/"@ + t == fill(k, a, b) && captures_ok(k, a, b),
{
    broadcast use lemma_strip_suffix_concat, lemma_split_once_concat;

    lemma_org_nested_paths(t);
}

proof fn lemma_scope_client_paths(f: ScopeFamily, sc: Seq<char>, c: Seq<char>)
    requires
        is_segment(sc),
        c.len() > 0,
    ensures
        scope_client_paths(f, sc, c) matches Some((k, a, b)) ==> scope_prefix(f) + sc + "/scope-mappings/clients/"@ + c
            == fill(k, a, b) && captures_ok(k, a, b),
{
    broadcast use lemma_strip_suffix_concat;
}

proof fn lemma_scope_mapper_paths(f: ScopeFamily, t: Seq<char>)
    ensures
        scope_mapper_paths(f, t) matches Some((k, a, b)) ==> scope_prefix(f) + t == fill(k, a, b) && captures_ok(k, a, b),
{
    let pre = scope_prefix(f);
    if let Some(s) = seg_before(t, "/protocol-mappers/add-models"@) {
        lemma_strip_suffix_concat(t, "/protocol-mappers/add-models"@);
        assert(pre + t =~= pre + s + "/protocol-mappers/add-models"@);
    } else if let Some(s) = seg_before(t, "/protocol-mappers/models"@) {
        lemma_strip_suffix_concat(t, "/protocol-mappers/models"@);
        assert(pre + t =~= pre + s + "/protocol-mappers/models"@);
    } else if let Some(s) = seg_before(t, "/protocol-mappers/protocol"@) {
        lemma_strip_suffix_concat(t, "/protocol-mappers/protocol"@);
        assert(pre + t =~= pre + s + "/protocol-mappers/protocol"@);
    } else if let Some((s, p)) = seg_pair(t, "/protocol-mappers/protocol/"@) {
        lemma_split_once_concat(t, "/protocol-mappers/protocol/"@);
        assert(pre + t =~= pre + s + "/protocol-mappers/protocol/"@ + p);
    } else if let Some((s, m)) = seg_pair(t, "/protocol-mappers/models/"@) {
        lemma_split_once_concat(t, "/protocol-mappers/models/"@);
        assert(pre + t =~= pre + s + "/protocol-mappers/models/"@ + m);
    }
}

proof fn lemma_scope_mapping_paths(f: ScopeFamily, t: Seq<char>)
    ensures
        scope_mapping_paths(f, t) matches Some((k, a, b)) ==> scope_prefix(f) + t == fill(k, a, b) && captures_ok(k, a, b),
{
    let pre = scope_prefix(f);
    if let Some(s) = seg_before(t, "/scope-mappings"@) {
        lemma_strip_suffix_concat(t, "/scope-mappings"@);
        assert(pre + t =~= pre + s + "/scope-mappings"@);
    } else if let Some(s) = seg_before(t, "/scope-mappings/realm"@) {
        lemma_strip_suffix_concat(t, "/scope-mappings/realm"@);
        assert(pre + t =~= pre + s + "/scope-mappings/realm"@);
    } else if let Some(s) = seg_before(t, "/scope-mappings/realm/available"@) {
        lemma_strip_suffix_concat(t, "/scope-mappings/realm/available"@);
        assert(pre + t =~= pre + s + "/scope-mappings/realm/available"@);
    } else if let Some(s) = seg_before(t, "/scope-mappings/realm/composite"@) {
        lemma_strip_suffix_concat(t, "/scope-mappings/realm/composite"@);
        assert(pre + t =~= pre + s + "/scope-mappings/realm/composite"@);
    } else if let Some((sc, c)) = org_split(t, "/scope-mappings/clients/"@) {
        lemma_split_once_concat(t, "/scope-mappings/clients/"@);
        lemma_scope_client_paths(f, sc, c);
        assert(pre + t =~= pre + sc + "/scope-mappings/clients/"@ + c);
    }
}

proof fn lemma_scope_paths(f: ScopeFamily, t: Seq<char>)
    ensures
        scope_paths(f, t) matches Some((k, a, b)) ==> scope_prefix(f) + t == fill(k, a, b) && captures_ok(k, a, b),
{
    lemma_scope_mapper_paths(f, t);
    lemma_scope_mapping_paths(f, t);
}

proof fn lemma_member_organizations(rest: Seq<char>)
    ensures
        member_organizations(rest) matches Some((k, a, b)) ==> rest == fill(k, a, b) && captures_ok(k, a, b),
{
    broadcast use lemma_strip_prefix_concat, lemma_strip_suffix_concat, lemma_split_once_concat;
}

proof fn lemma_below(rest: Seq<char>, prefix: Seq<char>, which: int)
    requires
        which == 9 ==> prefix == "client-scopes/"@,
        which == 10 ==> prefix == "client-templates/"@,
        which == 0 ==> prefix == "groups/"@,
        which == 1 ==> prefix == "roles/"@,
        which == 2 ==> prefix == "roles-by-id/"@,
        which == 3 ==> prefix == "workflows/"@,
        which == 4 ==> prefix == "users/"@,
        which == 5 ==> prefix == "localization/"@,
        which == 6 ==> prefix == "organizations/"@,
        which == 7 ==> prefix == "identity-provider/instances/"@,
        which == 8 ==> prefix == "components/"@,
        which == 11 ==> prefix == "authentication/required-actions/"@,
        which == 12 ==> prefix == "authentication/executions/"@,
        which >= 13 ==> prefix == "authentication/flows/"@,
        which >= 0,
    ensures
        below(rest, prefix, which) matches Some((k, a, b)) ==> rest == fill(k, a, b) && captures_ok(k, a, b),
{
    broadcast use lemma_strip_prefix_concat;

    if let Some(t) = strip_prefix(rest, prefix) {
        assert(rest =~= prefix + t);
        if which == 0 {
            lemma_group_paths(t);
        } else if which == 1 {
            lemma_role_paths(t);
        } else if which == 2 {
            lemma_role_by_id_paths(t);
        } else if which == 3 {
            lemma_workflow_paths(t);
        } else if which == 4 {
            lemma_user_paths(t);
        } else if which == 5 {
            lemma_localization_paths(t);
        } else if which == 6 {
            lemma_organization_paths(t);
        } else if which == 7 {
            lemma_idp_paths(t);
        } else if which == 8 {
            lemma_component_paths(t);
        } else if which == 9 {
            lemma_scope_paths(ScopeFamily::Scopes, t);
        } else if which == 10 {
            lemma_scope_paths(ScopeFamily::Templates, t);
        } else if which == 11 {
            lemma_required_action_paths(t);
        } else if which == 12 {
            lemma_execution_paths(t);
        } else {
            lemma_flow_paths(t);
        }
    }
}

proof fn lemma_rest_routes_e(rest: Seq<char>)
    ensures
        rest_routes_e(rest) matches Some((k, a, b)) ==> rest == fill(k, a, b) && captures_ok(k, a, b),
{
    if below(rest, "authentication/required-actions/"@, 11) is Some {
        lemma_below(rest, "authentication/required-actions/"@, 11);
    } else if below(rest, "authentication/executions/"@, 12) is Some {
        lemma_below(rest, "authentication/executions/"@, 12);
    } else {
        lemma_below(rest, "authentication/flows/"@, 13);
    }
}

proof fn lemma_rest_routes_d(rest: Seq<char>)
    ensures
        rest_routes_d(rest) matches Some((k, a, b)) ==> rest == fill(k, a, b) && captures_ok(k, a, b),
{
    if rest == "organizations"@ || rest == "organizations/count"@ {
    } else if member_organizations(rest) is Some {
        lemma_member_organizations(rest);
    } else if below(rest, "organizations/"@, 6) is Some {
        lemma_below(rest, "organizations/"@, 6);
    } else if below(rest, "identity-provider/instances/"@, 7) is Some {
        lemma_below(rest, "identity-provider/instances/"@, 7);
    } else if let Some(p) = seg_after(rest, "identity-provider/providers/"@) {
        lemma_strip_prefix_concat(rest, "identity-provider/providers/"@);
    } else if below(rest, "components/"@, 8) is Some {
        lemma_below(rest, "components/"@, 8);
    } else if rest == "client-scopes"@ || rest == "client-templates"@ {
    } else if below(rest, "client-scopes/"@, 9) is Some {
        lemma_below(rest, "client-scopes/"@, 9);
    } else if below(rest, "client-templates/"@, 10) is Some {
        lemma_below(rest, "client-templates/"@, 10);
    } else {
        lemma_rest_routes_e(rest);
    }
}

proof fn lemma_rest_routes_c(rest: Seq<char>)
    ensures
        rest_routes_c(rest) matches Some((k, a, b)) ==> rest == fill(k, a, b) && captures_ok(k, a, b),
{
    if below(rest, "groups/"@, 0) is Some {
        lemma_below(rest, "groups/"@, 0);
    } else if rest == "roles"@ {
    } else if below(rest, "roles/"@, 1) is Some {
        lemma_below(rest, "roles/"@, 1);
    } else if below(rest, "roles-by-id/"@, 2) is Some {
        lemma_below(rest, "roles-by-id/"@, 2);
    } else if below(rest, "workflows/"@, 3) is Some {
        lemma_below(rest, "workflows/"@, 3);
    } else if below(rest, "users/"@, 4) is Some {
        lemma_below(rest, "users/"@, 4);
    } else if let Some(x) = seg_after(rest, "sessions/"@) {
        lemma_strip_prefix_concat(rest, "sessions/"@);
    } else if below(rest, "localization/"@, 5) is Some {
        lemma_below(rest, "localization/"@, 5);
    } else {
        lemma_rest_routes_d(rest);
    }
}

proof fn lemma_rest_routes_b(rest: Seq<char>)
    ensures
        rest_routes_b(rest) matches Some((k, a, b)) ==> rest == fill(k, a, b) && captures_ok(k, a, b),
{
    broadcast use lemma_strip_prefix_concat;

    lemma_rest_routes_c(rest);
}

proof fn lemma_rest_routes_a(rest: Seq<char>)
    ensures
        rest_routes_a(rest) matches Some((k, a, b)) ==> rest == fill(k, a, b) && captures_ok(k, a, b),
        rest_routes_a(rest) matches Some((k, a, b)) ==> (k == RouteKind::Realm <==> rest.len() == 0),
{
    broadcast use lemma_strip_prefix_concat;

    lemma_rest_routes_b(rest);
    if let Some((k, a, b)) = rest_routes_a(rest) {
        if k == RouteKind::Realm {
            assert(rest =~= none());
        }
    }
}

proof fn lemma_realm_split(path: Seq<char>)
    ensures
        realm_split(path) matches Some((realm, rest)) ==> {
            &&& is_segment(realm)
            &&& if rest.len() == 0 {
                path == "/admin/realms/"@ + realm || path == "/admin/realms/"@ + realm + "/"@
            } else {
                path == "/admin/realms/"@ + realm + "/"@ + rest
            }
        },
{
    broadcast use lemma_strip_prefix_concat;

    reveal_strlit("/");
    assert("/"@ =~= seq!['/']);
    if let Some(t) = strip_prefix(path, "/admin/realms/"@) {
        lemma_find_from_props(t, "/"@, 0);
        match find(t, "/"@) {
            Some(i) => {
                let realm = t.subrange(0, i);
                assert(t =~= realm + "/"@ + t.subrange(i + 1, t.len() as int));
                assert forall|j: int| 0 <= j < realm.len() implies realm[j] != '/' by {
                    assert(!occurs_at(t, "/"@, j));
                    assert(t.subrange(j, j + 1) =~= seq![t[j]]);
                }
            },
            None => {
                assert forall|j: int| 0 <= j < t.len() implies t[j] != '/' by {
                    assert(!occurs_at(t, "/"@, j));
                    assert(t.subrange(j, j + 1) =~= seq![t[j]]);
                }
                assert(t + Seq::<char>::empty() =~= t);
            },
        }
    }
}

/// Every routed path reads back from its route.  Outside
/// `/admin/realms` itself, the realm is a path segment; every endpoint
/// gets exactly the captures its template has, each a segment (the tail of
/// `group-by-path` may hold `/`); and the path is the route's rendering,
/// except that the realm itself may be written with a trailing `/`.
pub proof fn lemma_route_reads_back(path: Seq<char>)
    ensures
        route_of(path) matches Some((k, r, a, b)) ==> {
            &&& k == RouteKind::Realms ==> r.len() == 0 && a.len() == 0 && b.len() == 0
            &&& k != RouteKind::Realms ==> is_segment(r) && captures_ok(k, a, b)
            &&& path == render(k, r, a, b) || (k == RouteKind::Realm && path == render(k, r, a, b) + "/"@)
        },
{
    lemma_realm_split(path);
    if path != "/admin/realms"@ {
        if let Some((realm, rest)) = realm_split(path) {
            lemma_rest_routes_a(rest);
            if let Some((k, a, b)) = rest_routes_a(rest) {
                if k == RouteKind::Realm {
                    assert(rest.len() == 0);
                } else {
                    assert(rest.len() > 0);
                }
            }
        }
    }
}
} // verus!

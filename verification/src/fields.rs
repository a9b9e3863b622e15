//! Stored representations.  Each field of a JSON document is kept in a
//! column of its table, as text, as a 0/1 flag or as an integer.  The
//! layouts below say, for each kind of document, which key goes to which
//! column and how; reading a row copies the listed columns into the
//! document, and writing one binds the listed keys in the same order.
use vstd::prelude::*;
use vstd::string::*;
use crate::num::{decimal, decimal_string};

verus! {

/// How a field is stored in its column.
#[derive(Clone, Copy, Debug, PartialEq, Eq, Structural)]
pub enum Kind {
    /// a string, stored as text
    Text,
    /// a boolean, stored as 0 or 1
    Flag,
    /// an integer
    Int,
}

/// A field: its key in the document, its column, and how it is stored.
pub type Field = (&'static str, &'static str, Kind);

/// The abstract value of a list of fields.
pub open spec fn fields_view(fs: Seq<Field>) -> Seq<(Seq<char>, Seq<char>, Kind)> {
    fs.map_values(|f: Field| (f.0@, f.1@, f.2))
}

/// The field lists of the stored documents.
#[derive(Clone, Copy, Debug, PartialEq, Eq, Structural)]
pub enum Layout {
    /// the settings of a realm
    Realm,
    /// an initial access token
    InitialAccess,
    /// the flags and numbers of a new client, in the order of its insert
    ClientInsertSettings,
    /// the texts of a new client, in the order of its insert
    ClientInsertTexts,
    /// the fields of a client that an update writes
    ClientUpdate,
    /// the fields of a client
    Client,
    /// the fields of a group
    Group,
    /// the brief view of an identity provider
    IdentityProviderBrief,
    /// the flags of an identity provider, in the order they are written
    IdentityProviderFlags,
    /// the texts of a new identity provider, in the order of its insert
    IdentityProviderInsertTexts,
    /// the fields of an identity provider that an update writes
    IdentityProviderUpdate,
    /// the fields of an identity provider
    IdentityProvider,
    /// the fields of an identity provider mapper
    IdentityProviderMapper,
    /// the fields of a component
    Component,
    /// the fields of a component that an insert or an update writes
    ComponentStored,
    /// the fields of a client scope
    ClientScope,
    /// the fields of a protocol mapper
    ProtocolMapper,
    /// the fields of a login event
    Event,
    /// the fields of an admin event
    AdminEvent,
    /// the authentication details of an admin event
    AdminEventAuth,
    /// the events configuration of a realm
    EventsConfig,
    /// the fields of a role
    Role,
    /// a scheduled workflow step
    WorkflowState,
    /// the fields of a user that an insert or an update writes
    UserStored,
    /// the fields of a user
    User,
    /// the brief view of an organization
    OrganizationBrief,
    /// the details of an organization beyond its brief view
    OrganizationDetails,
    /// an invitation as listed
    InvitationListed,
    /// the fields of a new organization, in the order of its insert
    OrganizationInsert,
    /// the fields of an organization that an update writes
    OrganizationUpdate,
    /// the fields of an organization
    Organization,
    /// the fields of an invitation
    Invitation,
    /// the fields of an authentication flow
    AuthFlow,
    /// the fields of an execution within its flow
    FlowExecution,
    /// the fields of a required action
    RequiredAction,
    /// the identity of an execution
    ExecutionHead,
    /// where an execution stands and what it is configured with
    ExecutionPlacement,
}

/// The fields of each layout, in order.
pub open spec fn layout(l: Layout) -> Seq<(Seq<char>, Seq<char>, Kind)> {
    match l {
        Layout::Realm => seq![
            ("enabled"@, "ENABLED"@, Kind::Flag),
            ("sslRequired"@, "SSL_REQUIRED"@, Kind::Text),
            ("registrationAllowed"@, "REGISTRATION_ALLOWED"@, Kind::Flag),
            ("loginWithEmailAllowed"@, "LOGIN_WITH_EMAIL_ALLOWED"@, Kind::Flag),
            ("duplicateEmailsAllowed"@, "DUPLICATE_EMAILS_ALLOWED"@, Kind::Flag),
            ("resetPasswordAllowed"@, "RESET_PASSWORD_ALLOWED"@, Kind::Flag),
            ("editUsernameAllowed"@, "EDIT_USERNAME_ALLOWED"@, Kind::Flag),
            ("rememberMe"@, "REMEMBER_ME"@, Kind::Flag),
            ("verifyEmail"@, "VERIFY_EMAIL"@, Kind::Flag),
            ("internationalizationEnabled"@, "INTERNATIONALIZATION_ENABLED"@, Kind::Flag),
            ("defaultLocale"@, "DEFAULT_LOCALE"@, Kind::Text),
            ("loginTheme"@, "LOGIN_THEME"@, Kind::Text),
            ("accountTheme"@, "ACCOUNT_THEME"@, Kind::Text),
            ("adminTheme"@, "ADMIN_THEME"@, Kind::Text),
            ("emailTheme"@, "EMAIL_THEME"@, Kind::Text),
            ("eventsEnabled"@, "EVENTS_ENABLED"@, Kind::Flag),
            ("eventsExpiration"@, "EVENTS_EXPIRATION"@, Kind::Int),
            ("adminEventsEnabled"@, "ADMIN_EVENTS_ENABLED"@, Kind::Flag),
            ("adminEventsDetailsEnabled"@, "ADMIN_EVENTS_DETAILS_ENABLED"@, Kind::Flag),
            ("passwordPolicy"@, "PASSWORD_POLICY"@, Kind::Text),
            ("otpPolicyAlg"@, "OTP_POLICY_ALG"@, Kind::Text),
            ("otpPolicyType"@, "OTP_POLICY_TYPE"@, Kind::Text),
            ("otpPolicyDigits"@, "OTP_POLICY_DIGITS"@, Kind::Int),
            ("otpPolicyPeriod"@, "OTP_POLICY_PERIOD"@, Kind::Int),
            ("otpPolicyCounter"@, "OTP_POLICY_COUNTER"@, Kind::Int),
            ("otpPolicyWindow"@, "OTP_POLICY_WINDOW"@, Kind::Int),
            ("accessTokenLifespan"@, "ACCESS_TOKEN_LIFESPAN"@, Kind::Int),
            ("ssoSessionIdleTimeout"@, "SSO_IDLE_TIMEOUT"@, Kind::Int),
            ("ssoSessionMaxLifespan"@, "SSO_MAX_LIFESPAN"@, Kind::Int),
            ("offlineSessionIdleTimeout"@, "OFFLINE_SESSION_IDLE_TIMEOUT"@, Kind::Int),
            ("accessCodeLifespan"@, "ACCESS_CODE_LIFESPAN"@, Kind::Int),
            ("loginLifespan"@, "LOGIN_LIFESPAN"@, Kind::Int),
            ("userActionLifespan"@, "USER_ACTION_LIFESPAN"@, Kind::Int),
            ("notBefore"@, "NOT_BEFORE"@, Kind::Int),
            ("refreshTokenMaxReuse"@, "REFRESH_TOKEN_MAX_REUSE"@, Kind::Int),
            ("revokeRefreshToken"@, "REVOKE_REFRESH_TOKEN"@, Kind::Flag),
            ("registrationEmailAsUsername"@, "REG_EMAIL_AS_USERNAME"@, Kind::Flag),
            ("registrationFlow"@, "REGISTRATION_FLOW"@, Kind::Text),
            ("resetCredentialsFlow"@, "RESET_CREDENTIALS_FLOW"@, Kind::Text),
            ("browserFlow"@, "BROWSER_FLOW"@, Kind::Text),
            ("directGrantFlow"@, "DIRECT_GRANT_FLOW"@, Kind::Text),
            ("clientAuthenticationFlow"@, "CLIENT_AUTH_FLOW"@, Kind::Text),
            ("dockerAuthenticationFlow"@, "DOCKER_AUTH_FLOW"@, Kind::Text),
            ("masterAdminClient"@, "MASTER_ADMIN_CLIENT"@, Kind::Text),
            ("defaultRole"@, "DEFAULT_ROLE"@, Kind::Text),
        ],
        Layout::InitialAccess => seq![
            ("id"@, "ID"@, Kind::Text),
            ("count"@, "COUNT"@, Kind::Int),
            ("remainingCount"@, "REMAINING_COUNT"@, Kind::Int),
            ("timestamp"@, "TIMESTAMP"@, Kind::Int),
            ("expiration"@, "EXPIRATION"@, Kind::Int),
        ],
        Layout::ClientInsertSettings => seq![
            ("alwaysDisplayInConsole"@, "ALWAYS_DISPLAY_IN_CONSOLE"@, Kind::Flag),
            ("bearerOnly"@, "BEARER_ONLY"@, Kind::Flag),
            ("consentRequired"@, "CONSENT_REQUIRED"@, Kind::Flag),
            ("directAccessGrantsEnabled"@, "DIRECT_ACCESS_GRANTS_ENABLED"@, Kind::Flag),
            ("enabled"@, "ENABLED"@, Kind::Flag),
            ("frontchannelLogout"@, "FRONTCHANNEL_LOGOUT"@, Kind::Flag),
            ("fullScopeAllowed"@, "FULL_SCOPE_ALLOWED"@, Kind::Flag),
            ("implicitFlowEnabled"@, "IMPLICIT_FLOW_ENABLED"@, Kind::Flag),
            ("nodeReRegistrationTimeout"@, "NODE_REREG_TIMEOUT"@, Kind::Int),
            ("notBefore"@, "NOT_BEFORE"@, Kind::Int),
            ("publicClient"@, "PUBLIC_CLIENT"@, Kind::Flag),
            ("serviceAccountsEnabled"@, "SERVICE_ACCOUNTS_ENABLED"@, Kind::Flag),
            ("standardFlowEnabled"@, "STANDARD_FLOW_ENABLED"@, Kind::Flag),
            ("surrogateAuthRequired"@, "SURROGATE_AUTH_REQUIRED"@, Kind::Flag),
        ],
        Layout::ClientInsertTexts => seq![
            ("description"@, "DESCRIPTION"@, Kind::Text),
            ("managementUrl"@, "MANAGEMENT_URL"@, Kind::Text),
            ("name"@, "NAME"@, Kind::Text),
            ("protocol"@, "PROTOCOL"@, Kind::Text),
        ],
        Layout::ClientUpdate => seq![
            ("alwaysDisplayInConsole"@, "ALWAYS_DISPLAY_IN_CONSOLE"@, Kind::Flag),
            ("bearerOnly"@, "BEARER_ONLY"@, Kind::Flag),
            ("consentRequired"@, "CONSENT_REQUIRED"@, Kind::Flag),
            ("directAccessGrantsEnabled"@, "DIRECT_ACCESS_GRANTS_ENABLED"@, Kind::Flag),
            ("enabled"@, "ENABLED"@, Kind::Flag),
            ("frontchannelLogout"@, "FRONTCHANNEL_LOGOUT"@, Kind::Flag),
            ("fullScopeAllowed"@, "FULL_SCOPE_ALLOWED"@, Kind::Flag),
            ("implicitFlowEnabled"@, "IMPLICIT_FLOW_ENABLED"@, Kind::Flag),
            ("nodeReRegistrationTimeout"@, "NODE_REREG_TIMEOUT"@, Kind::Int),
            ("notBefore"@, "NOT_BEFORE"@, Kind::Int),
            ("publicClient"@, "PUBLIC_CLIENT"@, Kind::Flag),
            ("serviceAccountsEnabled"@, "SERVICE_ACCOUNTS_ENABLED"@, Kind::Flag),
            ("standardFlowEnabled"@, "STANDARD_FLOW_ENABLED"@, Kind::Flag),
            ("surrogateAuthRequired"@, "SURROGATE_AUTH_REQUIRED"@, Kind::Flag),
            ("baseUrl"@, "BASE_URL"@, Kind::Text),
            ("clientAuthenticatorType"@, "CLIENT_AUTHENTICATOR_TYPE"@, Kind::Text),
            ("clientId"@, "CLIENT_ID"@, Kind::Text),
            ("description"@, "DESCRIPTION"@, Kind::Text),
            ("managementUrl"@, "MANAGEMENT_URL"@, Kind::Text),
            ("name"@, "NAME"@, Kind::Text),
            ("protocol"@, "PROTOCOL"@, Kind::Text),
            ("registrationToken"@, "REGISTRATION_TOKEN"@, Kind::Text),
            ("rootUrl"@, "ROOT_URL"@, Kind::Text),
            ("secret"@, "SECRET"@, Kind::Text),
        ],
        Layout::Client => seq![
            ("id"@, "ID"@, Kind::Text),
            ("clientId"@, "CLIENT_ID"@, Kind::Text),
            ("name"@, "NAME"@, Kind::Text),
            ("description"@, "DESCRIPTION"@, Kind::Text),
            ("protocol"@, "PROTOCOL"@, Kind::Text),
            ("rootUrl"@, "ROOT_URL"@, Kind::Text),
            ("baseUrl"@, "BASE_URL"@, Kind::Text),
            ("managementUrl"@, "MANAGEMENT_URL"@, Kind::Text),
            ("clientAuthenticatorType"@, "CLIENT_AUTHENTICATOR_TYPE"@, Kind::Text),
            ("registrationToken"@, "REGISTRATION_TOKEN"@, Kind::Text),
            ("secret"@, "SECRET"@, Kind::Text),
            ("enabled"@, "ENABLED"@, Kind::Flag),
            ("publicClient"@, "PUBLIC_CLIENT"@, Kind::Flag),
            ("bearerOnly"@, "BEARER_ONLY"@, Kind::Flag),
            ("consentRequired"@, "CONSENT_REQUIRED"@, Kind::Flag),
            ("directAccessGrantsEnabled"@, "DIRECT_ACCESS_GRANTS_ENABLED"@, Kind::Flag),
            ("standardFlowEnabled"@, "STANDARD_FLOW_ENABLED"@, Kind::Flag),
            ("implicitFlowEnabled"@, "IMPLICIT_FLOW_ENABLED"@, Kind::Flag),
            ("serviceAccountsEnabled"@, "SERVICE_ACCOUNTS_ENABLED"@, Kind::Flag),
            ("frontchannelLogout"@, "FRONTCHANNEL_LOGOUT"@, Kind::Flag),
            ("fullScopeAllowed"@, "FULL_SCOPE_ALLOWED"@, Kind::Flag),
            ("alwaysDisplayInConsole"@, "ALWAYS_DISPLAY_IN_CONSOLE"@, Kind::Flag),
            ("surrogateAuthRequired"@, "SURROGATE_AUTH_REQUIRED"@, Kind::Flag),
            ("nodeReRegistrationTimeout"@, "NODE_REREG_TIMEOUT"@, Kind::Int),
            ("notBefore"@, "NOT_BEFORE"@, Kind::Int),
        ],
        Layout::Group => seq![
            ("id"@, "ID"@, Kind::Text),
            ("name"@, "NAME"@, Kind::Text),
            ("description"@, "DESCRIPTION"@, Kind::Text),
            ("parentId"@, "PARENT_GROUP"@, Kind::Text),
        ],
        Layout::IdentityProviderBrief => seq![
            ("alias"@, "PROVIDER_ALIAS"@, Kind::Text),
            ("displayName"@, "PROVIDER_DISPLAY_NAME"@, Kind::Text),
            ("providerId"@, "PROVIDER_ID"@, Kind::Text),
            ("enabled"@, "ENABLED"@, Kind::Flag),
        ],
        Layout::IdentityProviderFlags => seq![
            ("addReadTokenRoleOnCreate"@, "ADD_TOKEN_ROLE"@, Kind::Flag),
            ("authenticateByDefault"@, "AUTHENTICATE_BY_DEFAULT"@, Kind::Flag),
            ("enabled"@, "ENABLED"@, Kind::Flag),
            ("hideOnLogin"@, "HIDE_ON_LOGIN"@, Kind::Flag),
            ("linkOnly"@, "LINK_ONLY"@, Kind::Flag),
            ("storeToken"@, "STORE_TOKEN"@, Kind::Flag),
            ("trustEmail"@, "TRUST_EMAIL"@, Kind::Flag),
        ],
        Layout::IdentityProviderInsertTexts => seq![
            ("firstBrokerLoginFlowAlias"@, "FIRST_BROKER_LOGIN_FLOW_ID"@, Kind::Text),
            ("organizationId"@, "ORGANIZATION_ID"@, Kind::Text),
            ("postBrokerLoginFlowAlias"@, "POST_BROKER_LOGIN_FLOW_ID"@, Kind::Text),
            ("alias"@, "PROVIDER_ALIAS"@, Kind::Text),
            ("displayName"@, "PROVIDER_DISPLAY_NAME"@, Kind::Text),
            ("providerId"@, "PROVIDER_ID"@, Kind::Text),
        ],
        Layout::IdentityProviderUpdate => seq![
            ("addReadTokenRoleOnCreate"@, "ADD_TOKEN_ROLE"@, Kind::Flag),
            ("authenticateByDefault"@, "AUTHENTICATE_BY_DEFAULT"@, Kind::Flag),
            ("enabled"@, "ENABLED"@, Kind::Flag),
            ("hideOnLogin"@, "HIDE_ON_LOGIN"@, Kind::Flag),
            ("linkOnly"@, "LINK_ONLY"@, Kind::Flag),
            ("storeToken"@, "STORE_TOKEN"@, Kind::Flag),
            ("trustEmail"@, "TRUST_EMAIL"@, Kind::Flag),
            ("firstBrokerLoginFlowAlias"@, "FIRST_BROKER_LOGIN_FLOW_ID"@, Kind::Text),
            ("organizationId"@, "ORGANIZATION_ID"@, Kind::Text),
            ("postBrokerLoginFlowAlias"@, "POST_BROKER_LOGIN_FLOW_ID"@, Kind::Text),
            ("alias"@, "PROVIDER_ALIAS"@, Kind::Text),
            ("displayName"@, "PROVIDER_DISPLAY_NAME"@, Kind::Text),
            ("providerId"@, "PROVIDER_ID"@, Kind::Text),
        ],
        Layout::IdentityProvider => seq![
            ("alias"@, "PROVIDER_ALIAS"@, Kind::Text),
            ("displayName"@, "PROVIDER_DISPLAY_NAME"@, Kind::Text),
            ("internalId"@, "INTERNAL_ID"@, Kind::Text),
            ("providerId"@, "PROVIDER_ID"@, Kind::Text),
            ("enabled"@, "ENABLED"@, Kind::Flag),
            ("addReadTokenRoleOnCreate"@, "ADD_TOKEN_ROLE"@, Kind::Flag),
            ("authenticateByDefault"@, "AUTHENTICATE_BY_DEFAULT"@, Kind::Flag),
            ("storeToken"@, "STORE_TOKEN"@, Kind::Flag),
            ("trustEmail"@, "TRUST_EMAIL"@, Kind::Flag),
            ("linkOnly"@, "LINK_ONLY"@, Kind::Flag),
            ("hideOnLogin"@, "HIDE_ON_LOGIN"@, Kind::Flag),
            ("firstBrokerLoginFlowAlias"@, "FIRST_BROKER_LOGIN_FLOW_ID"@, Kind::Text),
            ("postBrokerLoginFlowAlias"@, "POST_BROKER_LOGIN_FLOW_ID"@, Kind::Text),
            ("organizationId"@, "ORGANIZATION_ID"@, Kind::Text),
        ],
        Layout::IdentityProviderMapper => seq![
            ("id"@, "ID"@, Kind::Text),
            ("name"@, "NAME"@, Kind::Text),
            ("identityProviderAlias"@, "IDP_ALIAS"@, Kind::Text),
            ("identityProviderMapper"@, "IDP_MAPPER_NAME"@, Kind::Text),
        ],
        Layout::Component => seq![
            ("id"@, "ID"@, Kind::Text),
            ("name"@, "NAME"@, Kind::Text),
            ("providerId"@, "PROVIDER_ID"@, Kind::Text),
            ("providerType"@, "PROVIDER_TYPE"@, Kind::Text),
            ("parentId"@, "PARENT_ID"@, Kind::Text),
            ("subType"@, "SUB_TYPE"@, Kind::Text),
        ],
        Layout::ComponentStored => seq![
            ("name"@, "NAME"@, Kind::Text),
            ("parentId"@, "PARENT_ID"@, Kind::Text),
            ("providerId"@, "PROVIDER_ID"@, Kind::Text),
            ("providerType"@, "PROVIDER_TYPE"@, Kind::Text),
            ("subType"@, "SUB_TYPE"@, Kind::Text),
        ],
        Layout::ClientScope => seq![
            ("id"@, "ID"@, Kind::Text),
            ("name"@, "NAME"@, Kind::Text),
            ("description"@, "DESCRIPTION"@, Kind::Text),
            ("protocol"@, "PROTOCOL"@, Kind::Text),
        ],
        Layout::ProtocolMapper => seq![
            ("id"@, "ID"@, Kind::Text),
            ("name"@, "NAME"@, Kind::Text),
            ("protocol"@, "PROTOCOL"@, Kind::Text),
            ("protocolMapper"@, "PROTOCOL_MAPPER_NAME"@, Kind::Text),
        ],
        Layout::Event => seq![
            ("id"@, "ID"@, Kind::Text),
            ("time"@, "EVENT_TIME"@, Kind::Int),
            ("type"@, "TYPE"@, Kind::Text),
            ("realmId"@, "REALM_ID"@, Kind::Text),
            ("clientId"@, "CLIENT_ID"@, Kind::Text),
            ("userId"@, "USER_ID"@, Kind::Text),
            ("sessionId"@, "SESSION_ID"@, Kind::Text),
            ("ipAddress"@, "IP_ADDRESS"@, Kind::Text),
            ("error"@, "ERROR"@, Kind::Text),
        ],
        Layout::AdminEvent => seq![
            ("id"@, "ID"@, Kind::Text),
            ("time"@, "ADMIN_EVENT_TIME"@, Kind::Int),
            ("realmId"@, "REALM_ID"@, Kind::Text),
            ("operationType"@, "OPERATION_TYPE"@, Kind::Text),
            ("resourceType"@, "RESOURCE_TYPE"@, Kind::Text),
            ("resourcePath"@, "RESOURCE_PATH"@, Kind::Text),
            ("representation"@, "REPRESENTATION"@, Kind::Text),
            ("error"@, "ERROR"@, Kind::Text),
        ],
        Layout::AdminEventAuth => seq![
            ("realmId"@, "AUTH_REALM_ID"@, Kind::Text),
            ("clientId"@, "AUTH_CLIENT_ID"@, Kind::Text),
            ("userId"@, "AUTH_USER_ID"@, Kind::Text),
            ("ipAddress"@, "IP_ADDRESS"@, Kind::Text),
        ],
        Layout::EventsConfig => seq![
            ("eventsEnabled"@, "EVENTS_ENABLED"@, Kind::Flag),
            ("eventsExpiration"@, "EVENTS_EXPIRATION"@, Kind::Int),
            ("adminEventsEnabled"@, "ADMIN_EVENTS_ENABLED"@, Kind::Flag),
            ("adminEventsDetailsEnabled"@, "ADMIN_EVENTS_DETAILS_ENABLED"@, Kind::Flag),
        ],
        Layout::Role => seq![
            ("id"@, "ID"@, Kind::Text),
            ("name"@, "NAME"@, Kind::Text),
            ("description"@, "DESCRIPTION"@, Kind::Text),
            ("clientRole"@, "CLIENT_ROLE"@, Kind::Flag),
        ],
        Layout::WorkflowState => seq![
            ("executionId"@, "EXECUTION_ID"@, Kind::Text),
            ("resourceId"@, "RESOURCE_ID"@, Kind::Text),
            ("resourceType"@, "RESOURCE_TYPE"@, Kind::Text),
            ("scheduledStepId"@, "SCHEDULED_STEP_ID"@, Kind::Text),
            ("scheduledStepTimestamp"@, "SCHEDULED_STEP_TIMESTAMP"@, Kind::Int),
            ("workflowId"@, "WORKFLOW_ID"@, Kind::Text),
        ],
        Layout::UserStored => seq![
            ("username"@, "USERNAME"@, Kind::Text),
            ("email"@, "EMAIL"@, Kind::Text),
            ("firstName"@, "FIRST_NAME"@, Kind::Text),
            ("lastName"@, "LAST_NAME"@, Kind::Text),
            ("enabled"@, "ENABLED"@, Kind::Flag),
            ("emailVerified"@, "EMAIL_VERIFIED"@, Kind::Flag),
            ("createdTimestamp"@, "CREATED_TIMESTAMP"@, Kind::Int),
            ("notBefore"@, "NOT_BEFORE"@, Kind::Int),
        ],
        Layout::User => seq![
            ("id"@, "ID"@, Kind::Text),
            ("username"@, "USERNAME"@, Kind::Text),
            ("email"@, "EMAIL"@, Kind::Text),
            ("firstName"@, "FIRST_NAME"@, Kind::Text),
            ("lastName"@, "LAST_NAME"@, Kind::Text),
            ("enabled"@, "ENABLED"@, Kind::Flag),
            ("emailVerified"@, "EMAIL_VERIFIED"@, Kind::Flag),
            ("createdTimestamp"@, "CREATED_TIMESTAMP"@, Kind::Int),
            ("notBefore"@, "NOT_BEFORE"@, Kind::Int),
        ],
        Layout::OrganizationBrief => seq![
            ("id"@, "ID"@, Kind::Text),
            ("name"@, "NAME"@, Kind::Text),
            ("alias"@, "ALIAS"@, Kind::Text),
        ],
        Layout::OrganizationDetails => seq![
            ("description"@, "DESCRIPTION"@, Kind::Text),
            ("enabled"@, "ENABLED"@, Kind::Flag),
            ("groupId"@, "GROUP_ID"@, Kind::Text),
            ("redirectUrl"@, "REDIRECT_URL"@, Kind::Text),
        ],
        Layout::InvitationListed => seq![
            ("id"@, "ID"@, Kind::Text),
            ("email"@, "EMAIL"@, Kind::Text),
            ("firstName"@, "FIRST_NAME"@, Kind::Text),
            ("lastName"@, "LAST_NAME"@, Kind::Text),
            ("inviteLink"@, "INVITE_LINK"@, Kind::Text),
            ("createdAt"@, "CREATED_AT"@, Kind::Int),
            ("expiresAt"@, "EXPIRES_AT"@, Kind::Int),
        ],
        Layout::OrganizationInsert => seq![
            ("alias"@, "ALIAS"@, Kind::Text),
            ("description"@, "DESCRIPTION"@, Kind::Text),
            ("groupId"@, "GROUP_ID"@, Kind::Text),
            ("name"@, "NAME"@, Kind::Text),
        ],
        Layout::OrganizationUpdate => seq![
            ("enabled"@, "ENABLED"@, Kind::Flag),
            ("alias"@, "ALIAS"@, Kind::Text),
            ("description"@, "DESCRIPTION"@, Kind::Text),
            ("groupId"@, "GROUP_ID"@, Kind::Text),
            ("name"@, "NAME"@, Kind::Text),
            ("redirectUrl"@, "REDIRECT_URL"@, Kind::Text),
        ],
        Layout::Organization => seq![
            ("id"@, "ID"@, Kind::Text),
            ("alias"@, "ALIAS"@, Kind::Text),
            ("name"@, "NAME"@, Kind::Text),
            ("description"@, "DESCRIPTION"@, Kind::Text),
            ("groupId"@, "GROUP_ID"@, Kind::Text),
            ("redirectUrl"@, "REDIRECT_URL"@, Kind::Text),
            ("enabled"@, "ENABLED"@, Kind::Flag),
        ],
        Layout::Invitation => seq![
            ("id"@, "ID"@, Kind::Text),
            ("email"@, "EMAIL"@, Kind::Text),
            ("firstName"@, "FIRST_NAME"@, Kind::Text),
            ("lastName"@, "LAST_NAME"@, Kind::Text),
            ("inviteLink"@, "INVITE_LINK"@, Kind::Text),
            ("createdAt"@, "CREATED_AT"@, Kind::Int),
            ("expiresAt"@, "EXPIRES_AT"@, Kind::Int),
            ("organizationId"@, "ORGANIZATION_ID"@, Kind::Text),
        ],
        Layout::AuthFlow => seq![
            ("id"@, "ID"@, Kind::Text),
            ("alias"@, "ALIAS"@, Kind::Text),
            ("description"@, "DESCRIPTION"@, Kind::Text),
            ("providerId"@, "PROVIDER_ID"@, Kind::Text),
            ("topLevel"@, "TOP_LEVEL"@, Kind::Flag),
            ("builtIn"@, "BUILT_IN"@, Kind::Flag),
        ],
        Layout::FlowExecution => seq![
            ("authenticationFlow"@, "AUTHENTICATOR_FLOW"@, Kind::Flag),
            ("providerId"@, "AUTHENTICATOR"@, Kind::Text),
            ("authenticationConfig"@, "AUTH_CONFIG"@, Kind::Text),
            ("flowId"@, "FLOW_ID"@, Kind::Text),
            ("priority"@, "PRIORITY"@, Kind::Int),
            ("index"@, "PRIORITY"@, Kind::Int),
        ],
        Layout::RequiredAction => seq![
            ("alias"@, "ALIAS"@, Kind::Text),
            ("name"@, "NAME"@, Kind::Text),
            ("providerId"@, "PROVIDER_ID"@, Kind::Text),
            ("enabled"@, "ENABLED"@, Kind::Flag),
            ("defaultAction"@, "DEFAULT_ACTION"@, Kind::Flag),
            ("priority"@, "PRIORITY"@, Kind::Int),
        ],
        Layout::ExecutionHead => seq![
            ("id"@, "ID"@, Kind::Text),
            ("authenticator"@, "AUTHENTICATOR"@, Kind::Text),
            ("authenticatorFlow"@, "AUTHENTICATOR_FLOW"@, Kind::Flag),
        ],
        Layout::ExecutionPlacement => seq![
            ("priority"@, "PRIORITY"@, Kind::Int),
            ("flowId"@, "FLOW_ID"@, Kind::Text),
            ("parentFlow"@, "AUTH_FLOW_ID"@, Kind::Text),
            ("authenticatorConfig"@, "AUTH_CONFIG"@, Kind::Text),
        ],
    }
}

/// The fields of a layout, in order.
#[verifier::rlimit(50)]
pub fn layout_fields(l: Layout) -> (r: Vec<Field>)
    ensures
        fields_view(r@) == layout(l),
{
    let r = match l {
        Layout::Realm => vec![
            ("enabled", "ENABLED", Kind::Flag),
            ("sslRequired", "SSL_REQUIRED", Kind::Text),
            ("registrationAllowed", "REGISTRATION_ALLOWED", Kind::Flag),
            ("loginWithEmailAllowed", "LOGIN_WITH_EMAIL_ALLOWED", Kind::Flag),
            ("duplicateEmailsAllowed", "DUPLICATE_EMAILS_ALLOWED", Kind::Flag),
            ("resetPasswordAllowed", "RESET_PASSWORD_ALLOWED", Kind::Flag),
            ("editUsernameAllowed", "EDIT_USERNAME_ALLOWED", Kind::Flag),
            ("rememberMe", "REMEMBER_ME", Kind::Flag),
            ("verifyEmail", "VERIFY_EMAIL", Kind::Flag),
            ("internationalizationEnabled", "INTERNATIONALIZATION_ENABLED", Kind::Flag),
            ("defaultLocale", "DEFAULT_LOCALE", Kind::Text),
            ("loginTheme", "LOGIN_THEME", Kind::Text),
            ("accountTheme", "ACCOUNT_THEME", Kind::Text),
            ("adminTheme", "ADMIN_THEME", Kind::Text),
            ("emailTheme", "EMAIL_THEME", Kind::Text),
            ("eventsEnabled", "EVENTS_ENABLED", Kind::Flag),
            ("eventsExpiration", "EVENTS_EXPIRATION", Kind::Int),
            ("adminEventsEnabled", "ADMIN_EVENTS_ENABLED", Kind::Flag),
            ("adminEventsDetailsEnabled", "ADMIN_EVENTS_DETAILS_ENABLED", Kind::Flag),
            ("passwordPolicy", "PASSWORD_POLICY", Kind::Text),
            ("otpPolicyAlg", "OTP_POLICY_ALG", Kind::Text),
            ("otpPolicyType", "OTP_POLICY_TYPE", Kind::Text),
            ("otpPolicyDigits", "OTP_POLICY_DIGITS", Kind::Int),
            ("otpPolicyPeriod", "OTP_POLICY_PERIOD", Kind::Int),
            ("otpPolicyCounter", "OTP_POLICY_COUNTER", Kind::Int),
            ("otpPolicyWindow", "OTP_POLICY_WINDOW", Kind::Int),
            ("accessTokenLifespan", "ACCESS_TOKEN_LIFESPAN", Kind::Int),
            ("ssoSessionIdleTimeout", "SSO_IDLE_TIMEOUT", Kind::Int),
            ("ssoSessionMaxLifespan", "SSO_MAX_LIFESPAN", Kind::Int),
            ("offlineSessionIdleTimeout", "OFFLINE_SESSION_IDLE_TIMEOUT", Kind::Int),
            ("accessCodeLifespan", "ACCESS_CODE_LIFESPAN", Kind::Int),
            ("loginLifespan", "LOGIN_LIFESPAN", Kind::Int),
            ("userActionLifespan", "USER_ACTION_LIFESPAN", Kind::Int),
            ("notBefore", "NOT_BEFORE", Kind::Int),
            ("refreshTokenMaxReuse", "REFRESH_TOKEN_MAX_REUSE", Kind::Int),
            ("revokeRefreshToken", "REVOKE_REFRESH_TOKEN", Kind::Flag),
            ("registrationEmailAsUsername", "REG_EMAIL_AS_USERNAME", Kind::Flag),
            ("registrationFlow", "REGISTRATION_FLOW", Kind::Text),
            ("resetCredentialsFlow", "RESET_CREDENTIALS_FLOW", Kind::Text),
            ("browserFlow", "BROWSER_FLOW", Kind::Text),
            ("directGrantFlow", "DIRECT_GRANT_FLOW", Kind::Text),
            ("clientAuthenticationFlow", "CLIENT_AUTH_FLOW", Kind::Text),
            ("dockerAuthenticationFlow", "DOCKER_AUTH_FLOW", Kind::Text),
            ("masterAdminClient", "MASTER_ADMIN_CLIENT", Kind::Text),
            ("defaultRole", "DEFAULT_ROLE", Kind::Text),
        ],
        Layout::InitialAccess => vec![
            ("id", "ID", Kind::Text),
            ("count", "COUNT", Kind::Int),
            ("remainingCount", "REMAINING_COUNT", Kind::Int),
            ("timestamp", "TIMESTAMP", Kind::Int),
            ("expiration", "EXPIRATION", Kind::Int),
        ],
        Layout::ClientInsertSettings => vec![
            ("alwaysDisplayInConsole", "ALWAYS_DISPLAY_IN_CONSOLE", Kind::Flag),
            ("bearerOnly", "BEARER_ONLY", Kind::Flag),
            ("consentRequired", "CONSENT_REQUIRED", Kind::Flag),
            ("directAccessGrantsEnabled", "DIRECT_ACCESS_GRANTS_ENABLED", Kind::Flag),
            ("enabled", "ENABLED", Kind::Flag),
            ("frontchannelLogout", "FRONTCHANNEL_LOGOUT", Kind::Flag),
            ("fullScopeAllowed", "FULL_SCOPE_ALLOWED", Kind::Flag),
            ("implicitFlowEnabled", "IMPLICIT_FLOW_ENABLED", Kind::Flag),
            ("nodeReRegistrationTimeout", "NODE_REREG_TIMEOUT", Kind::Int),
            ("notBefore", "NOT_BEFORE", Kind::Int),
            ("publicClient", "PUBLIC_CLIENT", Kind::Flag),
            ("serviceAccountsEnabled", "SERVICE_ACCOUNTS_ENABLED", Kind::Flag),
            ("standardFlowEnabled", "STANDARD_FLOW_ENABLED", Kind::Flag),
            ("surrogateAuthRequired", "SURROGATE_AUTH_REQUIRED", Kind::Flag),
        ],
        Layout::ClientInsertTexts => vec![
            ("description", "DESCRIPTION", Kind::Text),
            ("managementUrl", "MANAGEMENT_URL", Kind::Text),
            ("name", "NAME", Kind::Text),
            ("protocol", "PROTOCOL", Kind::Text),
        ],
        Layout::ClientUpdate => vec![
            ("alwaysDisplayInConsole", "ALWAYS_DISPLAY_IN_CONSOLE", Kind::Flag),
            ("bearerOnly", "BEARER_ONLY", Kind::Flag),
            ("consentRequired", "CONSENT_REQUIRED", Kind::Flag),
            ("directAccessGrantsEnabled", "DIRECT_ACCESS_GRANTS_ENABLED", Kind::Flag),
            ("enabled", "ENABLED", Kind::Flag),
            ("frontchannelLogout", "FRONTCHANNEL_LOGOUT", Kind::Flag),
            ("fullScopeAllowed", "FULL_SCOPE_ALLOWED", Kind::Flag),
            ("implicitFlowEnabled", "IMPLICIT_FLOW_ENABLED", Kind::Flag),
            ("nodeReRegistrationTimeout", "NODE_REREG_TIMEOUT", Kind::Int),
            ("notBefore", "NOT_BEFORE", Kind::Int),
            ("publicClient", "PUBLIC_CLIENT", Kind::Flag),
            ("serviceAccountsEnabled", "SERVICE_ACCOUNTS_ENABLED", Kind::Flag),
            ("standardFlowEnabled", "STANDARD_FLOW_ENABLED", Kind::Flag),
            ("surrogateAuthRequired", "SURROGATE_AUTH_REQUIRED", Kind::Flag),
            ("baseUrl", "BASE_URL", Kind::Text),
            ("clientAuthenticatorType", "CLIENT_AUTHENTICATOR_TYPE", Kind::Text),
            ("clientId", "CLIENT_ID", Kind::Text),
            ("description", "DESCRIPTION", Kind::Text),
            ("managementUrl", "MANAGEMENT_URL", Kind::Text),
            ("name", "NAME", Kind::Text),
            ("protocol", "PROTOCOL", Kind::Text),
            ("registrationToken", "REGISTRATION_TOKEN", Kind::Text),
            ("rootUrl", "ROOT_URL", Kind::Text),
            ("secret", "SECRET", Kind::Text),
        ],
        Layout::Client => vec![
            ("id", "ID", Kind::Text),
            ("clientId", "CLIENT_ID", Kind::Text),
            ("name", "NAME", Kind::Text),
            ("description", "DESCRIPTION", Kind::Text),
            ("protocol", "PROTOCOL", Kind::Text),
            ("rootUrl", "ROOT_URL", Kind::Text),
            ("baseUrl", "BASE_URL", Kind::Text),
            ("managementUrl", "MANAGEMENT_URL", Kind::Text),
            ("clientAuthenticatorType", "CLIENT_AUTHENTICATOR_TYPE", Kind::Text),
            ("registrationToken", "REGISTRATION_TOKEN", Kind::Text),
            ("secret", "SECRET", Kind::Text),
            ("enabled", "ENABLED", Kind::Flag),
            ("publicClient", "PUBLIC_CLIENT", Kind::Flag),
            ("bearerOnly", "BEARER_ONLY", Kind::Flag),
            ("consentRequired", "CONSENT_REQUIRED", Kind::Flag),
            ("directAccessGrantsEnabled", "DIRECT_ACCESS_GRANTS_ENABLED", Kind::Flag),
            ("standardFlowEnabled", "STANDARD_FLOW_ENABLED", Kind::Flag),
            ("implicitFlowEnabled", "IMPLICIT_FLOW_ENABLED", Kind::Flag),
            ("serviceAccountsEnabled", "SERVICE_ACCOUNTS_ENABLED", Kind::Flag),
            ("frontchannelLogout", "FRONTCHANNEL_LOGOUT", Kind::Flag),
            ("fullScopeAllowed", "FULL_SCOPE_ALLOWED", Kind::Flag),
            ("alwaysDisplayInConsole", "ALWAYS_DISPLAY_IN_CONSOLE", Kind::Flag),
            ("surrogateAuthRequired", "SURROGATE_AUTH_REQUIRED", Kind::Flag),
            ("nodeReRegistrationTimeout", "NODE_REREG_TIMEOUT", Kind::Int),
            ("notBefore", "NOT_BEFORE", Kind::Int),
        ],
        Layout::Group => vec![
            ("id", "ID", Kind::Text),
            ("name", "NAME", Kind::Text),
            ("description", "DESCRIPTION", Kind::Text),
            ("parentId", "PARENT_GROUP", Kind::Text),
        ],
        Layout::IdentityProviderBrief => vec![
            ("alias", "PROVIDER_ALIAS", Kind::Text),
            ("displayName", "PROVIDER_DISPLAY_NAME", Kind::Text),
            ("providerId", "PROVIDER_ID", Kind::Text),
            ("enabled", "ENABLED", Kind::Flag),
        ],
        Layout::IdentityProviderFlags => vec![
            ("addReadTokenRoleOnCreate", "ADD_TOKEN_ROLE", Kind::Flag),
            ("authenticateByDefault", "AUTHENTICATE_BY_DEFAULT", Kind::Flag),
            ("enabled", "ENABLED", Kind::Flag),
            ("hideOnLogin", "HIDE_ON_LOGIN", Kind::Flag),
            ("linkOnly", "LINK_ONLY", Kind::Flag),
            ("storeToken", "STORE_TOKEN", Kind::Flag),
            ("trustEmail", "TRUST_EMAIL", Kind::Flag),
        ],
        Layout::IdentityProviderInsertTexts => vec![
            ("firstBrokerLoginFlowAlias", "FIRST_BROKER_LOGIN_FLOW_ID", Kind::Text),
            ("organizationId", "ORGANIZATION_ID", Kind::Text),
            ("postBrokerLoginFlowAlias", "POST_BROKER_LOGIN_FLOW_ID", Kind::Text),
            ("alias", "PROVIDER_ALIAS", Kind::Text),
            ("displayName", "PROVIDER_DISPLAY_NAME", Kind::Text),
            ("providerId", "PROVIDER_ID", Kind::Text),
        ],
        Layout::IdentityProviderUpdate => vec![
            ("addReadTokenRoleOnCreate", "ADD_TOKEN_ROLE", Kind::Flag),
            ("authenticateByDefault", "AUTHENTICATE_BY_DEFAULT", Kind::Flag),
            ("enabled", "ENABLED", Kind::Flag),
            ("hideOnLogin", "HIDE_ON_LOGIN", Kind::Flag),
            ("linkOnly", "LINK_ONLY", Kind::Flag),
            ("storeToken", "STORE_TOKEN", Kind::Flag),
            ("trustEmail", "TRUST_EMAIL", Kind::Flag),
            ("firstBrokerLoginFlowAlias", "FIRST_BROKER_LOGIN_FLOW_ID", Kind::Text),
            ("organizationId", "ORGANIZATION_ID", Kind::Text),
            ("postBrokerLoginFlowAlias", "POST_BROKER_LOGIN_FLOW_ID", Kind::Text),
            ("alias", "PROVIDER_ALIAS", Kind::Text),
            ("displayName", "PROVIDER_DISPLAY_NAME", Kind::Text),
            ("providerId", "PROVIDER_ID", Kind::Text),
        ],
        Layout::IdentityProvider => vec![
            ("alias", "PROVIDER_ALIAS", Kind::Text),
            ("displayName", "PROVIDER_DISPLAY_NAME", Kind::Text),
            ("internalId", "INTERNAL_ID", Kind::Text),
            ("providerId", "PROVIDER_ID", Kind::Text),
            ("enabled", "ENABLED", Kind::Flag),
            ("addReadTokenRoleOnCreate", "ADD_TOKEN_ROLE", Kind::Flag),
            ("authenticateByDefault", "AUTHENTICATE_BY_DEFAULT", Kind::Flag),
            ("storeToken", "STORE_TOKEN", Kind::Flag),
            ("trustEmail", "TRUST_EMAIL", Kind::Flag),
            ("linkOnly", "LINK_ONLY", Kind::Flag),
            ("hideOnLogin", "HIDE_ON_LOGIN", Kind::Flag),
            ("firstBrokerLoginFlowAlias", "FIRST_BROKER_LOGIN_FLOW_ID", Kind::Text),
            ("postBrokerLoginFlowAlias", "POST_BROKER_LOGIN_FLOW_ID", Kind::Text),
            ("organizationId", "ORGANIZATION_ID", Kind::Text),
        ],
        Layout::IdentityProviderMapper => vec![
            ("id", "ID", Kind::Text),
            ("name", "NAME", Kind::Text),
            ("identityProviderAlias", "IDP_ALIAS", Kind::Text),
            ("identityProviderMapper", "IDP_MAPPER_NAME", Kind::Text),
        ],
        Layout::Component => vec![
            ("id", "ID", Kind::Text),
            ("name", "NAME", Kind::Text),
            ("providerId", "PROVIDER_ID", Kind::Text),
            ("providerType", "PROVIDER_TYPE", Kind::Text),
            ("parentId", "PARENT_ID", Kind::Text),
            ("subType", "SUB_TYPE", Kind::Text),
        ],
        Layout::ComponentStored => vec![
            ("name", "NAME", Kind::Text),
            ("parentId", "PARENT_ID", Kind::Text),
            ("providerId", "PROVIDER_ID", Kind::Text),
            ("providerType", "PROVIDER_TYPE", Kind::Text),
            ("subType", "SUB_TYPE", Kind::Text),
        ],
        Layout::ClientScope => vec![
            ("id", "ID", Kind::Text),
            ("name", "NAME", Kind::Text),
            ("description", "DESCRIPTION", Kind::Text),
            ("protocol", "PROTOCOL", Kind::Text),
        ],
        Layout::ProtocolMapper => vec![
            ("id", "ID", Kind::Text),
            ("name", "NAME", Kind::Text),
            ("protocol", "PROTOCOL", Kind::Text),
            ("protocolMapper", "PROTOCOL_MAPPER_NAME", Kind::Text),
        ],
        Layout::Event => vec![
            ("id", "ID", Kind::Text),
            ("time", "EVENT_TIME", Kind::Int),
            ("type", "TYPE", Kind::Text),
            ("realmId", "REALM_ID", Kind::Text),
            ("clientId", "CLIENT_ID", Kind::Text),
            ("userId", "USER_ID", Kind::Text),
            ("sessionId", "SESSION_ID", Kind::Text),
            ("ipAddress", "IP_ADDRESS", Kind::Text),
            ("error", "ERROR", Kind::Text),
        ],
        Layout::AdminEvent => vec![
            ("id", "ID", Kind::Text),
            ("time", "ADMIN_EVENT_TIME", Kind::Int),
            ("realmId", "REALM_ID", Kind::Text),
            ("operationType", "OPERATION_TYPE", Kind::Text),
            ("resourceType", "RESOURCE_TYPE", Kind::Text),
            ("resourcePath", "RESOURCE_PATH", Kind::Text),
            ("representation", "REPRESENTATION", Kind::Text),
            ("error", "ERROR", Kind::Text),
        ],
        Layout::AdminEventAuth => vec![
            ("realmId", "AUTH_REALM_ID", Kind::Text),
            ("clientId", "AUTH_CLIENT_ID", Kind::Text),
            ("userId", "AUTH_USER_ID", Kind::Text),
            ("ipAddress", "IP_ADDRESS", Kind::Text),
        ],
        Layout::EventsConfig => vec![
            ("eventsEnabled", "EVENTS_ENABLED", Kind::Flag),
            ("eventsExpiration", "EVENTS_EXPIRATION", Kind::Int),
            ("adminEventsEnabled", "ADMIN_EVENTS_ENABLED", Kind::Flag),
            ("adminEventsDetailsEnabled", "ADMIN_EVENTS_DETAILS_ENABLED", Kind::Flag),
        ],
        Layout::Role => vec![
            ("id", "ID", Kind::Text),
            ("name", "NAME", Kind::Text),
            ("description", "DESCRIPTION", Kind::Text),
            ("clientRole", "CLIENT_ROLE", Kind::Flag),
        ],
        Layout::WorkflowState => vec![
            ("executionId", "EXECUTION_ID", Kind::Text),
            ("resourceId", "RESOURCE_ID", Kind::Text),
            ("resourceType", "RESOURCE_TYPE", Kind::Text),
            ("scheduledStepId", "SCHEDULED_STEP_ID", Kind::Text),
            ("scheduledStepTimestamp", "SCHEDULED_STEP_TIMESTAMP", Kind::Int),
            ("workflowId", "WORKFLOW_ID", Kind::Text),
        ],
        Layout::UserStored => vec![
            ("username", "USERNAME", Kind::Text),
            ("email", "EMAIL", Kind::Text),
            ("firstName", "FIRST_NAME", Kind::Text),
            ("lastName", "LAST_NAME", Kind::Text),
            ("enabled", "ENABLED", Kind::Flag),
            ("emailVerified", "EMAIL_VERIFIED", Kind::Flag),
            ("createdTimestamp", "CREATED_TIMESTAMP", Kind::Int),
            ("notBefore", "NOT_BEFORE", Kind::Int),
        ],
        Layout::User => vec![
            ("id", "ID", Kind::Text),
            ("username", "USERNAME", Kind::Text),
            ("email", "EMAIL", Kind::Text),
            ("firstName", "FIRST_NAME", Kind::Text),
            ("lastName", "LAST_NAME", Kind::Text),
            ("enabled", "ENABLED", Kind::Flag),
            ("emailVerified", "EMAIL_VERIFIED", Kind::Flag),
            ("createdTimestamp", "CREATED_TIMESTAMP", Kind::Int),
            ("notBefore", "NOT_BEFORE", Kind::Int),
        ],
        Layout::OrganizationBrief => vec![
            ("id", "ID", Kind::Text),
            ("name", "NAME", Kind::Text),
            ("alias", "ALIAS", Kind::Text),
        ],
        Layout::OrganizationDetails => vec![
            ("description", "DESCRIPTION", Kind::Text),
            ("enabled", "ENABLED", Kind::Flag),
            ("groupId", "GROUP_ID", Kind::Text),
            ("redirectUrl", "REDIRECT_URL", Kind::Text),
        ],
        Layout::InvitationListed => vec![
            ("id", "ID", Kind::Text),
            ("email", "EMAIL", Kind::Text),
            ("firstName", "FIRST_NAME", Kind::Text),
            ("lastName", "LAST_NAME", Kind::Text),
            ("inviteLink", "INVITE_LINK", Kind::Text),
            ("createdAt", "CREATED_AT", Kind::Int),
            ("expiresAt", "EXPIRES_AT", Kind::Int),
        ],
        Layout::OrganizationInsert => vec![
            ("alias", "ALIAS", Kind::Text),
            ("description", "DESCRIPTION", Kind::Text),
            ("groupId", "GROUP_ID", Kind::Text),
            ("name", "NAME", Kind::Text),
        ],
        Layout::OrganizationUpdate => vec![
            ("enabled", "ENABLED", Kind::Flag),
            ("alias", "ALIAS", Kind::Text),
            ("description", "DESCRIPTION", Kind::Text),
            ("groupId", "GROUP_ID", Kind::Text),
            ("name", "NAME", Kind::Text),
            ("redirectUrl", "REDIRECT_URL", Kind::Text),
        ],
        Layout::Organization => vec![
            ("id", "ID", Kind::Text),
            ("alias", "ALIAS", Kind::Text),
            ("name", "NAME", Kind::Text),
            ("description", "DESCRIPTION", Kind::Text),
            ("groupId", "GROUP_ID", Kind::Text),
            ("redirectUrl", "REDIRECT_URL", Kind::Text),
            ("enabled", "ENABLED", Kind::Flag),
        ],
        Layout::Invitation => vec![
            ("id", "ID", Kind::Text),
            ("email", "EMAIL", Kind::Text),
            ("firstName", "FIRST_NAME", Kind::Text),
            ("lastName", "LAST_NAME", Kind::Text),
            ("inviteLink", "INVITE_LINK", Kind::Text),
            ("createdAt", "CREATED_AT", Kind::Int),
            ("expiresAt", "EXPIRES_AT", Kind::Int),
            ("organizationId", "ORGANIZATION_ID", Kind::Text),
        ],
        Layout::AuthFlow => vec![
            ("id", "ID", Kind::Text),
            ("alias", "ALIAS", Kind::Text),
            ("description", "DESCRIPTION", Kind::Text),
            ("providerId", "PROVIDER_ID", Kind::Text),
            ("topLevel", "TOP_LEVEL", Kind::Flag),
            ("builtIn", "BUILT_IN", Kind::Flag),
        ],
        Layout::FlowExecution => vec![
            ("authenticationFlow", "AUTHENTICATOR_FLOW", Kind::Flag),
            ("providerId", "AUTHENTICATOR", Kind::Text),
            ("authenticationConfig", "AUTH_CONFIG", Kind::Text),
            ("flowId", "FLOW_ID", Kind::Text),
            ("priority", "PRIORITY", Kind::Int),
            ("index", "PRIORITY", Kind::Int),
        ],
        Layout::RequiredAction => vec![
            ("alias", "ALIAS", Kind::Text),
            ("name", "NAME", Kind::Text),
            ("providerId", "PROVIDER_ID", Kind::Text),
            ("enabled", "ENABLED", Kind::Flag),
            ("defaultAction", "DEFAULT_ACTION", Kind::Flag),
            ("priority", "PRIORITY", Kind::Int),
        ],
        Layout::ExecutionHead => vec![
            ("id", "ID", Kind::Text),
            ("authenticator", "AUTHENTICATOR", Kind::Text),
            ("authenticatorFlow", "AUTHENTICATOR_FLOW", Kind::Flag),
        ],
        Layout::ExecutionPlacement => vec![
            ("priority", "PRIORITY", Kind::Int),
            ("flowId", "FLOW_ID", Kind::Text),
            ("parentFlow", "AUTH_FLOW_ID", Kind::Text),
            ("authenticatorConfig", "AUTH_CONFIG", Kind::Text),
        ],
    };
    assert(fields_view(r@) =~= layout(l));
    r
}

/// The columns of a list of fields, in order.
pub open spec fn columns_of(fs: Seq<(Seq<char>, Seq<char>, Kind)>) -> Seq<Seq<char>> {
    fs.map_values(|f: (Seq<char>, Seq<char>, Kind)| f.1)
}

/// `items` written one after the other with `sep` between them.
pub open spec fn joined(items: Seq<Seq<char>>, sep: Seq<char>) -> Seq<char>
    decreases items.len(),
{
    if items.len() == 0 {
        Seq::empty()
    } else if items.len() == 1 {
        items[0]
    } else {
        joined(items.drop_last(), sep) + sep + items.last()
    }
}

/// The placeholder of the `k`-th bound value: `?k`.
pub open spec fn placeholder(k: nat) -> Seq<char> {
    seq!['?'] + decimal(k)
}

/// The placeholders of `n` values: `?1` to `?n`.
pub open spec fn placeholders(n: nat) -> Seq<Seq<char>> {
    Seq::new(n, |i: int| placeholder((i + 1) as nat))
}

/// Each column set to the value bound after it: `c=?k`, counting from
/// `first`.
pub open spec fn assignments(cols: Seq<Seq<char>>, first: nat) -> Seq<Seq<char>> {
    Seq::new(cols.len(), |i: int| cols[i] + seq!['='] + placeholder((first + i) as nat))
}

/// The statement that inserts a row into `table`, binding one value per
/// column, in order.
pub open spec fn insert_sql(table: Seq<char>, cols: Seq<Seq<char>>) -> Seq<char> {
    "INSERT INTO "@ + table + " ("@ + joined(cols, ", "@) + ") VALUES ("@ + joined(placeholders(cols.len()), ", "@)
        + ")"@
}

/// The statement that sets `cols` of the rows of `table` whose `keys`
/// match, binding the values of `cols` first and those of `keys` after
/// them.
pub open spec fn update_sql(table: Seq<char>, cols: Seq<Seq<char>>, keys: Seq<Seq<char>>) -> Seq<char> {
    "UPDATE "@ + table + " SET "@ + joined(assignments(cols, 1), ", "@) + " WHERE "@ + joined(
        assignments(keys, cols.len() + 1),
        " AND "@,
    )
}

/// Appends `items` with `sep` between them.
fn push_joined(out: &mut String, items: &Vec<String>, sep: &str)
    ensures
        final(out)@ == old(out)@ + joined(crate::query::strings_view(items@), sep@),
{
    let ghost all = crate::query::strings_view(items@);
    let ghost start = out@;
    let n = items.len();
    let mut i: usize = 0;
    assert(all.subrange(0, 0) =~= Seq::<Seq<char>>::empty());
    assert(out@ =~= start + joined(all.subrange(0, 0), sep@));
    while i < n
        invariant
            n == items@.len(),
            all == crate::query::strings_view(items@),
            i <= n,
            out@ == start + joined(all.subrange(0, i as int), sep@),
        decreases n - i,
    {
        let ghost pre = all.subrange(0, i + 1);
        assert(pre.drop_last() =~= all.subrange(0, i as int));
        assert(pre.last() == items@[i as int]@);
        if i > 0 {
            out.append(sep);
        }
        out.append(items[i].as_str());
        i = i + 1;
        assert(out@ =~= start + joined(all.subrange(0, i as int), sep@));
    }
    assert(all.subrange(0, n as int) =~= all);
}

/// The placeholder `?k`.
fn placeholder_string(k: u128) -> (r: String)
    ensures
        r@ == placeholder(k as nat),
{
    let mut s = String::from_str("?");
    proof {
        reveal_strlit("?");
    }
    let digits = decimal_string(k);
    s.append(digits.as_str());
    s
}

/// The statement that inserts a row into `table`, binding one value per
/// column, in order.
pub fn insert_statement(table: &str, columns: &Vec<&str>) -> (r: String)
    ensures
        r@ == insert_sql(table@, columns@.map_values(|c: &str| c@)),
{
    let ghost cols = columns@.map_values(|c: &str| c@);
    let n = columns.len();
    let mut names: Vec<String> = Vec::new();
    let mut marks: Vec<String> = Vec::new();
    let mut i: usize = 0;
    while i < n
        invariant
            n == columns@.len(),
            cols == columns@.map_values(|c: &str| c@),
            i <= n,
            crate::query::strings_view(names@) == cols.subrange(0, i as int),
            crate::query::strings_view(marks@) == placeholders(i as nat),
        decreases n - i,
    {
        let ghost before = crate::query::strings_view(names@);
        let ghost marks_before = crate::query::strings_view(marks@);
        let name = String::from_str(columns[i]);
        let mark = placeholder_string((i + 1) as u128);
        names.push(name);
        marks.push(mark);
        assert(crate::query::strings_view(names@) =~= before.push(name@));
        assert(crate::query::strings_view(marks@) =~= marks_before.push(mark@));
        assert(cols.subrange(0, i + 1) =~= cols.subrange(0, i as int).push(cols[i as int]));
        assert(placeholders((i + 1) as nat) =~= placeholders(i as nat).push(placeholder((i + 1) as nat)));
        i = i + 1;
    }
    assert(cols.subrange(0, n as int) =~= cols);
    proof {
        reveal_strlit("INSERT INTO ");
        reveal_strlit(" (");
        reveal_strlit(") VALUES (");
        reveal_strlit(")");
        reveal_strlit(", ");
    }
    let mut out = String::from_str("INSERT INTO ");
    out.append(table);
    out.append(" (");
    push_joined(&mut out, &names, ", ");
    out.append(") VALUES (");
    push_joined(&mut out, &marks, ", ");
    out.append(")");
    assert(out@ =~= insert_sql(table@, cols));
    out
}

/// Each column set to its placeholder, counting from `first`.
fn assignment_strings(columns: &Vec<&str>, first: u128) -> (r: Vec<String>)
    requires
        first + columns@.len() <= u128::MAX,
    ensures
        crate::query::strings_view(r@) == assignments(columns@.map_values(|c: &str| c@), first as nat),
{
    let ghost cols = columns@.map_values(|c: &str| c@);
    let n = columns.len();
    let mut out: Vec<String> = Vec::new();
    let mut i: usize = 0;
    proof {
        reveal_strlit("=");
    }
    while i < n
        invariant
            n == columns@.len(),
            cols == columns@.map_values(|c: &str| c@),
            first + n <= u128::MAX,
            i <= n,
            crate::query::strings_view(out@) == assignments(cols, first as nat).subrange(0, i as int),
        decreases n - i,
    {
        let ghost before = crate::query::strings_view(out@);
        proof {
            reveal_strlit("=");
        }
        let mut a = String::from_str(columns[i]);
        a.append("=");
        let mark = placeholder_string(first + i as u128);
        a.append(mark.as_str());
        assert("="@ =~= seq!['=']);
        assert(cols[i as int] == columns@[i as int]@);
        assert(a@ =~= assignments(cols, first as nat)[i as int]);
        out.push(a);
        assert(crate::query::strings_view(out@) =~= before.push(a@));
        assert(assignments(cols, first as nat).subrange(0, i + 1) =~= assignments(cols, first as nat).subrange(
            0,
            i as int,
        ).push(assignments(cols, first as nat)[i as int]));
        i = i + 1;
    }
    assert(assignments(cols, first as nat).subrange(0, n as int) =~= assignments(cols, first as nat));
    out
}

/// The statement that sets `columns` of the rows of `table` whose `keys`
/// match, binding the values of `columns` first and those of `keys` after
/// them.
pub fn update_statement(table: &str, columns: &Vec<&str>, keys: &Vec<&str>) -> (r: String)
    ensures
        r@ == update_sql(table@, columns@.map_values(|c: &str| c@), keys@.map_values(|c: &str| c@)),
{
    let n = columns.len();
    let m = keys.len();
    assert(usize::MAX <= u64::MAX);
    let sets = assignment_strings(columns, 1);
    let conditions = assignment_strings(keys, n as u128 + 1);
    proof {
        reveal_strlit("UPDATE ");
        reveal_strlit(" SET ");
        reveal_strlit(" WHERE ");
        reveal_strlit(", ");
        reveal_strlit(" AND ");
    }
    let mut out = String::from_str("UPDATE ");
    out.append(table);
    out.append(" SET ");
    push_joined(&mut out, &sets, ", ");
    out.append(" WHERE ");
    push_joined(&mut out, &conditions, " AND ");
    assert(out@ =~= update_sql(
        table@,
        columns@.map_values(|c: &str| c@),
        keys@.map_values(|c: &str| c@),
    ));
    out
}

} // verus!

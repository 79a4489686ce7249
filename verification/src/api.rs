//! Configuration records of the outward HTTP interface: rate limits,
//! authentication, CORS, webhooks and integrations. The server speaking
//! this configuration lives outside the engine.

use vstd::prelude::*;
use std::collections::HashMap;

verus! {

/// Requests allowed per client and window.
#[derive(Clone, Debug, PartialEq)]
pub struct RateLimitConfig {
    pub requests_per_minute: u32,
    pub requests_per_hour: u32,
    pub requests_per_day: u32,
    pub burst_limit: u32,
    pub whitelist: Vec<String>,
    pub blacklist: Vec<String>,
}

/// One external identity provider.
#[derive(Clone, Debug, PartialEq)]
pub struct OAuthProvider {
    pub name: String,
    pub client_id: String,
    pub client_secret: String,
    pub authorization_url: String,
    pub token_url: String,
    pub scopes: Vec<String>,
}

/// How callers authenticate.
#[derive(Clone, Debug, PartialEq)]
pub struct AuthConfig {
    pub jwt_secret: String,
    pub token_expiry: u64,
    pub refresh_token_expiry: u64,
    pub api_key_enabled: bool,
    pub oauth_enabled: bool,
    pub oauth_providers: Vec<OAuthProvider>,
}

/// Cross-origin rules.
#[derive(Clone, Debug, PartialEq)]
pub struct CorsConfig {
    pub allowed_origins: Vec<String>,
    pub allowed_methods: Vec<String>,
    pub allowed_headers: Vec<String>,
    pub expose_headers: Vec<String>,
    pub max_age: u32,
    pub credentials: bool,
}

/// Events pushed to registered webhooks.
#[derive(Clone, Debug, PartialEq)]
pub enum WebhookEvent {
    ItemInstalled,
    ItemUninstalled,
    ItemUpdated,
    ItemRated,
    ItemReviewed,
    UserRegistered,
    UserSubscribed,
    PaymentCompleted,
    PaymentFailed,
    AnalyticsUpdate,
    SystemAlert,
    Custom(String),
}

/// Webhook delivery settings.
#[derive(Clone, Debug, PartialEq)]
pub struct WebhookConfig {
    pub enabled: bool,
    pub secret_key: String,
    pub retry_attempts: u32,
    pub timeout: u64,
    pub supported_events: Vec<WebhookEvent>,
}

/// The whole outward interface's configuration.
#[derive(Clone, Debug, PartialEq)]
pub struct APIConfig {
    pub base_url: String,
    pub version: String,
    pub rate_limits: RateLimitConfig,
    pub authentication: AuthConfig,
    pub cors_config: CorsConfig,
    pub documentation_enabled: bool,
    pub metrics_enabled: bool,
    pub logging_enabled: bool,
    pub webhook_config: WebhookConfig,
}

/// What a token may do.
#[derive(Clone, Debug, PartialEq)]
pub enum APIScope {
    MarketplaceRead,
    MarketplaceWrite,
    MarketplaceAdmin,
    AnalyticsRead,
    AnalyticsWrite,
    UserRead,
    UserWrite,
    CICDRead,
    CICDWrite,
    CICDExecute,
    CollaborationRead,
    CollaborationWrite,
    CollaborationManage,
    VisualizationRead,
    VisualizationWrite,
    SystemRead,
    SystemWrite,
    SystemAdmin,
    Custom(String),
}

/// What an integration is for.
#[derive(Clone, Debug, PartialEq)]
pub enum IntegrationType {
    DataSource,
    Notification,
    Authentication,
    Storage,
    Analytics,
    CICD,
    Monitoring,
    Custom(String),
}

/// How an integration authenticates; `Unauthenticated` stands for no
/// authentication at all.
#[derive(Clone, Debug, PartialEq)]
pub enum IntegrationAuth {
    Unauthenticated,
    ApiKey { key: String },
    Bearer { token: String },
    Basic { username: String, password: String },
    OAuth2 {
        client_id: String,
        client_secret: String,
        access_token: String,
        refresh_token: String,
    },
    Custom(HashMap<String, String>),
}

/// An integration's health.
#[derive(Clone, Copy, Debug, PartialEq, Eq, Structural)]
pub enum IntegrationStatus {
    Active,
    Inactive,
    Error,
    Syncing,
    Paused,
}

} // verus!

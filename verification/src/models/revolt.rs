//! The discovery record the remote service serves at its API root.

use vstd::prelude::*;

verus! {

/// Captcha configuration advertised by the service.
#[derive(Debug, Clone, PartialEq)]
pub struct CaptchaConfig {
    pub enabled: bool,
    pub key: String,
}

/// An auxiliary service (content host, proxy) advertised by the service.
#[derive(Debug, Clone, PartialEq)]
pub struct ServiceConfig {
    pub enabled: bool,
    pub url: String,
}

/// The voice server advertised by the service.
#[derive(Debug, Clone, PartialEq)]
pub struct ServerConfig {
    pub enabled: bool,
    pub url: String,
    pub ws: String,
}

/// Feature flags advertised by the service.
#[derive(Debug, Clone, PartialEq)]
pub struct RevoltFeatures {
    pub captcha: CaptchaConfig,
    pub uses_email_verification: bool,
    pub invite_only: bool,
    pub autumn: ServiceConfig,
    pub january: ServiceConfig,
    pub voso: ServerConfig,
}

/// Build information advertised by the service.
#[derive(Debug, Clone, PartialEq)]
pub struct RevoltBuild {
    pub commit_sha: String,
    pub commit_timestamp: String,
    pub semver: String,
    pub origin_url: String,
    pub timestamp: String,
}

/// The discovery record: API version, feature flags and, most importantly,
/// the gateway URL a session should connect to.
#[derive(Debug, Clone, PartialEq)]
pub struct RevoltInfo {
    pub api_version: String,
    pub features: RevoltFeatures,
    pub ws: String,
    pub app: String,
    pub vapid: String,
    pub build: RevoltBuild,
}

} // verus!

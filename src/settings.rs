//! The resolution of the settings that one invocation uses: explicit
//! values first, then the selected profile, then the document's defaults.
use vstd::prelude::*;

use crate::config::{
    auth_of, empty_config, fallback_host, host_of, opt_str, opt_text, tenant_of, unscoped_tenant,
    Config, ConfigView,
};

verus! {

/// The settings that one invocation uses, as characters.
pub struct SettingsView {
    pub endpoint: Seq<char>,
    pub tenant: Seq<char>,
    pub username: Option<Seq<char>>,
    pub password: Option<Seq<char>>,
}

/// The server, tenant and credentials that one invocation uses.
#[derive(Debug, Clone)]
pub struct EffectiveConfig {
    pub endpoint: String,
    pub tenant: String,
    pub username: Option<String>,
    pub password: Option<String>,
}

impl View for EffectiveConfig {
    type V = SettingsView;

    open spec fn view(&self) -> SettingsView {
        SettingsView {
            endpoint: self.endpoint@,
            tenant: self.tenant@,
            username: opt_text(self.username),
            password: opt_text(self.password),
        }
    }
}

/// An explicit value if there is one, else the inherited one.
pub open spec fn explicit_or<T>(explicit: Option<T>, inherited: T) -> T {
    match explicit {
        Some(v) => v,
        None => inherited,
    }
}

/// The settings that explicit values (flags or environment) and the
/// document give together: each explicit value wins over the selected
/// profile, which wins over the document's defaults.
pub open spec fn resolution(
    url: Option<Seq<char>>,
    tenant: Option<Seq<char>>,
    user: Option<Seq<char>>,
    password: Option<Seq<char>>,
    profile: Option<Seq<char>>,
    c: ConfigView,
) -> SettingsView {
    SettingsView {
        endpoint: explicit_or(url, host_of(c, profile)),
        tenant: explicit_or(tenant, tenant_of(c, profile)),
        username: if user.is_some() {
            user
        } else {
            auth_of(c, profile).username
        },
        password: if password.is_some() {
            password
        } else {
            auth_of(c, profile).password
        },
    }
}

/// Pairs explicit credentials with the inherited ones: each part that is
/// given explicitly is used, and the other part is inherited.
pub fn resolve_credentials(
    user: Option<String>,
    password: Option<String>,
    config_user: Option<String>,
    config_password: Option<String>,
) -> (r: (Option<String>, Option<String>))
    ensures
        r.0 == (if user.is_some() { user } else { config_user }),
        r.1 == (if password.is_some() { password } else { config_password }),
{
    match (user, password) {
        (Some(u), Some(p)) => (Some(u), Some(p)),
        (Some(u), None) => (Some(u), config_password),
        (None, Some(p)) => (config_user, Some(p)),
        (None, None) => (config_user, config_password),
    }
}

/// Resolves the settings of one invocation from explicit values and the
/// configuration document. Resolution never fails.
pub fn resolve(
    url: Option<String>,
    tenant: Option<String>,
    user: Option<String>,
    password: Option<String>,
    profile: Option<&str>,
    config: &Config,
) -> (r: EffectiveConfig)
    ensures
        r@ == resolution(
            opt_text(url),
            opt_text(tenant),
            opt_text(user),
            opt_text(password),
            opt_str(profile),
            config@,
        ),
{
    let endpoint = match url {
        Some(u) => u,
        None => config.get_host(profile),
    };
    let tenant = match tenant {
        Some(t) => t,
        None => config.get_tenant(profile),
    };
    let (config_user, config_password) = config.get_auth(profile);
    let (username, password) = resolve_credentials(user, password, config_user, config_password);
    EffectiveConfig { endpoint, tenant, username, password }
}

/// With nothing given explicitly, no profile and an empty document, the
/// settings are the fallback endpoint, the unscoped tenant and no
/// credentials.
pub proof fn empty_resolution()
    ensures
        resolution(None, None, None, None, None, empty_config()) == (SettingsView {
            endpoint: fallback_host(),
            tenant: unscoped_tenant(),
            username: None,
            password: None,
        }),
{
}

} // verus!

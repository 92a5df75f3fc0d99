//! The layered configuration document and the resolution of the settings
//! that one invocation uses.
use vstd::prelude::*;

use crate::error::{CliError, ErrorView};
use crate::text::{same_text, split, split_text};

verus! {

/// An optional text, seen as characters.
pub open spec fn opt_text(o: Option<String>) -> Option<Seq<char>> {
    match o {
        Some(s) => Some(s@),
        None => None,
    }
}

/// Credentials as the configuration document holds them.
pub struct AuthView {
    pub username: Option<Seq<char>>,
    pub password: Option<Seq<char>>,
}

/// A named profile as the configuration document holds it.
pub struct ProfileView {
    pub host: Seq<char>,
    pub tenant: Seq<char>,
    pub auth: AuthView,
}

/// The whole configuration document.
pub struct ConfigView {
    pub host: Seq<char>,
    pub tenant: Seq<char>,
    pub auth: AuthView,
    pub profiles: Map<Seq<char>, ProfileView>,
}

/// The endpoint used when nothing else names one.
pub open spec fn fallback_host() -> Seq<char> {
    "http://localhost:8080"@
}

/// The tenant that means "no tenant scoping".
pub open spec fn unscoped_tenant() -> Seq<char> {
    "_"@
}

/// Credentials with neither part set.
pub open spec fn no_auth() -> AuthView {
    AuthView { username: None, password: None }
}

/// Optional username and password.
#[derive(Debug, Clone)]
pub struct AuthConfig {
    pub username: Option<String>,
    pub password: Option<String>,
}

impl View for AuthConfig {
    type V = AuthView;

    open spec fn view(&self) -> AuthView {
        AuthView { username: opt_text(self.username), password: opt_text(self.password) }
    }
}

impl AuthConfig {
    /// Whether either part of the credentials is set.
    pub fn is_configured(&self) -> (r: bool)
        ensures
            r == (self.username.is_some() || self.password.is_some()),
    {
        self.username.is_some() || self.password.is_some()
    }
}

impl Default for AuthConfig {
    fn default() -> (r: AuthConfig)
        ensures
            r@ == no_auth(),
    {
        AuthConfig { username: None, password: None }
    }
}

/// The host and tenant used when no profile is selected.
#[derive(Debug, Clone)]
pub struct DefaultConfig {
    pub host: String,
    pub tenant: String,
}

impl Default for DefaultConfig {
    fn default() -> (r: DefaultConfig)
        ensures
            r.host@ == fallback_host(),
            r.tenant@ == unscoped_tenant(),
    {
        DefaultConfig { host: default_host(), tenant: default_tenant() }
    }
}

/// A named set of connection settings.
#[derive(Debug, Clone)]
pub struct ProfileConfig {
    pub host: String,
    pub tenant: String,
    pub auth: AuthConfig,
}

impl View for ProfileConfig {
    type V = ProfileView;

    open spec fn view(&self) -> ProfileView {
        ProfileView { host: self.host@, tenant: self.tenant@, auth: self.auth@ }
    }
}

/// The host used when nothing else names one.
pub fn default_host() -> (r: String)
    ensures
        r@ == fallback_host(),
{
    String::from_str("http://localhost:8080")
}

/// The tenant used when nothing else names one: no tenant scoping.
pub fn default_tenant() -> (r: String)
    ensures
        r@ == unscoped_tenant(),
{
    String::from_str("_")
}

/// The map that a list of named profiles stands for; a later name wins.
pub open spec fn profiles_map(s: Seq<(String, ProfileConfig)>) -> Map<Seq<char>, ProfileView>
    decreases s.len(),
{
    if s.len() == 0 {
        Map::empty()
    } else {
        profiles_map(s.drop_last()).insert(s.last().0@, s.last().1@)
    }
}

/// Whether no name occurs twice.
pub open spec fn names_unique(s: Seq<(String, ProfileConfig)>) -> bool {
    forall|i: int, j: int| 0 <= i < s.len() && 0 <= j < s.len() && i != j ==> s[i].0@ != s[j].0@
}

proof fn lemma_profiles_map_at(s: Seq<(String, ProfileConfig)>, i: int)
    requires
        names_unique(s),
        0 <= i < s.len(),
    ensures
        profiles_map(s).contains_key(s[i].0@),
        profiles_map(s)[s[i].0@] == s[i].1@,
    decreases s.len(),
{
    if i < s.len() - 1 {
        lemma_profiles_map_at(s.drop_last(), i);
    }
}

proof fn lemma_profiles_map_absent(s: Seq<(String, ProfileConfig)>, k: Seq<char>)
    requires
        forall|i: int| 0 <= i < s.len() ==> s[i].0@ != k,
    ensures
        !profiles_map(s).contains_key(k),
    decreases s.len(),
{
    if s.len() > 0 {
        lemma_profiles_map_absent(s.drop_last(), k);
    }
}

proof fn lemma_profiles_map_len(s: Seq<(String, ProfileConfig)>)
    requires
        names_unique(s),
    ensures
        profiles_map(s).len() == s.len(),
        profiles_map(s).dom().finite(),
    decreases s.len(),
{
    if s.len() > 0 {
        lemma_profiles_map_len(s.drop_last());
        lemma_profiles_map_absent(s.drop_last(), s.last().0@);
    }
}

proof fn lemma_profiles_map_update(s: Seq<(String, ProfileConfig)>, i: int, e: (String, ProfileConfig))
    requires
        names_unique(s),
        0 <= i < s.len(),
        e.0@ == s[i].0@,
    ensures
        profiles_map(s.update(i, e)) == profiles_map(s).insert(e.0@, e.1@),
    decreases s.len(),
{
    let t = s.update(i, e);
    if i == s.len() - 1 {
        assert(t.drop_last() == s.drop_last());
        lemma_profiles_map_absent(s.drop_last(), e.0@);
        assert(profiles_map(t) =~= profiles_map(s).insert(e.0@, e.1@));
    } else {
        lemma_profiles_map_update(s.drop_last(), i, e);
        assert(t.drop_last() == s.drop_last().update(i, e));
        assert(profiles_map(t) =~= profiles_map(s).insert(e.0@, e.1@));
    }
}

/// The position of the profile called `name` in `entries`, if there is one.
fn position(entries: &Vec<(String, ProfileConfig)>, name: &str) -> (r: Option<usize>)
    ensures
        match r {
            Some(i) => i < entries@.len() && entries@[i as int].0@ == name@,
            None => forall|i: int| 0 <= i < entries@.len() ==> entries@[i].0@ != name@,
        },
{
    let mut i: usize = 0;
    while i < entries.len()
        invariant
            i <= entries@.len(),
            forall|j: int| 0 <= j < i ==> entries@[j].0@ != name@,
        decreases entries.len() - i,
    {
        if same_text(entries[i].0.as_str(), name) {
            return Some(i);
        }
        i = i + 1;
    }
    None
}

/// Named profiles, each name at most once.
#[derive(Debug)]
pub struct ProfileMap {
    entries: Vec<(String, ProfileConfig)>,
}

impl View for ProfileMap {
    type V = Map<Seq<char>, ProfileView>;

    closed spec fn view(&self) -> Map<Seq<char>, ProfileView> {
        profiles_map(self.entries@)
    }
}

impl ProfileMap {
    #[verifier::type_invariant]
    spec fn inv(&self) -> bool {
        names_unique(self.entries@)
    }

    /// No profiles.
    pub fn new() -> (r: ProfileMap)
        ensures
            r@ == Map::<Seq<char>, ProfileView>::empty(),
    {
        ProfileMap { entries: Vec::new() }
    }

    /// The profile called `name`, if there is one.
    pub fn get(&self, name: &str) -> (r: Option<&ProfileConfig>)
        ensures
            r.is_some() == self@.contains_key(name@),
            r.is_some() ==> r.unwrap()@ == self@[name@],
    {
        proof {
            use_type_invariant(self);
        }
        match position(&self.entries, name) {
            Some(i) => {
                proof {
                    lemma_profiles_map_at(self.entries@, i as int);
                }
                Some(&self.entries[i].1)
            },
            None => {
                proof {
                    lemma_profiles_map_absent(self.entries@, name@);
                }
                None
            },
        }
    }

    /// Whether a profile called `name` exists.
    pub fn contains_key(&self, name: &str) -> (r: bool)
        ensures
            r == self@.contains_key(name@),
    {
        self.get(name).is_some()
    }

    /// Sets the profile called `name`, replacing one of that name.
    pub fn insert(&mut self, name: String, profile: ProfileConfig)
        ensures
            final(self)@ == old(self)@.insert(name@, profile@),
    {
        proof {
            use_type_invariant(&*self);
        }
        let mut entries: Vec<(String, ProfileConfig)> = Vec::new();
        std::mem::swap(&mut entries, &mut self.entries);
        let ghost before = entries@;
        match position(&entries, name.as_str()) {
            Some(i) => {
                let e = (name, profile);
                proof {
                    lemma_profiles_map_update(before, i as int, e);
                }
                entries.set(i, e);
                assert(entries@ == before.update(i as int, e));
            },
            None => {
                let e = (name, profile);
                entries.push(e);
                assert(entries@.drop_last() == before);
            },
        }
        self.entries = entries;
    }

    /// The number of profiles.
    pub fn len(&self) -> (r: usize)
        ensures
            r == self@.len(),
    {
        proof {
            use_type_invariant(self);
            lemma_profiles_map_len(self.entries@);
        }
        self.entries.len()
    }

    /// Whether there are no profiles.
    pub fn is_empty(&self) -> (r: bool)
        ensures
            r == (self@.len() == 0),
    {
        self.len() == 0
    }

    /// The profiles with their names, each name once.
    pub fn entries(&self) -> (r: &Vec<(String, ProfileConfig)>)
        ensures
            profiles_map(r@) == self@,
            names_unique(r@),
    {
        proof {
            use_type_invariant(self);
        }
        &self.entries
    }
}


/// An optional borrowed text, seen as characters.
pub open spec fn opt_str(o: Option<&str>) -> Option<Seq<char>> {
    match o {
        Some(s) => Some(s@),
        None => None,
    }
}

/// The configuration document with its defaults, default credentials and
/// named profiles.
#[derive(Debug)]
pub struct Config {
    pub default: DefaultConfig,
    pub auth: AuthConfig,
    pub profiles: ProfileMap,
}

impl View for Config {
    type V = ConfigView;

    open spec fn view(&self) -> ConfigView {
        ConfigView {
            host: self.default.host@,
            tenant: self.default.tenant@,
            auth: self.auth@,
            profiles: self.profiles@,
        }
    }
}

/// The document that holds nothing but the built-in defaults.
pub open spec fn empty_config() -> ConfigView {
    ConfigView {
        host: fallback_host(),
        tenant: unscoped_tenant(),
        auth: no_auth(),
        profiles: Map::empty(),
    }
}

impl Default for Config {
    fn default() -> (r: Config)
        ensures
            r@ == empty_config(),
    {
        Config { default: DefaultConfig::default(), auth: AuthConfig::default(), profiles: ProfileMap::new() }
    }
}

/// The profile that `profile` selects, if it names one that exists.
pub open spec fn selected(c: ConfigView, profile: Option<Seq<char>>) -> Option<ProfileView> {
    match profile {
        Some(p) => if c.profiles.contains_key(p) {
            Some(c.profiles[p])
        } else {
            None
        },
        None => None,
    }
}

/// The host of the selected profile, else the document's default host.
pub open spec fn host_of(c: ConfigView, profile: Option<Seq<char>>) -> Seq<char> {
    match selected(c, profile) {
        Some(p) => p.host,
        None => c.host,
    }
}

/// The tenant of the selected profile, else the document's default tenant.
pub open spec fn tenant_of(c: ConfigView, profile: Option<Seq<char>>) -> Seq<char> {
    match selected(c, profile) {
        Some(p) => p.tenant,
        None => c.tenant,
    }
}

/// The credentials of the selected profile, else the document's own.
pub open spec fn auth_of(c: ConfigView, profile: Option<Seq<char>>) -> AuthView {
    match selected(c, profile) {
        Some(p) => p.auth,
        None => c.auth,
    }
}

/// The production profile that a freshly initialised document carries.
pub open spec fn example_profile() -> ProfileView {
    ProfileView { host: "https://api.example.com"@, tenant: "prod"@, auth: no_auth() }
}

fn copy_text(o: &Option<String>) -> (r: Option<String>)
    ensures
        r == *o,
{
    match o {
        Some(s) => Some(s.clone()),
        None => None,
    }
}

fn copy_auth(a: &AuthConfig) -> (r: AuthConfig)
    ensures
        r@ == a@,
{
    AuthConfig { username: copy_text(&a.username), password: copy_text(&a.password) }
}

fn copy_profile(p: &ProfileConfig) -> (r: ProfileConfig)
    ensures
        r@ == p@,
{
    ProfileConfig { host: p.host.clone(), tenant: p.tenant.clone(), auth: copy_auth(&p.auth) }
}

impl Config {
    /// The document that `config init` writes: the defaults and an example
    /// production profile.
    pub fn init_default() -> (r: Config)
        ensures
            r@ == (ConfigView {
                profiles: map![ "production"@ => example_profile() ],
                ..empty_config()
            }),
    {
        let mut profiles = ProfileMap::new();
        profiles.insert(
            String::from_str("production"),
            ProfileConfig {
                host: String::from_str("https://api.example.com"),
                tenant: String::from_str("prod"),
                auth: AuthConfig::default(),
            },
        );
        let r = Config { default: DefaultConfig::default(), auth: AuthConfig::default(), profiles };
        assert(r@.profiles =~= map![ "production"@ => example_profile() ]);
        r
    }

    /// The profile called `name`, if there is one.
    pub fn get_profile(&self, name: &str) -> (r: Option<&ProfileConfig>)
        ensures
            r.is_some() == self@.profiles.contains_key(name@),
            r.is_some() ==> r.unwrap()@ == self@.profiles[name@],
    {
        self.profiles.get(name)
    }

    /// The host of the selected profile, else the default host.
    pub fn get_host(&self, profile: Option<&str>) -> (r: String)
        ensures
            r@ == host_of(self@, opt_str(profile)),
    {
        match profile {
            Some(p) => match self.get_profile(p) {
                Some(found) => found.host.clone(),
                None => self.default.host.clone(),
            },
            None => self.default.host.clone(),
        }
    }

    /// The tenant of the selected profile, else the default tenant.
    pub fn get_tenant(&self, profile: Option<&str>) -> (r: String)
        ensures
            r@ == tenant_of(self@, opt_str(profile)),
    {
        match profile {
            Some(p) => match self.get_profile(p) {
                Some(found) => found.tenant.clone(),
                None => self.default.tenant.clone(),
            },
            None => self.default.tenant.clone(),
        }
    }

    /// The username and password of the selected profile, else the
    /// document's own.
    pub fn get_auth(&self, profile: Option<&str>) -> (r: (Option<String>, Option<String>))
        ensures
            (AuthView { username: opt_text(r.0), password: opt_text(r.1) }) == auth_of(
                self@,
                opt_str(profile),
            ),
    {
        let auth = match profile {
            Some(p) => match self.get_profile(p) {
                Some(found) => &found.auth,
                None => &self.auth,
            },
            None => &self.auth,
        };
        (copy_text(&auth.username), copy_text(&auth.password))
    }
}

/// Whether `parts` is exactly the two words `a` and `b`.
pub open spec fn is_key2(parts: Seq<Seq<char>>, a: Seq<char>, b: Seq<char>) -> bool {
    parts.len() == 2 && parts[0] == a && parts[1] == b
}

/// Whether `parts` is `profiles`, a profile name, then the word `field`.
pub open spec fn is_profile_key(parts: Seq<Seq<char>>, field: Seq<char>) -> bool {
    parts.len() == 3 && parts[0] == "profiles"@ && parts[2] == field
}

/// The profile called `name` after its host is set: a new profile starts
/// unscoped and without credentials.
pub open spec fn with_profile_host(c: ConfigView, name: Seq<char>, value: Seq<char>) -> ProfileView {
    if c.profiles.contains_key(name) {
        ProfileView { host: value, ..c.profiles[name] }
    } else {
        ProfileView { host: value, tenant: unscoped_tenant(), auth: no_auth() }
    }
}

/// The profile called `name` after its tenant is set: a new profile starts
/// on the fallback host and without credentials.
pub open spec fn with_profile_tenant(c: ConfigView, name: Seq<char>, value: Seq<char>) -> ProfileView {
    if c.profiles.contains_key(name) {
        ProfileView { tenant: value, ..c.profiles[name] }
    } else {
        ProfileView { host: fallback_host(), tenant: value, auth: no_auth() }
    }
}

/// The document after `key` is set to `value`, or `None` for a key that
/// names no setting. Keys are dot-separated paths.
pub open spec fn config_after_set(c: ConfigView, key: Seq<char>, value: Seq<char>) -> Option<ConfigView> {
    let parts = split_text(key, '.');
    if is_key2(parts, "default"@, "host"@) {
        Some(ConfigView { host: value, ..c })
    } else if is_key2(parts, "default"@, "tenant"@) {
        Some(ConfigView { tenant: value, ..c })
    } else if is_key2(parts, "auth"@, "username"@) {
        Some(ConfigView { auth: AuthView { username: Some(value), ..c.auth }, ..c })
    } else if is_key2(parts, "auth"@, "password"@) {
        Some(ConfigView { auth: AuthView { password: Some(value), ..c.auth }, ..c })
    } else if is_profile_key(parts, "host"@) {
        Some(ConfigView {
            profiles: c.profiles.insert(parts[1], with_profile_host(c, parts[1], value)),
            ..c
        })
    } else if is_profile_key(parts, "tenant"@) {
        Some(ConfigView {
            profiles: c.profiles.insert(parts[1], with_profile_tenant(c, parts[1], value)),
            ..c
        })
    } else {
        None
    }
}

fn key2(parts: &Vec<String>, a: &str, b: &str) -> (r: bool)
    ensures
        r == is_key2(parts@.map_values(|p: String| p@), a@, b@),
{
    parts.len() == 2 && same_text(parts[0].as_str(), a) && same_text(parts[1].as_str(), b)
}

fn profile_key(parts: &Vec<String>, field: &str) -> (r: bool)
    ensures
        r == is_profile_key(parts@.map_values(|p: String| p@), field@),
{
    parts.len() == 3 && same_text(parts[0].as_str(), "profiles") && same_text(
        parts[2].as_str(),
        field,
    )
}

/// Sets the setting that the dot-separated `key` names to `value`; an
/// unknown key leaves the document as it was and is a configuration error.
pub fn set_config_value(config: &mut Config, key: &str, value: &str) -> (r: Result<(), CliError>)
    ensures
        r.is_ok() == config_after_set(old(config)@, key@, value@).is_some(),
        r.is_ok() ==> final(config)@ == config_after_set(old(config)@, key@, value@).unwrap(),
        r.is_err() ==> final(config)@ == old(config)@,
        r matches Err(e) ==> e@ == ErrorView::Config("Invalid configuration key: "@ + key@),
{
    let parts = split(key, '.');
    let ghost pv = parts@.map_values(|p: String| p@);
    if key2(&parts, "default", "host") {
        config.default.host = String::from_str(value);
    } else if key2(&parts, "default", "tenant") {
        config.default.tenant = String::from_str(value);
    } else if key2(&parts, "auth", "username") {
        config.auth.username = Some(String::from_str(value));
    } else if key2(&parts, "auth", "password") {
        config.auth.password = Some(String::from_str(value));
    } else if profile_key(&parts, "host") {
        assert(pv[1] == parts@[1]@);
        let name = parts[1].clone();
        let profile = match config.profiles.get(name.as_str()) {
            Some(p) => ProfileConfig { host: String::from_str(value), ..copy_profile(p) },
            None => ProfileConfig {
                host: String::from_str(value),
                tenant: default_tenant(),
                auth: AuthConfig::default(),
            },
        };
        config.profiles.insert(name, profile);
    } else if profile_key(&parts, "tenant") {
        assert(pv[1] == parts@[1]@);
        let name = parts[1].clone();
        let profile = match config.profiles.get(name.as_str()) {
            Some(p) => ProfileConfig { tenant: String::from_str(value), ..copy_profile(p) },
            None => ProfileConfig {
                host: default_host(),
                tenant: String::from_str(value),
                auth: AuthConfig::default(),
            },
        };
        config.profiles.insert(name, profile);
    } else {
        return Err(
            CliError::Config(String::from_str("Invalid configuration key: ").concat(key)),
        );
    }
    Ok(())
}

/// Whether setting `key` stores a password in plain text.
pub fn stores_password(key: &str) -> (r: bool)
    ensures
        r == is_key2(split_text(key@, '.'), "auth"@, "password"@),
{
    key2(&split(key, '.'), "auth", "password")
}

} // verus!

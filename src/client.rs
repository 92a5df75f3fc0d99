//! The request builder: tenant-scoped URLs, query parameters, and the
//! decision to attach credentials.
use vstd::prelude::*;

use crate::config::{auth_of, opt_text, unscoped_tenant, ConfigView};
use crate::settings::{resolution, EffectiveConfig, SettingsView};
use crate::models::{EntrySummaryPatchRequest, PageRequest, SearchCriteria};
use crate::text::{decimal, decimal_text, digit_char, same_text};

verus! {

/// The client identifier that every request carries.
pub const USER_AGENT: &'static str = "entry-cli/0.1.0";

/// The seconds after which every request fails.
pub const REQUEST_TIMEOUT_SECS: u64 = 30;

/// The HTTP methods that the API uses.
#[derive(Debug, Clone, Copy, PartialEq, Eq, Structural)]
pub enum HttpMethod {
    Get,
    Post,
    Put,
    Patch,
    Delete,
}

/// A request as characters.
pub struct RequestView {
    pub method: HttpMethod,
    pub url: Seq<char>,
    pub query: Seq<(Seq<char>, Seq<char>)>,
    pub content_type: Option<Seq<char>>,
    pub body: Option<Seq<char>>,
    pub auth: Option<(Seq<char>, Seq<char>)>,
}

/// Text pairs seen as characters.
pub open spec fn pairs_text(v: Seq<(String, String)>) -> Seq<(Seq<char>, Seq<char>)> {
    v.map_values(|p: (String, String)| (p.0@, p.1@))
}

/// An optional pair of texts seen as characters.
pub open spec fn opt_pair_text(o: Option<(String, String)>) -> Option<(Seq<char>, Seq<char>)> {
    match o {
        Some(p) => Some((p.0@, p.1@)),
        None => None,
    }
}

/// A fully shaped request: everything the transport needs to send it.
#[derive(Debug, Clone)]
pub struct ApiRequest {
    pub method: HttpMethod,
    pub url: String,
    pub query: Vec<(String, String)>,
    pub content_type: Option<String>,
    pub body: Option<String>,
    pub auth: Option<(String, String)>,
}

impl View for ApiRequest {
    type V = RequestView;

    open spec fn view(&self) -> RequestView {
        RequestView {
            method: self.method,
            url: self.url@,
            query: pairs_text(self.query@),
            content_type: opt_text(self.content_type),
            body: opt_text(self.body),
            auth: opt_pair_text(self.auth),
        }
    }
}

/// The connection settings of a client.
pub struct ClientView {
    pub base: Seq<char>,
    pub tenant: Option<Seq<char>>,
    pub auth: Option<(Seq<char>, Seq<char>)>,
}

/// The URL of `path`: under `/tenants/{tenant}` when a tenant other than the
/// unscoped one is set, else directly under the base endpoint.
pub open spec fn url_for(base: Seq<char>, tenant: Option<Seq<char>>, path: Seq<char>) -> Seq<char> {
    match tenant {
        Some(t) => if t != unscoped_tenant() {
            base + "/tenants/"@ + t + path
        } else {
            base + path
        },
        None => base + path,
    }
}

/// The credentials that go with a request: only a pair whose two parts are
/// both non-empty.
pub open spec fn attached_auth(auth: Option<(Seq<char>, Seq<char>)>) -> Option<(Seq<char>, Seq<char>)> {
    match auth {
        Some(p) => if p.0.len() > 0 && p.1.len() > 0 {
            Some(p)
        } else {
            None
        },
        None => None,
    }
}

/// A request without query or body, with the client's credentials.
pub open spec fn simple_request(c: ClientView, method: HttpMethod, path: Seq<char>) -> RequestView {
    RequestView {
        method,
        url: url_for(c.base, c.tenant, path),
        query: Seq::empty(),
        content_type: None,
        body: None,
        auth: attached_auth(c.auth),
    }
}

/// A request that carries a body of the given content type.
pub open spec fn body_request(
    c: ClientView,
    method: HttpMethod,
    path: Seq<char>,
    content_type: Seq<char>,
    body: Seq<char>,
) -> RequestView {
    RequestView {
        content_type: Some(content_type),
        body: Some(body),
        ..simple_request(c, method, path)
    }
}

/// The path of one entry.
pub open spec fn entry_path(id: u64) -> Seq<char> {
    "/entries/"@ + decimal_text(id as nat)
}

/// A query parameter that is present only when its value is.
pub open spec fn opt_param(name: Seq<char>, value: Option<Seq<char>>) -> Seq<(Seq<char>, Seq<char>)> {
    match value {
        Some(v) => seq![(name, v)],
        None => Seq::empty(),
    }
}

/// The page size as text, if one is given.
pub open spec fn size_text(size: Option<u32>) -> Option<Seq<char>> {
    match size {
        Some(n) => Some(decimal_text(n as nat)),
        None => None,
    }
}

/// The query parameters of a listing, in order: the free-text query, one
/// `categories` pair per category, the tag, the cursor, the size and the
/// direction. Absent values give no parameter; values are passed verbatim.
pub open spec fn listing_query(c: SearchCriteria, p: PageRequest) -> Seq<(Seq<char>, Seq<char>)> {
    opt_param("query"@, opt_text(c.query)) + c.categories@.map_values(
        |s: String| ("categories"@, s@),
    ) + opt_param("tag"@, opt_text(c.tag)) + opt_param("cursor"@, opt_text(p.cursor)) + opt_param(
        "size"@,
        size_text(p.size),
    ) + opt_param("direction"@, opt_text(p.direction))
}

fn push_opt_param(q: &mut Vec<(String, String)>, name: &str, value: &Option<String>)
    ensures
        pairs_text(final(q)@) == pairs_text(old(q)@) + opt_param(name@, opt_text(*value)),
{
    let ghost before = q@;
    if let Some(v) = value {
        q.push((String::from_str(name), v.clone()));
        assert(pairs_text(q@) =~= pairs_text(before) + opt_param(name@, opt_text(*value)));
    } else {
        assert(pairs_text(q@) =~= pairs_text(before) + opt_param(name@, opt_text(*value)));
    }
}

/// The query parameters of a listing.
pub fn query_params(criteria: &SearchCriteria, page: &PageRequest) -> (r: Vec<(String, String)>)
    ensures
        pairs_text(r@) == listing_query(*criteria, *page),
{
    let mut q: Vec<(String, String)> = Vec::new();
    assert(pairs_text(q@) =~= Seq::empty());
    push_opt_param(&mut q, "query", &criteria.query);
    let ghost head = pairs_text(q@);
    let ghost cats = criteria.categories@.map_values(|s: String| ("categories"@, s@));
    let mut i: usize = 0;
    while i < criteria.categories.len()
        invariant
            i <= criteria.categories@.len(),
            cats == criteria.categories@.map_values(|s: String| ("categories"@, s@)),
            pairs_text(q@) == head + cats.take(i as int),
        decreases criteria.categories.len() - i,
    {
        let ghost before = q@;
        q.push((String::from_str("categories"), criteria.categories[i].clone()));
        assert(cats.take(i + 1) == cats.take(i as int).push(cats[i as int]));
        assert(pairs_text(q@) =~= pairs_text(before).push(cats[i as int]));
        i = i + 1;
    }
    assert(cats.take(criteria.categories@.len() as int) == cats);
    push_opt_param(&mut q, "tag", &criteria.tag);
    push_opt_param(&mut q, "cursor", &page.cursor);
    let size = match page.size {
        Some(n) => Some(decimal(n as u64)),
        None => None,
    };
    assert(opt_text(size) == size_text(page.size));
    push_opt_param(&mut q, "size", &size);
    push_opt_param(&mut q, "direction", &page.direction);
    q
}

/// A lower-case hexadecimal digit.
pub open spec fn lower_hex_digit(d: int) -> char {
    if d < 10 {
        digit_char(d as nat)
    } else if d == 10 {
        'a'
    } else if d == 11 {
        'b'
    } else if d == 12 {
        'c'
    } else if d == 13 {
        'd'
    } else if d == 14 {
        'e'
    } else {
        'f'
    }
}

/// How one character stands inside a JSON string: the quote and the
/// backslash are escaped, the five control characters with a short escape
/// use it, every other control character below U+0020 is written `\u00xx`,
/// and every other character stands for itself.
pub open spec fn json_char_text(c: char) -> Seq<char> {
    if c == '"' {
        seq!['\\', '"']
    } else if c == '\\' {
        seq!['\\', '\\']
    } else if c == '\x08' {
        seq!['\\', 'b']
    } else if c == '\t' {
        seq!['\\', 't']
    } else if c == '\n' {
        seq!['\\', 'n']
    } else if c == '\x0C' {
        seq!['\\', 'f']
    } else if c == '\r' {
        seq!['\\', 'r']
    } else if (c as u32) < 0x20 {
        seq![
            '\\',
            'u',
            '0',
            '0',
            lower_hex_digit((c as u32) as int / 16),
            lower_hex_digit((c as u32) as int % 16),
        ]
    } else {
        seq![c]
    }
}

/// The characters of a text, each as it stands inside a JSON string.
pub open spec fn json_escaped(s: Seq<char>) -> Seq<char>
    decreases s.len(),
{
    if s.len() == 0 {
        Seq::empty()
    } else {
        json_escaped(s.drop_last()) + json_char_text(s.last())
    }
}

/// The JSON text of a string value: the escaped text between double quotes.
pub open spec fn json_string_text(s: Seq<char>) -> Seq<char> {
    seq!['"'] + json_escaped(s) + seq!['"']
}

/// Relies on `serde_json::to_string`: a string serialises to its JSON text,
/// with the escapes of serde_json's escape table (writing into memory does
/// not fail).
#[verifier::external_body]
fn json_string(s: &str) -> (r: String)
    ensures
        r@ == json_string_text(s@),
{
    serde_json::to_string(s).unwrap_or_default()
}

/// The JSON object of a summary patch around the JSON text of the summary.
pub open spec fn summary_patch_text(quoted_summary: Seq<char>) -> Seq<char> {
    "{\"summary\":"@ + quoted_summary + "}"@
}

/// Frames the JSON text of a summary as the body of a summary patch.
pub fn summary_patch_body(quoted_summary: &str) -> (r: String)
    ensures
        r@ == summary_patch_text(quoted_summary@),
{
    String::from_str("{\"summary\":").concat(quoted_summary).concat("}")
}

impl EntrySummaryPatchRequest {
    /// The JSON body of this patch.
    pub fn to_json(&self) -> (r: String)
        ensures
            r@ == summary_patch_text(json_string_text(self.summary@)),
    {
        summary_patch_body(json_string(self.summary.as_str()).as_str())
    }
}

/// The connection settings that every request of one invocation shares.
#[derive(Debug, Clone)]
pub struct EntryClient {
    base_url: String,
    tenant_id: Option<String>,
    auth: Option<(String, String)>,
}

impl View for EntryClient {
    type V = ClientView;

    closed spec fn view(&self) -> ClientView {
        ClientView {
            base: self.base_url@,
            tenant: opt_text(self.tenant_id),
            auth: opt_pair_text(self.auth),
        }
    }
}

/// The client that resolved settings describe: scoped to their tenant unless
/// it is the unscoped one, with their credentials when both parts are
/// present and non-empty.
pub open spec fn client_for(s: SettingsView) -> ClientView {
    ClientView {
        base: s.endpoint,
        tenant: if s.tenant != unscoped_tenant() {
            Some(s.tenant)
        } else {
            None
        },
        auth: match (s.username, s.password) {
            (Some(u), Some(p)) => if u.len() > 0 && p.len() > 0 {
                Some((u, p))
            } else {
                None
            },
            _ => None,
        },
    }
}

impl EntryClient {
    /// A client for `base_url`, unscoped and without credentials.
    pub fn new(base_url: String) -> (r: EntryClient)
        ensures
            r@ == (ClientView { base: base_url@, tenant: None, auth: None }),
    {
        EntryClient { base_url, tenant_id: None, auth: None }
    }

    /// The same client scoped to `tenant_id`.
    pub fn with_tenant(self, tenant_id: String) -> (r: EntryClient)
        ensures
            r@ == (ClientView { tenant: Some(tenant_id@), ..self@ }),
    {
        EntryClient { tenant_id: Some(tenant_id), ..self }
    }

    /// The same client with credentials.
    pub fn with_auth(self, username: String, password: String) -> (r: EntryClient)
        ensures
            r@ == (ClientView { auth: Some((username@, password@)), ..self@ }),
    {
        EntryClient { auth: Some((username, password)), ..self }
    }

    /// The client for resolved settings.
    pub fn from_settings(settings: &EffectiveConfig) -> (r: EntryClient)
        ensures
            r@ == client_for(settings@),
    {
        let mut client = EntryClient::new(settings.endpoint.clone());
        if !same_text(settings.tenant.as_str(), "_") {
            client = client.with_tenant(settings.tenant.clone());
        }
        match (&settings.username, &settings.password) {
            (Some(u), Some(p)) => {
                if !u.as_str().is_empty() && !p.as_str().is_empty() {
                    client = client.with_auth(u.clone(), p.clone());
                }
            },
            _ => {},
        }
        client
    }

    /// The URL of `path` for this client's tenant.
    pub fn build_url(&self, path: &str) -> (r: String)
        ensures
            r@ == url_for(self@.base, self@.tenant, path@),
    {
        match &self.tenant_id {
            Some(t) => {
                if !same_text(t.as_str(), "_") {
                    self.base_url.clone().concat("/tenants/").concat(t.as_str()).concat(path)
                } else {
                    self.base_url.clone().concat(path)
                }
            },
            None => self.base_url.clone().concat(path),
        }
    }

    /// The credentials to attach to a request, if both parts are non-empty.
    pub fn credentials(&self) -> (r: Option<(String, String)>)
        ensures
            opt_pair_text(r) == attached_auth(self@.auth),
    {
        match &self.auth {
            Some((u, p)) => {
                if !u.as_str().is_empty() && !p.as_str().is_empty() {
                    Some((u.clone(), p.clone()))
                } else {
                    None
                }
            },
            None => None,
        }
    }

    fn simple(&self, method: HttpMethod, path: &str) -> (r: ApiRequest)
        ensures
            r@ == simple_request(self@, method, path@),
    {
        let r = ApiRequest {
            method,
            url: self.build_url(path),
            query: Vec::new(),
            content_type: None,
            body: None,
            auth: self.credentials(),
        };
        assert(r@.query =~= Seq::empty());
        r
    }

    fn with_body(&self, method: HttpMethod, path: &str, content_type: &str, body: &str) -> (r:
        ApiRequest)
        ensures
            r@ == body_request(self@, method, path@, content_type@, body@),
    {
        let mut r = self.simple(method, path);
        r.content_type = Some(String::from_str(content_type));
        r.body = Some(String::from_str(body));
        r
    }

    /// The request that lists entries matching `criteria`, one page of them.
    pub fn list_entries_request(&self, criteria: &SearchCriteria, page: &PageRequest) -> (r:
        ApiRequest)
        ensures
            r@ == (RequestView {
                query: listing_query(*criteria, *page),
                ..simple_request(self@, HttpMethod::Get, "/entries"@)
            }),
    {
        let mut r = self.simple(HttpMethod::Get, "/entries");
        r.query = query_params(criteria, page);
        r
    }

    /// The request of a free-text search: the first page of up to fifty
    /// entries matching `query`, with no other filter.
    pub fn search_entries_request(&self, query: &str) -> (r: ApiRequest)
        ensures
            r@ == (RequestView {
                query: seq![("query"@, query@), ("size"@, decimal_text(50))],
                ..simple_request(self@, HttpMethod::Get, "/entries"@)
            }),
    {
        let criteria = SearchCriteria {
            query: Some(String::from_str(query)),
            categories: Vec::new(),
            tag: None,
        };
        let page = PageRequest { cursor: None, size: Some(50), direction: None };
        let r = self.list_entries_request(&criteria, &page);
        assert(criteria.categories@.map_values(|s: String| ("categories"@, s@)) =~= Seq::empty());
        assert(r@.query =~= seq![("query"@, query@), ("size"@, decimal_text(50))]);
        r
    }

    /// The request that fetches one entry.
    pub fn get_entry_request(&self, entry_id: u64) -> (r: ApiRequest)
        ensures
            r@ == simple_request(self@, HttpMethod::Get, entry_path(entry_id)),
    {
        let path = String::from_str("/entries/").concat(decimal(entry_id).as_str());
        self.simple(HttpMethod::Get, path.as_str())
    }

    /// The request that fetches one entry as raw markdown.
    pub fn get_entry_markdown_request(&self, entry_id: u64) -> (r: ApiRequest)
        ensures
            r@ == simple_request(self@, HttpMethod::Get, entry_path(entry_id) + ".md"@),
    {
        let path = String::from_str("/entries/").concat(decimal(entry_id).as_str()).concat(".md");
        self.simple(HttpMethod::Get, path.as_str())
    }

    /// The request that creates an entry from markdown.
    pub fn create_entry_request(&self, markdown: &str) -> (r: ApiRequest)
        ensures
            r@ == body_request(self@, HttpMethod::Post, "/entries"@, "text/markdown"@, markdown@),
    {
        self.with_body(HttpMethod::Post, "/entries", "text/markdown", markdown)
    }

    /// The request that replaces an entry with markdown.
    pub fn update_entry_request(&self, entry_id: u64, markdown: &str) -> (r: ApiRequest)
        ensures
            r@ == body_request(
                self@,
                HttpMethod::Put,
                entry_path(entry_id),
                "text/markdown"@,
                markdown@,
            ),
    {
        let path = String::from_str("/entries/").concat(decimal(entry_id).as_str());
        self.with_body(HttpMethod::Put, path.as_str(), "text/markdown", markdown)
    }

    /// The request that replaces an entry's summary.
    pub fn update_entry_summary_request(&self, entry_id: u64, summary: &str) -> (r: ApiRequest)
        ensures
            r@ == body_request(
                self@,
                HttpMethod::Patch,
                entry_path(entry_id) + "/summary"@,
                "application/json"@,
                summary_patch_text(json_string_text(summary@)),
            ),
    {
        let patch = EntrySummaryPatchRequest { summary: String::from_str(summary) };
        let body = patch.to_json();
        let path = String::from_str("/entries/").concat(decimal(entry_id).as_str()).concat(
            "/summary",
        );
        self.with_body(HttpMethod::Patch, path.as_str(), "application/json", body.as_str())
    }

    /// The request that deletes an entry.
    pub fn delete_entry_request(&self, entry_id: u64) -> (r: ApiRequest)
        ensures
            r@ == simple_request(self@, HttpMethod::Delete, entry_path(entry_id)),
    {
        let path = String::from_str("/entries/").concat(decimal(entry_id).as_str());
        self.simple(HttpMethod::Delete, path.as_str())
    }

    /// The request that lists all category paths.
    pub fn list_categories_request(&self) -> (r: ApiRequest)
        ensures
            r@ == simple_request(self@, HttpMethod::Get, "/categories"@),
    {
        self.simple(HttpMethod::Get, "/categories")
    }

    /// The request that lists all tags with their counts.
    pub fn list_tags_request(&self) -> (r: ApiRequest)
        ensures
            r@ == simple_request(self@, HttpMethod::Get, "/tags"@),
    {
        self.simple(HttpMethod::Get, "/tags")
    }

    /// The request that fetches the template of a new entry: never scoped to
    /// a tenant, and carrying the client's credentials like every request.
    pub fn get_template_request(&self) -> (r: ApiRequest)
        ensures
            r@ == (RequestView {
                method: HttpMethod::Get,
                url: self@.base + "/entries/template.md"@,
                query: Seq::empty(),
                content_type: None,
                body: None,
                auth: attached_auth(self@.auth),
            }),
    {
        let r = ApiRequest {
            method: HttpMethod::Get,
            url: self.base_url.clone().concat("/entries/template.md"),
            query: Vec::new(),
            content_type: None,
            body: None,
            auth: self.credentials(),
        };
        assert(r@.query =~= Seq::empty());
        r
    }
}

/// Without a tenant, or with the unscoped one, a URL is the base endpoint
/// followed by the path, with no tenant segment.
pub proof fn unscoped_url_is_base_and_path(base: Seq<char>, tenant: Option<Seq<char>>, path: Seq<char>)
    requires
        tenant is None || tenant == Some(unscoped_tenant()),
    ensures
        url_for(base, tenant, path) == base + path,
{
}

/// With any tenant other than the unscoped one, a URL is the base endpoint,
/// `/tenants/`, the tenant, then the path.
pub proof fn scoped_url_has_tenant_segment(base: Seq<char>, tenant: Seq<char>, path: Seq<char>)
    requires
        tenant != unscoped_tenant(),
    ensures
        url_for(base, Some(tenant), path) == base + "/tenants/"@ + tenant + path,
{
}

/// Whatever mix of explicit and inherited credentials resolution combines,
/// requests carry credentials exactly when the resolved username and
/// password are both present and non-empty, and then carry those two.
pub proof fn credentials_attached_iff_both_non_empty(
    url: Option<Seq<char>>,
    tenant: Option<Seq<char>>,
    user: Option<Seq<char>>,
    password: Option<Seq<char>>,
    profile: Option<Seq<char>>,
    c: ConfigView,
)
    ensures
        ({
            let s = resolution(url, tenant, user, password, profile, c);
            let attached = attached_auth(client_for(s).auth);
            &&& attached.is_some() <==> (s.username is Some && s.username.unwrap().len() > 0
                && s.password is Some && s.password.unwrap().len() > 0)
            &&& attached matches Some(pair) ==> pair == (s.username.unwrap(), s.password.unwrap())
            &&& s.username == (if user.is_some() {
                user
            } else {
                auth_of(c, profile).username
            })
            &&& s.password == (if password.is_some() {
                password
            } else {
                auth_of(c, profile).password
            })
        }),
{
}

} // verus!

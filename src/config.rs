//! Process-wide settings, built once and passed to every request handler.
use vstd::prelude::*;
use vstd::string::StringExecFns;
use crate::router::{host_for, routes_to, subdomain_slug};

verus! {

/// The service's settings: where previews are stored, the domain they live
/// beneath, the shared upload token, and whether preview URLs use https.
pub struct Config {
    pub data_dir: String,
    pub base_domain: String,
    pub api_token: String,
    pub use_https: bool,
}

/// The URL scheme that preview links carry.
pub open spec fn scheme_of(use_https: bool) -> Seq<char> {
    if use_https {
        seq!['h', 't', 't', 'p', 's']
    } else {
        seq!['h', 't', 't', 'p']
    }
}

/// The link handed back for the preview `slug`: `scheme://slug.base`.
pub open spec fn preview_url_of(use_https: bool, slug: Seq<char>, base: Seq<char>) -> Seq<char> {
    scheme_of(use_https) + seq![':', '/', '/'] + host_for(slug, base)
}

impl Config {
    pub fn new(data_dir: String, base_domain: String, api_token: String, use_https: bool) -> (r:
        Config)
        ensures
            r.data_dir == data_dir,
            r.base_domain == base_domain,
            r.api_token == api_token,
            r.use_https == use_https,
    {
        Config { data_dir, base_domain, api_token, use_https }
    }

    /// `"https"` or `"http"`, as the settings ask.
    pub fn scheme(&self) -> (r: &'static str)
        ensures
            r@ == scheme_of(self.use_https),
    {
        proof {
            reveal_strlit("https");
            reveal_strlit("http");
        }
        if self.use_https {
            "https"
        } else {
            "http"
        }
    }

    /// The preview link for `slug`.
    pub fn preview_url(&self, slug: &str) -> (r: String)
        ensures
            r@ == preview_url_of(self.use_https, slug@, self.base_domain@),
    {
        proof {
            reveal_strlit("://");
            reveal_strlit(".");
        }
        let mut r = String::from_str(self.scheme());
        r.append("://");
        r.append(slug);
        r.append(".");
        r.append(self.base_domain.as_str());
        proof {
            assert(r@ =~= preview_url_of(self.use_https, slug@, self.base_domain@));
        }
        r
    }

    /// The slug of the preview that `host` names beneath this service's base
    /// domain, if it names one.
    pub fn route_host(&self, host: &str) -> (r: Option<String>)
        ensures
            r matches Some(s) ==> routes_to(host@, self.base_domain@, s@),
            r is None ==> forall|l: Seq<char>| !routes_to(host@, self.base_domain@, l),
    {
        subdomain_slug(host, self.base_domain.as_str())
    }
}

} // verus!

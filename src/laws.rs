//! What holds of the service as a whole, stated over the spec functions that
//! the public functions' contracts use.
use vstd::prelude::*;
use crate::config::{preview_url_of, scheme_of};
use crate::router::{host_for, is_label_char, routes_to};
use crate::slug::{is_slug, lemma_slug_is_label};
use crate::upload::{gate_of, message_of, status_of, UploadError};

verus! {

/// An accepted upload is answered with `scheme://slug.base`, and that
/// hostname routes back to the slug, so its content is served there.
pub proof fn lemma_preview_link_routes_back(use_https: bool, slug: Seq<char>, base: Seq<char>)
    requires
        is_slug(slug),
    ensures
        preview_url_of(use_https, slug, base) == scheme_of(use_https) + seq![':', '/', '/']
            + host_for(slug, base),
        routes_to(host_for(slug, base), base, slug),
{
    lemma_slug_is_label(slug);
    assert(host_for(slug, base).len() > base.len());
}

/// A wrong token is answered `401`, whatever the host.
pub proof fn lemma_wrong_token_unauthorized(
    token: Seq<char>,
    host: Seq<char>,
    api_token: Seq<char>,
    base: Seq<char>,
)
    requires
        token != api_token,
    ensures
        gate_of(token, host, api_token, base) == Err::<(), UploadError>(UploadError::Unauthorized),
        status_of(UploadError::Unauthorized) == 401,
{
}

/// The right token presented at a host other than the base domain is
/// answered `404`.
pub proof fn lemma_foreign_host_not_found(
    token: Seq<char>,
    host: Seq<char>,
    api_token: Seq<char>,
    base: Seq<char>,
)
    requires
        token == api_token,
        host != base,
    ensures
        gate_of(token, host, api_token, base) == Err::<(), UploadError>(UploadError::InvalidHost),
        status_of(UploadError::InvalidHost) == 404,
{
}

/// An upload whose form holds no `file` field is answered `400`.
pub proof fn lemma_missing_file_bad_request()
    ensures
        status_of(UploadError::NoFile) == 400,
        message_of(UploadError::NoFile) == "No file provided"@,
{
}

/// A hostname whose first label holds a character other than an ASCII
/// letter, digit or hyphen names no preview.
pub proof fn lemma_bad_label_not_found(label: Seq<char>, base: Seq<char>, i: int)
    requires
        0 <= i < label.len(),
        !is_label_char(label[i]),
    ensures
        forall|s: Seq<char>| !routes_to(#[trigger] host_for(label, base), base, s),
{
    assert forall|s: Seq<char>| !routes_to(#[trigger] host_for(label, base), base, s) by {
        if routes_to(host_for(label, base), base, s) {
            let h = host_for(label, base);
            assert(h.len() == label.len() + 1 + base.len());
            assert(host_for(s, base).len() == s.len() + 1 + base.len());
            assert(s.len() == label.len());
            assert(h[i] == label[i]);
            assert(h[i] == s[i]);
            assert(is_label_char(s[i]));
        }
    }
}

/// The bare base domain names no preview, whatever the path.
pub proof fn lemma_base_domain_not_found(base: Seq<char>)
    ensures
        forall|s: Seq<char>| !routes_to(base, base, s),
{
}

} // verus!

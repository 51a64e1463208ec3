//! Host-based routing: from a request's Host header to the preview it names.
use vstd::prelude::*;
use vstd::string::{StrSliceExecFns, StringExecFns};
use crate::text::same_text;

verus! {

/// A character allowed in a routed subdomain label: an ASCII letter, an ASCII
/// digit or a hyphen.
pub open spec fn is_label_char(c: char) -> bool {
    ('a' <= c && c <= 'z') || ('A' <= c && c <= 'Z') || ('0' <= c && c <= '9') || c == '-'
}

/// A label that routing accepts as a slug: non-empty, made of label characters.
pub open spec fn is_valid_label(l: Seq<char>) -> bool {
    &&& l.len() > 0
    &&& forall|i: int| 0 <= i < l.len() ==> is_label_char(#[trigger] l[i])
}

/// The hostname under which the preview `slug` is served.
pub open spec fn host_for(slug: Seq<char>, base: Seq<char>) -> Seq<char> {
    slug + seq!['.'] + base
}

/// `host` names the preview `slug` beneath `base`: it is not the base domain
/// itself, its first label is `slug`, a valid label, and the labels after it
/// spell the base domain exactly.
pub open spec fn routes_to(host: Seq<char>, base: Seq<char>, slug: Seq<char>) -> bool {
    &&& host != base
    &&& is_valid_label(slug)
    &&& host == host_for(slug, base)
}

/// A valid label holds no dot, so a hostname names at most one slug.
pub proof fn lemma_route_unique(host: Seq<char>, base: Seq<char>, a: Seq<char>, b: Seq<char>)
    requires
        routes_to(host, base, a),
        routes_to(host, base, b),
    ensures
        a == b,
{
    if a.len() < b.len() {
        assert(host[a.len() as int] == '.');
        assert(host[a.len() as int] == b[a.len() as int]);
    } else if b.len() < a.len() {
        assert(host[b.len() as int] == '.');
        assert(host[b.len() as int] == a[b.len() as int]);
    } else {
        assert forall|i: int| 0 <= i < a.len() implies a[i] == b[i] by {
            assert(host[i] == a[i]);
            assert(host[i] == b[i]);
        }
        assert(a =~= b);
    }
}

/// Derives the preview slug that `host` names beneath `base_domain`, or `None`
/// where the hostname is the base domain itself, does not end in `.` and the
/// base domain after its first label, or has a first label that is empty or
/// holds a character other than an ASCII letter, digit or hyphen.
pub fn subdomain_slug(host: &str, base_domain: &str) -> (r: Option<String>)
    ensures
        r matches Some(s) ==> routes_to(host@, base_domain@, s@),
        r is None ==> forall|l: Seq<char>| !routes_to(host@, base_domain@, l),
{
    if same_text(host, base_domain) {
        return None;
    }
    let n = host.unicode_len();
    let mut dot: usize = 0;
    while dot < n && host.get_char(dot) != '.'
        invariant
            n == host@.len(),
            dot <= n,
            forall|j: int| 0 <= j < dot ==> host@[j] != '.',
        decreases n - dot,
    {
        dot = dot + 1;
    }
    if dot == n {
        proof {
            assert forall|l: Seq<char>| !routes_to(host@, base_domain@, l) by {
                if routes_to(host@, base_domain@, l) {
                    assert(host@[l.len() as int] == '.');
                }
            }
        }
        return None;
    }
    let rest = host.substring_char(dot + 1, n);
    let label = host.substring_char(0, dot);
    if dot == 0 || !same_text(rest, base_domain) {
        proof {
            assert forall|l: Seq<char>| !routes_to(host@, base_domain@, l) by {
                if routes_to(host@, base_domain@, l) {
                    if l.len() < dot {
                        assert(host@[l.len() as int] == '.');
                    } else if l.len() > dot {
                        assert(host@[dot as int] == l[dot as int]);
                    } else {
                        assert(host@.subrange(dot + 1, n as int) =~= base_domain@);
                    }
                }
            }
        }
        return None;
    }
    let mut i: usize = 0;
    while i < dot
        invariant
            label@ == host@.subrange(0, dot as int),
            dot < n == host@.len(),
            host@[dot as int] == '.',
            forall|j: int| 0 <= j < dot ==> host@[j] != '.',
            i <= dot,
            forall|j: int| 0 <= j < i ==> is_label_char(#[trigger] label@[j]),
        decreases dot - i,
    {
        let c = label.get_char(i);
        if !(('a' <= c && c <= 'z') || ('A' <= c && c <= 'Z') || ('0' <= c && c <= '9') || c
            == '-') {
            proof {
                assert forall|l: Seq<char>| !routes_to(host@, base_domain@, l) by {
                    if routes_to(host@, base_domain@, l) {
                        if l.len() < dot {
                            assert(host@[l.len() as int] == '.');
                        } else if l.len() > dot {
                            assert(host@[dot as int] == l[dot as int]);
                        } else {
                            assert(label@[i as int] == host@[i as int]);
                            assert(host@[i as int] == l[i as int]);
                            assert(!is_label_char(l[i as int]));
                        }
                    }
                }
            }
            return None;
        }
        i = i + 1;
    }
    proof {
        assert(host@ =~= host_for(label@, base_domain@));
    }
    Some(String::from_str(label))
}

} // verus!

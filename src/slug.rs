//! Slugs: three random words joined by hyphens, and the bounded-retry
//! allocator that reserves a fresh one for each upload.
use vstd::prelude::*;
use vstd::string::{StrSliceExecFns, StringExecFns};
use crate::router::{host_for, is_label_char, is_valid_label, routes_to};

verus! {

/// How many candidate slugs one upload may draw before it gives up.
pub const MAX_SLUG_ATTEMPTS: u32 = 8;

/// A word that may stand in a slug: non-empty, lowercase ASCII letters and digits.
pub open spec fn is_slug_word(w: Seq<char>) -> bool {
    &&& w.len() > 0
    &&& forall|i: int| 0 <= i < w.len() ==> is_slug_char(#[trigger] w[i])
}

pub open spec fn is_slug_char(c: char) -> bool {
    ('a' <= c && c <= 'z') || ('0' <= c && c <= '9')
}

/// The slug made of three words: `a-b-c`.
pub open spec fn slug_of(a: Seq<char>, b: Seq<char>, c: Seq<char>) -> Seq<char> {
    a + seq!['-'] + b + seq!['-'] + c
}

/// A slug: three slug words joined by hyphens.
pub open spec fn is_slug(s: Seq<char>) -> bool {
    exists|a: Seq<char>, b: Seq<char>, c: Seq<char>|
        is_slug_word(a) && is_slug_word(b) && is_slug_word(c) && s == #[trigger] slug_of(a, b, c)
}

/// Every slug is a label that routing accepts.
pub proof fn lemma_slug_is_label(s: Seq<char>)
    requires
        is_slug(s),
    ensures
        is_valid_label(s),
{
    let (a, b, c) = choose|a: Seq<char>, b: Seq<char>, c: Seq<char>|
        is_slug_word(a) && is_slug_word(b) && is_slug_word(c) && s == #[trigger] slug_of(a, b, c);
    assert forall|i: int| 0 <= i < s.len() implies is_label_char(#[trigger] s[i]) by {
        if i < a.len() {
            assert(s[i] == a[i]);
        } else if i == a.len() {
        } else if i < a.len() + 1 + b.len() {
            assert(s[i] == b[i - a.len() - 1]);
        } else if i == a.len() + 1 + b.len() {
        } else {
            assert(s[i] == c[i - a.len() - 2 - b.len()]);
        }
    }
}

/// Whether `w` may stand in a slug.
pub fn slug_word_ok(w: &str) -> (r: bool)
    ensures
        r == is_slug_word(w@),
{
    let n = w.unicode_len();
    if n == 0 {
        return false;
    }
    let mut i: usize = 0;
    while i < n
        invariant
            n == w@.len(),
            i <= n,
            forall|j: int| 0 <= j < i ==> is_slug_char(#[trigger] w@[j]),
        decreases n - i,
    {
        let c = w.get_char(i);
        if !(('a' <= c && c <= 'z') || ('0' <= c && c <= '9')) {
            return false;
        }
        i = i + 1;
    }
    true
}

/// Joins three words into a slug, or `None` where one of them may not stand
/// in a slug.
pub fn compose_slug(a: &str, b: &str, c: &str) -> (r: Option<String>)
    ensures
        r is Some <==> is_slug_word(a@) && is_slug_word(b@) && is_slug_word(c@),
        r matches Some(s) ==> s@ == slug_of(a@, b@, c@) && is_slug(s@),
{
    if !(slug_word_ok(a) && slug_word_ok(b) && slug_word_ok(c)) {
        return None;
    }
    proof {
        reveal_strlit("-");
    }
    let mut s = String::from_str(a);
    s.append("-");
    s.append(b);
    s.append("-");
    s.append(c);
    proof {
        assert(s@ =~= slug_of(a@, b@, c@));
    }
    Some(s)
}

/// Relies on random_word::gen with the English list: draws one word of that
/// list at random. Which word comes, and what it holds, is left open.
#[verifier::external_body]
fn random_word_en() -> (r: String) {
    random_word::gen(random_word::Lang::En).to_string()
}

/// What exclusive creation of a preview directory reported.
#[derive(PartialEq, Eq, Structural, Clone, Copy, Debug)]
pub enum CreateOutcome {
    /// The directory did not exist and now does.
    Created,
    /// A directory of that name already exists: a collision.
    AlreadyExists,
    /// Creation failed for another reason.
    Failed,
}

/// What the allocator asks for next.
#[derive(Debug)]
pub enum AllocStep {
    /// Create the directory of this candidate slug exclusively, and report back.
    Create(String),
    /// The slug is reserved: its directory was created for this upload.
    Accept(String),
    /// Every attempt collided or drew no usable slug.
    Exhausted,
    /// Directory creation failed for a reason other than a collision.
    Abort,
}

/// Reserves a fresh slug for one upload, drawing at most
/// `MAX_SLUG_ATTEMPTS` candidates.
#[derive(Debug)]
pub struct SlugAllocator {
    /// Candidates drawn so far.
    pub attempts: u32,
    /// The candidate whose directory creation is awaited.
    pub pending: Option<String>,
}

impl SlugAllocator {
    pub open spec fn wf(&self) -> bool {
        &&& self.attempts <= MAX_SLUG_ATTEMPTS
        &&& self.pending matches Some(s) ==> is_slug(s@)
    }

    pub fn new() -> (r: SlugAllocator)
        ensures
            r.wf(),
            r.attempts == 0,
            r.pending is None,
    {
        SlugAllocator { attempts: 0, pending: None }
    }

    /// Counts one attempt and makes the slug of three drawn words the pending
    /// candidate, where they form one.
    pub fn offer(&mut self, a: &str, b: &str, c: &str) -> (r: Option<String>)
        requires
            old(self).wf(),
            old(self).attempts < MAX_SLUG_ATTEMPTS,
        ensures
            final(self).wf(),
            final(self).attempts == old(self).attempts + 1,
            r is Some <==> is_slug_word(a@) && is_slug_word(b@) && is_slug_word(c@),
            r matches Some(s) ==> s@ == slug_of(a@, b@, c@),
            final(self).pending == r,
    {
        self.attempts = self.attempts + 1;
        let r = compose_slug(a, b, c);
        self.pending = match &r {
            Some(s) => Some(s.clone()),
            None => None,
        };
        r
    }

    /// Draws candidates until one forms a slug, and asks for its directory;
    /// gives up once the attempts are spent.
    pub fn next_step(&mut self) -> (r: AllocStep)
        requires
            old(self).wf(),
        ensures
            final(self).wf(),
            old(self).attempts <= final(self).attempts,
            r matches AllocStep::Create(s) ==> is_slug(s@) && final(self).pending == Some(s)
                && old(self).attempts < final(self).attempts,
            r is Exhausted ==> final(self).attempts == MAX_SLUG_ATTEMPTS && final(self).pending is None,
            r is Create || r is Exhausted,
    {
        self.pending = None;
        while self.attempts < MAX_SLUG_ATTEMPTS
            invariant
                self.wf(),
                self.pending is None,
                old(self).attempts <= self.attempts,
            decreases MAX_SLUG_ATTEMPTS - self.attempts,
        {
            let a = random_word_en();
            let b = random_word_en();
            let c = random_word_en();
            match self.offer(a.as_str(), b.as_str(), c.as_str()) {
                Some(s) => {
                    return AllocStep::Create(s);
                },
                None => {},
            }
        }
        AllocStep::Exhausted
    }

    /// Takes the report on the pending candidate's directory: a created
    /// directory reserves the slug, a collision draws a fresh candidate, any
    /// other failure aborts.
    pub fn on_outcome(&mut self, outcome: CreateOutcome) -> (r: AllocStep)
        requires
            old(self).wf(),
            old(self).pending is Some,
        ensures
            final(self).wf(),
            outcome == CreateOutcome::Created ==> r == AllocStep::Accept(old(self).pending->0)
                && final(self).pending is None && final(self).attempts == old(self).attempts,
            outcome == CreateOutcome::Failed ==> r is Abort && final(self).pending is None
                && final(self).attempts == old(self).attempts,
            outcome == CreateOutcome::AlreadyExists ==> {
                &&& r is Create || r is Exhausted
                &&& r matches AllocStep::Create(s) ==> is_slug(s@) && final(self).pending == Some(s)
                    && old(self).attempts < final(self).attempts
                &&& r is Exhausted ==> final(self).attempts == MAX_SLUG_ATTEMPTS
            },
    {
        let pending = self.pending.take();
        match outcome {
            CreateOutcome::Created => match pending {
                Some(s) => AllocStep::Accept(s),
                None => AllocStep::Abort,
            },
            CreateOutcome::Failed => AllocStep::Abort,
            CreateOutcome::AlreadyExists => self.next_step(),
        }
    }
}

/// What exclusive creation of the directory for `slug` reports among the
/// directories that already exist.
pub open spec fn create_outcome(existing: Set<Seq<char>>, slug: Seq<char>) -> CreateOutcome {
    if existing.contains(slug) {
        CreateOutcome::AlreadyExists
    } else {
        CreateOutcome::Created
    }
}

/// Two uploads get two distinct slugs: once the first slug's directory
/// exists, creating it again reports a collision, so the slug that the
/// second upload reserves differs, and each is served at a hostname of its
/// own that routes back to it alone.
pub proof fn lemma_uploads_get_distinct_slugs(
    existing: Set<Seq<char>>,
    first: Seq<char>,
    second: Seq<char>,
    base: Seq<char>,
)
    requires
        is_slug(first),
        is_slug(second),
        create_outcome(existing, first) == CreateOutcome::Created,
        create_outcome(existing.insert(first), second) == CreateOutcome::Created,
    ensures
        first != second,
        host_for(first, base) != host_for(second, base),
        routes_to(host_for(first, base), base, first),
        routes_to(host_for(second, base), base, second),
{
    lemma_slug_is_label(first);
    lemma_slug_is_label(second);
    assert(existing.insert(first).contains(first));
    assert(host_for(first, base).len() > base.len());
    assert(host_for(second, base).len() > base.len());
    if host_for(first, base) == host_for(second, base) {
        crate::router::lemma_route_unique(host_for(first, base), base, first, second);
    }
}

} // verus!

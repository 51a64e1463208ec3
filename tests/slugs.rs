use preview_host::slug::{
    compose_slug, slug_word_ok, AllocStep, CreateOutcome, SlugAllocator, MAX_SLUG_ATTEMPTS,
};

#[test]
fn three_words_join_with_hyphens() {
    assert_eq!(
        compose_slug("river", "stone", "echo"),
        Some("river-stone-echo".to_string())
    );
}

#[test]
fn unusable_words_form_no_slug() {
    assert_eq!(compose_slug("River", "stone", "echo"), None);
    assert_eq!(compose_slug("river", "", "echo"), None);
    assert_eq!(compose_slug("river", "stone", "don't"), None);
    assert!(slug_word_ok("abc123"));
    assert!(!slug_word_ok("a-b"));
}

#[test]
fn offer_counts_attempts_and_keeps_candidate() {
    let mut a = SlugAllocator::new();
    assert_eq!(a.offer("a", "b", "c"), Some("a-b-c".to_string()));
    assert_eq!(a.attempts, 1);
    assert_eq!(a.pending, Some("a-b-c".to_string()));
    assert_eq!(a.offer("a", "B", "c"), None);
    assert_eq!(a.attempts, 2);
    assert_eq!(a.pending, None);
}

#[test]
fn created_directory_reserves_the_slug() {
    let mut a = SlugAllocator::new();
    a.offer("a", "b", "c");
    match a.on_outcome(CreateOutcome::Created) {
        AllocStep::Accept(s) => assert_eq!(s, "a-b-c"),
        other => panic!("unexpected step {:?}", other),
    }
    assert_eq!(a.pending, None);
}

#[test]
fn other_failure_aborts() {
    let mut a = SlugAllocator::new();
    a.offer("a", "b", "c");
    assert!(matches!(a.on_outcome(CreateOutcome::Failed), AllocStep::Abort));
}

#[test]
fn collisions_draw_fresh_candidates_until_exhausted() {
    let mut a = SlugAllocator::new();
    let mut step = a.next_step();
    let mut created = 0;
    loop {
        match step {
            AllocStep::Create(s) => {
                created += 1;
                assert_eq!(s.split('-').count(), 3);
                step = a.on_outcome(CreateOutcome::AlreadyExists);
            }
            AllocStep::Exhausted => break,
            other => panic!("unexpected step {:?}", other),
        }
    }
    assert!(created >= 1);
    assert!(created <= MAX_SLUG_ATTEMPTS);
    assert_eq!(a.attempts, MAX_SLUG_ATTEMPTS);
}

#[test]
fn spent_allocator_is_exhausted() {
    let mut a = SlugAllocator { attempts: MAX_SLUG_ATTEMPTS, pending: None };
    assert!(matches!(a.next_step(), AllocStep::Exhausted));
}

#[test]
fn drawn_slugs_are_lowercase_words() {
    let mut a = SlugAllocator::new();
    if let AllocStep::Create(s) = a.next_step() {
        let parts: Vec<&str> = s.split('-').collect();
        assert_eq!(parts.len(), 3);
        for p in parts {
            assert!(!p.is_empty());
            assert!(p.chars().all(|c| c.is_ascii_lowercase() || c.is_ascii_digit()));
        }
    }
}

fn reserve(existing: &mut std::collections::HashSet<String>) -> Option<String> {
    let mut a = SlugAllocator::new();
    let mut step = a.next_step();
    loop {
        match step {
            AllocStep::Create(s) => {
                let outcome = if existing.contains(&s) {
                    CreateOutcome::AlreadyExists
                } else {
                    existing.insert(s.clone());
                    CreateOutcome::Created
                };
                step = a.on_outcome(outcome);
            }
            AllocStep::Accept(s) => return Some(s),
            _ => return None,
        }
    }
}

#[test]
fn two_uploads_get_distinct_slugs() {
    let mut existing = std::collections::HashSet::new();
    let first = reserve(&mut existing).unwrap();
    let second = reserve(&mut existing).unwrap();
    assert_ne!(first, second);
    assert_eq!(existing.len(), 2);
}

#[test]
fn collision_draws_a_new_candidate() {
    let mut a = SlugAllocator::new();
    a.offer("a", "b", "c");
    match a.on_outcome(CreateOutcome::AlreadyExists) {
        AllocStep::Create(s) => {
            assert_eq!(a.pending, Some(s));
            assert!(a.attempts >= 2);
        }
        AllocStep::Exhausted => {}
        other => panic!("unexpected step {:?}", other),
    }
}

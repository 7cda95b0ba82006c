use logwork::cache::{from_tickets, get_own_tickets, listed_tickets, merge, Ticket, TicketCache};

fn cache_of(pairs: &[(&str, &str)]) -> TicketCache {
    let mut cache = TicketCache::new();
    for (id, title) in pairs {
        cache.insert(id.to_string(), title.to_string());
    }
    cache
}

fn pairs_of(cache: &TicketCache) -> Vec<(String, String)> {
    cache.tickets().into_iter().map(|t| (t.id, t.title)).collect()
}

fn owned(pairs: &[(&str, &str)]) -> Vec<(String, String)> {
    pairs.iter().map(|(id, title)| (id.to_string(), title.to_string())).collect()
}

#[test]
fn new_cache_is_empty() {
    let cache = TicketCache::new();
    assert_eq!(cache.len(), 0);
    assert_eq!(cache.lookup("ABC-1"), None);
    assert!(!cache.contains("ABC-1"));
    assert!(cache.tickets().is_empty());
}

#[test]
fn insert_then_lookup_finds_the_title() {
    for before in [
        cache_of(&[]),
        cache_of(&[("ABC-1", "old title")]),
        cache_of(&[("ABC-2", "other"), ("ABC-3", "third")]),
        cache_of(&[("ABC-2", "other"), ("ABC-1", "old"), ("ABC-3", "third")]),
    ] {
        let mut cache = before;
        cache.insert("ABC-1".to_string(), "Fix bug".to_string());
        assert_eq!(cache.lookup("ABC-1"), Some("Fix bug".to_string()));
        assert!(cache.contains("ABC-1"));
    }
}

#[test]
fn insert_overwrites_in_place() {
    let mut cache = cache_of(&[("A-1", "one"), ("A-2", "two"), ("A-3", "three")]);
    cache.insert("A-2".to_string(), "zwei".to_string());
    assert_eq!(cache.len(), 3);
    assert_eq!(pairs_of(&cache), owned(&[("A-1", "one"), ("A-2", "zwei"), ("A-3", "three")]));
}

#[test]
fn insert_appends_a_new_id() {
    let mut cache = cache_of(&[("A-1", "one")]);
    cache.insert("A-0".to_string(), "zero".to_string());
    assert_eq!(pairs_of(&cache), owned(&[("A-1", "one"), ("A-0", "zero")]));
}

#[test]
fn insert_twice_is_insert_once() {
    let mut once = cache_of(&[("A-1", "one")]);
    once.insert("A-2".to_string(), "two".to_string());
    let mut twice = cache_of(&[("A-1", "one")]);
    twice.insert("A-2".to_string(), "two".to_string());
    twice.insert("A-2".to_string(), "two".to_string());
    assert_eq!(pairs_of(&once), pairs_of(&twice));
}

#[test]
fn insert_leaves_other_ids_alone() {
    let mut cache = cache_of(&[("A-1", "one"), ("A-2", "two")]);
    cache.insert("A-3".to_string(), "three".to_string());
    assert_eq!(cache.lookup("A-1"), Some("one".to_string()));
    assert_eq!(cache.lookup("A-2"), Some("two".to_string()));
    assert_eq!(cache.lookup("A-4"), None);
}

#[test]
fn ids_are_compared_whole_and_by_case() {
    let cache = cache_of(&[("ABC-1", "one")]);
    assert_eq!(cache.lookup("abc-1"), None);
    assert_eq!(cache.lookup("ABC-10"), None);
    assert_eq!(cache.lookup("ABC-"), None);
    assert_eq!(cache.lookup(""), None);
}

#[test]
fn merge_prefers_the_fetched_title() {
    let fetched = cache_of(&[("A-1", "fresh one"), ("A-4", "fresh four")]);
    let persisted = cache_of(&[("A-1", "stale one"), ("A-2", "two")]);
    let merged = merge(&fetched, persisted);
    assert_eq!(merged.lookup("A-1"), Some("fresh one".to_string()));
    assert_eq!(merged.lookup("A-2"), Some("two".to_string()));
    assert_eq!(merged.lookup("A-4"), Some("fresh four".to_string()));
    assert_eq!(merged.lookup("A-3"), None);
    assert_eq!(merged.len(), 3);
}

#[test]
fn merge_keeps_persisted_entries_first() {
    let fetched = cache_of(&[("A-4", "four"), ("A-1", "fresh one")]);
    let persisted = cache_of(&[("A-1", "stale one"), ("A-2", "two")]);
    let merged = merge(&fetched, persisted);
    assert_eq!(
        pairs_of(&merged),
        owned(&[("A-1", "fresh one"), ("A-2", "two"), ("A-4", "four")])
    );
}

#[test]
fn merge_with_nothing_fetched_is_the_persisted_cache() {
    let merged = merge(&TicketCache::new(), cache_of(&[("A-1", "one")]));
    assert_eq!(pairs_of(&merged), owned(&[("A-1", "one")]));
    let merged = merge(&cache_of(&[("A-1", "one")]), TicketCache::new());
    assert_eq!(pairs_of(&merged), owned(&[("A-1", "one")]));
}

#[test]
fn from_tickets_lets_the_later_duplicate_count() {
    let tickets = vec![
        Ticket::new("A-1", "first"),
        Ticket::new("A-2", "two"),
        Ticket::new("A-1", "second"),
    ];
    let cache = from_tickets(&tickets);
    assert_eq!(pairs_of(&cache), owned(&[("A-1", "second"), ("A-2", "two")]));
}

#[test]
fn listed_tickets_reads_key_and_summary() {
    let response = json::parse(
        r#"{"total": 2, "issues": [
            {"id": "10001", "key": "ABC-123", "fields": {"summary": "Fix bug", "status": "Open"}},
            {"key": "ABC-124", "fields": {"summary": "Write \"docs\""}}
        ]}"#,
    )
    .unwrap();
    assert_eq!(
        listed_tickets(&response),
        vec![Ticket::new("ABC-123", "Fix bug"), Ticket::new("ABC-124", "Write \"docs\"")]
    );
}

#[test]
fn listed_tickets_of_an_answer_without_issues_is_empty() {
    for text in ["{}", "null", "[]", r#"{"issues": null}"#, r#"{"issues": {"key": "A-1"}}"#, r#"{"issues": []}"#] {
        assert!(listed_tickets(&json::parse(text).unwrap()).is_empty(), "{}", text);
    }
}

#[test]
fn listed_tickets_writes_what_is_no_string_as_json_shows_it() {
    let response = json::parse(
        r#"{"issues": [{"key": 7, "fields": {}}, {"fields": {"summary": true}}, "odd"]}"#,
    )
    .unwrap();
    assert_eq!(
        listed_tickets(&response),
        vec![Ticket::new("7", "null"), Ticket::new("null", "true"), Ticket::new("null", "null")]
    );
}

#[test]
fn get_own_tickets_writes_fetched_over_persisted() {
    let response = json::parse(
        r#"{"issues": [
            {"key": "A-1", "fields": {"summary": "fresh one"}},
            {"key": "A-3", "fields": {"summary": "three"}},
            {"key": "A-3", "fields": {"summary": "three again"}}
        ]}"#,
    )
    .unwrap();
    let persisted = cache_of(&[("A-2", "two"), ("A-1", "stale one")]);
    let cache = get_own_tickets(&response, persisted);
    assert_eq!(
        pairs_of(&cache),
        owned(&[("A-2", "two"), ("A-1", "fresh one"), ("A-3", "three again")])
    );
}

#[test]
fn get_own_tickets_with_nothing_fetched_keeps_the_cache() {
    let response = json::parse(r#"{"issues": []}"#).unwrap();
    let cache = get_own_tickets(&response, cache_of(&[("A-2", "two")]));
    assert_eq!(pairs_of(&cache), owned(&[("A-2", "two")]));
}

#[test]
fn ticket_new_and_duplicate() {
    let ticket = Ticket::new("A-1", "one");
    assert_eq!(ticket.id, "A-1");
    assert_eq!(ticket.title, "one");
    assert_eq!(ticket.duplicate(), ticket);
}

use rust_trending_discord::bot::{discovery_survivors, Candidate};
use rust_trending_discord::claims::ClaimLedger;
use rust_trending_discord::config::{Blacklist, Config};
use rust_trending_discord::queue::PendingQueue;
use rust_trending_discord::repo::Repo;
use rust_trending_discord::storage::{ClaimCheck, Storage, StoreCommand};
use rust_trending_discord::stream::TimedStream;
use rust_trending_discord::{Error, RustTrending};
use rust_trending_discord::discord::{webhook_for, Content};
use rust_trending_discord::text::{contains_text, decimal_text, same_text};

fn repo(author: &str, name: &str) -> Repo {
    Repo {
        author: author.to_string(),
        description: format!("about {}", name),
        forks: 1,
        name: name.to_string(),
        stars: 42,
        url: format!("https://github.com/{}/{}", author, name),
    }
}

fn blacklist(names: &[&str], authors: &[&str]) -> Blacklist {
    Blacklist {
        names: names.iter().map(|s| s.to_string()).collect(),
        authors: authors.iter().map(|s| s.to_string()).collect(),
    }
}

fn config(redis_url: &str, fetch: usize, post: usize, ttl: usize, bl: Blacklist) -> Config {
    Config {
        redis_url: redis_url.to_string(),
        webhook_url: "https://discord.example/api/webhooks/1/abc".to_string(),
        post_ttl: ttl,
        fetch_interval: fetch,
        post_interval: post,
        blacklist: bl,
    }
}

fn fresh(r: Repo) -> Candidate {
    Candidate { repo: r, check: ClaimCheck::Unclaimed }
}

fn names(v: &[Repo]) -> Vec<String> {
    v.iter().map(|r| r.name.clone()).collect()
}

fn drain(bot: &mut RustTrending, now: u64) -> Option<String> {
    bot.next_announcement(now).map(|r| r.name)
}

#[test]
fn blacklist_matches_author_or_name() {
    let bl = blacklist(&["spam"], &["mallory"]);
    assert!(bl.is_listed(&repo("mallory", "tool")));
    assert!(bl.is_listed(&repo("alice", "spam")));
    assert!(!bl.is_listed(&repo("alice", "tool")));
    assert!(!bl.is_listed(&repo("spam", "mallory")));
    assert!(!blacklist(&[], &[]).is_listed(&repo("a", "b")));
}

#[test]
fn describe_joins_author_and_name() {
    assert_eq!(repo("alice", "tool").describe(), "alice / tool: about tool ★42");
    let mut same = repo("serde", "serde");
    same.stars = 0;
    assert_eq!(same.describe(), "serde: about serde ★0");
}

#[test]
fn decimal_text_writes_digits() {
    assert_eq!(decimal_text(0), "0");
    assert_eq!(decimal_text(7), "7");
    assert_eq!(decimal_text(1234509), "1234509");
    assert_eq!(decimal_text(usize::MAX), usize::MAX.to_string());
}

#[test]
fn same_text_compares_characters() {
    assert!(same_text("abc", "abc"));
    assert!(!same_text("abc", "abd"));
    assert!(!same_text("abc", "ab"));
    assert!(same_text("", ""));
    assert!(contains_text(&vec!["x".to_string(), "yz".to_string()], "yz"));
    assert!(!contains_text(&vec!["x".to_string()], "y"));
}

#[test]
fn webhook_carries_the_repo() {
    let w = webhook_for(&repo("alice", "tool"));
    assert!(w.username.is_none() && w.avatar_url.is_none() && w.tts.is_none());
    match w.content {
        Content::Embeds(v) => {
            assert_eq!(v.len(), 1);
            let e = &v[0];
            assert_eq!(e.title, "tool");
            assert_eq!(e.description, "about tool");
            assert_eq!(e.url, "https://github.com/alice/tool");
            assert_eq!(e.footer.text, "★42");
            assert_eq!(e.author.name, "alice");
            assert_eq!(e.author.url, "https://github.com/alice");
            assert_eq!(e.author.icon_url, "https://github.com/alice.png");
        }
        Content::Content(_) => panic!("expected embeds"),
    }
}

#[test]
fn ledger_claims_once_within_ttl() {
    let mut l = ClaimLedger::new();
    assert!(!l.is_claimed("A", 100));
    assert!(l.try_claim("A", 100, 50));
    assert!(l.is_claimed("A", 100));
    assert!(l.is_claimed("A", 149));
    assert!(!l.try_claim("A", 120, 50));
    assert!(!l.try_claim("A", 149, 50));
    assert!(!l.is_claimed("B", 120));
    assert!(l.try_claim("B", 120, 50));
}

#[test]
fn ledger_reopens_after_expiry() {
    let mut l = ClaimLedger::new();
    assert!(l.try_claim("A", 100, 50));
    assert!(!l.is_claimed("A", 150));
    assert!(l.try_claim("A", 150, 50));
    assert!(l.is_claimed("A", 199));
    assert!(!l.is_claimed("A", 200));
}

#[test]
fn ledger_check_reports_claims() {
    let mut l = ClaimLedger::new();
    let a = repo("alice", "A");
    assert_eq!(l.check(&a, 0), ClaimCheck::Unclaimed);
    assert!(l.try_claim("A", 0, 10));
    assert_eq!(l.check(&a, 5), ClaimCheck::Claimed);
    assert_eq!(l.check(&repo("bob", "A"), 5), ClaimCheck::Claimed);
    assert_eq!(l.check(&a, 10), ClaimCheck::Unclaimed);
}

#[test]
fn survivors_drop_claimed_unknown_and_excluded() {
    let bl = blacklist(&["spam"], &["mallory"]);
    let cands = vec![
        fresh(repo("alice", "one")),
        Candidate { repo: repo("bob", "two"), check: ClaimCheck::Claimed },
        Candidate { repo: repo("carol", "three"), check: ClaimCheck::Unknown },
        fresh(repo("mallory", "four")),
        fresh(repo("dave", "spam")),
        fresh(repo("erin", "five")),
    ];
    let empty = TimedStream::new(PendingQueue::new(), 0, 10);
    assert_eq!(names(&discovery_survivors(&cands, &empty, &bl)), vec!["one", "five"]);
    assert!(discovery_survivors(&vec![], &empty, &bl).is_empty());
}

#[test]
fn excluded_never_enqueued_even_unclaimed() {
    let bl = blacklist(&["spam"], &["mallory"]);
    let mut bot = RustTrending::from_config(config("redis://127.0.0.1/", 60, 10, 100, bl), 0).unwrap();
    bot.discovery_tick(Ok(vec![fresh(repo("mallory", "x")), fresh(repo("a", "spam"))]));
    assert_eq!(bot.pending(), 0);
    assert_eq!(drain(&mut bot, 1000), None);
}

#[test]
fn order_kept_across_ticks() {
    let bl = blacklist(&[], &[]);
    let mut bot = RustTrending::from_config(config("redis://127.0.0.1/", 60, 10, 100, bl), 0).unwrap();
    bot.discovery_tick(Ok(vec![fresh(repo("a", "1")), fresh(repo("a", "2"))]));
    bot.discovery_tick(Ok(vec![fresh(repo("a", "3"))]));
    bot.discovery_tick(Ok(vec![fresh(repo("a", "4")), fresh(repo("a", "5"))]));
    let mut out = Vec::new();
    let mut t = 10;
    while let Some(n) = drain(&mut bot, t) {
        out.push(n);
        t += 10;
    }
    assert_eq!(out, vec!["1", "2", "3", "4", "5"]);
}

#[test]
fn queue_is_fifo() {
    let mut q = PendingQueue::new();
    assert!(q.is_empty());
    q.push_all(vec![repo("a", "1"), repo("a", "2")]);
    q.push_all(vec![]);
    q.push_all(vec![repo("a", "3")]);
    assert_eq!(q.len(), 3);
    assert_eq!(q.pop().unwrap().name, "1");
    assert_eq!(q.pop().unwrap().name, "2");
    assert_eq!(q.pop().unwrap().name, "3");
    assert!(q.pop().is_none());
}

#[test]
fn stream_waits_for_interval_and_item() {
    let mut s = TimedStream::new_interval(PendingQueue::new(), 100, 30);
    assert!(s.poll(129).is_none());
    assert!(s.poll(200).is_none());
    s.push_all(vec![repo("a", "1"), repo("a", "2")]);
    // the elapsed gate opens as soon as an item is there
    assert_eq!(s.poll(201).unwrap().name, "1");
    // re-armed from the hand-out, not from the original boundary
    assert!(s.poll(230).is_none());
    assert_eq!(s.poll(231).unwrap().name, "2");
    assert_eq!(s.len(), 0);
    let mut t = TimedStream::new(PendingQueue::new(), 5, u64::MAX);
    t.push_all(vec![repo("a", "1"), repo("a", "2")]);
    assert_eq!(t.poll(5).unwrap().name, "1");
    assert!(t.poll(u64::MAX - 1).is_none());
    assert_eq!(t.poll(u64::MAX).unwrap().name, "2");
}

#[test]
fn failed_fetch_does_not_stop_next_tick() {
    let bl = blacklist(&[], &[]);
    let mut bot = RustTrending::from_config(config("redis://127.0.0.1/", 60, 10, 100, bl), 0).unwrap();
    bot.discovery_tick(Ok(vec![fresh(repo("a", "1"))]));
    bot.discovery_tick(Err(Error::FetchFailed));
    assert_eq!(bot.pending(), 1);
    bot.discovery_tick(Ok(vec![fresh(repo("a", "2"))]));
    assert_eq!(bot.pending(), 2);
}

#[test]
fn failed_publish_does_not_block_next_item() {
    let bl = blacklist(&[], &[]);
    let mut bot = RustTrending::from_config(config("redis://127.0.0.1/", 60, 10, 100, bl), 0).unwrap();
    bot.discovery_tick(Ok(vec![fresh(repo("a", "X")), fresh(repo("a", "Y"))]));
    let x = bot.next_announcement(10).unwrap();
    assert!(bot.claim_for(&x, false, 10).is_none());
    assert!(bot.claim_after_publish(&x, false).is_none());
    assert_eq!(drain(&mut bot, 20), Some("Y".to_string()));
}

#[test]
fn crash_between_publish_and_claim_allows_reannouncement() {
    let bl = blacklist(&[], &[]);
    let mut ledger = ClaimLedger::new();
    let mut bot = RustTrending::from_config(config("redis://127.0.0.1/", 60, 10, 100, bl.clone()), 0).unwrap();
    let a = repo("alice", "A");
    bot.discovery_tick(Ok(vec![Candidate { repo: a.clone(), check: ledger.check(&a, 0) }]));
    assert_eq!(drain(&mut bot, 10), Some("A".to_string()));
    // published, then the process stops before the claim is written
    let mut restarted = RustTrending::from_config(config("redis://127.0.0.1/", 60, 10, 100, bl), 20).unwrap();
    restarted.discovery_tick(Ok(vec![Candidate { repo: a.clone(), check: ledger.check(&a, 20) }]));
    assert_eq!(drain(&mut restarted, 30), Some("A".to_string()));
    assert!(ledger.try_claim("A", 30, 100));
    restarted.discovery_tick(Ok(vec![Candidate { repo: a.clone(), check: ledger.check(&a, 40) }]));
    assert_eq!(restarted.pending(), 0);
}

#[test]
fn scenario_two_cadences() {
    let bl = blacklist(&[], &[]);
    let cfg = config("redis://127.0.0.1/", 60, 1800, 86400, bl);
    let mut ledger = ClaimLedger::new();
    let mut bot = RustTrending::from_config(cfg, 0).unwrap();
    let batch = |l: &ClaimLedger, now: u64, rs: Vec<Repo>| -> Vec<Candidate> {
        rs.into_iter().map(|r| { let c = l.check(&r, now); Candidate { repo: r, check: c } }).collect()
    };
    let tick = batch(&ledger, 0, vec![repo("x", "A"), repo("x", "B"), repo("x", "C")]);
    bot.discovery_tick(Ok(tick));
    assert_eq!(bot.pending(), 3);
    // no announcement before the first 30 minute boundary
    assert_eq!(drain(&mut bot, 60), None);
    assert_eq!(drain(&mut bot, 1799), None);
    let a = bot.next_announcement(1800).unwrap();
    assert_eq!(a.name, "A");
    match bot.claim_for(&a, true, 1800) {
        Some(StoreCommand::SetIfAbsent { key, value }) => {
            assert_eq!(key, "A");
            assert_eq!(value, 1800);
            assert!(ledger.try_claim(&key, 1800, bot.storage().post_ttl() as u64));
        }
        other => panic!("unexpected {:?}", other),
    }
    let tick = batch(&ledger, 1860, vec![repo("x", "A"), repo("x", "D")]);
    bot.discovery_tick(Ok(tick));
    assert_eq!(bot.pending(), 3);
    let mut out = Vec::new();
    let mut t = 3600;
    while let Some(n) = drain(&mut bot, t) {
        out.push(n);
        t += 1800;
    }
    assert_eq!(out, vec!["B", "C", "D"]);
}

#[test]
fn storage_accepts_redis_urls_only() {
    let bl = blacklist(&[], &[]);
    let cfg = config("redis://127.0.0.1:6379/0", 60, 1800, 3600, bl.clone());
    let s = Storage::from_config(&cfg).unwrap();
    assert_eq!(s.post_ttl(), 3600);
    assert!(matches!(Storage::from_config(&config("http://example.com/", 1, 1, 1, bl.clone())), Err(Error::InvalidStoreUrl)));
    assert!(matches!(Storage::from_config(&config("not a url", 1, 1, 1, bl.clone())), Err(Error::InvalidStoreUrl)));
    assert!(matches!(RustTrending::from_config(config("nope", 1, 1, 1, bl), 0), Err(Error::InvalidStoreUrl)));
}

#[test]
fn storage_commands() {
    let bl = blacklist(&[], &[]);
    let s = Storage::from_config(&config("redis://localhost/", 60, 1800, 3600, bl)).unwrap();
    let r = repo("alice", "tool");
    match s.claim_command(&r, 1_600_000_000) {
        StoreCommand::SetIfAbsent { key, value } => {
            assert_eq!(key, "tool");
            assert_eq!(value, 1_600_000_000);
        }
        other => panic!("unexpected {:?}", other),
    }
    match s.after_set_if_absent(&r, 1) {
        Some(StoreCommand::Expire { key, seconds }) => {
            assert_eq!(key, "tool");
            assert_eq!(seconds, 3600);
        }
        other => panic!("unexpected {:?}", other),
    }
    assert!(s.after_set_if_absent(&r, 0).is_none());
    match s.exists_command(&r) {
        StoreCommand::Exists { key } => assert_eq!(key, "tool"),
        other => panic!("unexpected {:?}", other),
    }
}

#[test]
fn claim_check_from_reply() {
    assert_eq!(ClaimCheck::from_reply(Some(true)), ClaimCheck::Claimed);
    assert_eq!(ClaimCheck::from_reply(Some(false)), ClaimCheck::Unclaimed);
    assert_eq!(ClaimCheck::from_reply(None), ClaimCheck::Unknown);
}

#[test]
fn claim_after_publish_stamps_now() {
    let bl = blacklist(&[], &[]);
    let bot = RustTrending::from_config(config("redis://127.0.0.1/", 60, 10, 100, bl), 0).unwrap();
    let r = repo("alice", "tool");
    match bot.claim_after_publish(&r, true) {
        Some((t, StoreCommand::SetIfAbsent { key, value })) => {
            assert_eq!(key, "tool");
            assert_eq!(value, t);
            assert!(t > 1_500_000_000);
        }
        other => panic!("unexpected {:?}", other),
    }
}

#[test]
fn webhook_endpoint_waits() {
    let bl = blacklist(&[], &[]);
    let bot = RustTrending::from_config(config("redis://127.0.0.1/", 60, 10, 100, bl), 0).unwrap();
    assert_eq!(bot.webhook_endpoint(), "https://discord.example/api/webhooks/1/abc?wait=true");
    assert_eq!(bot.config().post_interval, 10);
}

#[test]
fn order_kept_when_ticks_and_polls_interleave() {
    let bl = blacklist(&[], &[]);
    let mut bot = RustTrending::from_config(config("redis://127.0.0.1/", 60, 10, 100, bl), 0).unwrap();
    let mut out = Vec::new();
    bot.discovery_tick(Ok(vec![fresh(repo("a", "1")), fresh(repo("a", "2"))]));
    out.extend(drain(&mut bot, 10));
    bot.discovery_tick(Ok(vec![fresh(repo("a", "3"))]));
    out.extend(drain(&mut bot, 15));
    out.extend(drain(&mut bot, 20));
    bot.discovery_tick(Ok(vec![fresh(repo("a", "4"))]));
    out.extend(drain(&mut bot, 30));
    out.extend(drain(&mut bot, 40));
    out.extend(drain(&mut bot, 50));
    assert_eq!(out, vec!["1", "2", "3", "4"]);
    assert_eq!(bot.pending(), 0);
}

#[test]
fn waiting_keys_are_not_enqueued_twice() {
    let bl = blacklist(&[], &[]);
    let mut waiting = TimedStream::new(PendingQueue::new(), 0, 10);
    waiting.push_all(vec![repo("a", "one")]);
    let cands = vec![
        fresh(repo("b", "one")),
        fresh(repo("a", "two")),
        fresh(repo("c", "two")),
        fresh(repo("a", "three")),
    ];
    assert_eq!(names(&discovery_survivors(&cands, &waiting, &bl)), vec!["two", "three"]);

    let mut bot = RustTrending::from_config(config("redis://127.0.0.1/", 60, 1800, 86400, bl), 0).unwrap();
    bot.discovery_tick(Ok(vec![fresh(repo("x", "A")), fresh(repo("x", "B"))]));
    bot.discovery_tick(Ok(vec![fresh(repo("x", "A")), fresh(repo("x", "B")), fresh(repo("x", "C"))]));
    assert_eq!(bot.pending(), 3);
}

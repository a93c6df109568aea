use geobot::backoff::{JoinAcceptor, JoinPhase};

#[test]
fn trigger_only_for_own_invites() {
    let mut a = JoinAcceptor::new("!room:example.org".to_owned());
    assert_eq!(a.phase, JoinPhase::Idle);
    a.trigger(&"@other:example.org".to_owned(), &"@bot:example.org".to_owned());
    assert_eq!(a.phase, JoinPhase::Idle);
    assert!(!a.should_attempt());
    a.trigger(&"@bot:example.org".to_owned(), &"@bot:example.org".to_owned());
    assert_eq!(a.phase, JoinPhase::Retrying);
    assert!(a.should_attempt());
}

#[test]
fn failure_waits_double_until_give_up() {
    let mut a = JoinAcceptor::new("!room:example.org".to_owned());
    a.trigger(&"@bot:example.org".to_owned(), &"@bot:example.org".to_owned());
    let mut waits: Vec<u64> = Vec::new();
    while a.should_attempt() {
        waits.push(a.on_failure());
    }
    assert_eq!(waits, vec![2, 4, 8, 16, 32, 64, 128, 256, 512, 1024, 2048]);
    assert_eq!(a.phase, JoinPhase::GivenUp);
    assert_eq!(a.attempt, 11);
    assert_eq!(a.delay_seconds, 4096);
    assert!(!a.should_attempt());
}

#[test]
fn success_stops_retrying_at_once() {
    let mut a = JoinAcceptor::new("!room:example.org".to_owned());
    a.trigger(&"@bot:example.org".to_owned(), &"@bot:example.org".to_owned());
    assert_eq!(a.on_failure(), 2);
    assert_eq!(a.on_failure(), 4);
    assert!(a.should_attempt());
    a.on_success();
    assert_eq!(a.phase, JoinPhase::Accepted);
    assert!(!a.should_attempt());
    assert_eq!(a.delay_seconds, 8);
}

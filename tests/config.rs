use rqueue::{Codec, PopRule, QueueConfig};

#[test]
fn default_config() {
    let c = QueueConfig::default();
    assert_eq!(c.redis_url, "redis://127.0.0.1:6379/0");
    assert!(c.queue_names.is_empty());
    assert_eq!(c.pop_rule, PopRule::PopMin);
    assert_eq!(c.codec, Codec::Json);
    assert_eq!(PopRule::default(), PopRule::PopMin);
}

#[test]
fn with_queue_puts_name_first() {
    let mut c = QueueConfig::default();
    c.queue_names = vec![String::from("b")];
    c.with_queue("a");
    assert_eq!(c.queue_names, vec![String::from("a"), String::from("b")]);
    c.with_queue("z");
    assert_eq!(c.queue_names[0], "z");
    assert_eq!(c.queue_names.len(), 3);
}

#[test]
fn pop_rule_commands() {
    assert_eq!(PopRule::PopMin.into_command(), "BZPOPMIN");
    assert_eq!(PopRule::PopMax.into_command(), "BZPOPMAX");
}

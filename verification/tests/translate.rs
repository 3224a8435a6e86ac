use mqtt_session::locality::{visibility_for, Locality};
use mqtt_session::translate::{
    admit_key, admit_topic, compose_key, key_to_topic, strip_scope, topic_to_key,
    TranslationError,
};

fn scope(s: &str) -> Option<String> {
    Some(s.to_string())
}

#[test]
fn allowed_topics_are_visible_to_any() {
    assert_eq!(visibility_for(true), Locality::Any);
}

#[test]
fn denied_topics_stay_session_local() {
    assert_eq!(visibility_for(false), Locality::SessionLocal);
}

#[test]
fn compose_key_without_scope_is_the_topic() {
    assert_eq!(compose_key("home/temp", &None), "home/temp");
}

#[test]
fn compose_key_puts_scope_and_separator_in_front() {
    assert_eq!(compose_key("home/temp", &scope("bridge")), "bridge/home/temp");
    assert_eq!(compose_key("", &scope("bridge")), "bridge/");
    assert_eq!(compose_key("t", &scope("")), "/t");
}

#[test]
fn strip_scope_without_scope_is_the_key() {
    assert_eq!(strip_scope("home/temp", &None), Some("home/temp".to_string()));
}

#[test]
fn strip_scope_removes_exactly_the_scope() {
    assert_eq!(
        strip_scope("bridge/home/temp", &scope("bridge")),
        Some("home/temp".to_string())
    );
    assert_eq!(
        strip_scope("bridge/bridge/x", &scope("bridge")),
        Some("bridge/x".to_string())
    );
    assert_eq!(strip_scope("a/b/c", &scope("a/b")), Some("c".to_string()));
}

#[test]
fn strip_scope_refuses_keys_outside_the_scope() {
    assert_eq!(strip_scope("home/temp", &scope("bridge")), None);
    assert_eq!(strip_scope("bridge", &scope("bridge")), None);
    assert_eq!(strip_scope("bridgex/temp", &scope("bridge")), None);
    assert_eq!(strip_scope("bridg", &scope("bridge")), None);
    assert_eq!(strip_scope("", &scope("bridge")), None);
}

#[test]
fn strip_scope_counts_characters_not_bytes() {
    assert_eq!(
        strip_scope("café/température", &scope("café")),
        Some("température".to_string())
    );
    assert_eq!(strip_scope("café/x", &scope("cafe")), None);
    assert_eq!(strip_scope("caf\u{e9}s/x", &scope("caf\u{e9}")), None);
}

#[test]
fn admit_key_names_each_verdict() {
    assert_eq!(admit_key("k".to_string(), true, true), Ok("k".to_string()));
    assert_eq!(
        admit_key("k".to_string(), false, true),
        Err(TranslationError::MalformedTopic)
    );
    assert_eq!(
        admit_key("k".to_string(), false, false),
        Err(TranslationError::MalformedTopic)
    );
    assert_eq!(
        admit_key("k".to_string(), true, false),
        Err(TranslationError::UnsupportedScope)
    );
}

#[test]
fn admit_topic_names_each_verdict() {
    assert_eq!(admit_topic(Some("t".to_string()), true), Ok("t".to_string()));
    assert_eq!(admit_topic(None, true), Err(TranslationError::UnsupportedScope));
    assert_eq!(
        admit_topic(Some("t".to_string()), false),
        Err(TranslationError::MalformedKey)
    );
    assert_eq!(admit_topic(None, false), Err(TranslationError::MalformedKey));
}

#[test]
fn topic_to_key_without_scope_keeps_the_topic() {
    assert_eq!(topic_to_key("home/temp", &None), Ok("home/temp".to_string()));
    assert_eq!(topic_to_key("a", &None), Ok("a".to_string()));
}

#[test]
fn topic_to_key_prefixes_the_scope() {
    assert_eq!(
        topic_to_key("home/temp", &scope("bridge")),
        Ok("bridge/home/temp".to_string())
    );
    assert_eq!(
        topic_to_key("x", &scope("site/one")),
        Ok("site/one/x".to_string())
    );
}

#[test]
fn topic_to_key_rejects_malformed_topics() {
    for topic in ["", "/a", "a/", "a//b", "a/#", "#", "a?b", "a$b", "a/$*", "a*b", "**/**", "**/*"] {
        assert_eq!(
            topic_to_key(topic, &None),
            Err(TranslationError::MalformedTopic),
            "topic {:?}",
            topic
        );
        assert_eq!(
            topic_to_key(topic, &scope("bridge")),
            Err(TranslationError::MalformedTopic),
            "topic {:?}",
            topic
        );
    }
}

#[test]
fn topic_to_key_accepts_canonical_wildcards() {
    assert_eq!(topic_to_key("a/*/b", &None), Ok("a/*/b".to_string()));
    assert_eq!(topic_to_key("a/**", &scope("s")), Ok("s/a/**".to_string()));
}

#[test]
fn topic_to_key_rejects_scopes_that_do_not_compose() {
    assert_eq!(
        topic_to_key("**", &scope("a/**")),
        Err(TranslationError::UnsupportedScope)
    );
    assert_eq!(
        topic_to_key("*/x", &scope("a/**")),
        Err(TranslationError::UnsupportedScope)
    );
    assert_eq!(
        topic_to_key("x", &scope("")),
        Err(TranslationError::UnsupportedScope)
    );
    assert_eq!(
        topic_to_key("x", &scope("a/")),
        Err(TranslationError::UnsupportedScope)
    );
    assert_eq!(
        topic_to_key("x", &scope("a#")),
        Err(TranslationError::UnsupportedScope)
    );
}

#[test]
fn key_to_topic_without_scope_keeps_the_key() {
    assert_eq!(key_to_topic("home/temp", &None), Ok("home/temp".to_string()));
}

#[test]
fn key_to_topic_strips_the_scope() {
    assert_eq!(
        key_to_topic("bridge/home/temp", &scope("bridge")),
        Ok("home/temp".to_string())
    );
}

#[test]
fn key_to_topic_rejects_malformed_keys() {
    for key in ["", "/a", "a/", "a//b", "bridge/#", "bridge/a?"] {
        assert_eq!(
            key_to_topic(key, &None),
            Err(TranslationError::MalformedKey),
            "key {:?}",
            key
        );
        assert_eq!(
            key_to_topic(key, &scope("bridge")),
            Err(TranslationError::MalformedKey),
            "key {:?}",
            key
        );
    }
}

#[test]
fn key_to_topic_rejects_keys_outside_the_scope() {
    assert_eq!(
        key_to_topic("home/temp", &scope("bridge")),
        Err(TranslationError::UnsupportedScope)
    );
    assert_eq!(
        key_to_topic("bridge", &scope("bridge")),
        Err(TranslationError::UnsupportedScope)
    );
    assert_eq!(
        key_to_topic("bridges/temp", &scope("bridge")),
        Err(TranslationError::UnsupportedScope)
    );
}

#[test]
fn round_trip_without_scope() {
    for topic in ["home/temp", "a", "a/b/c/d", "maison/température", "with space/x"] {
        let key = topic_to_key(topic, &None).unwrap();
        assert_eq!(key, topic);
        assert_eq!(key_to_topic(&key, &None), Ok(topic.to_string()));
    }
}

#[test]
fn round_trip_with_scope() {
    for s in ["bridge", "site/one", "café"] {
        for topic in ["home/temp", "a", "bridge/x", "maison/température"] {
            let key = topic_to_key(topic, &scope(s)).unwrap();
            assert_eq!(key, format!("{}/{}", s, topic));
            assert_eq!(key_to_topic(&key, &scope(s)), Ok(topic.to_string()));
        }
    }
}

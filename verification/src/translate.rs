//! Translation between MQTT topics and overlay keys under an optional scope.

use crate::key_expr::{is_key_expr, key_expr_accepts};
use vstd::prelude::*;
use vstd::string::*;

verus! {

/// Why a topic or a key could not be translated.
#[derive(Clone, Copy, Debug, PartialEq, Eq, Structural)]
pub enum TranslationError {
    /// The topic is not a canonical key expression.
    MalformedTopic,
    /// The key is not a canonical key expression.
    MalformedKey,
    /// The scope and the topic do not compose to a canonical key expression,
    /// or the key does not lie under the scope.
    UnsupportedScope,
}

/// The separator between the levels of a topic and the chunks of a key.
pub open spec fn separator() -> char {
    '/'
}

/// The characters of an optional scope.
pub open spec fn scope_view(scope: Option<String>) -> Option<Seq<char>> {
    match scope {
        Some(s) => Some(s@),
        None => None,
    }
}

/// The characters of a translation result.
pub open spec fn text_view(r: Result<String, TranslationError>) -> Result<
    Seq<char>,
    TranslationError,
> {
    match r {
        Ok(s) => Ok(s@),
        Err(e) => Err(e),
    }
}

/// The topic with the scope and one separator in front of it.
pub open spec fn scoped_key(topic: Seq<char>, scope: Option<Seq<char>>) -> Seq<char> {
    match scope {
        Some(s) => s + seq![separator()] + topic,
        None => topic,
    }
}

/// Whether `key` is the scope, one separator, and something after it.
pub open spec fn under_scope(key: Seq<char>, scope: Seq<char>) -> bool {
    &&& key.len() > scope.len()
    &&& key.subrange(0, scope.len() as int) == scope
    &&& key[scope.len() as int] == separator()
}

/// What is left of `key` once the scope and its separator are removed.
pub open spec fn unscoped_topic(key: Seq<char>, scope: Option<Seq<char>>) -> Option<Seq<char>> {
    match scope {
        Some(s) => if under_scope(key, s) {
            Some(key.subrange((s.len() + 1) as int, key.len() as int))
        } else {
            None
        },
        None => Some(key),
    }
}

/// The verdict on a composed key, given whether the topic and the composed
/// key are canonical key expressions.
pub open spec fn admitted_key(key: Seq<char>, topic_ok: bool, key_ok: bool) -> Result<
    Seq<char>,
    TranslationError,
> {
    if !topic_ok {
        Err(TranslationError::MalformedTopic)
    } else if !key_ok {
        Err(TranslationError::UnsupportedScope)
    } else {
        Ok(key)
    }
}

/// The verdict on a stripped key, given whether the key is a canonical key
/// expression.
pub open spec fn admitted_topic(topic: Option<Seq<char>>, key_ok: bool) -> Result<
    Seq<char>,
    TranslationError,
> {
    if !key_ok {
        Err(TranslationError::MalformedKey)
    } else {
        match topic {
            Some(t) => Ok(t),
            None => Err(TranslationError::UnsupportedScope),
        }
    }
}

/// The key a topic translates to under a scope.
pub open spec fn spec_topic_to_key(topic: Seq<char>, scope: Option<Seq<char>>) -> Result<
    Seq<char>,
    TranslationError,
> {
    admitted_key(
        scoped_key(topic, scope),
        is_key_expr(topic),
        is_key_expr(scoped_key(topic, scope)),
    )
}

/// The topic a key translates to under a scope.
pub open spec fn spec_key_to_topic(key: Seq<char>, scope: Option<Seq<char>>) -> Result<
    Seq<char>,
    TranslationError,
> {
    admitted_topic(unscoped_topic(key, scope), is_key_expr(key))
}

/// Puts the scope and one separator in front of the topic.
pub fn compose_key(topic: &str, scope: &Option<String>) -> (key: String)
    ensures
        key@ == scoped_key(topic@, scope_view(*scope)),
{
    match scope {
        Some(s) => {
            let mut key = s.clone();
            proof {
                reveal_strlit("/");
            }
            key.append("/");
            key.append(topic);
            assert(key@ =~= s@ + seq![separator()] + topic@);
            key
        },
        None => topic.to_owned(),
    }
}

/// Removes the scope and its separator from the front of the key; `None`
/// when the key does not lie under the scope.
pub fn strip_scope(key: &str, scope: &Option<String>) -> (topic: Option<String>)
    ensures
        match topic {
            Some(t) => unscoped_topic(key@, scope_view(*scope)) == Some(t@),
            None => unscoped_topic(key@, scope_view(*scope)) is None,
        },
{
    match scope {
        Some(s) => {
            let key_len: usize = key.unicode_len();
            let scope_len: usize = s.as_str().unicode_len();
            if key_len <= scope_len {
                return None;
            }
            let head: String = key.substring_char(0, scope_len).to_owned();
            if head != *s {
                return None;
            }
            if key.get_char(scope_len) != '/' {
                return None;
            }
            Some(key.substring_char(scope_len + 1, key_len).to_owned())
        },
        None => Some(key.to_owned()),
    }
}

/// Decides on a composed key from zenoh's verdicts on the topic and on the
/// composed key.
pub fn admit_key(key: String, topic_ok: bool, key_ok: bool) -> (r: Result<
    String,
    TranslationError,
>)
    ensures
        text_view(r) == admitted_key(key@, topic_ok, key_ok),
{
    if !topic_ok {
        Err(TranslationError::MalformedTopic)
    } else if !key_ok {
        Err(TranslationError::UnsupportedScope)
    } else {
        Ok(key)
    }
}

/// Decides on a stripped key from zenoh's verdict on the key.
pub fn admit_topic(topic: Option<String>, key_ok: bool) -> (r: Result<String, TranslationError>)
    ensures
        text_view(r) == admitted_topic(
            match topic {
                Some(t) => Some(t@),
                None => None,
            },
            key_ok,
        ),
{
    if !key_ok {
        Err(TranslationError::MalformedKey)
    } else {
        match topic {
            Some(t) => Ok(t),
            None => Err(TranslationError::UnsupportedScope),
        }
    }
}

/// Translates an MQTT topic to the key it is published and subscribed under.
///
/// Fails with `MalformedTopic` exactly when the topic is not a canonical key
/// expression, and with `UnsupportedScope` exactly when the topic is one but
/// the scope, a separator and the topic together are not.
pub fn topic_to_key(topic: &str, scope: &Option<String>) -> (r: Result<String, TranslationError>)
    ensures
        text_view(r) == spec_topic_to_key(topic@, scope_view(*scope)),
{
    let topic_ok = key_expr_accepts(topic);
    let key = compose_key(topic, scope);
    let key_ok = key_expr_accepts(key.as_str());
    admit_key(key, topic_ok, key_ok)
}

/// Translates an overlay key back to the MQTT topic it stands for.
///
/// Fails with `MalformedKey` exactly when the key is not a canonical key
/// expression, and with `UnsupportedScope` exactly when it is one but does
/// not consist of the scope, a separator and a remainder.
pub fn key_to_topic(key: &str, scope: &Option<String>) -> (r: Result<String, TranslationError>)
    ensures
        text_view(r) == spec_key_to_topic(key@, scope_view(*scope)),
{
    let key_ok = key_expr_accepts(key);
    let topic = strip_scope(key, scope);
    admit_topic(topic, key_ok)
}

/// Translating a topic to a key and the key back gives the topic again,
/// with or without a scope, for every topic that translates. Without a
/// scope the key is the topic itself; with a scope the key is the scope, one
/// separator and the topic, and the way back removes exactly that prefix.
pub proof fn lemma_round_trip(topic: Seq<char>, scope: Option<Seq<char>>)
    ensures
        spec_topic_to_key(topic, scope) matches Ok(key) ==> {
            &&& spec_key_to_topic(key, scope) == Ok::<Seq<char>, TranslationError>(topic)
            &&& scope is None ==> key == topic
            &&& scope matches Some(s) ==> key == s + seq![separator()] + topic
        },
{
    let key = scoped_key(topic, scope);
    match scope {
        Some(s) => {
            assert(key.subrange(0, s.len() as int) =~= s);
            assert(key.subrange((s.len() + 1) as int, key.len() as int) =~= topic);
        },
        None => {},
    }
}

} // verus!

use nervio_limiter::commands::{get_command, info_command, set_command};
use nervio_limiter::errors::LimiterError;
use nervio_limiter::limiter::Limiter;
use nervio_limiter::storage::StorageType;
use std::time::Duration;

fn connected() -> Limiter<u8> {
    Limiter::new(StorageType::Redis, Some(1), None, None, Duration::from_secs(1))
}

fn unconnected() -> Limiter<u8> {
    Limiter::new(StorageType::Redis, None, None, None, Duration::from_secs(1))
}

fn packed(words: &[&str]) -> Vec<u8> {
    let mut text = format!("*{}\r\n", words.len());
    for word in words {
        text.push_str(&format!("${}\r\n{}\r\n", word.len(), word));
    }
    text.into_bytes()
}

fn fail<T>() -> Result<T, &'static str> {
    Err("failed")
}

#[test]
fn set_command_words() {
    let command = set_command("k", "{\"a\":1}", 60_000);
    assert_eq!(command.get_packed_command(), packed(&["SET", "k", "{\"a\":1}", "PX", "60000"]));
}

#[test]
fn words_are_sent_in_utf8() {
    let command = get_command("caf\u{e9}");
    assert_eq!(command.get_packed_command(), packed(&["GET", "caf\u{e9}"]));
}

#[test]
fn info_command_words() {
    assert_eq!(info_command().get_packed_command(), packed(&["INFO"]));
}

#[test]
fn add_to_redis_sends_the_milliseconds() {
    let value: Result<String, ()> = Ok("v".to_owned());
    let command = connected().add_to_redis("k".to_owned(), value, Duration::new(3, 999_999_999)).unwrap();
    assert_eq!(command.get_packed_command(), packed(&["SET", "k", "v", "PX", "3999"]));
}

#[test]
fn add_to_redis_errors() {
    let value: Result<String, ()> = Ok("v".to_owned());
    let error = unconnected().add_to_redis("k".to_owned(), value, Duration::from_secs(1)).err();
    assert_eq!(error, Some(LimiterError::NotRedisConfigured));
    let error = unconnected().add_to_redis("k".to_owned(), fail(), Duration::from_secs(1)).err();
    assert_eq!(error, Some(LimiterError::NotRedisConfigured));
    let error = connected().add_to_redis("k".to_owned(), fail(), Duration::from_secs(1)).err();
    assert_eq!(error, Some(LimiterError::SerializationError));
    assert_eq!(Limiter::<u8>::add_to_redis_reply(fail::<()>()), Err(LimiterError::RedisSetError));
    assert_eq!(Limiter::<u8>::add_to_redis_reply::<(), ()>(Ok(())), Ok(()));
}

#[test]
fn get_from_redis_command_and_reply() {
    let command = connected().get_from_redis("k".to_owned()).unwrap();
    assert_eq!(command.get_packed_command(), packed(&["GET", "k"]));
    let error = unconnected().get_from_redis("k".to_owned()).err();
    assert_eq!(error, Some(LimiterError::NotRedisConfigured));
    let read = |reply: Result<Option<Result<u8, ()>>, ()>| Limiter::<u8>::get_from_redis_reply(reply);
    assert_eq!(read(Ok(Some(Ok(4)))), Ok(Some(4)));
    assert_eq!(read(Ok(None)), Ok(None));
    assert_eq!(read(Ok(Some(Err(())))), Err(LimiterError::DeserializationError));
    assert_eq!(read(Err(())), Err(LimiterError::RedisGetError));
}

#[test]
fn delete_from_redis_command_and_reply() {
    let command = connected().delete_from_redis("k".to_owned()).unwrap();
    assert_eq!(command.get_packed_command(), packed(&["DEL", "k"]));
    let error = unconnected().delete_from_redis("k".to_owned()).err();
    assert_eq!(error, Some(LimiterError::NotRedisConfigured));
    assert_eq!(Limiter::<u8>::delete_from_redis_reply::<u8, u8>(Ok(1)), Ok(()));
    assert_eq!(Limiter::<u8>::delete_from_redis_reply(fail::<u8>()), Err(LimiterError::RedisDelError));
}

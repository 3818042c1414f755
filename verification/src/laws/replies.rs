//! What is sent to Redis, and how its replies are taken.

use crate::entity::{Entity, EntityWrite, LimiterHeaders};
use crate::errors::LimiterError;
use crate::limiter::Limiter;
use core::time::Duration;
use vstd::prelude::*;

verus! {

/// Whether a command is these words, each sent as its bytes in UTF-8.
pub open spec fn says(command: redis::Cmd, words: Seq<Seq<char>>) -> bool {
    let sent = crate::commands::command_words(command);
    &&& sent.len() == words.len()
    &&& forall|i: int|
        0 <= i < words.len() ==> #[trigger] sent[i] == vstd::utf8::encode_utf8(words[i])
}

/// A value is stored whole, under the whole key, to expire after the whole duration. Without a
/// connection, or without a value, nothing is sent.
pub proof fn values_are_stored_whole<C, E>(
    limiter: Limiter<C>,
    key: String,
    value: Result<String, E>,
    duration: Duration,
    command: Result<redis::Cmd, LimiterError>,
)
    requires
        call_ensures(Limiter::<C>::add_to_redis::<E>, (&limiter, key, value, duration), command),
    ensures
        limiter.redis_conn is None ==> (command matches Err(error)
            && error is NotRedisConfigured),
        limiter.redis_conn is Some && value is Err ==> (command matches Err(error)
            && error is SerializationError),
        limiter.redis_conn is Some && value is Ok && crate::time::duration_millis(duration)
            <= usize::MAX ==> (command matches Ok(command) && says(
            command,
            seq![
                "SET"@,
                key@,
                value->Ok_0@,
                "PX"@,
                crate::text::decimal(crate::time::duration_millis(duration)),
            ],
        )),
        limiter.redis_conn is Some && value is Ok ==> (command matches Ok(command) && exists|
            millis: usize,
            left_out: nat,
        |
            says(
                command,
                seq![
                    "SET"@,
                    key@,
                    value->Ok_0@,
                    "PX"@,
                    #[trigger] crate::text::decimal(millis as nat),
                ],
            ) && crate::time::duration_millis(duration) == millis + #[trigger] (left_out * (
            usize::MAX as nat + 1))),
{
    let span = usize::MAX as nat + 1;
    let all = crate::time::duration_millis(duration);
    vstd::arithmetic::div_mod::lemma_fundamental_div_mod(all as int, span as int);
    let millis = (all % span) as usize;
    let left_out = all / span;
    assert(millis as nat == all % span);
    assert(left_out * span == span * left_out) by (nonlinear_arith);
    if crate::time::duration_millis(duration) <= usize::MAX {
        assert(crate::time::duration_millis(duration) % (usize::MAX as nat + 1)
            == crate::time::duration_millis(duration)) by {
            vstd::arithmetic::div_mod::lemma_small_mod(
                crate::time::duration_millis(duration),
                usize::MAX as nat + 1,
            );
        }
    }
    if let Ok(value) = value {
        crate::laws::texts::words_are_sent_one_by_one(
            seq![
                "SET"@,
                key@,
                value@,
                "PX"@,
                crate::text::decimal(
                    crate::time::duration_millis(duration) % (usize::MAX as nat + 1),
                ),
            ],
        );
    }
}

/// Reading and deleting ask for the whole key. Without a connection nothing is sent.
pub proof fn keys_are_sent_whole<C>(
    limiter: Limiter<C>,
    key: String,
    command: Result<redis::Cmd, LimiterError>,
)
    ensures
        call_ensures(Limiter::<C>::get_from_redis, (&limiter, key), command) ==> match command {
            Ok(command) => limiter.redis_conn is Some && says(command, seq!["GET"@, key@]),
            Err(error) => limiter.redis_conn is None && error is NotRedisConfigured,
        },
        call_ensures(Limiter::<C>::delete_from_redis, (&limiter, key), command) ==> match command {
            Ok(command) => limiter.redis_conn is Some && says(command, seq!["DEL"@, key@]),
            Err(error) => limiter.redis_conn is None && error is NotRedisConfigured,
        },
{
    crate::laws::texts::words_are_sent_one_by_one(seq!["GET"@, key@]);
    crate::laws::texts::words_are_sent_one_by_one(seq!["DEL"@, key@]);
}

/// The commands themselves are made of the words that they are given.
pub proof fn commands_are_made_of_their_words(
    key: &str,
    value: &str,
    millis: usize,
    command: redis::Cmd,
)
    ensures
        call_ensures(crate::commands::set_command, (key, value, millis), command) ==> says(
            command,
            seq!["SET"@, key@, value@, "PX"@, crate::text::decimal(millis as nat)],
        ),
        call_ensures(crate::commands::get_command, (key,), command) ==> says(
            command,
            seq!["GET"@, key@],
        ),
        call_ensures(crate::commands::del_command, (key,), command) ==> says(
            command,
            seq!["DEL"@, key@],
        ),
        call_ensures(crate::commands::info_command, (), command) ==> says(command, seq!["INFO"@]),
{
}

/// A reply that failed is the error of its command; any other is taken as it is.
pub proof fn replies_are_taken_as_they_are<C, T, D, E>(
    done: Result<T, E>,
    value: Result<Option<Result<T, D>>, E>,
    unit: Result<(), LimiterError>,
    found: Result<Option<T>, LimiterError>,
)
    ensures
        call_ensures(Limiter::<C>::add_to_redis_reply::<T, E>, (done,), unit) ==> match unit {
            Ok(_) => done is Ok,
            Err(error) => done is Err && error is RedisSetError,
        },
        call_ensures(Limiter::<C>::delete_from_redis_reply::<T, E>, (done,), unit) ==> match unit {
            Ok(_) => done is Ok,
            Err(error) => done is Err && error is RedisDelError,
        },
        call_ensures(Limiter::<C>::get_from_redis_reply::<T, D, E>, (value,), found)
            ==> match value {
            Err(_) => found matches Err(error) && error is RedisGetError,
            Ok(None) => found matches Ok(None),
            Ok(Some(Err(_))) => found matches Err(error) && error is DeserializationError,
            Ok(Some(Ok(stored))) => found matches Ok(Some(read)) && read == stored,
        },
{
}

/// A request whose counter was stored is told what it was to be told; one whose counter was not
/// is told why.
pub proof fn storing_decides_the_rest<C>(
    headers: LimiterHeaders,
    reply: Result<(), LimiterError>,
    result: Result<LimiterHeaders, LimiterError>,
    write: EntityWrite,
    entity: Result<Entity, LimiterError>,
)
    ensures
        call_ensures(Limiter::<C>::limit_this_stored, (headers, reply), result) ==> match reply {
            Ok(_) => result matches Ok(told) && told == headers,
            Err(error) => result matches Err(told) && told == error,
        },
        call_ensures(EntityWrite::finish, (write, reply), entity) ==> match entity {
            Ok(entity) => entity == write.entity && (write.store is None || reply is Ok),
            Err(told) => write.store is Some && (reply matches Err(error) && error == told),
        },
{
}

/// The report of Redis on itself, and on its memory, fails exactly if asking for it failed, or if
/// it is unusable.
pub proof fn reports_are_taken_as_they_are<E>(
    reply: Result<String, E>,
    info: Result<crate::storage::InfoMap, LimiterError>,
    usage: Result<usize, LimiterError>,
)
    ensures
        call_ensures(crate::storage::get_redis_info::<E>, (reply,), info) ==> match reply {
            Ok(text) => info matches Ok(map) && crate::storage::info_fields(map)
                == crate::storage::fields(crate::text::lines(text@)),
            Err(_) => info matches Err(error) && error is RedisSetError,
        },
        call_ensures(crate::storage::get_redis_memory_usage::<E>, (reply,), usage) ==> match reply {
            Ok(text) => usage == crate::storage::used_memory(
                crate::storage::fields(crate::text::lines(text@)),
            ),
            Err(_) => usage matches Err(error) && error is RedisSetError,
        },
{
}

} // verus!

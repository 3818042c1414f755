//! Redis commands.

use redis::Cmd;
use vstd::prelude::*;

verus! {

/// A command of the `redis` crate, to be sent over a connection.
#[verifier::external_type_specification]
#[verifier::external_body]
pub struct ExCmd(redis::Cmd);

/// The words of a command, its name first, each as the bytes that are sent.
pub uninterp spec fn command_words(command: Cmd) -> Seq<Seq<u8>>;

/// Words as the bytes that are sent.
pub open spec fn encoded(words: Seq<Seq<char>>) -> Seq<Seq<u8>> {
    words.map_values(|word: Seq<char>| vstd::utf8::encode_utf8(word))
}

/// `redis::cmd` makes a command whose only word is its name.
#[verifier::external_body]
fn command(name: &str) -> (made: Cmd)
    ensures
        command_words(made) == seq![vstd::utf8::encode_utf8(name@)],
{
    redis::cmd(name)
}

/// `Cmd::arg` with a string adds the bytes of the string as one more word.
#[verifier::external_body]
fn add_text(command: &mut Cmd, word: &str)
    ensures
        command_words(*final(command)) == command_words(*old(command)).push(
            vstd::utf8::encode_utf8(word@),
        ),
{
    command.arg(word);
}

/// `Cmd::arg` with a `usize` adds the number in decimal as one more word.
#[verifier::external_body]
fn add_number(command: &mut Cmd, number: usize)
    ensures
        command_words(*final(command)) == command_words(*old(command)).push(
            vstd::utf8::encode_utf8(crate::text::decimal(number as nat)),
        ),
{
    command.arg(number);
}

/// Makes the command that stores `value` under `key`, to expire after `millis` milliseconds.
pub fn set_command(key: &str, value: &str, millis: usize) -> (made: Cmd)
    ensures
        command_words(made) == encoded(
            seq!["SET"@, key@, value@, "PX"@, crate::text::decimal(millis as nat)],
        ),
{
    let mut made = command("SET");
    add_text(&mut made, key);
    add_text(&mut made, value);
    add_text(&mut made, "PX");
    add_number(&mut made, millis);
    made
}

/// Makes the command that reads what is stored under `key`.
pub fn get_command(key: &str) -> (made: Cmd)
    ensures
        command_words(made) == encoded(seq!["GET"@, key@]),
{
    let mut made = command("GET");
    add_text(&mut made, key);
    made
}

/// Makes the command that deletes what is stored under `key`.
pub fn del_command(key: &str) -> (made: Cmd)
    ensures
        command_words(made) == encoded(seq!["DEL"@, key@]),
{
    let mut made = command("DEL");
    add_text(&mut made, key);
    made
}

/// Makes the command that asks the server about itself.
pub fn info_command() -> (made: Cmd)
    ensures
        command_words(made) == encoded(seq!["INFO"@]),
{
    command("INFO")
}

} // verus!

use vstd::prelude::*;
use crate::detect::{contains_samurai_phrase, regex_accepts, regex_finds, SAMURAI_PATTERN};
use crate::text::position_of;

verus! {

/// The name of the guild emoji the bot reacts with.
pub const REACTION_EMOJI_NAME: &'static str = "kasu";

/// What the bot does with an incoming message.
pub enum MessageAction {
    /// The message is left alone.
    Ignore,
    /// A direct message: left alone, but worth a note in the log.
    IgnoreDirect,
    /// The message names a samurai: react to it and reply with an entry.
    Respond,
}

/// Whether a message's text makes the bot respond.
pub open spec fn calls_for_samurai(content: Seq<char>) -> bool {
    regex_accepts(SAMURAI_PATTERN@) && regex_finds(SAMURAI_PATTERN@, content)
}

/// Decides what to do with a message: messages of bots and direct messages
/// are left alone; in a guild, a message that holds a samurai phrase gets a
/// response.
pub fn plan_for_message(author_is_bot: bool, in_guild: bool, content: &str) -> (r: MessageAction)
    ensures
        r == if author_is_bot {
            MessageAction::Ignore
        } else if !in_guild {
            MessageAction::IgnoreDirect
        } else if calls_for_samurai(content@) {
            MessageAction::Respond
        } else {
            MessageAction::Ignore
        },
{
    if author_is_bot {
        MessageAction::Ignore
    } else if !in_guild {
        MessageAction::IgnoreDirect
    } else if contains_samurai_phrase(content) {
        MessageAction::Respond
    } else {
        MessageAction::Ignore
    }
}

/// The position of the first emoji named like the bot's reaction emoji.
pub fn find_reaction_emoji(emoji_names: &Vec<String>) -> (r: Option<usize>)
    ensures
        match r {
            Some(i) => i < emoji_names@.len() && emoji_names@[i as int]@ == REACTION_EMOJI_NAME@
                && forall|j: int| 0 <= j < i ==> emoji_names@[j]@ != REACTION_EMOJI_NAME@,
            None => forall|j: int| 0 <= j < emoji_names@.len() ==> emoji_names@[j]@ != REACTION_EMOJI_NAME@,
        },
{
    position_of(emoji_names, REACTION_EMOJI_NAME)
}

} // verus!

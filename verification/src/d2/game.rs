use vstd::prelude::*;
use vstd::string::StringExecFns;

use crate::d2::draw::TextColor;

verus! {

/// Where the game shows a printed message.
#[derive(Debug, Clone, Copy, PartialEq, Eq, Structural)]
pub enum MessageChannel {
    /// The game's message area (its "print game string" routine).
    Game,
    /// The party message area at the bottom (its "print party string" routine).
    Party,
}

/// A message for the game to print.
#[derive(Debug)]
pub struct GameMessage {
    pub channel: MessageChannel,
    pub color: i32,
    pub text: String,
}

/// The text has no NUL character (the game's wide-string routines take
/// NUL-terminated text).
pub open spec fn nul_free(text: Seq<char>) -> bool {
    forall|i: int| 0 <= i < text.len() ==> text[i] != '\0'
}

/// Whether `text` has no NUL character.
pub fn is_nul_free(text: &str) -> (res: bool)
    ensures
        res == nul_free(text@),
{
    let n = text.unicode_len();
    let mut i: usize = 0;
    while i < n
        invariant
            n == text@.len(),
            i <= n,
            forall|j: int| 0 <= j < i ==> text@[j] != '\0',
        decreases n - i,
    {
        if text.get_char(i) == '\0' {
            return false;
        }
        i = i + 1;
    }
    true
}

/// The message that prints `msg` in `color`, at the bottom (party area) or
/// in the game's message area; nothing for an empty message. A message with
/// a NUL character cannot be handed to the game.
pub fn print(bottom: bool, color: TextColor, msg: &str) -> (res: Option<GameMessage>)
    requires
        nul_free(msg@),
    ensures
        match res {
            None => msg@.len() == 0,
            Some(m) => {
                &&& msg@.len() != 0
                &&& m.channel == (if bottom { MessageChannel::Party } else { MessageChannel::Game })
                &&& m.color == color.spec_code()
                &&& m.text@ == msg@
            },
        },
{
    if msg.is_empty() {
        return None;
    }
    let channel = match bottom {
        true => MessageChannel::Party,
        false => MessageChannel::Game,
    };
    Some(GameMessage { channel, color: color.code(), text: String::from_str(msg) })
}

} // verus!

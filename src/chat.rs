use vstd::prelude::*;

use crate::errors::{BadClientRequest, ErrorObject, InvalidMessageError};
use crate::identity::{fresh_id, ID_LENGTH};

verus! {

/// The most messages a chat keeps.
pub const MAX_CHAT_MESSAGE_LENGTH: usize = 50;

/// A message written by a player in a game's chat.
#[derive(Debug)]
pub struct ChatMessage {
    pub id: String,
    /// The player who wrote the message.
    pub player_id: String,
    pub content: String,
    /// When the message was sent.
    pub sent_at: String,
}

/// The value of a chat message.
pub struct ChatMessageView {
    pub id: Seq<char>,
    pub player_id: Seq<char>,
    pub content: Seq<char>,
    pub sent_at: Seq<char>,
}

impl View for ChatMessage {
    type V = ChatMessageView;

    open spec fn view(&self) -> ChatMessageView {
        ChatMessageView {
            id: self.id@,
            player_id: self.player_id@,
            content: self.content@,
            sent_at: self.sent_at@,
        }
    }
}

impl Clone for ChatMessage {
    fn clone(&self) -> (r: Self)
        ensures
            r@ == self@,
    {
        ChatMessage {
            id: self.id.clone(),
            player_id: self.player_id.clone(),
            content: self.content.clone(),
            sent_at: self.sent_at.clone(),
        }
    }
}

/// The text of the error for a message that a player got wrong.
pub open spec fn invalid_message_text(player_id: Seq<char>) -> Seq<char> {
    "The provided data by player with id: "@ + player_id + " for a chat message was not valid!"@
}

impl ChatMessage {
    /// A message; refused when its content, its author or its time is empty.
    pub fn new(id: String, player_id: String, content: String, sent_at: String) -> (r: Result<
        Self,
        BadClientRequest<ChatMessage>,
    >)
        ensures
            r is Err <==> (content@.len() == 0 || player_id@.len() == 0 || sent_at@.len() == 0),
            r matches Ok(m) ==> m@ == (ChatMessageView {
                id: id@,
                player_id: player_id@,
                content: content@,
                sent_at: sent_at@,
            }),
            r matches Err(e) ==> e.message@ == invalid_message_text(player_id@) && e.bad_data@ == (
            ChatMessageView {
                id: id@,
                player_id: player_id@,
                content: content@,
                sent_at: sent_at@,
            }),
    {
        if content.as_str().is_empty() || player_id.as_str().is_empty()
            || sent_at.as_str().is_empty() {
            let message = String::from_str("The provided data by player with id: ").concat(
                player_id.as_str(),
            ).concat(" for a chat message was not valid!");
            return Err(
                BadClientRequest::new(message, ChatMessage { id, player_id, content, sent_at }),
            );
        }
        Ok(ChatMessage { id, player_id, content, sent_at })
    }
}

impl ErrorObject for ChatMessage {}

/// The chat of a game: its messages, oldest first, and how many it counts.
#[derive(Debug)]
pub struct Chat {
    pub id: String,
    pub messages: Vec<ChatMessage>,
    /// The number of messages, at most `MAX_CHAT_MESSAGE_LENGTH`.
    pub number_of_messages: usize,
}

/// The value of a chat.
pub struct ChatView {
    pub id: Seq<char>,
    pub messages: Seq<ChatMessageView>,
    pub number_of_messages: nat,
}

/// The values of a list of chat messages.
pub open spec fn messages_view(messages: Seq<ChatMessage>) -> Seq<ChatMessageView> {
    messages.map_values(|m: ChatMessage| m@)
}

impl View for Chat {
    type V = ChatView;

    open spec fn view(&self) -> ChatView {
        ChatView {
            id: self.id@,
            messages: messages_view(self.messages@),
            number_of_messages: self.number_of_messages as nat,
        }
    }
}

impl Clone for Chat {
    fn clone(&self) -> (r: Self)
        ensures
            r@ == self@,
    {
        let messages = self.messages.clone();
        assert(messages_view(messages@) =~= messages_view(self.messages@));
        Chat { id: self.id.clone(), messages, number_of_messages: self.number_of_messages }
    }
}

impl Chat {
    /// The count agrees with the messages held, and stays within the limit.
    pub open spec fn well_formed(&self) -> bool {
        &&& self.number_of_messages == self.messages.len()
        &&& self.number_of_messages <= MAX_CHAT_MESSAGE_LENGTH
    }

    /// An empty chat under a fresh identifier.
    pub fn new() -> (r: Self)
        ensures
            r.well_formed(),
            r.messages@.len() == 0,
            r.number_of_messages == 0,
            r.id@.len() == ID_LENGTH,
    {
        Chat { id: fresh_id(), messages: Vec::new(), number_of_messages: 0 }
    }

    /// Deletes all messages; the chat keeps its identifier.
    pub fn reset(&mut self)
        ensures
            final(self).id == old(self).id,
            final(self).messages@.len() == 0,
            final(self).number_of_messages == 0,
            final(self).well_formed(),
    {
        self.number_of_messages = 0;
        self.messages = Vec::new();
    }

    /// Adds a message at the end of the chat. A message with empty content is
    /// refused and the chat is left as it was. Once the chat counts the most
    /// messages it keeps, the oldest message gives way to the new one.
    pub fn add_chat_message(&mut self, message: ChatMessage) -> (r: Result<(), InvalidMessageError>)
        requires
            message.content@.len() > 0 && old(self).number_of_messages >= MAX_CHAT_MESSAGE_LENGTH
                ==> old(self).messages.len() > 0,
        ensures
            final(self).id == old(self).id,
            r is Err <==> message.content@.len() == 0,
            r matches Err(e) ==> e.message@ == "Too short message content! Must not be of length 0!"@
                && e.origin_message@ == message@ && final(self)@ == old(self)@,
            r is Ok && old(self).number_of_messages >= MAX_CHAT_MESSAGE_LENGTH ==> final(self)@
                == (ChatView {
                messages: old(self)@.messages.drop_first().push(message@),
                ..old(self)@
            }),
            r is Ok && old(self).number_of_messages < MAX_CHAT_MESSAGE_LENGTH ==> final(self)@
                == (ChatView {
                messages: old(self)@.messages.push(message@),
                number_of_messages: old(self)@.number_of_messages + 1,
                ..old(self)@
            }),
            old(self).well_formed() ==> final(self).well_formed(),
    {
        if message.content.as_str().is_empty() {
            return Err(
                InvalidMessageError {
                    message: String::from_str(
                        "Too short message content! Must not be of length 0!",
                    ),
                    origin_message: message,
                },
            );
        }
        let ghost before = self.messages@;
        if self.number_of_messages >= MAX_CHAT_MESSAGE_LENGTH {
            self.messages.remove(0);
            self.messages.push(message);
            assert(messages_view(self.messages@) =~= messages_view(before).drop_first().push(
                self.messages@.last()@,
            ));
            return Ok(());
        }
        self.number_of_messages = self.number_of_messages + 1;
        self.messages.push(message);
        assert(messages_view(self.messages@) =~= messages_view(before).push(
            self.messages@.last()@,
        ));
        Ok(())
    }
}

impl Default for Chat {
    /// An empty chat under a fresh identifier.
    fn default() -> (r: Self)
        ensures
            r.well_formed(),
            r.messages@.len() == 0,
            r.number_of_messages == 0,
            r.id@.len() == ID_LENGTH,
    {
        Chat::new()
    }
}

} // verus!

//! What the inference server takes and gives, as plain values.

use vstd::prelude::*;

verus! {

/// One turn of a conversation.
#[derive(Debug, Clone)]
pub struct Message {
    /// Who speaks.
    pub role: String,
    /// What is said.
    pub content: String,
}

/// A turn as a value.
#[verifier::ext_equal]
pub struct MessageView {
    /// Who speaks.
    pub role: Seq<char>,
    /// What is said.
    pub content: Seq<char>,
}

impl View for Message {
    type V = MessageView;

    open spec fn view(&self) -> MessageView {
        MessageView { role: self.role@, content: self.content@ }
    }
}

/// The turns of a conversation, as values.
pub open spec fn turns(messages: Seq<Message>) -> Seq<MessageView> {
    messages.map_values(|m: Message| m@)
}

/// A copy of the turns of a conversation.
pub fn copy_messages(messages: &Vec<Message>) -> (copy: Vec<Message>)
    ensures
        turns(copy@) == turns(messages@),
{
    let mut copy: Vec<Message> = Vec::new();
    let mut i: usize = 0;
    let ghost all = turns(messages@);
    while i < messages.len()
        invariant
            i <= messages@.len(),
            all == turns(messages@),
            turns(copy@) == all.take(i as int),
        decreases messages@.len() - i,
    {
        let ghost before = copy@;
        copy.push(
            Message { role: messages[i].role.clone(), content: messages[i].content.clone() },
        );
        proof {
            assert(turns(copy@) =~= turns(before).push(all[i as int]));
            assert(all.take(i + 1) =~= all.take(i as int).push(all[i as int]));
        }
        i = i + 1;
    }
    proof {
        assert(all.take(i as int) =~= all);
    }
    copy
}

/// A request for an answer.
#[derive(Debug)]
pub struct ChatCompletionRequest {
    /// The name of the model.
    pub model: String,
    /// The conversation so far.
    pub messages: Vec<Message>,
    /// How long the answer may be.
    pub max_tokens: u32,
    /// How freely the model answers: the bits of an IEEE 754 single.
    pub temperature_bits: u32,
    /// Whether the answer comes in pieces.
    pub stream: bool,
}

/// A piece of an answer.
#[derive(Debug, Clone)]
pub struct ChatCompletionChunk {
    /// The alternatives.
    pub choices: Vec<ChunkChoice>,
}

/// One alternative of a piece.
#[derive(Debug, Clone)]
pub struct ChunkChoice {
    /// What is added.
    pub delta: Option<ChunkContent>,
    /// What is said as a whole.
    pub message: Option<ChunkContent>,
}

/// What is said.
#[derive(Debug, Clone)]
pub struct ChunkContent {
    /// The text.
    pub content: Option<String>,
}

} // verus!

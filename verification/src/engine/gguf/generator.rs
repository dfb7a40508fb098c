//! GGUF-based text generation model, as it stands in a build without the
//! GGUF backend: it formats chat prompts and checks its input, and reports
//! that no model is loaded.

use vstd::prelude::*;
use crate::engine::error::InferenceError;
use crate::engine::InferenceCapability;
use crate::text::concat2;

verus! {

/// Who speaks in a chat message.
#[derive(Debug, Clone, Copy, PartialEq, Eq, Structural)]
pub enum ChatRole {
    System,
    User,
    Assistant,
}

/// One message of a chat.
#[derive(Debug, Clone)]
pub struct ChatMessage {
    pub role: ChatRole,
    pub content: String,
}

/// The tag that opens a message of this role.
pub open spec fn role_tag(role: ChatRole) -> Seq<char> {
    match role {
        ChatRole::System => "<|system|>"@,
        ChatRole::User => "<|user|>"@,
        ChatRole::Assistant => "<|assistant|>"@,
    }
}

/// The messages, each as its tag, its content and `<|end|>` with a newline.
pub open spec fn chat_body(messages: Seq<ChatMessage>) -> Seq<char>
    decreases messages.len(),
{
    if messages.len() == 0 {
        Seq::empty()
    } else {
        chat_body(messages.drop_last()) + role_tag(messages.last().role) + messages.last().content@
            + "<|end|>\n"@
    }
}

/// The prompt of a chat: its messages, then the assistant's tag.
pub open spec fn spec_chat_prompt(messages: Seq<ChatMessage>) -> Seq<char> {
    chat_body(messages) + "<|assistant|>"@
}

/// GGUF text generation model.
#[derive(Debug)]
pub struct GgufGenerator {
    model_id: String,
    memory_bytes: usize,
    context_size: u32,
}

impl GgufGenerator {
    /// The model's id.
    pub closed spec fn spec_model_id(&self) -> Seq<char> {
        self.model_id@
    }

    /// Memory the model holds, in bytes.
    pub closed spec fn spec_memory(&self) -> usize {
        self.memory_bytes
    }

    /// The context size the model was made for.
    pub closed spec fn spec_context_size(&self) -> u32 {
        self.context_size
    }

    /// Create a new generator (no model loaded yet).
    pub fn new(model_id: String, context_size: u32) -> (r: Self)
        ensures
            r.spec_model_id() == model_id@,
            r.spec_memory() == 0,
            r.spec_context_size() == context_size,
    {
        GgufGenerator { model_id, memory_bytes: 0, context_size }
    }

    /// The model's id.
    pub fn model_id(&self) -> (r: &str)
        ensures
            r@ == self.spec_model_id(),
    {
        self.model_id.as_str()
    }

    /// What the model can do: generate text.
    pub fn capabilities(&self) -> (r: Vec<InferenceCapability>)
        ensures
            r@ == seq![InferenceCapability::TextGeneration],
    {
        vec![InferenceCapability::TextGeneration]
    }

    /// Memory the model holds, in bytes.
    pub fn memory_usage(&self) -> (r: usize)
        ensures
            r == self.spec_memory(),
    {
        self.memory_bytes
    }

    /// Generate text from a prompt: an empty prompt is refused; otherwise
    /// the generation fails, as no model is loaded.
    pub fn generate_text(&self, prompt: &str) -> (r: Result<String, InferenceError>)
        ensures
            prompt@.len() == 0 ==> (r matches Err(InferenceError::InputValidation(m)) && m@
                == "prompt cannot be empty"@),
            prompt@.len() > 0 ==> (r matches Err(InferenceError::ModelError(m)) && m@ == "model '"@
                + self.spec_model_id() + "' not loaded - cannot generate"@),
    {
        if prompt.unicode_len() == 0 {
            return Err(InferenceError::InputValidation("prompt cannot be empty".to_owned()));
        }
        let mut m = concat2("model '", self.model_id.as_str());
        m.append("' not loaded - cannot generate");
        Err(InferenceError::ModelError(m))
    }

    /// Format chat messages into a prompt string.
    pub fn format_chat_prompt(&self, messages: &[ChatMessage]) -> (r: String)
        ensures
            r@ == spec_chat_prompt(messages@),
    {
        let mut prompt = String::new();
        let n = messages.len();
        let mut i: usize = 0;
        proof {
            assert(messages@.take(0) =~= Seq::<ChatMessage>::empty());
        }
        while i < n
            invariant
                n == messages@.len(),
                i <= n,
                prompt@ == chat_body(messages@.take(i as int)),
            decreases n - i,
        {
            let msg = &messages[i];
            let tag = match msg.role {
                ChatRole::System => "<|system|>",
                ChatRole::User => "<|user|>",
                ChatRole::Assistant => "<|assistant|>",
            };
            prompt.append(tag);
            prompt.append(msg.content.as_str());
            prompt.append("<|end|>\n");
            proof {
                assert(messages@.take(i + 1).drop_last() =~= messages@.take(i as int));
                assert(prompt@ =~= chat_body(messages@.take(i + 1)));
            }
            i = i + 1;
        }
        proof {
            assert(messages@.take(n as int) =~= messages@);
        }
        prompt.append("<|assistant|>");
        prompt
    }

    /// Unload the model: it no longer holds memory.
    pub fn unload(&mut self)
        ensures
            final(self).spec_memory() == 0,
            final(self).spec_model_id() == old(self).spec_model_id(),
    {
        self.memory_bytes = 0;
    }
}

} // verus!

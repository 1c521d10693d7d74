//! Talking to the language model over HTTP: the request body, the reading of
//! the streamed answer, and the conversation context.
use vstd::prelude::*;
use crate::text::{has_prefix, has_suffix, replace_all, replaced};

verus! {

/// The compact JSON text of the object `{k1: v1, k2: v2}` (both values
/// strings) as serde_json writes it.
pub uninterp spec fn json_object_text(k1: Seq<char>, v1: Seq<char>, k2: Seq<char>, v2: Seq<char>) -> Seq<char>;

/// Serialises the object `{k1: v1, k2: v2}` with serde_json (`Map`,
/// `Value::Object`, `to_string`). Trusted: the text is a function of the
/// four strings alone; its escaping and key order are serde_json's and are
/// not stated here.
#[verifier::external_body]
fn json_object(k1: &str, v1: &str, k2: &str, v2: &str) -> (r: String)
    ensures
        r@ == json_object_text(k1@, v1@, k2@, v2@),
{
    let mut map = serde_json::Map::new();
    map.insert(k1.to_string(), serde_json::Value::String(v1.to_string()));
    map.insert(k2.to_string(), serde_json::Value::String(v2.to_string()));
    serde_json::Value::Object(map).to_string()
}

/// For a chunk of the model's answer: `None` when it is no JSON text;
/// otherwise the JSON text of its member `key` as serde_json writes it, or
/// `None` when it has no such member.
pub uninterp spec fn json_member_text(chunk: Seq<u8>, key: Seq<char>) -> Option<Option<Seq<char>>>;

/// Parses `chunk` with `serde_json::from_slice::<Value>` and writes out its
/// member `key` with `Value::to_string`. Trusted: the result is a function
/// of the bytes and the key alone; what counts as JSON is serde_json's and
/// is not stated here.
#[verifier::external_body]
fn json_member(chunk: &[u8], key: &str) -> (r: Option<Option<String>>)
    ensures
        match json_member_text(chunk@, key@) {
            None => r is None,
            Some(None) => r == Some(None::<String>),
            Some(Some(t)) => r matches Some(Some(s)) && s@ == t,
        },
{
    match serde_json::from_slice::<serde_json::Value>(chunk) {
        Err(_) => None,
        Ok(value) => match value.get(key) {
            None => Some(None),
            Some(member) => Some(Some(member.to_string())),
        },
    }
}

/// The model's text with its escapes undone: `\n` becomes a line break,
/// `\"` a quote, `\\` a backslash, and a line break goes before each ```.
pub open spec fn formatted(text: Seq<char>) -> Seq<char> {
    replaced(
        replaced(replaced(replaced(text, "\\n"@, "\n"@), "\\\""@, "\""@), "\\\\"@, "\\"@),
        "```"@,
        "\n```"@,
    )
}

/// The prompt sent to the model: the conversation so far, an instruction
/// not to mention it, then the user's prompt.
pub open spec fn contextual_prompt(context: Seq<char>, prompt: Seq<char>) -> Seq<char> {
    "Here is context of this user. Base the following prompt on this: '"@ + context + "\n"@
        + "Do not mention this context on your following answers\n"@ + "Prompt: "@ + prompt
}

/// Law: the prompt sent holds the whole conversation so far right after the
/// fixed header, and ends with `Prompt: ` followed by the user's whole
/// prompt, whatever the conversation: a longer prompt only adds to the end.
pub proof fn lemma_prompt_sent_whole(context: Seq<char>, prompt: Seq<char>)
    ensures
        contextual_prompt(context, prompt) == contextual_prompt(context, seq![]) + prompt,
        has_suffix(contextual_prompt(context, seq![]), "Prompt: "@),
        has_prefix(
            contextual_prompt(context, prompt),
            "Here is context of this user. Base the following prompt on this: '"@ + context,
        ),
{
    let head = "Here is context of this user. Base the following prompt on this: '"@ + context;
    let tail = "\n"@ + "Do not mention this context on your following answers\n"@ + "Prompt: "@;
    assert(contextual_prompt(context, prompt) =~= head + tail + prompt);
    assert(contextual_prompt(context, seq![]) =~= head + tail);
    reveal_strlit("Prompt: ");
    assert(tail =~= ("\n"@ + "Do not mention this context on your following answers\n"@) + "Prompt: "@);
}

/// How a chunk of the streamed answer is read.
#[derive(PartialEq, Eq, Debug)]
pub enum ChunkText {
    /// The chunk is no JSON text and is skipped.
    Skipped,
    /// The chunk has no `response` member.
    MissingResponse,
    /// The `response` member's JSON text cannot lose its first and last
    /// character (it is shorter than two characters, or one of them is not
    /// ASCII).
    Unsliceable,
    /// The text the chunk adds to the answer.
    Text(String),
}

/// The connection settings of the language model and the conversation so far.
#[derive(Clone)]
pub struct Llm {
    pub url: &'static str,
    pub model: &'static str,
    pub prompt_context: String,
}

impl Llm {
    /// A model at `url` with the name `model`, and no conversation yet.
    pub fn new(url: &'static str, model: &'static str) -> (l: Llm)
        ensures
            l.url == url,
            l.model == model,
            l.prompt_context@ == Seq::<char>::empty(),
    {
        Llm { url, model, prompt_context: String::new() }
    }

    /// Undoes the escapes in a piece of the model's answer (see `formatted`).
    pub fn format_response(text: &str) -> (r: String)
        ensures
            r@ == formatted(text@),
    {
        proof {
            reveal_strlit("\\n");
            reveal_strlit("\\\"");
            reveal_strlit("\\\\");
            reveal_strlit("```");
        }
        let a = replace_all(text, "\\n", "\n");
        let b = replace_all(a.as_str(), "\\\"", "\"");
        let c = replace_all(b.as_str(), "\\\\", "\\");
        replace_all(c.as_str(), "```", "\n```")
    }

    /// The JSON body of the request for `prompt`: the model's name and the
    /// prompt with the conversation so far.
    pub fn request_body(&self, prompt: &str) -> (r: String)
        ensures
            r@ == json_object_text(
                "model"@,
                self.model@,
                "prompt"@,
                contextual_prompt(self.prompt_context@, prompt@),
            ),
    {
        let mut full = String::from_str("Here is context of this user. Base the following prompt on this: '");
        full.append(self.prompt_context.as_str());
        full.append("\n");
        full.append("Do not mention this context on your following answers\n");
        full.append("Prompt: ");
        full.append(prompt);
        json_object("model", self.model, "prompt", full.as_str())
    }

    /// Reads one chunk of the streamed answer: the `response` member's
    /// JSON text without its first and last character, with its escapes
    /// undone.
    pub fn chunk_text(chunk: &[u8]) -> (r: ChunkText)
        ensures
            match json_member_text(chunk@, "response"@) {
                None => r == ChunkText::Skipped,
                Some(None) => r == ChunkText::MissingResponse,
                Some(Some(t)) => if t.len() >= 2 && (t[0] as u32) < 128 && (t.last() as u32) < 128 {
                    r matches ChunkText::Text(s) && s@ == formatted(t.subrange(1, t.len() - 1))
                } else {
                    r == ChunkText::Unsliceable
                },
            },
    {
        match json_member(chunk, "response") {
            None => ChunkText::Skipped,
            Some(None) => ChunkText::MissingResponse,
            Some(Some(t)) => {
                let n = t.as_str().unicode_len();
                if n >= 2 && (t.as_str().get_char(0) as u32) < 128 && (t.as_str().get_char(n - 1) as u32) < 128 {
                    let inner = t.as_str().substring_char(1, n - 1);
                    ChunkText::Text(Llm::format_response(inner))
                } else {
                    ChunkText::Unsliceable
                }
            },
        }
    }

    /// Closes the exchange of `prompt`: the prompt joins the conversation
    /// when its request was `delivered` (whatever the answer), and the
    /// conversation is unchanged when the request could not be sent.
    pub fn finish_prompt(&mut self, prompt: &str, delivered: bool)
        ensures
            delivered ==> final(self).prompt_context@ == old(self).prompt_context@ + prompt@,
            !delivered ==> final(self).prompt_context@ == old(self).prompt_context@,
            final(self).url == old(self).url,
            final(self).model == old(self).model,
    {
        if delivered {
            self.prompt_context.append(prompt);
        }
    }
}

} // verus!

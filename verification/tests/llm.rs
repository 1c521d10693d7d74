use rush::llm_wrapper::{ChunkText, Llm};

#[test]
fn responses_are_unescaped() {
    assert_eq!(Llm::format_response("a\\nb"), "a\nb");
    assert_eq!(Llm::format_response("say \\\"hi\\\""), "say \"hi\"");
    assert_eq!(Llm::format_response("c:\\\\dir"), "c:\\dir");
    assert_eq!(Llm::format_response("```rust"), "\n```rust");
}

#[test]
fn request_body_holds_model_and_prompt() {
    let mut llm = Llm::new("http://localhost:11434/api/generate", "llama3");
    let body = llm.request_body("hi");
    let v: serde_json::Value = serde_json::from_str(&body).unwrap();
    assert_eq!(v["model"], "llama3");
    assert_eq!(
        v["prompt"],
        "Here is context of this user. Base the following prompt on this: '\nDo not mention this context on your following answers\nPrompt: hi"
    );
    llm.finish_prompt("hi", true);
    llm.finish_prompt(" lost", false);
    assert_eq!(llm.prompt_context, "hi");
    llm.finish_prompt(" there", true);
    assert_eq!(llm.prompt_context, "hi there");
    let v: serde_json::Value = serde_json::from_str(&llm.request_body("x")).unwrap();
    assert!(v["prompt"].as_str().unwrap().contains("on this: 'hi there\n"));
}

#[test]
fn chunks_are_read() {
    assert_eq!(
        Llm::chunk_text(br#"{"model":"m","response":"Hello\nworld","done":false}"#),
        ChunkText::Text("Hello\nworld".to_string())
    );
    assert_eq!(
        Llm::chunk_text(br#"{"response":"say \"x\""}"#),
        ChunkText::Text("say \"x\"".to_string())
    );
    assert_eq!(Llm::chunk_text(b"not json"), ChunkText::Skipped);
    assert_eq!(Llm::chunk_text(br#"{"done":true}"#), ChunkText::MissingResponse);
    assert_eq!(Llm::chunk_text(br#"{"response":5}"#), ChunkText::Unsliceable);
    assert_eq!(Llm::chunk_text(br#"{"response":12}"#), ChunkText::Text(String::new()));
}

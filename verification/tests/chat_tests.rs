//! Tests of the chat session: prompt construction, input tagging, and the
//! bounded conversation history.

use phi_local_llm::{ChatSession, PhiFamily, PhiModel};

fn phi3_model() -> PhiModel {
    PhiModel {
        family: PhiFamily::Phi3,
        parameters: "3.8B".to_string(),
        context_length: 4096,
        specialization: vec!["coding".to_string()],
        parameter_count_tenths: 38,
    }
}

#[test]
fn test_chat_session_creation() {
    let model = phi3_model();

    let session = ChatSession::new(model, None, true, false);
    assert!(session.coding_mode);
    assert!(!session.math_mode);
    assert!(session.system_prompt.is_some());
}

#[test]
fn test_system_prompt_enhancement() {
    let base = "You are an AI assistant.".to_string();
    let enhanced = ChatSession::enhance_system_prompt(base, true, true);

    assert!(enhanced.contains("Coding Assistant Mode"));
    assert!(enhanced.contains("Math Assistant Mode"));
}

#[test]
fn test_default_system_prompt() {
    let plain = ChatSession::default_system_prompt(false, false);
    assert_eq!(
        plain,
        "You are Phi, a helpful AI assistant created by Microsoft. \
         You provide accurate, helpful, and concise responses."
    );

    let coding = ChatSession::default_system_prompt(true, false);
    assert!(coding.starts_with("You are Phi"));
    assert!(coding.contains("programming tasks"));
    assert!(!coding.contains("mathematical reasoning"));

    let both = ChatSession::default_system_prompt(true, true);
    assert!(both.contains("programming tasks"));
    assert!(both.contains("mathematical reasoning"));
}

#[test]
fn test_enhance_system_prompt_keeps_base() {
    let base = "Custom prompt.".to_string();
    let enhanced = ChatSession::enhance_system_prompt(base.clone(), false, false);
    assert_eq!(enhanced, base);

    let enhanced = ChatSession::enhance_system_prompt(base.clone(), true, false);
    assert!(enhanced.starts_with("Custom prompt."));
    assert!(!enhanced.contains("Math Assistant Mode"));
}

#[test]
fn test_enhance_input_tags() {
    let session = ChatSession::new(phi3_model(), None, true, true);

    assert_eq!(
        session.enhance_input("fix this bug"),
        "[CODING TASK] fix this bug"
    );
    assert_eq!(
        session.enhance_input("solve this equation"),
        "[MATH PROBLEM] solve this equation"
    );
    assert_eq!(
        session.enhance_input("solve this code"),
        "[MATH PROBLEM] [CODING TASK] solve this code"
    );
    assert_eq!(session.enhance_input("hello"), "hello");

    let plain = ChatSession::new(phi3_model(), None, false, false);
    assert_eq!(plain.enhance_input("fix this bug"), "fix this bug");
}

#[test]
fn test_record_exchange_caps_history() {
    let mut session = ChatSession::new(phi3_model(), None, false, false);
    for i in 0..12 {
        session.record_exchange(format!("question {}", i), format!("answer {}", i));
    }
    assert_eq!(session.conversation_history.len(), 10);
    assert_eq!(session.conversation_history[0].0, "question 2");
    assert_eq!(session.conversation_history[9].1, "answer 11");
}

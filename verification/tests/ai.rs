use turkcode::ai::{AIClient, AIService, CodeAnalysisResponse, CodeSuggestion, SuggestionType};

#[test]
fn client_keeps_its_key_and_model() {
    let client = AIClient::new("key".to_string(), "model-a".to_string());
    assert_eq!(client.api_key(), "key");
    assert_eq!(client.model(), "model-a");
    let copy = client.duplicate();
    assert_eq!(copy.api_key(), "key");
    assert_eq!(copy.model(), "model-a");
}

#[test]
fn analysis_gives_the_sample_review() {
    let client = AIClient::new("key".to_string(), "model-a".to_string());
    assert_eq!(
        client.analyze_code("let x = 1;", "typescript"),
        Ok(CodeAnalysisResponse {
            suggestions: vec![
                CodeSuggestion {
                    line: 10,
                    suggestion_type: SuggestionType::Performance,
                    content: "Use a more efficient data structure".to_string(),
                    description: "Consider using a Map instead of an object for faster lookups"
                        .to_string(),
                },
                CodeSuggestion {
                    line: 15,
                    suggestion_type: SuggestionType::BugFix,
                    content: "Check for null before accessing property".to_string(),
                    description: "Add a null check to prevent potential runtime errors".to_string(),
                },
            ],
            explanation: Some("This is a mock analysis of your code.".to_string()),
        })
    );
    assert_eq!(client.analyze_code("", ""), client.analyze_code("fn f() {}", "rust"));
}

#[test]
fn service_without_a_client_fails() {
    let service = AIService::new();
    assert_eq!(service.get_client().unwrap_err(), "AI client not initialized");
}

#[test]
fn initialized_service_hands_out_its_client() {
    let mut service = AIService::new();
    assert_eq!(service.initialize("key".to_string(), "model-a".to_string()), Ok(()));
    let client = service.get_client().unwrap();
    assert_eq!(client.api_key(), "key");
    assert_eq!(client.model(), "model-a");
}

#[test]
fn initializing_again_replaces_the_client() {
    let mut service = AIService::new();
    let _ = service.initialize("key".to_string(), "model-a".to_string());
    assert_eq!(service.initialize("other".to_string(), "model-b".to_string()), Ok(()));
    let client = service.get_client().unwrap();
    assert_eq!(client.api_key(), "other");
    assert_eq!(client.model(), "model-b");
}

//! The assistant that reviews code. Its answers are fixed samples; no
//! request leaves the machine yet.

use vstd::prelude::*;

verus! {

/// What kind of change a suggestion proposes.
#[derive(Clone, Copy, Debug, PartialEq, Eq, Structural)]
pub enum SuggestionType {
    Improvement,
    BugFix,
    Refactor,
    Performance,
    Security,
}

/// One suggestion for a line of code.
#[derive(Clone, Debug, PartialEq, Eq)]
pub struct CodeSuggestion {
    pub line: usize,
    pub suggestion_type: SuggestionType,
    pub content: String,
    pub description: String,
}

/// A suggestion with its texts as sequences of characters.
pub struct CodeSuggestionView {
    pub line: usize,
    pub suggestion_type: SuggestionType,
    pub content: Seq<char>,
    pub description: Seq<char>,
}

impl DeepView for CodeSuggestion {
    type V = CodeSuggestionView;

    open spec fn deep_view(&self) -> CodeSuggestionView {
        CodeSuggestionView {
            line: self.line,
            suggestion_type: self.suggestion_type,
            content: self.content@,
            description: self.description@,
        }
    }
}

/// The assistant's review of a piece of code.
#[derive(Clone, Debug, PartialEq, Eq)]
pub struct CodeAnalysisResponse {
    pub suggestions: Vec<CodeSuggestion>,
    pub explanation: Option<String>,
}

/// A review with its texts as sequences of characters.
pub struct CodeAnalysisView {
    pub suggestions: Seq<CodeSuggestionView>,
    pub explanation: Option<Seq<char>>,
}

impl DeepView for CodeAnalysisResponse {
    type V = CodeAnalysisView;

    open spec fn deep_view(&self) -> CodeAnalysisView {
        CodeAnalysisView {
            suggestions: self.suggestions.deep_view(),
            explanation: self.explanation.deep_view(),
        }
    }
}

/// The review that is given of any code.
pub open spec fn sample_analysis() -> CodeAnalysisView {
    CodeAnalysisView {
        suggestions: seq![
            CodeSuggestionView {
                line: 10,
                suggestion_type: SuggestionType::Performance,
                content: "Use a more efficient data structure"@,
                description: "Consider using a Map instead of an object for faster lookups"@,
            },
            CodeSuggestionView {
                line: 15,
                suggestion_type: SuggestionType::BugFix,
                content: "Check for null before accessing property"@,
                description: "Add a null check to prevent potential runtime errors"@,
            },
        ],
        explanation: Some("This is a mock analysis of your code."@),
    }
}

/// The access to the assistant: the key and the model to ask.
#[derive(Clone, Debug)]
pub struct AIClient {
    api_key: String,
    model: String,
}

/// A client as the contracts see it.
pub struct AIClientView {
    pub api_key: Seq<char>,
    pub model: Seq<char>,
}

impl AIClient {
    /// The key and the model of the client.
    pub closed spec fn view(&self) -> AIClientView {
        AIClientView { api_key: self.api_key@, model: self.model@ }
    }

    /// A client for `model` that identifies itself with `api_key`.
    pub fn new(api_key: String, model: String) -> (r: Self)
        ensures
            r@ == (AIClientView { api_key: api_key@, model: model@ }),
    {
        AIClient { api_key, model }
    }

    /// The model that the client asks.
    pub fn model(&self) -> (r: &String)
        ensures
            r@ == self@.model,
    {
        &self.model
    }

    /// The key that the client identifies itself with.
    pub fn api_key(&self) -> (r: &String)
        ensures
            r@ == self@.api_key,
    {
        &self.api_key
    }

    /// A copy of the client.
    pub fn duplicate(&self) -> (r: Self)
        ensures
            r@ == self@,
    {
        AIClient { api_key: self.api_key.clone(), model: self.model.clone() }
    }

    /// Reviews `code`, written in `language`. Neither influences the answer
    /// yet.
    #[allow(unused_variables)]
    pub fn analyze_code(&self, code: &str, language: &str) -> (r: Result<
        CodeAnalysisResponse,
        String,
    >)
        ensures
            r is Ok,
            r->Ok_0.deep_view() == sample_analysis(),
    {
        let mut suggestions: Vec<CodeSuggestion> = Vec::new();
        suggestions.push(
            CodeSuggestion {
                line: 10,
                suggestion_type: SuggestionType::Performance,
                content: "Use a more efficient data structure".to_owned(),
                description: "Consider using a Map instead of an object for faster lookups".to_owned(),
            },
        );
        suggestions.push(
            CodeSuggestion {
                line: 15,
                suggestion_type: SuggestionType::BugFix,
                content: "Check for null before accessing property".to_owned(),
                description: "Add a null check to prevent potential runtime errors".to_owned(),
            },
        );
        assert(suggestions.deep_view() =~= sample_analysis().suggestions);
        Ok(
            CodeAnalysisResponse {
                suggestions,
                explanation: Some("This is a mock analysis of your code.".to_owned()),
            },
        )
    }
}

/// The message for a request to a service that has no client yet.
pub open spec fn not_initialized() -> Seq<char> {
    "AI client not initialized"@
}

/// The place where the application keeps its one client.
pub struct AIService {
    client: Option<AIClient>,
}

impl AIService {
    /// The client that the service holds, if it has one.
    pub closed spec fn view(&self) -> Option<AIClientView> {
        match self.client {
            Some(client) => Some(client@),
            None => None,
        }
    }

    /// A service without a client.
    pub fn new() -> (r: Self)
        ensures
            r@ == None::<AIClientView>,
    {
        AIService { client: None }
    }

    /// Gives the service a client, in place of the one it may have.
    pub fn initialize(&mut self, api_key: String, model: String) -> (r: Result<(), String>)
        ensures
            r is Ok,
            final(self)@ == Some(AIClientView { api_key: api_key@, model: model@ }),
    {
        self.client = Some(AIClient::new(api_key, model));
        Ok(())
    }

    /// A copy of the service's client. Fails while the service has none.
    pub fn get_client(&self) -> (r: Result<AIClient, String>)
        ensures
            match r {
                Ok(client) => self@ == Some(client@),
                Err(message) => self@ is None && message@ == not_initialized(),
            },
    {
        match &self.client {
            Some(client) => Ok(client.duplicate()),
            None => Err("AI client not initialized".to_owned()),
        }
    }
}

} // verus!

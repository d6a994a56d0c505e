use ragkit_desktop::commands::{
    add_documents, add_folder, analyze_wizard_profile, create_conversation,
    create_knowledge_base, delete_api_key, delete_conversation, delete_knowledge_base,
    delete_ollama_model, detect_environment, get_install_instructions, get_messages,
    get_ollama_embedding_models, get_ollama_status, get_recommended_models, get_settings,
    has_api_key, health_check, health_check_report, key_exists, list_conversations,
    list_knowledge_bases, list_ollama_models, pull_ollama_model, query, set_api_key,
    start_ollama_service, update_settings, AddFolderParams, CreateKnowledgeBaseParams,
    HealthCheckResponse, KeyPresence, QueryParams, WizardAnswers,
};
use ragkit_desktop::json::{JsonField, JsonObject, JsonValue};
use ragkit_desktop::proxy::{Method, ProxyError, ProxyRequest, RequestBody};
use ragkit_desktop::status::HttpStatus;

fn bare(method: Method, path: &str) -> ProxyRequest {
    ProxyRequest { method, path: path.to_string(), body: RequestBody::Empty }
}

fn object(method: Method, path: &str, members: Vec<(&str, JsonValue)>) -> ProxyRequest {
    let fields = members
        .into_iter()
        .map(|(name, value)| JsonField { name: name.to_string(), value })
        .collect();
    ProxyRequest {
        method,
        path: path.to_string(),
        body: RequestBody::Object(JsonObject { fields }),
    }
}

fn text(s: &str) -> JsonValue {
    JsonValue::Text(s.to_string())
}

#[test]
fn health_check_call() {
    assert_eq!(health_check(), bare(Method::Get, "/health"));
}

#[test]
fn health_check_passes_the_backends_answer_through() {
    let answer = HealthCheckResponse { ok: true, version: Some("1.2.3".to_string()), error: None };
    let report = health_check_report(Ok(HealthCheckResponse {
        ok: true,
        version: Some("1.2.3".to_string()),
        error: None,
    }));
    assert_eq!(report, answer);
}

#[test]
fn health_check_against_unreachable_backend_reports_not_ok() {
    let report =
        health_check_report(Err(ProxyError::RequestFailed("connection refused".to_string())));
    assert!(!report.ok);
    assert_eq!(report.version, None);
    assert_eq!(report.error, Some("Request failed: connection refused".to_string()));
    assert!(!report.error.unwrap().is_empty());
}

#[test]
fn health_check_reports_every_kind_of_failure_as_not_ok() {
    let failures = vec![
        ProxyError::RequestFailed(String::new()),
        ProxyError::BackendError { status: HttpStatus::new(503).unwrap(), body: String::new() },
        ProxyError::DecodeFailed(String::new()),
    ];
    for failure in failures {
        let report = health_check_report(Err(failure));
        assert!(!report.ok);
        assert!(report.version.is_none());
        assert!(!report.error.unwrap().is_empty());
    }
}

#[test]
fn knowledge_base_calls() {
    assert_eq!(list_knowledge_bases(), bare(Method::Get, "/api/knowledge-bases"));
    assert_eq!(delete_knowledge_base("kb-1"), bare(Method::Delete, "/api/knowledge-bases/kb-1"));
    assert_eq!(delete_knowledge_base(""), bare(Method::Delete, "/api/knowledge-bases/"));
}

#[test]
fn create_knowledge_base_sends_all_three_members() {
    let params = CreateKnowledgeBaseParams {
        name: "Docs".to_string(),
        description: None,
        embedding_model: Some("bge-small".to_string()),
    };
    assert_eq!(
        create_knowledge_base(&params),
        object(
            Method::Post,
            "/api/knowledge-bases",
            vec![
                ("name", text("Docs")),
                ("description", JsonValue::Null),
                ("embedding_model", text("bge-small")),
            ],
        )
    );
}

#[test]
fn add_documents_lists_paths_in_order() {
    let paths = vec!["/a.pdf".to_string(), "/b.md".to_string()];
    assert_eq!(
        add_documents("kb-7", &paths),
        object(
            Method::Post,
            "/api/knowledge-bases/kb-7/documents",
            vec![("paths", JsonValue::TextList(vec!["/a.pdf".to_string(), "/b.md".to_string()]))],
        )
    );
    assert_eq!(
        add_documents("kb-7", &Vec::new()),
        object(
            Method::Post,
            "/api/knowledge-bases/kb-7/documents",
            vec![("paths", JsonValue::TextList(Vec::new()))],
        )
    );
}

#[test]
fn add_folder_puts_knowledge_base_in_path_and_rest_in_body() {
    let params = AddFolderParams {
        kb_id: "kb-2".to_string(),
        folder_path: "/home/me/docs".to_string(),
        recursive: true,
        file_types: vec!["pdf".to_string(), "md".to_string()],
    };
    assert_eq!(
        add_folder(&params),
        object(
            Method::Post,
            "/api/knowledge-bases/kb-2/folders",
            vec![
                ("folder_path", text("/home/me/docs")),
                ("recursive", JsonValue::Bool(true)),
                ("file_types", JsonValue::TextList(vec!["pdf".to_string(), "md".to_string()])),
            ],
        )
    );
}

#[test]
fn conversation_calls() {
    assert_eq!(list_conversations(&None), bare(Method::Get, "/api/conversations"));
    assert_eq!(
        list_conversations(&Some("kb-1".to_string())),
        bare(Method::Get, "/api/conversations?kb_id=kb-1")
    );
    assert_eq!(
        create_conversation(&None),
        object(Method::Post, "/api/conversations", vec![("kb_id", JsonValue::Null)])
    );
    assert_eq!(
        create_conversation(&Some("kb-1".to_string())),
        object(Method::Post, "/api/conversations", vec![("kb_id", text("kb-1"))])
    );
    assert_eq!(delete_conversation("c9"), bare(Method::Delete, "/api/conversations/c9"));
    assert_eq!(get_messages("c9"), bare(Method::Get, "/api/conversations/c9/messages"));
}

#[test]
fn query_call() {
    let params = QueryParams {
        kb_id: "kb-1".to_string(),
        conversation_id: "c9".to_string(),
        question: "what is new?".to_string(),
    };
    assert_eq!(
        query(&params),
        object(
            Method::Post,
            "/api/query",
            vec![
                ("kb_id", text("kb-1")),
                ("conversation_id", text("c9")),
                ("question", text("what is new?")),
            ],
        )
    );
}

#[test]
fn settings_calls() {
    assert_eq!(get_settings(), bare(Method::Get, "/api/settings"));
    assert_eq!(
        update_settings(),
        ProxyRequest {
            method: Method::Put,
            path: "/api/settings".to_string(),
            body: RequestBody::Attached,
        }
    );
}

#[test]
fn wizard_calls() {
    let params = WizardAnswers {
        kb_type: "technical".to_string(),
        has_tables_diagrams: true,
        needs_multi_document: false,
        large_documents: true,
        needs_precision: false,
        frequent_updates: true,
        cite_page_numbers: false,
    };
    assert_eq!(
        analyze_wizard_profile(&params),
        object(
            Method::Post,
            "/api/wizard/analyze-profile",
            vec![
                ("kb_type", text("technical")),
                ("has_tables_diagrams", JsonValue::Bool(true)),
                ("needs_multi_document", JsonValue::Bool(false)),
                ("large_documents", JsonValue::Bool(true)),
                ("needs_precision", JsonValue::Bool(false)),
                ("frequent_updates", JsonValue::Bool(true)),
                ("cite_page_numbers", JsonValue::Bool(false)),
            ],
        )
    );
    assert_eq!(detect_environment(), bare(Method::Get, "/api/wizard/environment-detection"));
}

#[test]
fn api_key_calls() {
    assert_eq!(
        set_api_key("openai", "SECRET-REDACTED"),
        object(
            Method::Post,
            "/api/keys",
            vec![("provider", text("openai")), ("api_key", text("SECRET-REDACTED"))],
        )
    );
    assert_eq!(has_api_key("openai"), bare(Method::Get, "/api/keys/openai"));
    assert_eq!(delete_api_key("openai"), bare(Method::Delete, "/api/keys/openai"));
}

#[test]
fn key_presence_is_taken_out_of_its_envelope() {
    assert!(key_exists(&KeyPresence { exists: true }));
    assert!(!key_exists(&KeyPresence { exists: false }));
}

#[test]
fn model_manager_calls() {
    assert_eq!(get_ollama_status(), bare(Method::Get, "/api/ollama/status"));
    assert_eq!(list_ollama_models(), bare(Method::Get, "/api/ollama/models"));
    assert_eq!(get_recommended_models(), bare(Method::Get, "/api/ollama/recommended"));
    assert_eq!(get_ollama_embedding_models(), bare(Method::Get, "/api/ollama/embedding-models"));
    assert_eq!(
        pull_ollama_model("llama3"),
        object(Method::Post, "/api/ollama/pull", vec![("model_name", text("llama3"))])
    );
    assert_eq!(
        delete_ollama_model("llama3"),
        object(Method::Delete, "/api/ollama/models", vec![("model_name", text("llama3"))])
    );
    assert_eq!(start_ollama_service(), bare(Method::Post, "/api/ollama/start"));
    assert_eq!(
        get_install_instructions(),
        bare(Method::Get, "/api/ollama/install-instructions")
    );
}

#[test]
fn json_values_from_texts() {
    assert_eq!(JsonValue::text("a"), text("a"));
    assert_eq!(JsonValue::optional_text(&None), JsonValue::Null);
    assert_eq!(JsonValue::optional_text(&Some("b".to_string())), text("b"));
    assert_eq!(
        JsonValue::text_list(&vec!["x".to_string(), "y".to_string()]),
        JsonValue::TextList(vec!["x".to_string(), "y".to_string()])
    );
}

#[test]
fn json_object_keeps_members_in_order() {
    let built = JsonObject::new().with("b", JsonValue::Bool(true)).with("a", JsonValue::Null);
    assert_eq!(built.fields.len(), 2);
    assert_eq!(built.fields[0], JsonField { name: "b".to_string(), value: JsonValue::Bool(true) });
    assert_eq!(built.fields[1], JsonField { name: "a".to_string(), value: JsonValue::Null });
    assert!(JsonObject::new().fields.is_empty());
}

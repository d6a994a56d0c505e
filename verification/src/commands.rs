//! The command surface: the named operations that the host application
//! invokes, each stated as the call it makes to the backend.
//!
//! A command takes typed parameters and says which method, path and body go
//! to the backend. Sending the call and decoding the reply are the caller's
//! part; what a reply means is settled by the request proxy.

use std::collections::HashMap;
use vstd::prelude::*;
use crate::text::texts;
use crate::json::{optional_text_model, JsonModel, JsonObject, JsonValue};
use crate::proxy::{
    proxy_error_text,
    BodyModel,
    Method,
    ProxyError,
    ProxyRequest,
    RequestBody,
    RequestModel,
};

verus! {

/// What the health check reports to the application.
#[derive(Debug, PartialEq, Eq)]
pub struct HealthCheckResponse {
    pub ok: bool,
    pub version: Option<String>,
    pub error: Option<String>,
}

#[derive(Debug, PartialEq, Eq)]
pub struct KnowledgeBase {
    pub id: String,
    pub name: String,
    pub description: Option<String>,
    pub embedding_model: String,
    pub embedding_dimensions: i32,
    pub document_count: i32,
    pub chunk_count: i32,
    pub created_at: String,
    pub updated_at: String,
}

#[derive(Debug, PartialEq, Eq)]
pub struct Conversation {
    pub id: String,
    pub kb_id: Option<String>,
    pub title: Option<String>,
    pub created_at: String,
    pub updated_at: String,
}

#[derive(Debug, PartialEq, Eq)]
pub struct AddFolderFailure {
    pub path: String,
    pub error: String,
}

#[derive(Debug, PartialEq, Eq)]
pub struct AddFolderResponse {
    pub added: Vec<String>,
    pub failed: Vec<AddFolderFailure>,
    pub total_processed: usize,
}

#[derive(Debug, PartialEq, Eq)]
pub struct CreateKnowledgeBaseParams {
    pub name: String,
    pub description: Option<String>,
    pub embedding_model: Option<String>,
}

#[derive(Debug, PartialEq, Eq)]
pub struct QueryParams {
    pub kb_id: String,
    pub conversation_id: String,
    pub question: String,
}

#[derive(Debug, PartialEq, Eq)]
pub struct AddFolderParams {
    pub kb_id: String,
    pub folder_path: String,
    pub recursive: bool,
    pub file_types: Vec<String>,
}

#[derive(Debug, PartialEq, Eq)]
pub struct WizardAnswers {
    pub kb_type: String,
    pub has_tables_diagrams: bool,
    pub needs_multi_document: bool,
    pub large_documents: bool,
    pub needs_precision: bool,
    pub frequent_updates: bool,
    pub cite_page_numbers: bool,
}

#[derive(Debug, PartialEq, Eq)]
pub struct OllamaStatus {
    pub installed: bool,
    pub running: bool,
    pub version: Option<String>,
    pub error: Option<String>,
}

#[derive(Debug, PartialEq, Eq)]
pub struct OllamaModel {
    pub name: String,
    pub size: i64,
    pub size_formatted: String,
    pub digest: String,
    pub modified_at: String,
}

#[derive(Debug, PartialEq, Eq)]
pub struct InstallInstructions {
    pub platform: String,
    pub instructions: String,
    pub all_platforms: HashMap<String, String>,
}

/// The envelope in which the backend says whether a credential is stored.
#[derive(Debug, PartialEq, Eq)]
pub struct KeyPresence {
    pub exists: bool,
}

/// The model of a call without body.
pub open spec fn bare_call(method: Method, path: Seq<char>) -> RequestModel {
    RequestModel { method, path, body: BodyModel::Empty }
}

/// The model of a call that carries `members` as its JSON object.
pub open spec fn object_call(
    method: Method,
    path: Seq<char>,
    members: Seq<(Seq<char>, JsonModel)>,
) -> RequestModel {
    RequestModel { method, path, body: BodyModel::Object(members) }
}

fn bare(method: Method, path: &str) -> (request: ProxyRequest)
    ensures
        request@ == bare_call(method, path@),
{
    ProxyRequest { method, path: String::from_str(path), body: RequestBody::Empty }
}

fn with_object(method: Method, path: String, object: JsonObject) -> (request: ProxyRequest)
    ensures
        request@ == object_call(method, path@, object@),
{
    ProxyRequest { method, path, body: RequestBody::Object(object) }
}

/// The path made of `head`, an identifier and `tail`. The identifier goes in
/// as it is.
fn path_of(head: &str, id: &str, tail: &str) -> (path: String)
    ensures
        path@ == head@ + id@ + tail@,
{
    let mut path = String::from_str(head);
    path.append(id);
    path.append(tail);
    path
}

/// Asks the backend for its health.
pub fn health_check() -> (request: ProxyRequest)
    ensures
        request@ == bare_call(Method::Get, "/health"@),
{
    bare(Method::Get, "/health")
}

/// Turns the outcome of the health call into the report for the application.
///
/// A failed call is no failure of the command: an unreachable backend is a
/// state that the application shows like any other. The backend's own answer
/// goes through unchanged; a failed call becomes a report that is not ok,
/// has no version, and carries the failure's text, which is never empty.
pub fn health_check_report(outcome: Result<HealthCheckResponse, ProxyError>) -> (report:
    HealthCheckResponse)
    ensures
        outcome matches Ok(response) ==> report == response,
        outcome matches Err(error) ==> !report.ok && report.version is None && report.error
            is Some && report.error->0@ == proxy_error_text(error) && report.error->0@.len() > 0,
{
    match outcome {
        Ok(response) => response,
        Err(error) => HealthCheckResponse {
            ok: false,
            version: None,
            error: Some(error.message()),
        },
    }
}

/// Lists all knowledge bases.
pub fn list_knowledge_bases() -> (request: ProxyRequest)
    ensures
        request@ == bare_call(Method::Get, "/api/knowledge-bases"@),
{
    bare(Method::Get, "/api/knowledge-bases")
}

/// Creates a knowledge base. A description or an embedding model that is not
/// given goes out as null.
pub fn create_knowledge_base(params: &CreateKnowledgeBaseParams) -> (request: ProxyRequest)
    ensures
        request@ == object_call(
            Method::Post,
            "/api/knowledge-bases"@,
            seq![
                ("name"@, JsonModel::Text(params.name@)),
                ("description"@, optional_text_model(params.description)),
                ("embedding_model"@, optional_text_model(params.embedding_model)),
            ],
        ),
{
    let object = JsonObject::new().with("name", JsonValue::text(params.name.as_str())).with(
        "description",
        JsonValue::optional_text(&params.description),
    ).with("embedding_model", JsonValue::optional_text(&params.embedding_model));
    assert(object@ =~= seq![
        ("name"@, JsonModel::Text(params.name@)),
        ("description"@, optional_text_model(params.description)),
        ("embedding_model"@, optional_text_model(params.embedding_model)),
    ]);
    with_object(Method::Post, String::from_str("/api/knowledge-bases"), object)
}

/// Deletes a knowledge base.
pub fn delete_knowledge_base(kb_id: &str) -> (request: ProxyRequest)
    ensures
        request@ == bare_call(Method::Delete, "/api/knowledge-bases/"@ + kb_id@),
{
    let path = path_of("/api/knowledge-bases/", kb_id, "");
    proof {
        reveal_strlit("");
        assert("/api/knowledge-bases/"@ + kb_id@ + ""@ =~= "/api/knowledge-bases/"@ + kb_id@);
    }
    ProxyRequest { method: Method::Delete, path, body: RequestBody::Empty }
}

/// Adds the documents at `paths` to a knowledge base.
pub fn add_documents(kb_id: &str, paths: &Vec<String>) -> (request: ProxyRequest)
    ensures
        request@ == object_call(
            Method::Post,
            "/api/knowledge-bases/"@ + kb_id@ + "/documents"@,
            seq![("paths"@, JsonModel::TextList(texts(paths@)))],
        ),
{
    let object = JsonObject::new().with("paths", JsonValue::text_list(paths));
    with_object(Method::Post, path_of("/api/knowledge-bases/", kb_id, "/documents"), object)
}

/// Adds a folder to a knowledge base. The knowledge base goes into the path,
/// the rest of the parameters into the body.
pub fn add_folder(params: &AddFolderParams) -> (request: ProxyRequest)
    ensures
        request@ == object_call(
            Method::Post,
            "/api/knowledge-bases/"@ + params.kb_id@ + "/folders"@,
            seq![
                ("folder_path"@, JsonModel::Text(params.folder_path@)),
                ("recursive"@, JsonModel::Bool(params.recursive)),
                (
                    "file_types"@,
                    JsonModel::TextList(texts(params.file_types@)),
                ),
            ],
        ),
{
    let object = JsonObject::new().with(
        "folder_path",
        JsonValue::text(params.folder_path.as_str()),
    ).with("recursive", JsonValue::Bool(params.recursive)).with(
        "file_types",
        JsonValue::text_list(&params.file_types),
    );
    assert(object@ =~= seq![
        ("folder_path"@, JsonModel::Text(params.folder_path@)),
        ("recursive"@, JsonModel::Bool(params.recursive)),
        ("file_types"@, JsonModel::TextList(texts(params.file_types@))),
    ]);
    with_object(
        Method::Post,
        path_of("/api/knowledge-bases/", params.kb_id.as_str(), "/folders"),
        object,
    )
}

/// The path that lists conversations: all of them, or those of one knowledge
/// base, named in the query.
pub open spec fn conversations_path(kb_id: Option<String>) -> Seq<char> {
    match kb_id {
        Some(id) => "/api/conversations?kb_id="@ + id@,
        None => "/api/conversations"@,
    }
}

/// Lists conversations, of one knowledge base where one is given.
pub fn list_conversations(kb_id: &Option<String>) -> (request: ProxyRequest)
    ensures
        request@ == bare_call(Method::Get, conversations_path(*kb_id)),
{
    match kb_id {
        Some(id) => {
            let path = path_of("/api/conversations?kb_id=", id.as_str(), "");
            proof {
                reveal_strlit("");
                assert("/api/conversations?kb_id="@ + id@ + ""@ =~= "/api/conversations?kb_id="@
                    + id@);
            }
            ProxyRequest { method: Method::Get, path, body: RequestBody::Empty }
        },
        None => bare(Method::Get, "/api/conversations"),
    }
}

/// Creates a conversation, in a knowledge base where one is given (null
/// otherwise).
pub fn create_conversation(kb_id: &Option<String>) -> (request: ProxyRequest)
    ensures
        request@ == object_call(
            Method::Post,
            "/api/conversations"@,
            seq![("kb_id"@, optional_text_model(*kb_id))],
        ),
{
    let object = JsonObject::new().with("kb_id", JsonValue::optional_text(kb_id));
    with_object(Method::Post, String::from_str("/api/conversations"), object)
}

/// Deletes a conversation.
pub fn delete_conversation(conv_id: &str) -> (request: ProxyRequest)
    ensures
        request@ == bare_call(Method::Delete, "/api/conversations/"@ + conv_id@),
{
    let path = path_of("/api/conversations/", conv_id, "");
    proof {
        reveal_strlit("");
        assert("/api/conversations/"@ + conv_id@ + ""@ =~= "/api/conversations/"@ + conv_id@);
    }
    ProxyRequest { method: Method::Delete, path, body: RequestBody::Empty }
}

/// Gets the messages of a conversation.
pub fn get_messages(conv_id: &str) -> (request: ProxyRequest)
    ensures
        request@ == bare_call(Method::Get, "/api/conversations/"@ + conv_id@ + "/messages"@),
{
    let path = path_of("/api/conversations/", conv_id, "/messages");
    ProxyRequest { method: Method::Get, path, body: RequestBody::Empty }
}

/// Puts a question to a knowledge base, within a conversation.
pub fn query(params: &QueryParams) -> (request: ProxyRequest)
    ensures
        request@ == object_call(
            Method::Post,
            "/api/query"@,
            seq![
                ("kb_id"@, JsonModel::Text(params.kb_id@)),
                ("conversation_id"@, JsonModel::Text(params.conversation_id@)),
                ("question"@, JsonModel::Text(params.question@)),
            ],
        ),
{
    let object = JsonObject::new().with("kb_id", JsonValue::text(params.kb_id.as_str())).with(
        "conversation_id",
        JsonValue::text(params.conversation_id.as_str()),
    ).with("question", JsonValue::text(params.question.as_str()));
    assert(object@ =~= seq![
        ("kb_id"@, JsonModel::Text(params.kb_id@)),
        ("conversation_id"@, JsonModel::Text(params.conversation_id@)),
        ("question"@, JsonModel::Text(params.question@)),
    ]);
    with_object(Method::Post, String::from_str("/api/query"), object)
}

/// Gets the settings.
pub fn get_settings() -> (request: ProxyRequest)
    ensures
        request@ == bare_call(Method::Get, "/api/settings"@),
{
    bare(Method::Get, "/api/settings")
}

/// Replaces the settings. The settings themselves stay with the caller, who
/// attaches them to the call.
pub fn update_settings() -> (request: ProxyRequest)
    ensures
        request@ == (RequestModel {
            method: Method::Put,
            path: "/api/settings"@,
            body: BodyModel::Attached,
        }),
{
    ProxyRequest {
        method: Method::Put,
        path: String::from_str("/api/settings"),
        body: RequestBody::Attached,
    }
}

/// Asks for the profile that fits the wizard's answers.
pub fn analyze_wizard_profile(params: &WizardAnswers) -> (request: ProxyRequest)
    ensures
        request@ == object_call(
            Method::Post,
            "/api/wizard/analyze-profile"@,
            seq![
                ("kb_type"@, JsonModel::Text(params.kb_type@)),
                ("has_tables_diagrams"@, JsonModel::Bool(params.has_tables_diagrams)),
                ("needs_multi_document"@, JsonModel::Bool(params.needs_multi_document)),
                ("large_documents"@, JsonModel::Bool(params.large_documents)),
                ("needs_precision"@, JsonModel::Bool(params.needs_precision)),
                ("frequent_updates"@, JsonModel::Bool(params.frequent_updates)),
                ("cite_page_numbers"@, JsonModel::Bool(params.cite_page_numbers)),
            ],
        ),
{
    let object = JsonObject::new().with("kb_type", JsonValue::text(params.kb_type.as_str())).with(
        "has_tables_diagrams",
        JsonValue::Bool(params.has_tables_diagrams),
    ).with("needs_multi_document", JsonValue::Bool(params.needs_multi_document)).with(
        "large_documents",
        JsonValue::Bool(params.large_documents),
    ).with("needs_precision", JsonValue::Bool(params.needs_precision)).with(
        "frequent_updates",
        JsonValue::Bool(params.frequent_updates),
    ).with("cite_page_numbers", JsonValue::Bool(params.cite_page_numbers));
    assert(object@ =~= seq![
        ("kb_type"@, JsonModel::Text(params.kb_type@)),
        ("has_tables_diagrams"@, JsonModel::Bool(params.has_tables_diagrams)),
        ("needs_multi_document"@, JsonModel::Bool(params.needs_multi_document)),
        ("large_documents"@, JsonModel::Bool(params.large_documents)),
        ("needs_precision"@, JsonModel::Bool(params.needs_precision)),
        ("frequent_updates"@, JsonModel::Bool(params.frequent_updates)),
        ("cite_page_numbers"@, JsonModel::Bool(params.cite_page_numbers)),
    ]);
    with_object(Method::Post, String::from_str("/api/wizard/analyze-profile"), object)
}

/// Asks the backend what it finds in its environment.
pub fn detect_environment() -> (request: ProxyRequest)
    ensures
        request@ == bare_call(Method::Get, "/api/wizard/environment-detection"@),
{
    bare(Method::Get, "/api/wizard/environment-detection")
}

/// Stores a credential for a provider. The key is passed through as it is.
pub fn set_api_key(provider: &str, api_key: &str) -> (request: ProxyRequest)
    ensures
        request@ == object_call(
            Method::Post,
            "/api/keys"@,
            seq![("provider"@, JsonModel::Text(provider@)), ("api_key"@, JsonModel::Text(api_key@))],
        ),
{
    let object = JsonObject::new().with("provider", JsonValue::text(provider)).with(
        "api_key",
        JsonValue::text(api_key),
    );
    assert(object@ =~= seq![
        ("provider"@, JsonModel::Text(provider@)),
        ("api_key"@, JsonModel::Text(api_key@)),
    ]);
    with_object(Method::Post, String::from_str("/api/keys"), object)
}

/// Asks whether a credential is stored for a provider.
pub fn has_api_key(provider: &str) -> (request: ProxyRequest)
    ensures
        request@ == bare_call(Method::Get, "/api/keys/"@ + provider@),
{
    let path = path_of("/api/keys/", provider, "");
    proof {
        reveal_strlit("");
        assert("/api/keys/"@ + provider@ + ""@ =~= "/api/keys/"@ + provider@);
    }
    ProxyRequest { method: Method::Get, path, body: RequestBody::Empty }
}

/// What the command reports of the backend's answer: whether the credential
/// exists, out of its envelope.
pub fn key_exists(envelope: &KeyPresence) -> (exists: bool)
    ensures
        exists == envelope.exists,
{
    envelope.exists
}

/// Deletes the credential of a provider.
pub fn delete_api_key(provider: &str) -> (request: ProxyRequest)
    ensures
        request@ == bare_call(Method::Delete, "/api/keys/"@ + provider@),
{
    let path = path_of("/api/keys/", provider, "");
    proof {
        reveal_strlit("");
        assert("/api/keys/"@ + provider@ + ""@ =~= "/api/keys/"@ + provider@);
    }
    ProxyRequest { method: Method::Delete, path, body: RequestBody::Empty }
}

/// Gets the state of the local model manager.
pub fn get_ollama_status() -> (request: ProxyRequest)
    ensures
        request@ == bare_call(Method::Get, "/api/ollama/status"@),
{
    bare(Method::Get, "/api/ollama/status")
}

/// Lists the installed models.
pub fn list_ollama_models() -> (request: ProxyRequest)
    ensures
        request@ == bare_call(Method::Get, "/api/ollama/models"@),
{
    bare(Method::Get, "/api/ollama/models")
}

/// Gets the recommended models.
pub fn get_recommended_models() -> (request: ProxyRequest)
    ensures
        request@ == bare_call(Method::Get, "/api/ollama/recommended"@),
{
    bare(Method::Get, "/api/ollama/recommended")
}

/// Gets the embedding models.
pub fn get_ollama_embedding_models() -> (request: ProxyRequest)
    ensures
        request@ == bare_call(Method::Get, "/api/ollama/embedding-models"@),
{
    bare(Method::Get, "/api/ollama/embedding-models")
}

/// The body that names a model.
pub open spec fn model_name_members(model_name: Seq<char>) -> Seq<(Seq<char>, JsonModel)> {
    seq![("model_name"@, JsonModel::Text(model_name))]
}

/// Downloads a model.
pub fn pull_ollama_model(model_name: &str) -> (request: ProxyRequest)
    ensures
        request@ == object_call(
            Method::Post,
            "/api/ollama/pull"@,
            model_name_members(model_name@),
        ),
{
    let object = JsonObject::new().with("model_name", JsonValue::text(model_name));
    with_object(Method::Post, String::from_str("/api/ollama/pull"), object)
}

/// Deletes a model. The model is named in the body, not in the path.
pub fn delete_ollama_model(model_name: &str) -> (request: ProxyRequest)
    ensures
        request@ == object_call(
            Method::Delete,
            "/api/ollama/models"@,
            model_name_members(model_name@),
        ),
{
    let object = JsonObject::new().with("model_name", JsonValue::text(model_name));
    with_object(Method::Delete, String::from_str("/api/ollama/models"), object)
}

/// Starts the local model manager's service.
pub fn start_ollama_service() -> (request: ProxyRequest)
    ensures
        request@ == bare_call(Method::Post, "/api/ollama/start"@),
{
    bare(Method::Post, "/api/ollama/start")
}

/// Gets the instructions for installing the local model manager.
pub fn get_install_instructions() -> (request: ProxyRequest)
    ensures
        request@ == bare_call(Method::Get, "/api/ollama/install-instructions"@),
{
    bare(Method::Get, "/api/ollama/install-instructions")
}

} // verus!

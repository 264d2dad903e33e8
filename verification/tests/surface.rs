use corpora_cli::api::APIClient;
use corpora_cli::api::ApiError;
use corpora_cli::api::CorpusApi;
use corpora_cli::api::FileApi;
use corpora_cli::api::PlanApi;
use corpora_cli::api::SplitApi;
use corpora_cli::api::WorkonApi;
use corpora_cli::auth::AuthError;
use corpora_cli::auth::ClientSecretAuth;
use corpora_cli::auth::extract_access_token;
use corpora_cli::auth::select_client_credentials;
use corpora_cli::auth::token_from_field;
use corpora_cli::commands::Commands;
use corpora_cli::commands::IssueCommands;
use corpora_cli::commands::LabelArgs;
use corpora_cli::diff::StateMap;
use corpora_cli::history::FileChatHistory;
use corpora_cli::models::CorpusChatSchema;
use corpora_cli::models::CorpusFileChatSchema;
use corpora_cli::models::CorpusSchema;
use corpora_cli::models::CorpusUpdateFilesSchema;
use corpora_cli::models::FileSchema;
use corpora_cli::models::IssueSchema;
use corpora_cli::models::SplitResponseSchema;

#[test]
fn token_url_is_the_token_endpoint() {
    let auth = ClientSecretAuth::new("http://app:8877", "id", "sekrit");
    assert_eq!(auth.token_url(), "http://app:8877/o/token/");
    assert_eq!(auth.client_id().as_str(), "id");
    assert_eq!(auth.client_secret().as_str(), "sekrit");
}

#[test]
fn credential_selection_decides_the_strategy() {
    let both = select_client_credentials(Some("id".to_string()), Some("sekrit".to_string()));
    assert_eq!(both.ok(), Some(("id".to_string(), "sekrit".to_string())));
    assert!(matches!(
        select_client_credentials(Some("id".to_string()), None),
        Err(AuthError::MissingEnvironmentVariables(_))
    ));
    assert!(matches!(
        select_client_credentials(None, Some("sekrit".to_string())),
        Err(AuthError::NotImplemented(_))
    ));
    assert!(matches!(
        select_client_credentials(None, None),
        Err(AuthError::NotImplemented(_))
    ));
}

#[test]
fn token_is_taken_exactly_when_present() {
    assert_eq!(token_from_field(Some("tok".to_string())).ok(), Some("tok".to_string()));
    assert!(matches!(
        token_from_field(None),
        Err(AuthError::AuthenticationFailed(_))
    ));
}

#[test]
fn access_token_is_read_from_a_response() {
    let mut obj = serde_json::Map::new();
    obj.insert(
        "access_token".to_string(),
        serde_json::Value::String("tok".to_string()),
    );
    let ok = serde_json::Value::Object(obj);
    assert_eq!(extract_access_token(&ok).ok(), Some("tok".to_string()));

    let mut wrong = serde_json::Map::new();
    wrong.insert("error".to_string(), serde_json::Value::String("denied".to_string()));
    let bad = serde_json::Value::Object(wrong);
    assert!(matches!(
        extract_access_token(&bad),
        Err(AuthError::AuthenticationFailed(_))
    ));
}

#[test]
fn session_files_live_under_the_directory() {
    let history = FileChatHistory::new("/work/demo/.corpora/chat".to_string());
    assert_eq!(
        history.session_file_path("drafting"),
        "/work/demo/.corpora/chat/drafting.json"
    );
}

#[test]
fn schema_constructors_fill_what_they_are_given() {
    let corpus = CorpusSchema::new("demo".to_string());
    assert_eq!(corpus.name, "demo");
    assert!(corpus.url.is_none());

    let update = CorpusUpdateFilesSchema::new();
    assert!(update.delete_files.is_none());

    let issue = IssueSchema::new("title".to_string(), "body".to_string());
    assert_eq!(issue.title, "title");
    assert_eq!(issue.body, "body");

    let f = FileSchema::new("a.md".to_string(), "text".to_string(), "c1".to_string());
    assert_eq!((f.path.as_str(), f.content.as_str(), f.corpus_id.as_str()), ("a.md", "text", "c1"));

    let s = SplitResponseSchema::new("s1".to_string(), "part".to_string(), 3, "f1".to_string());
    assert_eq!((s.id.as_str(), s.content.as_str(), s.order, s.file_id.as_str()), ("s1", "part", 3, "f1"));
}

struct StubCorpus;

impl CorpusApi for StubCorpus {
    fn create_corpus(&self, _name: &str, _archive: &Vec<u8>, _url: Option<&String>) -> Result<String, ApiError> {
        Ok("c1".to_string())
    }
    fn get_file_hashes(&self, _corpus_id: &str) -> Result<StateMap, ApiError> {
        Ok(StateMap::new())
    }
    fn update_files(&self, _corpus_id: &str, _archive: &Vec<u8>, _delete_files: &Vec<String>) -> Result<(), ApiError> {
        Ok(())
    }
    fn chat(&self, _request: CorpusChatSchema) -> Result<String, ApiError> {
        Ok("answer".to_string())
    }
}

struct StubFile;

impl FileApi for StubFile {
    fn get_file(&self, file_id: &str) -> Result<FileSchema, ApiError> {
        Ok(FileSchema::new("a.md".to_string(), "text".to_string(), file_id.to_string()))
    }
}

struct StubPlan;

impl PlanApi for StubPlan {
    fn get_matplotlib_plot(&self, _request: CorpusChatSchema) -> Result<String, ApiError> {
        Err(ApiError { message: "no plotter here".to_string() })
    }
}

struct StubSplit;

impl SplitApi for StubSplit {
    fn get_split(&self, split_id: &str) -> Result<SplitResponseSchema, ApiError> {
        Ok(SplitResponseSchema::new(split_id.to_string(), "part".to_string(), 0, "f1".to_string()))
    }
    fn list_splits_for_file(&self, _file_id: &str) -> Result<Vec<SplitResponseSchema>, ApiError> {
        Ok(Vec::new())
    }
}

struct StubWorkon;

impl WorkonApi for StubWorkon {
    fn file(&self, request: CorpusFileChatSchema) -> Result<String, ApiError> {
        Ok(request.path)
    }
}

#[test]
fn api_client_hands_out_its_parts() {
    let client = APIClient::new(StubCorpus, StubFile, StubPlan, StubSplit, StubWorkon);
    assert_eq!(client.corpus_api().chat(CorpusChatSchema {
        messages: Vec::new(),
        corpus_id: "c1".to_string(),
        voice: None,
        purpose: None,
        structure: None,
        directions: None,
    }).unwrap(), "answer");
    assert_eq!(client.file_api().get_file("f1").unwrap().corpus_id, "f1");
    assert!(client.plan_api().get_matplotlib_plot(CorpusChatSchema {
        messages: Vec::new(),
        corpus_id: "c1".to_string(),
        voice: None,
        purpose: None,
        structure: None,
        directions: None,
    }).is_err());
    assert_eq!(client.split_api().get_split("s1").unwrap().id, "s1");
    assert_eq!(client.workon_api().file(CorpusFileChatSchema {
        messages: Vec::new(),
        corpus_id: "c1".to_string(),
        path: "a.md".to_string(),
        voice: None,
        purpose: None,
        structure: None,
        directions: None,
    }).unwrap(), "a.md");
}

#[test]
fn command_tree_carries_its_arguments() {
    let command = Commands::Issue(IssueCommands::Label(LabelArgs { id: 7 }));
    match command {
        Commands::Issue(IssueCommands::Label(args)) => assert_eq!(args.id, 7),
        _ => panic!("expected the label subcommand"),
    }
}

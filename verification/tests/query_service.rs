use starscout::auth::authorize_header;
use starscout::auth::AuthError;
use starscout::auth::UserToken;
use starscout::config::AppConfig;
use starscout::embedding::check_embedding_count;
use starscout::embedding::validate_embedding_input;
use starscout::embedding::validate_embedding_inputs;
use starscout::embedding::EmbeddingError;
use starscout::embedding::OpenAIEmbeddingService;
use starscout::numfmt::parse_u32;
use starscout::oauth::OAuthCacheError;
use starscout::oauth::OAuthCacheObject;
use starscout::search::choose_api_key;
use starscout::search::effective_top_k;
use starscout::search::plan_after_membership;
use starscout::search::plan_search;
use starscout::search::validate_query_text;
use starscout::search::QueryStep;
use starscout::search::SearchScope;
use starscout::search::SemanticSearchManagerError;
use starscout::source::decode_readme_content;
use starscout::source::get_page_from_url;
use starscout::source::pages_needed;
use starscout::source::ReadmeDecodeError;
use starscout::types::ApiResponse;

#[test]
fn empty_query_is_rejected() {
    let r = plan_search("", 10, SearchScope::Global);
    assert_eq!(
        r,
        Err(SemanticSearchManagerError::ValidationError(
            "Query cannot be empty".to_string()
        ))
    );
}

#[test]
fn zero_budget_short_circuits_to_empty() {
    assert_eq!(
        plan_search("rust", 0, SearchScope::Global),
        Ok(QueryStep::EmptyResult)
    );
}

#[test]
fn global_search_goes_to_the_provider() {
    assert_eq!(
        plan_search("rust", 10, SearchScope::Global),
        Ok(QueryStep::EmbedQuery { top_k: 10 })
    );
}

#[test]
fn restricted_search_reads_membership_first() {
    assert_eq!(
        plan_search("rust", 5, SearchScope::Starred { user_id: 9 }),
        Ok(QueryStep::FetchMembership { user_id: 9 })
    );
}

#[test]
fn empty_membership_returns_empty_without_provider_call() {
    assert_eq!(plan_after_membership(&Vec::new(), 10), QueryStep::EmptyResult);
    assert_eq!(
        plan_after_membership(&vec![3, 4], 10),
        QueryStep::EmbedQuery { top_k: 10 }
    );
}

#[test]
fn top_k_defaults_and_bounds() {
    assert_eq!(effective_top_k(None), Ok(10));
    assert_eq!(effective_top_k(Some(1)), Ok(1));
    assert_eq!(effective_top_k(Some(50)), Ok(50));
    assert_eq!(
        effective_top_k(Some(0)),
        Err("top_k must be between 1 and 50".to_string())
    );
    assert_eq!(
        effective_top_k(Some(51)),
        Err("top_k must be between 1 and 50".to_string())
    );
}

#[test]
fn query_text_is_trimmed_and_blank_is_rejected() {
    assert_eq!(validate_query_text("  rust vectors  "), Ok("rust vectors".to_string()));
    assert_eq!(
        validate_query_text("   "),
        Err("Query parameter cannot be empty".to_string())
    );
}

#[test]
fn api_key_prefers_the_callers_own() {
    assert_eq!(
        choose_api_key(Some("mine".to_string()), "default".to_string()),
        "mine"
    );
    assert_eq!(choose_api_key(None, "default".to_string()), "default");
}

#[test]
fn bearer_header_parsing() {
    assert_eq!(authorize_header(None), Err(AuthError::MissingHeader));
    assert_eq!(authorize_header(Some("Basic abc")), Err(AuthError::NotBearer));
    assert_eq!(authorize_header(Some("Bearer    ")), Err(AuthError::EmptyToken));
    assert_eq!(authorize_header(Some("Bearer tok123")), Ok("tok123".to_string()));
}

#[test]
fn rate_limit_key_bypasses_with_own_credential() {
    let extractor = UserToken;
    assert_eq!(
        extractor.extract(true, None, 12345),
        Ok("api_key_bypass_12345".to_string())
    );
    assert_eq!(
        extractor.extract(false, Some("Bearer  tok "), 0),
        Ok("tok".to_string())
    );
    assert_eq!(
        extractor.extract(false, None, 0),
        Err("You don't have permission to access".to_string())
    );
    assert_eq!(extractor.name(), "UserToken");
    assert_eq!(extractor.key_name(&"k".to_string()), Some("k".to_string()));
}

#[test]
fn embedding_input_validation() {
    assert!(validate_embedding_input("text").is_ok());
    assert_eq!(
        validate_embedding_input(""),
        Err(EmbeddingError::ValidationError(
            "Input text cannot be empty".to_string()
        ))
    );
    let texts = vec!["one".to_string(), "".to_string(), "three".to_string()];
    assert_eq!(
        validate_embedding_inputs(&texts),
        Err(EmbeddingError::ValidationError(
            "Text at index 1 cannot be empty".to_string()
        ))
    );
    assert!(validate_embedding_inputs(&vec!["a".to_string()]).is_ok());
    assert!(validate_embedding_inputs(&Vec::new()).is_ok());
}

#[test]
fn embedding_count_mismatch_is_an_error() {
    assert!(check_embedding_count(3, 3).is_ok());
    assert_eq!(
        check_embedding_count(3, 2),
        Err(EmbeddingError::ValidationError(
            "Expected 3 embeddings, got 2".to_string()
        ))
    );
}

#[test]
fn embedding_service_model_selection() {
    let service = OpenAIEmbeddingService::new();
    assert_eq!(service.model(), "text-embedding-3-small");
    let service = service.with_model("text-embedding-3-large".to_string());
    assert_eq!(service.model(), "text-embedding-3-large");
}

#[test]
fn readme_decoding_handles_base64_newlines_and_errors() {
    assert_eq!(decode_readme_content(None), Ok(None));
    assert_eq!(
        decode_readme_content(Some("aGVsbG8=".to_string())),
        Ok(Some("hello".to_string()))
    );
    assert_eq!(
        decode_readme_content(Some("aGVs\nbG8=".to_string())),
        Ok(Some("hello".to_string()))
    );
    assert_eq!(
        decode_readme_content(Some("!!!".to_string())),
        Err(ReadmeDecodeError::Base64)
    );
    // 0xFF is never valid UTF-8; "/w==" decodes to that single byte.
    assert_eq!(
        decode_readme_content(Some("/w==".to_string())),
        Err(ReadmeDecodeError::Utf8)
    );
}

#[test]
fn page_parameter_extraction() {
    assert_eq!(
        get_page_from_url("https://api.example.test/stars?per_page=1&page=7"),
        Some(7)
    );
    assert_eq!(get_page_from_url("https://api.example.test/stars?per_page=1"), None);
    assert_eq!(get_page_from_url("not a url"), None);
    // A `page` value that does not parse is skipped, as find-map semantics
    // would skip it, and a later parsable one wins.
    assert_eq!(
        get_page_from_url("https://api.example.test/s?page=abc&page=9"),
        Some(9)
    );
    assert_eq!(
        get_page_from_url("https://api.example.test/s?page=4294967296&page=2"),
        Some(2)
    );
}

#[test]
fn u32_parsing_matches_the_standard_parser() {
    for case in ["0", "42", "+7", "4294967295", "4294967296", "", "+", "1a", "-3", "007"] {
        assert_eq!(parse_u32(case), case.parse::<u32>().ok(), "case {case:?}");
    }
}

#[test]
fn pages_needed_rounds_up() {
    assert_eq!(pages_needed(0), 0);
    assert_eq!(pages_needed(1), 1);
    assert_eq!(pages_needed(100), 1);
    assert_eq!(pages_needed(101), 2);
    assert_eq!(pages_needed(250), 3);
}

#[test]
fn oauth_cache_from_github_user_json() {
    let data: serde_json::Value = serde_json::from_str(
        "{\"id\": 42, \"login\": \"octocat\", \"created_at\": \"2020-01-01T00:00:00Z\", \"following\": 7}",
    )
    .unwrap();
    let obj = OAuthCacheObject::from_github_user(&data).unwrap();
    assert_eq!(obj.user_id, "42");
    assert_eq!(obj.github_username, "octocat");
    assert_eq!(obj.created_at, 1_577_836_800_000);
    assert_eq!(obj.following_count, 7);
}

#[test]
fn oauth_cache_rejects_missing_and_malformed_fields() {
    let no_id: serde_json::Value = serde_json::from_str("{\"login\": \"octocat\"}").unwrap();
    assert_eq!(
        OAuthCacheObject::from_github_user(&no_id),
        Err(OAuthCacheError::MissingField {
            field: "id".to_string()
        })
    );
    let no_login: serde_json::Value = serde_json::from_str("{\"id\": 1}").unwrap();
    assert_eq!(
        OAuthCacheObject::from_github_user(&no_login),
        Err(OAuthCacheError::MissingField {
            field: "login".to_string()
        })
    );
    let no_date: serde_json::Value =
        serde_json::from_str("{\"id\": 1, \"login\": \"a\"}").unwrap();
    assert_eq!(
        OAuthCacheObject::from_github_user(&no_date),
        Err(OAuthCacheError::MissingField {
            field: "created_at".to_string()
        })
    );
    let bad_date: serde_json::Value =
        serde_json::from_str("{\"id\": 1, \"login\": \"a\", \"created_at\": \"yesterday\"}")
            .unwrap();
    assert_eq!(
        OAuthCacheObject::from_github_user(&bad_date),
        Err(OAuthCacheError::InvalidDateFormat("yesterday".to_string()))
    );
    let no_following: serde_json::Value = serde_json::from_str(
        "{\"id\": 1, \"login\": \"a\", \"created_at\": \"2020-01-01T00:00:00Z\"}",
    )
    .unwrap();
    let obj = OAuthCacheObject::from_github_user(&no_following).unwrap();
    assert_eq!(obj.following_count, 0);
}

#[test]
fn api_response_envelopes() {
    let ok: ApiResponse<u32> = ApiResponse::success(5);
    assert!(ok.success);
    assert_eq!(ok.data, Some(5));
    assert_eq!(ok.message, None);
    let err: ApiResponse<u32> = ApiResponse::error("nope".to_string());
    assert!(!err.success);
    assert_eq!(err.data, None);
    assert_eq!(err.message, Some("nope".to_string()));
}

#[test]
fn config_defaults() {
    let config = AppConfig::default();
    assert_eq!(config.db_name, "starscout");
    assert_eq!(config.db_port, 5432);
    assert_eq!(config.github_star_threshold, 500);
    assert_eq!(config.ai_model_name, "text-embedding-3-small");
    assert_eq!(config.ai_embedding_vector_dimension, 1536);
    assert_eq!(config.allowed_origins, vec!["http://localhost:3000".to_string()]);
    assert!(config.ai_api_key.is_empty());
}

#[test]
fn api_key_requirement_rule() {
    assert!(starscout::config::api_key_required(501, 500, false));
    assert!(!starscout::config::api_key_required(501, 500, true));
    assert!(!starscout::config::api_key_required(500, 500, false));
}

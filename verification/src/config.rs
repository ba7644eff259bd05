//! Service configuration. Loading it from the environment is the shell's
//! job; the library defines the shape and the default values.

use vstd::prelude::*;
use vstd::string::StringExecFns;

verus! {

/// Configuration of the service.
#[derive(Debug, Clone)]
pub struct AppConfig {
    pub db_name: String,
    pub db_user: String,
    pub db_password: String,
    pub db_host: String,
    pub db_port: u16,
    pub github_api_url: String,
    pub github_star_threshold: u16,
    pub github_following_threshold: u16,
    pub api_host: String,
    pub api_port: u16,
    pub ai_provider: String,
    pub ai_api_key: String,
    pub ai_model_name: String,
    pub ai_embedding_vector_dimension: u16,
    pub allowed_origins: Vec<String>,
    pub log_level: String,
}

impl Default for AppConfig {
    /// The defaults of a local development setup.
    fn default() -> (r: AppConfig)
        ensures
            r.db_name@ == "starscout"@,
            r.db_user@ == "postgres"@,
            r.db_password@ == "postgres"@,
            r.db_host@ == "localhost"@,
            r.db_port == 5432,
            r.github_api_url@ == "https://api.github.com"@,
            r.github_star_threshold == 500,
            r.github_following_threshold == 50,
            r.api_host@ == "0.0.0.0"@,
            r.api_port == 8000,
            r.ai_provider@ == "openai"@,
            r.ai_api_key@.len() == 0,
            r.ai_model_name@ == "text-embedding-3-small"@,
            r.ai_embedding_vector_dimension == 1536,
            r.allowed_origins@.len() == 1 && r.allowed_origins@[0]@ == "http://localhost:3000"@,
            r.log_level@ == "info"@,
    {
        let mut allowed_origins: Vec<String> = Vec::new();
        allowed_origins.push("http://localhost:3000".to_owned());
        AppConfig {
            db_name: "starscout".to_owned(),
            db_user: "postgres".to_owned(),
            db_password: "postgres".to_owned(),
            db_host: "localhost".to_owned(),
            db_port: 5432,
            github_api_url: "https://api.github.com".to_owned(),
            github_star_threshold: 500,
            github_following_threshold: 50,
            api_host: "0.0.0.0".to_owned(),
            api_port: 8000,
            ai_provider: "openai".to_owned(),
            ai_api_key: String::new(),
            ai_model_name: "text-embedding-3-small".to_owned(),
            ai_embedding_vector_dimension: 1536,
            allowed_origins,
            log_level: "info".to_owned(),
        }
    }
}

/// The rule behind requiring a caller-supplied credential: a user with
/// more starred items than the threshold must bring an own key, because
/// the run would otherwise spend the service's.
pub fn api_key_required(starred_count: usize, threshold: u16, user_key_present: bool) -> (r: bool)
    ensures
        r == (starred_count > threshold as usize && !user_key_present),
{
    starred_count > threshold as usize && !user_key_present
}

} // verus!

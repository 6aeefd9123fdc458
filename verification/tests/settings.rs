use csv_rag::error::{IndexError, InitError, PromptError, RetrievalError};
use csv_rag::settings::{ConfigurationError, Setting, Settings};
use csv_rag::state::Prompt;

fn some(s: &str) -> Option<String> {
    Some(s.to_string())
}

#[test]
fn all_options_set() {
    let settings = Settings::resolve(some("sk"), some("http://localhost:6334"), some("qk")).unwrap();
    assert_eq!(settings.openai_api_key, "sk");
    assert_eq!(settings.qdrant_url, "http://localhost:6334");
    assert_eq!(settings.qdrant_api_key, "qk");
}

#[test]
fn empty_values_count_as_set() {
    let settings = Settings::resolve(some(""), some(""), some("")).unwrap();
    assert_eq!(settings.openai_api_key, "");
}

#[test]
fn each_missing_option_is_named() {
    let missing = |a, b, c| Settings::resolve(a, b, c).unwrap_err().missing;
    assert_eq!(missing(None, some("u"), some("q")), Setting::OpenAiApiKey);
    assert_eq!(missing(some("k"), None, some("q")), Setting::QdrantUrl);
    assert_eq!(missing(some("k"), some("u"), None), Setting::QdrantApiKey);
}

#[test]
fn first_missing_option_wins() {
    let missing = |a, b, c| Settings::resolve(a, b, c).unwrap_err().missing;
    assert_eq!(missing(None, None, None), Setting::QdrantApiKey);
    assert_eq!(missing(None, None, some("q")), Setting::QdrantUrl);
    assert_eq!(missing(None, some("u"), None), Setting::QdrantApiKey);
    assert_eq!(missing(some("k"), None, None), Setting::QdrantApiKey);
}

#[test]
fn setting_names() {
    assert_eq!(Setting::OpenAiApiKey.name(), "OPENAI_API_KEY");
    assert_eq!(Setting::QdrantUrl.name(), "QDRANT_URL");
    assert_eq!(Setting::QdrantApiKey.name(), "QDRANT_API_KEY");
}

#[test]
fn configuration_error_messages() {
    let message = |missing| ConfigurationError { missing }.message();
    assert_eq!(message(Setting::OpenAiApiKey), "OPENAI_API_KEY is not set");
    assert_eq!(message(Setting::QdrantUrl), "QDRANT_URL is not set");
    assert_eq!(message(Setting::QdrantApiKey), "QDRANT_API_KEY is not set");
}

#[test]
fn pipeline_error_messages() {
    assert_eq!(InitError::StoreWriteFailed.message(), "The collection could not be created");
    assert_eq!(IndexError::EmptyDocument.message(), "There are no rows in the file");
    assert_eq!(IndexError::EmbeddingFailed.message(), "The rows could not be embedded");
    assert_eq!(IndexError::StoreWriteFailed.message(), "A point could not be written");
    assert_eq!(RetrievalError::EmbeddingFailed.message(), "The question could not be embedded");
    assert_eq!(RetrievalError::StoreSearchFailed.message(), "The search could not be performed");
    assert_eq!(RetrievalError::NoMatch.message(), "There were no results that matched :(");
    assert_eq!(RetrievalError::MalformedPayload.message(), "The nearest point carries no content");
    assert_eq!(PromptError::CompletionFailed.message(), "The completion could not be performed");
    assert_eq!(PromptError::EmptyCompletion.message(), "The completion holds no answer");
}

#[test]
fn prompt_error_speaks_for_its_retrieval_error() {
    for error in [
        RetrievalError::EmbeddingFailed,
        RetrievalError::StoreSearchFailed,
        RetrievalError::NoMatch,
        RetrievalError::MalformedPayload,
    ] {
        assert_eq!(PromptError::Retrieval(error).message(), error.message());
    }
}

#[test]
fn prompt_holds_the_question() {
    let prompt = Prompt { prompt: "What is the average of val?".to_string() };
    assert_eq!(prompt.prompt, "What is the average of val?");
}

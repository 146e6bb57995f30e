use sqlite_rembed::clients::{
    read_outcome, Client, CohereClient, JinaClient, LlamafileClient, MixedbreadClient, NomicClient,
    OllamaClient, OpenAiClient, DEFAULT_COHERE_URL, DEFAULT_JINA_URL, DEFAULT_LLAMAFILE_URL,
    DEFAULT_MIXEDBREAD_URL, DEFAULT_NOMIC_URL, DEFAULT_OLLAMA_URL, DEFAULT_OPENAI_URL,
};
use sqlite_rembed::environment::{try_env_var, Environment, Variable};
use sqlite_rembed::errors::{ConfigError, ConfigErrorKind, ProviderError, ProviderErrorKind};
use sqlite_rembed::http::{Header, HttpOutcome, HttpRequest};
use sqlite_rembed::json::Json;
use sqlite_rembed::response::Step;

fn environment(pairs: &[(&str, &str)]) -> Environment {
    Environment {
        variables: pairs
            .iter()
            .map(|(name, value)| Variable { name: name.to_string(), value: value.to_string() })
            .collect(),
    }
}

fn headers(pairs: &[(&str, &str)]) -> Vec<Header> {
    pairs
        .iter()
        .map(|(name, value)| Header { name: name.to_string(), value: value.to_string() })
        .collect()
}

fn narrowed(vector: &[u64]) -> Vec<f32> {
    vector.iter().map(|bits| f64::from_bits(*bits) as f32).collect()
}

fn body(text: &str) -> Json {
    Json::parse(text).expect("valid JSON")
}

#[test]
fn environment_gives_the_value_of_a_variable() {
    let env = environment(&[("A", "1"), ("B", "2"), ("A", "3")]);
    assert_eq!(env.get("A"), Some("1".to_string()));
    assert_eq!(env.get("B"), Some("2".to_string()));
    assert_eq!(env.get("C"), None);
    assert_eq!(Environment::empty().get("A"), None);
    assert_eq!(try_env_var(&env, "B"), Ok("2".to_string()));
    let error = try_env_var(&env, "NOMIC_API_KEY").unwrap_err();
    assert_eq!(error.kind, ConfigErrorKind::MissingVariable);
    assert_eq!(error.detail, "NOMIC_API_KEY");
}

#[test]
fn openai_client_without_a_key_names_the_variable() {
    let error = OpenAiClient::new("text-embedding-3-small", None, None, &Environment::empty())
        .unwrap_err();
    assert_eq!(error.kind, ConfigErrorKind::MissingVariable);
    assert_eq!(error.detail, "OPENAI_API_KEY");
    assert_eq!(
        error.message(),
        "OPENAI_API_KEY environment variable not defined. Alternatively, pass in an API key with rembed_client_options"
    );
}

#[test]
fn every_keyed_client_names_its_own_variable() {
    let none = Environment::empty();
    assert_eq!(NomicClient::new("m", None, None, &none).unwrap_err().detail, "NOMIC_API_KEY");
    assert_eq!(CohereClient::new("m", None, None, &none).unwrap_err().detail, "CO_API_KEY");
    assert_eq!(JinaClient::new("m", None, None, &none).unwrap_err().detail, "JINA_API_KEY");
    assert_eq!(
        MixedbreadClient::new("m", None, None, &none).unwrap_err().detail,
        "MIXEDBREAD_API_KEY"
    );
    let other = environment(&[("OPENAI_API_KEY", "k")]);
    assert!(NomicClient::new("m", None, None, &other).is_err());
    assert!(OpenAiClient::new("m", None, None, &other).is_ok());
}

#[test]
fn a_given_key_goes_before_the_environment() {
    let env = environment(&[("OPENAI_API_KEY", "from-env")]);
    let client = OpenAiClient::new("m", None, Some("given".to_string()), &env).unwrap();
    assert_eq!(client.key(), "given");
    let client = OpenAiClient::new("m", None, None, &env).unwrap();
    assert_eq!(client.key(), "from-env");
    assert_eq!(client.model(), "m");
    assert_eq!(client.url(), DEFAULT_OPENAI_URL);
    assert_eq!(client.url(), "https://api.openai.com/v1/embeddings");
    let client =
        OpenAiClient::new("m", Some("http://localhost:1/v1".to_string()), None, &env).unwrap();
    assert_eq!(client.url(), "http://localhost:1/v1");
}

#[test]
fn default_urls_are_those_of_the_providers() {
    let key = Some("k".to_string());
    let none = Environment::empty();
    assert_eq!(NomicClient::new("m", None, key.clone(), &none).unwrap().url(), DEFAULT_NOMIC_URL);
    assert_eq!(DEFAULT_NOMIC_URL, "https://api-atlas.nomic.ai/v1/embedding/text");
    assert_eq!(CohereClient::new("m", None, key.clone(), &none).unwrap().url(), DEFAULT_COHERE_URL);
    assert_eq!(DEFAULT_COHERE_URL, "https://api.cohere.com/v1/embed");
    assert_eq!(JinaClient::new("m", None, key.clone(), &none).unwrap().url(), DEFAULT_JINA_URL);
    assert_eq!(DEFAULT_JINA_URL, "https://api.jina.ai/v1/embeddings");
    assert_eq!(
        MixedbreadClient::new("m", None, key.clone(), &none).unwrap().url(),
        DEFAULT_MIXEDBREAD_URL
    );
    assert_eq!(DEFAULT_MIXEDBREAD_URL, "https://api.mixedbread.ai/v1/embeddings/");
    assert_eq!(OllamaClient::new("m", None).url(), DEFAULT_OLLAMA_URL);
    assert_eq!(DEFAULT_OLLAMA_URL, "http://localhost:11434/api/embeddings");
    assert_eq!(LlamafileClient::new(None).url(), DEFAULT_LLAMAFILE_URL);
    assert_eq!(DEFAULT_LLAMAFILE_URL, "http://localhost:8080/embedding");
    assert_eq!(LlamafileClient::new(Some("http://h/e".to_string())).url(), "http://h/e");
}

#[test]
fn openai_request_has_input_and_model() {
    let client =
        OpenAiClient::new("small", None, Some("sk".to_string()), &Environment::empty()).unwrap();
    let request = client.request("hello");
    assert_eq!(
        request,
        HttpRequest {
            url: "https://api.openai.com/v1/embeddings".to_string(),
            headers: headers(&[
                ("Content-Type", "application/json"),
                ("Authorization", "Bearer sk"),
            ]),
            body: "{\"input\":\"hello\",\"model\":\"small\"}".to_string(),
        }
    );
}

#[test]
fn nomic_request_has_texts_model_and_input_type() {
    let client =
        NomicClient::new("nomic-v1", None, Some("nk".to_string()), &Environment::empty()).unwrap();
    let request = client.request("hello", None);
    assert_eq!(request.url, DEFAULT_NOMIC_URL);
    assert_eq!(
        request.headers,
        headers(&[("Content-Type", "application/json"), ("Authorization", "Bearer nk")])
    );
    assert_eq!(request.body, "{\"model\":\"nomic-v1\",\"texts\":[\"hello\"]}");
    let request = client.request("hello", Some("search_query"));
    assert_eq!(
        request.body,
        "{\"input_type\":\"search_query\",\"model\":\"nomic-v1\",\"texts\":[\"hello\"]}"
    );
}

#[test]
fn cohere_request_asks_for_json() {
    let client =
        CohereClient::new("embed-v3", None, Some("ck".to_string()), &Environment::empty()).unwrap();
    let request = client.request("hello", Some("search_document"));
    assert_eq!(request.url, DEFAULT_COHERE_URL);
    assert_eq!(
        request.headers,
        headers(&[
            ("Content-Type", "application/json"),
            ("Accept", "application/json"),
            ("Authorization", "Bearer ck"),
        ])
    );
    assert_eq!(
        request.body,
        "{\"input_type\":\"search_document\",\"model\":\"embed-v3\",\"texts\":[\"hello\"]}"
    );
}

#[test]
fn jina_and_mixedbread_requests_have_a_list_of_inputs() {
    let none = Environment::empty();
    let jina = JinaClient::new("jina-v2", None, Some("jk".to_string()), &none).unwrap();
    let request = jina.request("hello");
    assert_eq!(request.url, DEFAULT_JINA_URL);
    assert_eq!(
        request.headers,
        headers(&[
            ("Content-Type", "application/json"),
            ("Accept", "application/json"),
            ("Authorization", "Bearer jk"),
        ])
    );
    assert_eq!(request.body, "{\"input\":[\"hello\"],\"model\":\"jina-v2\"}");
    let mixedbread = MixedbreadClient::new("mxbai", None, Some("mk".to_string()), &none).unwrap();
    let request = mixedbread.request("hello");
    assert_eq!(request.url, DEFAULT_MIXEDBREAD_URL);
    assert_eq!(request.body, "{\"input\":[\"hello\"],\"model\":\"mxbai\"}");
    assert_eq!(request.headers[2].value, "Bearer mk");
}

#[test]
fn local_requests_carry_no_key() {
    let ollama = OllamaClient::new("nomic-embed-text", None);
    assert_eq!(ollama.model(), "nomic-embed-text");
    let request = ollama.request("hello");
    assert_eq!(request.url, DEFAULT_OLLAMA_URL);
    assert_eq!(request.headers, headers(&[("Content-Type", "application/json")]));
    assert_eq!(request.body, "{\"model\":\"nomic-embed-text\",\"prompt\":\"hello\"}");
    let llamafile = LlamafileClient::new(None);
    let request = llamafile.request("hello");
    assert_eq!(request.url, DEFAULT_LLAMAFILE_URL);
    assert_eq!(request.headers, headers(&[("Content-Type", "application/json")]));
    assert_eq!(request.body, "{\"content\":\"hello\"}");
}

#[test]
fn requests_escape_the_input() {
    let request = LlamafileClient::new(None).request("a \"b\"\n\\ é");
    assert_eq!(request.body, "{\"content\":\"a \\\"b\\\"\\n\\\\ é\"}");
}

#[test]
fn every_provider_reads_its_own_shape() {
    let data = "{\"data\":[{\"embedding\":[0.1,0.2,0.3]}]}";
    let list = "{\"embeddings\":[[0.1,0.2,0.3]]}";
    let single = "{\"embedding\":[0.1,0.2,0.3]}";
    let expected = vec![0.1f32, 0.2f32, 0.3f32];
    assert_eq!(narrowed(&OpenAiClient::parse_single_response(body(data)).unwrap()), expected);
    assert_eq!(narrowed(&JinaClient::parse_single_response(body(data)).unwrap()), expected);
    assert_eq!(narrowed(&MixedbreadClient::parse_single_response(body(data)).unwrap()), expected);
    assert_eq!(narrowed(&NomicClient::parse_single_response(body(list)).unwrap()), expected);
    assert_eq!(narrowed(&CohereClient::parse_single_response(body(list)).unwrap()), expected);
    assert_eq!(narrowed(&OllamaClient::parse_single_response(body(single)).unwrap()), expected);
}

#[test]
fn every_provider_names_the_path_that_is_missing() {
    let error = OpenAiClient::parse_single_response(body("{}")).unwrap_err();
    assert_eq!((error.kind, error.detail.as_str()), (ProviderErrorKind::MissingKey, "data"));
    let error = JinaClient::parse_single_response(body("{\"data\":[]}")).unwrap_err();
    assert_eq!((error.kind, error.detail.as_str()), (ProviderErrorKind::MissingPath, "data.0"));
    let error = MixedbreadClient::parse_single_response(body("{\"data\":[{}]}")).unwrap_err();
    assert_eq!(
        (error.kind, error.detail.as_str()),
        (ProviderErrorKind::MissingPath, "data.0.embedding")
    );
    let error = NomicClient::parse_single_response(body("{\"data\":[]}")).unwrap_err();
    assert_eq!((error.kind, error.detail.as_str()), (ProviderErrorKind::MissingKey, "embeddings"));
    let error = CohereClient::parse_single_response(body("{\"embeddings\":[]}")).unwrap_err();
    assert_eq!(
        (error.kind, error.detail.as_str()),
        (ProviderErrorKind::MissingPath, "embeddings.0")
    );
    let error = NomicClient::parse_single_response(body("{\"embeddings\":{}}")).unwrap_err();
    assert_eq!(
        (error.kind, error.detail.as_str()),
        (ProviderErrorKind::MissingPath, "embeddings.0")
    );
    let error = OllamaClient::parse_single_response(body("[]")).unwrap_err();
    assert_eq!((error.kind, error.detail.as_str()), (ProviderErrorKind::MissingKey, "embedding"));
    let error = OllamaClient::parse_single_response(body("{\"embedding\":1}")).unwrap_err();
    assert_eq!((error.kind, error.detail.as_str()), (ProviderErrorKind::NotAnArray, "embedding"));
    let error = OllamaClient::parse_single_response(body("{\"embedding\":[[1]]}")).unwrap_err();
    assert_eq!((error.kind, error.detail.as_str()), (ProviderErrorKind::NotANumber, "embedding"));
}

#[test]
fn read_outcome_passes_failures_on() {
    let path = vec![Step::Key("embedding")];
    let error = read_outcome(HttpOutcome::SendFailed("refused".to_string()), &path).unwrap_err();
    assert_eq!(error.kind, ProviderErrorKind::Network);
    assert_eq!(error.message(), "Error sending HTTP request: refused");
    let error = read_outcome(HttpOutcome::ReadFailed("cut off".to_string()), &path).unwrap_err();
    assert_eq!(error.kind, ProviderErrorKind::UnreadableBody);
    assert_eq!(error.message(), "Error parsing HTTP response: cut off");
    let error = read_outcome(HttpOutcome::Body("<html>".to_string()), &path).unwrap_err();
    assert_eq!(error.kind, ProviderErrorKind::InvalidJson);
    assert!(error.message().starts_with("Error parsing HTTP response as JSON: "));
    let vector = read_outcome(HttpOutcome::Body("{\"embedding\":[1]}".to_string()), &path);
    assert_eq!(vector, Ok(vec![1.0f64.to_bits()]));
}

#[test]
fn infer_single_sends_the_request_and_reads_the_answer() {
    let client =
        OpenAiClient::new("small", None, Some("sk".to_string()), &Environment::empty()).unwrap();
    let expected = client.request("hello");
    let vector = client
        .infer_single("hello", |request| {
            assert_eq!(request, expected);
            HttpOutcome::Body("{\"data\":[{\"embedding\":[0.5,-1]}]}".to_string())
        })
        .unwrap();
    assert_eq!(narrowed(&vector), vec![0.5f32, -1.0f32]);
}

#[test]
fn infer_single_hands_the_input_type_on() {
    let client =
        NomicClient::new("nomic-v1", None, Some("nk".to_string()), &Environment::empty()).unwrap();
    let vector = client
        .infer_single("hello", Some("clustering"), |request| {
            assert!(request.body.contains("\"input_type\":\"clustering\""));
            HttpOutcome::Body("{\"embeddings\":[[2]]}".to_string())
        })
        .unwrap();
    assert_eq!(narrowed(&vector), vec![2.0f32]);
}

#[test]
fn infer_single_reports_what_the_transport_reports() {
    let client = OllamaClient::new("m", None);
    let error = client
        .infer_single("hello", |_| HttpOutcome::SendFailed("connection refused".to_string()))
        .unwrap_err();
    assert_eq!(error.kind, ProviderErrorKind::Network);
    assert_eq!(error.detail, "connection refused");
    let error = LlamafileClient::new(None)
        .infer_single("hello", |_| HttpOutcome::Body("{\"embedding\":\"no\"}".to_string()))
        .unwrap_err();
    assert_eq!(error.kind, ProviderErrorKind::NotAnArray);
}

#[test]
fn the_extra_argument_reaches_nomic_and_cohere_only() {
    let none = Environment::empty();
    let key = Some("k".to_string());
    let clients = vec![
        (Client::OpenAI(OpenAiClient::new("m", None, key.clone(), &none).unwrap()), false),
        (Client::Nomic(NomicClient::new("m", None, key.clone(), &none).unwrap()), true),
        (Client::Cohere(CohereClient::new("m", None, key.clone(), &none).unwrap()), true),
        (Client::Jina(JinaClient::new("m", None, key.clone(), &none).unwrap()), false),
        (Client::Mixedbread(MixedbreadClient::new("m", None, key.clone(), &none).unwrap()), false),
        (Client::Ollama(OllamaClient::new("m", None)), false),
        (Client::Llamafile(LlamafileClient::new(None)), false),
    ];
    for (client, takes_extra) in clients {
        let result = client.infer_single("hello", Some("search_query"), |request| {
            assert_eq!(request.body.contains("search_query"), takes_extra);
            HttpOutcome::SendFailed("stop".to_string())
        });
        assert_eq!(result.unwrap_err().kind, ProviderErrorKind::Network);
    }
}

#[test]
fn every_provider_error_has_its_text() {
    let text = |kind| ProviderError::new(kind, "x").message();
    assert_eq!(text(ProviderErrorKind::Network), "Error sending HTTP request: x");
    assert_eq!(text(ProviderErrorKind::UnreadableBody), "Error parsing HTTP response: x");
    assert_eq!(text(ProviderErrorKind::InvalidJson), "Error parsing HTTP response as JSON: x");
    assert_eq!(text(ProviderErrorKind::MissingKey), "expected 'x' key in response body");
    assert_eq!(text(ProviderErrorKind::MissingPath), "expected 'x' path in response body");
    assert_eq!(text(ProviderErrorKind::NotAnArray), "expected 'x' path to be an array");
    assert_eq!(text(ProviderErrorKind::NotANumber), "expected 'x' array to contain floats");
    assert_eq!(
        text(ProviderErrorKind::UnsupportedModelProvider),
        "Model provider 'x' is not supported!"
    );
    assert_eq!(text(ProviderErrorKind::InvalidOptions), "Error parsing inference options as JSON: x");
    assert_eq!(text(ProviderErrorKind::InvalidTime), "Error formatting the request time: x");
}

#[test]
fn every_config_error_has_its_text() {
    let text = |kind| ConfigError::new(kind, "x").message();
    assert_eq!(
        text(ConfigErrorKind::MissingVariable),
        "x environment variable not defined. Alternatively, pass in an API key with rembed_client_options"
    );
    assert_eq!(
        text(ConfigErrorKind::OddArguments),
        "Must have an even number of arguments to rembed_client_options, as key/value pairs."
    );
    assert_eq!(text(ConfigErrorKind::MissingFormat), "'format' key is required.");
    assert_eq!(text(ConfigErrorKind::MissingOption), "'x' option is required");
    assert_eq!(text(ConfigErrorKind::UnknownFormat), "Unknown format 'x'");
    assert_eq!(text(ConfigErrorKind::UnknownProvider), "'x' is not a valid rembed client.");
    assert_eq!(text(ConfigErrorKind::OptionsRequired), "client options required");
}

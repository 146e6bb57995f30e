use sqlite_rembed::clients::{AmazonBedrockClient, Client};
use sqlite_rembed::clock::{amz_date, amz_time};
use sqlite_rembed::environment::{Environment, Variable};
use sqlite_rembed::errors::{ConfigErrorKind, ProviderErrorKind};
use sqlite_rembed::http::{Header, HttpOutcome};
use sqlite_rembed::json::Json;

const MOMENT: i64 = 1440938160;

fn environment(pairs: &[(&str, &str)]) -> Environment {
    Environment {
        variables: pairs
            .iter()
            .map(|(name, value)| Variable { name: name.to_string(), value: value.to_string() })
            .collect(),
    }
}

fn client(model: &str, region: &str, token: &str) -> AmazonBedrockClient {
    AmazonBedrockClient::new(
        model,
        Some(region.to_string()),
        Some("AKIDEXAMPLE".to_string()),
        Some("s3cr3t".to_string()),
        Some(token.to_string()),
        &Environment::empty(),
    )
    .unwrap()
}

fn header(name: &str, value: &str) -> Header {
    Header { name: name.to_string(), value: value.to_string() }
}

fn narrowed(vector: &[u64]) -> Vec<f32> {
    vector.iter().map(|bits| f64::from_bits(*bits) as f32).collect()
}

#[test]
fn amazon_writes_moments_without_separators() {
    assert_eq!(amz_time(MOMENT), Some("20150830T123600Z".to_string()));
    assert_eq!(amz_date(MOMENT), Some("20150830".to_string()));
    assert_eq!(amz_time(0), Some("19700101T000000Z".to_string()));
    assert_eq!(amz_date(0), Some("19700101".to_string()));
    assert_eq!(amz_time(-1), Some("19691231T235959Z".to_string()));
    assert_eq!(amz_time(i64::MAX), None);
    assert_eq!(amz_date(i64::MIN), None);
}

#[test]
fn bedrock_client_takes_its_credentials_from_the_environment() {
    let env = environment(&[
        ("AWS_ACCESS_KEY_ID", "id"),
        ("AWS_SECRET_ACCESS_KEY", "secret"),
        ("AWS_SESSION_TOKEN", "token"),
    ]);
    let client = AmazonBedrockClient::new("amazon.titan", None, None, None, None, &env).unwrap();
    assert_eq!(client.model_id(), "amazon.titan");
    assert_eq!(client.region(), "us-east-1");
    assert_eq!(client.aws_access_key_id(), "id");
    assert_eq!(client.aws_secret_access_key(), "secret");
    assert_eq!(client.aws_session_token(), "token");
    let client = AmazonBedrockClient::new(
        "amazon.titan",
        Some("eu-west-1".to_string()),
        Some("given-id".to_string()),
        Some("given-secret".to_string()),
        Some("".to_string()),
        &env,
    )
    .unwrap();
    assert_eq!(client.region(), "eu-west-1");
    assert_eq!(client.aws_access_key_id(), "given-id");
    assert_eq!(client.aws_secret_access_key(), "given-secret");
    assert_eq!(client.aws_session_token(), "");
}

#[test]
fn bedrock_client_needs_both_keys_and_no_token() {
    let error = AmazonBedrockClient::new("m", None, None, None, None, &Environment::empty())
        .unwrap_err();
    assert_eq!(error.kind, ConfigErrorKind::MissingVariable);
    assert_eq!(error.detail, "AWS_ACCESS_KEY_ID");
    let env = environment(&[("AWS_ACCESS_KEY_ID", "id")]);
    let error = AmazonBedrockClient::new("m", None, None, None, None, &env).unwrap_err();
    assert_eq!(error.kind, ConfigErrorKind::MissingVariable);
    assert_eq!(error.detail, "AWS_SECRET_ACCESS_KEY");
    let env = environment(&[("AWS_ACCESS_KEY_ID", "id"), ("AWS_SECRET_ACCESS_KEY", "secret")]);
    let client = AmazonBedrockClient::new("m", None, None, None, None, &env).unwrap();
    assert_eq!(client.aws_session_token(), "");
}

#[test]
fn model_provider_stands_before_the_first_dot() {
    assert_eq!(client("amazon.titan-embed-text-v2:0", "r", "").model_provider(), "amazon");
    assert_eq!(client("cohere.embed-english-v3", "r", "").model_provider(), "cohere");
    assert_eq!(client("titan", "r", "").model_provider(), "titan");
}

#[test]
fn bedrock_body_depends_on_the_model_provider() {
    let amazon = client("amazon.titan-embed-text-v1", "us-east-1", "");
    assert_eq!(amazon.body("hello", None).to_text(), "{\"inputText\":\"hello\"}");
    let cohere = client("cohere.embed-english-v3", "us-east-1", "");
    assert_eq!(
        cohere.body("hello", None).to_text(),
        "{\"input_type\":\"search_document\",\"texts\":[\"hello\"]}"
    );
    let other = client("meta.llama", "us-east-1", "");
    assert_eq!(other.body("hello", None).to_text(), "{}");
}

#[test]
fn bedrock_body_takes_the_options_of_the_caller() {
    let amazon = client("amazon.titan-embed-text-v2:0", "us-east-1", "");
    let options = Json::parse("{\"dimensions\":256,\"normalize\":true}").unwrap();
    assert_eq!(
        amazon.body("hello", Some(options)).to_text(),
        "{\"dimensions\":256,\"inputText\":\"hello\",\"normalize\":true}"
    );
    let cohere = client("cohere.embed-english-v3", "us-east-1", "");
    let options = Json::parse("{\"truncate\":\"END\",\"input_type\":\"search_query\"}").unwrap();
    assert_eq!(
        cohere.body("hello", Some(options)).to_text(),
        "{\"input_type\":\"search_query\",\"texts\":[\"hello\"],\"truncate\":\"END\"}"
    );
    let options = Json::parse("[1]").unwrap();
    assert_eq!(amazon.body("hello", Some(options)).to_text(), "[1]");
}

#[test]
fn signed_request_without_a_session_token() {
    let client = client("amazon.titan-embed-text-v2:0", "us-west-2", "");
    let request =
        client.sign_request("{\"inputText\":\"hello\"}", "20150830T123600Z", "20150830");
    assert_eq!(
        request.url,
        "https://bedrock-runtime.us-west-2.amazonaws.com/model/amazon.titan-embed-text-v2%3A0/invoke"
    );
    assert_eq!(request.body, "{\"inputText\":\"hello\"}");
    assert_eq!(
        request.headers,
        vec![
            header("Accept", "application/json"),
            header("X-Amz-Date", "20150830T123600Z"),
            header(
                "Authorization",
                "AWS4-HMAC-SHA256 Credential=AKIDEXAMPLE/20150830/us-west-2/bedrock/aws4_request, SignedHeaders=host;x-amz-date, Signature=b6fc7a95cae14bb61870024d0cd07d59b912ff7a855a3acf7dc1240e0b039e10"
            ),
        ]
    );
}

#[test]
fn signed_request_with_a_session_token() {
    let client = client("amazon.titan-embed-text-v2:0", "us-west-2", "TOKEN123");
    let request =
        client.sign_request("{\"inputText\":\"hello\"}", "20150830T123600Z", "20150830");
    assert_eq!(
        request.headers,
        vec![
            header("Accept", "application/json"),
            header("X-Amz-Date", "20150830T123600Z"),
            header(
                "Authorization",
                "AWS4-HMAC-SHA256 Credential=AKIDEXAMPLE/20150830/us-west-2/bedrock/aws4_request, SignedHeaders=host;x-amz-date;x-amz-security-token, Signature=e83a27bf3ac7e963e36591f32f749332cbdf6a81184ce1c8af486b747fd92094"
            ),
            header("X-Amz-Security-Token", "TOKEN123"),
        ]
    );
}

#[test]
fn the_model_identifier_is_encoded_once_in_the_url() {
    let client = client("a b/c*d-e_f.g~h+é", "us-east-1", "");
    let request = client.sign_request("{}", "20150830T123600Z", "20150830");
    assert_eq!(
        request.url,
        "https://bedrock-runtime.us-east-1.amazonaws.com/model/a+b%2Fc*d-e_f.g%7Eh%2B%C3%A9/invoke"
    );
}

#[test]
fn request_at_signs_for_the_moment() {
    let client = client("cohere.embed-english-v3", "us-east-1", "");
    let options = Json::parse("{\"truncate\":\"END\"}").unwrap();
    let request = client.request_at("hello", Some(options), MOMENT).unwrap();
    assert_eq!(
        request.body,
        "{\"input_type\":\"search_document\",\"texts\":[\"hello\"],\"truncate\":\"END\"}"
    );
    assert_eq!(request.headers[1], header("X-Amz-Date", "20150830T123600Z"));
    assert_eq!(
        request.headers[2],
        header(
            "Authorization",
            "AWS4-HMAC-SHA256 Credential=AKIDEXAMPLE/20150830/us-east-1/bedrock/aws4_request, SignedHeaders=host;x-amz-date, Signature=826f0890ff5591d2021eee7ee02891e597d92d6cc91b363c938ff7353b19a4ec"
        )
    );
}

#[test]
fn request_at_refuses_a_moment_that_cannot_be_written() {
    let client = client("amazon.titan", "us-east-1", "");
    let error = client.request_at("hello", None, i64::MAX).unwrap_err();
    assert_eq!(error.kind, ProviderErrorKind::InvalidTime);
}

#[test]
fn bedrock_reads_the_shape_of_the_model_provider() {
    let amazon = client("amazon.titan-embed-text-v1", "us-east-1", "");
    let body = Json::parse("{\"embedding\":[0.1,0.2,0.3],\"inputTextTokenCount\":1}").unwrap();
    assert_eq!(
        narrowed(&amazon.parse_single_response(&body).unwrap()),
        vec![0.1f32, 0.2f32, 0.3f32]
    );
    let cohere = client("cohere.embed-english-v3", "us-east-1", "");
    let body = Json::parse("{\"embeddings\":[[0.1,0.2,0.3]],\"id\":\"x\"}").unwrap();
    assert_eq!(
        narrowed(&cohere.parse_single_response(&body).unwrap()),
        vec![0.1f32, 0.2f32, 0.3f32]
    );
}

#[test]
fn bedrock_names_what_is_missing() {
    let amazon = client("amazon.titan-embed-text-v1", "us-east-1", "");
    let error = amazon.parse_single_response(&Json::parse("{}").unwrap()).unwrap_err();
    assert_eq!((error.kind, error.detail.as_str()), (ProviderErrorKind::MissingKey, "embedding"));
    let cohere = client("cohere.embed-english-v3", "us-east-1", "");
    let error = cohere.parse_single_response(&Json::parse("{}").unwrap()).unwrap_err();
    assert_eq!((error.kind, error.detail.as_str()), (ProviderErrorKind::MissingKey, "embeddings"));
    let error =
        cohere.parse_single_response(&Json::parse("{\"embeddings\":1}").unwrap()).unwrap_err();
    assert_eq!((error.kind, error.detail.as_str()), (ProviderErrorKind::NotAnArray, "embeddings"));
    let error =
        cohere.parse_single_response(&Json::parse("{\"embeddings\":[]}").unwrap()).unwrap_err();
    assert_eq!(
        (error.kind, error.detail.as_str()),
        (ProviderErrorKind::MissingPath, "embeddings.0")
    );
}

#[test]
fn bedrock_refuses_other_model_providers() {
    let other = client("meta.llama3", "us-east-1", "");
    let body = Json::parse("{\"embedding\":[1]}").unwrap();
    let error = other.parse_single_response(&body).unwrap_err();
    assert_eq!(error.kind, ProviderErrorKind::UnsupportedModelProvider);
    assert_eq!(error.detail, "meta");
    assert_eq!(error.message(), "Model provider 'meta' is not supported!");
}

#[test]
fn bedrock_infers_at_a_moment() {
    let client = client("amazon.titan-embed-text-v2:0", "us-west-2", "");
    let vector = client
        .infer_single_at("hello", None, MOMENT, |request| {
            assert_eq!(request.body, "{\"inputText\":\"hello\"}");
            assert_eq!(
                request.headers[2].value,
                "AWS4-HMAC-SHA256 Credential=AKIDEXAMPLE/20150830/us-west-2/bedrock/aws4_request, SignedHeaders=host;x-amz-date, Signature=b6fc7a95cae14bb61870024d0cd07d59b912ff7a855a3acf7dc1240e0b039e10"
            );
            HttpOutcome::Body("{\"embedding\":[1,2]}".to_string())
        })
        .unwrap();
    assert_eq!(narrowed(&vector), vec![1.0f32, 2.0f32]);
    let error = client
        .infer_single_at("hello", None, MOMENT, |_| HttpOutcome::Body("not json".to_string()))
        .unwrap_err();
    assert_eq!(error.kind, ProviderErrorKind::InvalidJson);
    let error = client
        .infer_single_at("hello", None, MOMENT, |_| HttpOutcome::ReadFailed("eof".to_string()))
        .unwrap_err();
    assert_eq!(error.kind, ProviderErrorKind::UnreadableBody);
}

#[test]
fn bedrock_infers_now() {
    let client = client("amazon.titan-embed-text-v1", "us-east-1", "");
    let vector = client
        .infer_single("hello", None, |request| {
            let date = &request.headers[1];
            assert_eq!(date.name, "X-Amz-Date");
            assert_eq!(date.value.len(), 16);
            assert!(date.value.ends_with('Z'));
            assert!(request.headers[2].value.contains(&date.value[..8]));
            HttpOutcome::Body("{\"embedding\":[3]}".to_string())
        })
        .unwrap();
    assert_eq!(narrowed(&vector), vec![3.0f32]);
}

#[test]
fn the_extra_argument_is_the_options_of_bedrock() {
    let client = Client::AmazonBedrock(client("amazon.titan-embed-text-v2:0", "us-east-1", ""));
    let vector = client
        .infer_single_at("hello", Some("{\"dimensions\":256}"), MOMENT, |request| {
            assert_eq!(request.body, "{\"dimensions\":256,\"inputText\":\"hello\"}");
            HttpOutcome::Body("{\"embedding\":[1]}".to_string())
        })
        .unwrap();
    assert_eq!(narrowed(&vector), vec![1.0f32]);
    let error = client
        .infer_single_at("hello", Some("dimensions=256"), MOMENT, |_| {
            panic!("nothing is sent for options that are no JSON")
        })
        .unwrap_err();
    assert_eq!(error.kind, ProviderErrorKind::InvalidOptions);
    assert!(client
        .infer_single("hello", None, |_| HttpOutcome::Body("{\"embedding\":[]}".to_string()))
        .unwrap()
        .is_empty());
}

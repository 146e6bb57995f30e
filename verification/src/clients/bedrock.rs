//! The client of Amazon Bedrock. The body depends on the model provider, the
//! caller's inference options are merged into it, and the request is signed
//! with AWS Signature Version 4 for the moment at which it is made.

use crate::clients::{
    embedding_path, embeddings_first_path, failure, make_embedding_path, make_embeddings_first_path,
    missing_variable, resolve_key, resolve_url, resolved_key, resolved_url,
};
use crate::clock::{amz_date, amz_date_text, amz_time, amz_time_text, utc_now};
use crate::environment::Environment;
use crate::errors::{ConfigError, ProviderError, ProviderErrorKind, ProviderErrorView};
use crate::http::{
    header, header_view, Header, HttpOutcome, HttpOutcomeView, HttpRequest, HttpRequestView,
};
use crate::json::{merge, merged, parsed_json, written, Json, JsonView};
use crate::order::{header_name, lemma_first_difference_decides};
use crate::response::{read_vector, read_view, vector_read};
use crate::sigv4::{
    authorization_header, calculate_signature, canonical_header_block, canonical_request,
    create_authorization_header, create_canonical_request, create_string_to_sign,
    derive_signing_key, lemma_canonical_lines_stay, lowered_name, signature, signing_key,
    string_to_sign,
};
use crate::text::{
    before_first, concat2, concat3, first_place_of, lemma_first_place_of, part_before, same_text,
    slice_texts, texts,
};
use crate::urlencoded::{byte_serialize, form_urlencoded};
use vstd::prelude::*;
use vstd::string::*;
use vstd::utf8::*;

verus! {

/// The configuration of a client of Amazon Bedrock.
pub struct BedrockClientView {
    pub model_id: Seq<char>,
    pub region: Seq<char>,
    pub access_key_id: Seq<char>,
    pub secret_access_key: Seq<char>,
    pub session_token: Seq<char>,
}

/// A client of Amazon Bedrock. Its requests are signed with AWS Signature
/// Version 4; the session token may be empty.
#[derive(Clone, Debug, PartialEq, Eq)]
pub struct AmazonBedrockClient {
    model_id: String,
    region: String,
    aws_access_key_id: String,
    aws_secret_access_key: String,
    aws_session_token: String,
}

/// The algorithm that the requests are signed with.
pub const HASH_ALGORITHM: &'static str = "AWS4-HMAC-SHA256";

/// The region where none is given.
pub const DEFAULT_AWS_REGION: &'static str = "us-east-1";

/// The service that the requests are signed for.
pub const AWS_SERVICE: &'static str = "bedrock";

/// The environment variable that holds the access key identifier.
pub const AWS_ACCESS_KEY_ID_ENV: &'static str = "AWS_ACCESS_KEY_ID";

/// The environment variable that holds the secret access key.
pub const AWS_SECRET_ACCESS_KEY_ENV: &'static str = "AWS_SECRET_ACCESS_KEY";

/// The environment variable that holds the session token.
pub const AWS_SESSION_TOKEN_ENV: &'static str = "AWS_SESSION_TOKEN";

impl View for AmazonBedrockClient {
    type V = BedrockClientView;

    closed spec fn view(&self) -> BedrockClientView {
        BedrockClientView {
            model_id: self.model_id@,
            region: self.region@,
            access_key_id: self.aws_access_key_id@,
            secret_access_key: self.aws_secret_access_key@,
            session_token: self.aws_session_token@,
        }
    }
}

/// The model provider of a model: what stands before the first dot of its
/// identifier.
pub open spec fn model_provider(model_id: Seq<char>) -> Seq<char> {
    before_first(model_id, '.')
}

/// The body for one input before the caller's options are merged in:
/// `{"inputText": input}` for the models of `amazon`,
/// `{"texts": [input], "input_type": "search_document"}` for those of
/// `cohere`, and `{}` for any other.
pub open spec fn bedrock_base_body(provider: Seq<char>, input: Seq<char>) -> JsonView {
    if provider == "amazon"@ {
        JsonView::Object(Seq::empty()).with("inputText"@, JsonView::String(input))
    } else if provider == "cohere"@ {
        JsonView::Object(Seq::empty()).with(
            "texts"@,
            JsonView::Array(seq![JsonView::String(input)]),
        ).with("input_type"@, JsonView::String("search_document"@))
    } else {
        JsonView::Object(Seq::empty())
    }
}

/// The tree of the caller's options: an empty object where none are given.
pub open spec fn options_tree(options: Option<Json>) -> JsonView {
    match options {
        Some(options) => options@,
        None => JsonView::Object(Seq::empty()),
    }
}

/// The body for one input: the caller's options deep-merged into the body of
/// the model provider.
pub open spec fn bedrock_body(model_id: Seq<char>, input: Seq<char>, options: JsonView) -> JsonView {
    merged(bedrock_base_body(model_provider(model_id), input), options)
}

/// The model identifier as it stands in the URL: form-urlencoded once.
pub open spec fn encoded_model(model_id: Seq<char>) -> Seq<char> {
    form_urlencoded(encode_utf8(model_id))
}

/// The host of the Bedrock runtime of a region.
pub open spec fn service_endpoint(region: Seq<char>) -> Seq<char> {
    "bedrock-runtime."@ + region + ".amazonaws.com"@
}

/// The URL that a request is posted to.
pub open spec fn endpoint(client: BedrockClientView) -> Seq<char> {
    "https://"@ + service_endpoint(client.region) + "/model/"@ + encoded_model(client.model_id)
        + "/invoke"@
}

/// The URI in the canonical request, in which the model identifier is
/// form-urlencoded twice.
pub open spec fn canonical_uri(client: BedrockClientView) -> Seq<char> {
    "/model/"@ + form_urlencoded(encode_utf8(encoded_model(client.model_id))) + "/invoke"@
}

/// The names of the signed headers: the security token is among them where
/// the session token is not empty.
pub open spec fn signed_header_names(client: BedrockClientView) -> Seq<Seq<char>> {
    if client.session_token.len() == 0 {
        seq!["host"@, "x-amz-date"@]
    } else {
        seq!["host"@, "x-amz-date"@, "x-amz-security-token"@]
    }
}

/// The header lines of the canonical request.
pub open spec fn canonical_header_lines(client: BedrockClientView, amz_time: Seq<char>) -> Seq<
    Seq<char>,
> {
    if client.session_token.len() == 0 {
        seq!["host:"@ + service_endpoint(client.region), "x-amz-date:"@ + amz_time]
    } else {
        seq![
            "host:"@ + service_endpoint(client.region),
            "x-amz-date:"@ + amz_time,
            "x-amz-security-token:"@ + client.session_token,
        ]
    }
}

/// The header lines of a request are in canonical form as they stand: their
/// names are in small letters and the lines are in the order of their names,
/// so that the canonical request lists them unchanged.
pub proof fn lemma_header_lines_are_canonical(client: BedrockClientView, amz_time: Seq<char>)
    ensures
        canonical_header_block(canonical_header_lines(client, amz_time)) == canonical_header_lines(
            client,
            amz_time,
        ),
{
    reveal_strlit("host:");
    reveal_strlit("x-amz-date:");
    reveal_strlit("x-amz-security-token:");
    let lines = canonical_header_lines(client, amz_time);
    let host = "host:"@ + service_endpoint(client.region);
    let date = "x-amz-date:"@ + amz_time;
    let token = "x-amz-security-token:"@ + client.session_token;
    lemma_first_place_of(host, ':');
    lemma_first_place_of(date, ':');
    lemma_first_place_of(token, ':');
    assert(first_place_of(host, ':') == 4) by {
        assert(host[4] == ':');
    }
    assert(first_place_of(date, ':') == 10) by {
        assert(date[10] == ':');
    }
    assert(first_place_of(token, ':') == 20) by {
        assert(token[20] == ':');
    }
    assert(lowered_name(host) =~= host);
    assert(lowered_name(date) =~= date);
    assert(lowered_name(token) =~= token);
    assert(header_name(host)[0] == 'h');
    assert(header_name(date)[0] == 'x');
    assert(header_name(token)[0] == 'x');
    assert(header_name(date).len() != header_name(token).len());
    lemma_first_difference_decides(header_name(host), header_name(date), 0);
    lemma_first_difference_decides(header_name(host), header_name(token), 0);
    lemma_first_difference_decides(header_name(date), header_name(token), 6);
    lemma_canonical_lines_stay(lines);
}

/// The credential scope of a request: date, region, service and the closing
/// word, with slashes between them.
pub open spec fn credential_scope(amz_date: Seq<char>, region: Seq<char>) -> Seq<char> {
    amz_date + "/"@ + region + "/"@ + AWS_SERVICE@ + "/aws4_request"@
}

/// The value of the `Authorization` header of a request with the given
/// payload, made at the given moment.
pub open spec fn authorization(
    client: BedrockClientView,
    payload: Seq<char>,
    amz_time: Seq<char>,
    amz_date: Seq<char>,
) -> Seq<char> {
    let request = canonical_request(
        "POST"@,
        canonical_uri(client),
        ""@,
        canonical_header_lines(client, amz_time),
        signed_header_names(client),
        payload,
    );
    let scope = credential_scope(amz_date, client.region);
    let to_sign = string_to_sign(HASH_ALGORITHM@, amz_time, scope, request);
    let key = signing_key(client.secret_access_key, amz_date, client.region, AWS_SERVICE@);
    authorization_header(
        HASH_ALGORITHM@,
        client.access_key_id,
        scope,
        signed_header_names(client),
        signature(key, to_sign),
    )
}

/// The signed request with the given payload, made at the given moment.
pub open spec fn signed_request(
    client: BedrockClientView,
    payload: Seq<char>,
    amz_time: Seq<char>,
    amz_date: Seq<char>,
) -> HttpRequestView {
    let headers = seq![
        header_view("Accept"@, "application/json"@),
        header_view("X-Amz-Date"@, amz_time),
        header_view("Authorization"@, authorization(client, payload, amz_time, amz_date)),
    ];
    HttpRequestView {
        url: endpoint(client),
        headers: if client.session_token.len() == 0 {
            headers
        } else {
            headers.push(header_view("X-Amz-Security-Token"@, client.session_token))
        },
        body: payload,
    }
}

/// What is read from a response body: the numbers at `embedding` for the
/// models of `amazon`, those at `embeddings.0` for the models of `cohere`,
/// and for any other model provider the error that names it.
pub open spec fn bedrock_read(model_id: Seq<char>, body: JsonView) -> Result<
    Seq<u64>,
    ProviderErrorView,
> {
    if model_provider(model_id) == "amazon"@ {
        vector_read(body, embedding_path())
    } else if model_provider(model_id) == "cohere"@ {
        vector_read(body, embeddings_first_path())
    } else {
        Err(
            ProviderErrorView {
                kind: ProviderErrorKind::UnsupportedModelProvider,
                detail: model_provider(model_id),
            },
        )
    }
}

/// What reading an outcome gives for a model: a failure of the transport is
/// passed on with its message, a body that is no JSON is refused with the
/// message of the parser, and a JSON body is read as the model provider
/// writes it.
pub open spec fn bedrock_outcome_read(outcome: HttpOutcomeView, model_id: Seq<char>) -> Result<
    Seq<u64>,
    ProviderErrorView,
> {
    match outcome {
        HttpOutcomeView::SendFailed(message) => failure(ProviderErrorKind::Network, message),
        HttpOutcomeView::ReadFailed(message) => failure(ProviderErrorKind::UnreadableBody, message),
        HttpOutcomeView::Body(text) => match parsed_json(text) {
            Ok(body) => bedrock_read(model_id, body),
            Err(message) => failure(ProviderErrorKind::InvalidJson, message),
        },
    }
}

/// The signed request for a payload at a moment, given in seconds since the
/// start of 1970; where the timestamp or the date of the moment cannot be
/// written, the error that names the one that cannot.
pub open spec fn request_at_moment(
    client: BedrockClientView,
    payload: Seq<char>,
    seconds: i64,
) -> Result<HttpRequestView, ProviderErrorView> {
    match amz_time_text(seconds) {
        None => Err(
            ProviderErrorView { kind: ProviderErrorKind::InvalidTime, detail: "timestamp"@ },
        ),
        Some(amz_time) => match amz_date_text(seconds) {
            None => Err(ProviderErrorView { kind: ProviderErrorKind::InvalidTime, detail: "date"@ }),
            Some(amz_date) => Ok(signed_request(client, payload, amz_time, amz_date)),
        },
    }
}

/// That `r` is what came of the request of a moment: where the moment can be
/// written, `send` was handed the signed request of that moment and `r` is
/// what reading its outcome gives; where it cannot, `r` is the error that says
/// so.
pub open spec fn bedrock_inferred<F: FnOnce(HttpRequest) -> HttpOutcome>(
    send: F,
    client: BedrockClientView,
    input: Seq<char>,
    options: JsonView,
    seconds: i64,
    r: Result<Vec<u64>, ProviderError>,
) -> bool {
    match request_at_moment(
        client,
        written(bedrock_body(client.model_id, input, options)),
        seconds,
    ) {
        Ok(request) => exists|sent: HttpRequest, outcome: HttpOutcome|
            sent@ == request && #[trigger] call_ensures(send, (sent,), outcome) && read_view(r)
                == bedrock_outcome_read(outcome@, client.model_id),
        Err(error) => read_view(r) == Err::<Seq<u64>, ProviderErrorView>(error),
    }
}

impl AmazonBedrockClient {
    /// A client for the model `model_id`. The region is the given one, else
    /// `us-east-1`. The access key identifier and the secret access key are
    /// the given ones, else the values of `AWS_ACCESS_KEY_ID` and
    /// `AWS_SECRET_ACCESS_KEY`; where one is neither given nor set, the error
    /// names its variable, the identifier's first. The session token is the
    /// given one, else the value of `AWS_SESSION_TOKEN`, else empty.
    pub fn new(
        model_id: &str,
        region: Option<String>,
        aws_access_key_id: Option<String>,
        aws_secret_access_key: Option<String>,
        aws_session_token: Option<String>,
        environment: &Environment,
    ) -> (r: Result<Self, ConfigError>)
        ensures
            match r {
                Ok(client) => {
                    &&& client@.model_id == model_id@
                    &&& client@.region == resolved_url(region, DEFAULT_AWS_REGION@)
                    &&& resolved_key(aws_access_key_id, environment, AWS_ACCESS_KEY_ID_ENV@)
                        == Some(client@.access_key_id)
                    &&& resolved_key(aws_secret_access_key, environment, AWS_SECRET_ACCESS_KEY_ENV@)
                        == Some(client@.secret_access_key)
                    &&& client@.session_token == match resolved_key(
                        aws_session_token,
                        environment,
                        AWS_SESSION_TOKEN_ENV@,
                    ) {
                        Some(token) => token,
                        None => Seq::empty(),
                    }
                },
                Err(error) => if resolved_key(
                    aws_access_key_id,
                    environment,
                    AWS_ACCESS_KEY_ID_ENV@,
                ) is None {
                    error@ == missing_variable(AWS_ACCESS_KEY_ID_ENV@)
                } else {
                    resolved_key(aws_secret_access_key, environment, AWS_SECRET_ACCESS_KEY_ENV@)
                        is None && error@ == missing_variable(AWS_SECRET_ACCESS_KEY_ENV@)
                },
            },
    {
        let access_key_id = match resolve_key(
            aws_access_key_id,
            environment,
            AWS_ACCESS_KEY_ID_ENV,
        ) {
            Ok(found) => found,
            Err(error) => {
                return Err(error);
            },
        };
        let secret_access_key = match resolve_key(
            aws_secret_access_key,
            environment,
            AWS_SECRET_ACCESS_KEY_ENV,
        ) {
            Ok(found) => found,
            Err(error) => {
                return Err(error);
            },
        };
        let session_token = match resolve_key(
            aws_session_token,
            environment,
            AWS_SESSION_TOKEN_ENV,
        ) {
            Ok(found) => found,
            Err(_) => String::new(),
        };
        Ok(
            Self {
                model_id: String::from_str(model_id),
                region: resolve_url(region, DEFAULT_AWS_REGION),
                aws_access_key_id: access_key_id,
                aws_secret_access_key: secret_access_key,
                aws_session_token: session_token,
            },
        )
    }

    /// The identifier of the model that the client asks for.
    pub fn model_id(&self) -> (r: &str)
        ensures
            r@ == self@.model_id,
    {
        self.model_id.as_str()
    }

    /// The region whose runtime the client posts to.
    pub fn region(&self) -> (r: &str)
        ensures
            r@ == self@.region,
    {
        self.region.as_str()
    }

    /// The access key identifier that the client signs with.
    pub fn aws_access_key_id(&self) -> (r: &str)
        ensures
            r@ == self@.access_key_id,
    {
        self.aws_access_key_id.as_str()
    }

    /// The secret access key that the client signs with.
    pub fn aws_secret_access_key(&self) -> (r: &str)
        ensures
            r@ == self@.secret_access_key,
    {
        self.aws_secret_access_key.as_str()
    }

    /// The session token of the client, empty where it has none.
    pub fn aws_session_token(&self) -> (r: &str)
        ensures
            r@ == self@.session_token,
    {
        self.aws_session_token.as_str()
    }

    /// The model provider of the client's model.
    pub fn model_provider(&self) -> (r: String)
        ensures
            r@ == model_provider(self@.model_id),
    {
        part_before(self.model_id.as_str(), '.')
    }

    /// Makes the body for one input: the body of the model provider with the
    /// caller's options merged in.
    pub fn body(&self, input: &str, inference_options: Option<Json>) -> (r: Json)
        ensures
            r@ == bedrock_body(self@.model_id, input@, options_tree(inference_options)),
    {
        let provider = self.model_provider();
        let mut body = Json::object();
        if same_text(provider.as_str(), "amazon") {
            body.add("inputText", Json::text(input));
        } else if same_text(provider.as_str(), "cohere") {
            body.add("texts", Json::one_text(input));
            body.add("input_type", Json::text("search_document"));
        }
        let options = match inference_options {
            Some(options) => options,
            None => Json::object(),
        };
        merge(&mut body, options);
        body
    }

    /// Signs a request with the given payload for the given moment, which is
    /// handed in as Amazon writes it: the timestamp and its date.
    pub fn sign_request(&self, payload: &str, amz_time: &str, amz_date: &str) -> (r: HttpRequest)
        ensures
            r@ == signed_request(self@, payload@, amz_time@, amz_date@),
    {
        let model_id = byte_serialize(self.model_id.as_str());
        let escaped_model_id = byte_serialize(model_id.as_str());
        let canonical_uri = concat3("/model/", escaped_model_id.as_str(), "/invoke");
        let service_endpoint = concat3("bedrock-runtime.", self.region.as_str(), ".amazonaws.com");
        let mut endpoint = concat3("https://", service_endpoint.as_str(), "/model/");
        endpoint.append(model_id.as_str());
        endpoint.append("/invoke");
        let with_token = !self.aws_session_token.as_str().is_empty();

        let mut signed_headers: Vec<&str> = Vec::new();
        signed_headers.push("host");
        signed_headers.push("x-amz-date");
        if with_token {
            signed_headers.push("x-amz-security-token");
        }
        let mut canonical_headers: Vec<String> = Vec::new();
        canonical_headers.push(concat2("host:", service_endpoint.as_str()));
        canonical_headers.push(concat2("x-amz-date:", amz_time));
        if with_token {
            canonical_headers.push(
                concat2("x-amz-security-token:", self.aws_session_token.as_str()),
            );
        }
        proof {
            assert(slice_texts(signed_headers@) =~= signed_header_names(self@));
            assert(texts(canonical_headers@) =~= canonical_header_lines(self@, amz_time@));
        }
        let canonical_request = create_canonical_request(
            "POST",
            canonical_uri.as_str(),
            "",
            canonical_headers.as_slice(),
            signed_headers.as_slice(),
            payload,
        );

        let mut credential_scope = concat3(amz_date, "/", self.region.as_str());
        credential_scope.append("/");
        credential_scope.append(AWS_SERVICE);
        credential_scope.append("/aws4_request");
        let string_to_sign = create_string_to_sign(
            HASH_ALGORITHM,
            amz_time,
            credential_scope.as_str(),
            canonical_request.as_str(),
        );

        let signing_key = derive_signing_key(
            self.aws_secret_access_key.as_str(),
            amz_date,
            self.region.as_str(),
            AWS_SERVICE,
        );
        let signature = calculate_signature(signing_key.as_slice(), string_to_sign.as_str());

        let authorization = create_authorization_header(
            HASH_ALGORITHM,
            self.aws_access_key_id.as_str(),
            credential_scope.as_str(),
            signed_headers.as_slice(),
            signature.as_str(),
        );

        let mut headers: Vec<Header> = Vec::new();
        headers.push(header("Accept", "application/json"));
        headers.push(header("X-Amz-Date", amz_time));
        headers.push(header("Authorization", authorization.as_str()));
        if with_token {
            headers.push(header("X-Amz-Security-Token", self.aws_session_token.as_str()));
        }
        let request = HttpRequest { url: endpoint, headers, body: String::from_str(payload) };
        assert(request@.headers =~= signed_request(self@, payload@, amz_time@, amz_date@).headers);
        request
    }

    /// Makes the signed request for one input at a moment, given in seconds
    /// since the start of 1970; the error where the moment cannot be written.
    pub fn request_at(&self, input: &str, inference_options: Option<Json>, seconds: i64) -> (r:
        Result<HttpRequest, ProviderError>)
        ensures
            match r {
                Ok(request) => Ok::<HttpRequestView, ProviderErrorView>(request@),
                Err(error) => Err::<HttpRequestView, ProviderErrorView>(error@),
            } == request_at_moment(
                self@,
                written(bedrock_body(self@.model_id, input@, options_tree(inference_options))),
                seconds,
            ),
    {
        let body = self.body(input, inference_options);
        let payload = body.to_text();
        match amz_time(seconds) {
            Some(time) => match amz_date(seconds) {
                Some(date) => Ok(self.sign_request(payload.as_str(), time.as_str(), date.as_str())),
                None => Err(ProviderError::new(ProviderErrorKind::InvalidTime, "date")),
            },
            None => Err(ProviderError::new(ProviderErrorKind::InvalidTime, "timestamp")),
        }
    }

    /// Reads the embedding from a response body, as the model provider of the
    /// client's model writes it.
    pub fn parse_single_response(&self, value: &Json) -> (r: Result<Vec<u64>, ProviderError>)
        ensures
            read_view(r) == bedrock_read(self@.model_id, value@),
    {
        let provider = self.model_provider();
        if same_text(provider.as_str(), "amazon") {
            let path = make_embedding_path();
            read_vector(value, &path)
        } else if same_text(provider.as_str(), "cohere") {
            let path = make_embeddings_first_path();
            read_vector(value, &path)
        } else {
            Err(ProviderError { kind: ProviderErrorKind::UnsupportedModelProvider, detail: provider })
        }
    }

    /// Reads the embedding from the outcome of a request.
    pub fn read(&self, outcome: HttpOutcome) -> (r: Result<Vec<u64>, ProviderError>)
        ensures
            read_view(r) == bedrock_outcome_read(outcome@, self@.model_id),
    {
        match outcome {
            HttpOutcome::SendFailed(message) => Err(
                ProviderError { kind: ProviderErrorKind::Network, detail: message },
            ),
            HttpOutcome::ReadFailed(message) => Err(
                ProviderError { kind: ProviderErrorKind::UnreadableBody, detail: message },
            ),
            HttpOutcome::Body(text) => match Json::parse(text.as_str()) {
                Ok(body) => self.parse_single_response(&body),
                Err(message) => Err(
                    ProviderError { kind: ProviderErrorKind::InvalidJson, detail: message },
                ),
            },
        }
    }

    /// Infers the embedding of one input at a given moment: makes the signed
    /// request, has `send` send it, and reads the embedding from what comes
    /// back.
    pub fn infer_single_at<F: FnOnce(HttpRequest) -> HttpOutcome>(
        &self,
        input: &str,
        inference_options: Option<Json>,
        seconds: i64,
        send: F,
    ) -> (r: Result<Vec<u64>, ProviderError>)
        requires
            forall|request: HttpRequest| call_requires(send, (request,)),
        ensures
            bedrock_inferred(send, self@, input@, options_tree(inference_options), seconds, r),
    {
        match self.request_at(input, inference_options, seconds) {
            Ok(request) => {
                let outcome = send(request);
                self.read(outcome)
            },
            Err(error) => Err(error),
        }
    }

    /// Infers the embedding of one input now: reads the clock and does what
    /// [`Self::infer_single_at`] does for that moment.
    pub fn infer_single<F: FnOnce(HttpRequest) -> HttpOutcome>(
        &self,
        input: &str,
        inference_options: Option<Json>,
        send: F,
    ) -> (r: Result<Vec<u64>, ProviderError>)
        requires
            forall|request: HttpRequest| call_requires(send, (request,)),
        ensures
            exists|seconds: i64| #[trigger]
                bedrock_inferred(send, self@, input@, options_tree(inference_options), seconds, r),
    {
        let seconds = utc_now();
        self.infer_single_at(input, inference_options, seconds, send)
    }
}

} // verus!

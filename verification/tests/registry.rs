use sqlite_rembed::clients::{Client, LlamafileClient, OllamaClient};
use sqlite_rembed::clients_vtab;
use sqlite_rembed::clients_vtab::{
    ClientsCursor, ClientsTable, Columns, OptionsValue, TableError, Unsupported, UpdateOperation,
    SCHEMA,
};
use sqlite_rembed::environment::{Environment, Variable};
use sqlite_rembed::errors::{ConfigErrorKind, ProviderErrorKind};
use sqlite_rembed::http::HttpOutcome;
use sqlite_rembed::registry::ClientRegistry;
use sqlite_rembed::{
    rembed, rembed_at, rembed_client_options, rembed_debug, rembed_version, RembedError,
    FLOAT32_VECTOR_SUBTYPE,
};

fn ollama(model: &str) -> Client {
    Client::Ollama(OllamaClient::new(model, None))
}

fn strings(values: &[&str]) -> Vec<String> {
    values.iter().map(|v| v.to_string()).collect()
}

fn environment(pairs: &[(&str, &str)]) -> Environment {
    Environment {
        variables: pairs
            .iter()
            .map(|(name, value)| Variable { name: name.to_string(), value: value.to_string() })
            .collect(),
    }
}

fn narrowed(vector: &[u64]) -> Vec<f32> {
    vector.iter().map(|bits| f64::from_bits(*bits) as f32).collect()
}

fn insert(name: &str, options: OptionsValue) -> UpdateOperation {
    UpdateOperation::Insert { name: name.to_string(), options }
}

#[test]
fn registry_starts_empty() {
    let registry = ClientRegistry::new();
    assert_eq!(registry.len(), 0);
    assert!(registry.get("a").is_none());
    assert!(registry.list_names().is_empty());
}

#[test]
fn the_last_client_under_a_name_wins() {
    let mut registry = ClientRegistry::new();
    registry.insert("name", ollama("A"));
    registry.insert("name", ollama("B"));
    assert_eq!(registry.get("name"), Some(&ollama("B")));
    assert_eq!(registry.len(), 1);
    assert_eq!(registry.list_names(), strings(&["name"]));
}

#[test]
fn an_absent_name_is_not_found() {
    let mut registry = ClientRegistry::new();
    registry.insert("a", ollama("A"));
    assert_eq!(registry.get("b"), None);
    assert_eq!(registry.get(""), None);
    assert_eq!(registry.get("A"), None);
}

#[test]
fn insert_leaves_other_names_alone() {
    let mut registry = ClientRegistry::new();
    registry.insert("a", ollama("A"));
    registry.insert("b", Client::Llamafile(LlamafileClient::new(None)));
    registry.insert("c", ollama("C"));
    registry.insert("b", ollama("B"));
    assert_eq!(registry.get("a"), Some(&ollama("A")));
    assert_eq!(registry.get("b"), Some(&ollama("B")));
    assert_eq!(registry.get("c"), Some(&ollama("C")));
    assert_eq!(registry.list_names(), strings(&["a", "b", "c"]));
    assert_eq!(registry.len(), 3);
}

#[test]
fn columns_are_name_and_options() {
    assert_eq!(clients_vtab::column(0), Some(Columns::Name));
    assert_eq!(clients_vtab::column(1), Some(Columns::Options));
    assert_eq!(clients_vtab::column(2), None);
    assert_eq!(clients_vtab::column(-1), None);
}

#[test]
fn table_declares_its_two_columns() {
    let (schema, table) = ClientsTable::connect(ClientRegistry::new());
    assert_eq!(schema, "create table x(name text primary key, options)");
    assert_eq!(schema, SCHEMA);
    assert_eq!(table.clients.len(), 0);
    let (schema, _) = ClientsTable::create(ClientRegistry::new());
    assert_eq!(schema, SCHEMA);
}

#[test]
fn delete_and_update_are_refused_and_change_nothing() {
    let mut registry = ClientRegistry::new();
    registry.insert("a", ollama("A"));
    let (_, mut table) = ClientsTable::connect(registry);
    let none = Environment::empty();
    let error = table.update(UpdateOperation::Delete, &none).unwrap_err();
    assert_eq!(error, TableError::UnsupportedOperation(Unsupported::Delete));
    assert_eq!(error.message(), "DELETE operations on rembed_clients is not supported yet");
    let error = table.update(UpdateOperation::Update, &none).unwrap_err();
    assert_eq!(error, TableError::UnsupportedOperation(Unsupported::Update));
    assert_eq!(error.message(), "UPDATE operations on rembed_clients is not supported yet");
    assert_eq!(table.clients.list_names(), strings(&["a"]));
    assert_eq!(table.clients.get("a"), Some(&ollama("A")));
}

#[test]
fn a_row_with_a_tag_registers_the_provider_with_the_name_as_model() {
    let (_, mut table) = ClientsTable::connect(ClientRegistry::new());
    let env = environment(&[("OPENAI_API_KEY", "sk")]);
    table.update(insert("nomic-embed-text", OptionsValue::Tag("ollama".to_string())), &env).unwrap();
    assert_eq!(table.clients.get("nomic-embed-text"), Some(&ollama("nomic-embed-text")));
    table.update(insert("small", OptionsValue::Tag("openai".to_string())), &env).unwrap();
    match table.clients.get("small") {
        Some(Client::OpenAI(client)) => {
            assert_eq!(client.model(), "small");
            assert_eq!(client.key(), "sk");
        }
        other => panic!("unexpected client {:?}", other),
    }
    table.update(insert("local", OptionsValue::Tag("llamafile".to_string())), &env).unwrap();
    assert!(matches!(table.clients.get("local"), Some(Client::Llamafile(_))));
    assert_eq!(table.clients.len(), 3);
}

#[test]
fn a_row_with_a_tag_fails_as_the_client_fails() {
    let (_, mut table) = ClientsTable::connect(ClientRegistry::new());
    let none = Environment::empty();
    for (tag, variable) in [
        ("openai", "OPENAI_API_KEY"),
        ("nomic", "NOMIC_API_KEY"),
        ("cohere", "CO_API_KEY"),
        ("jina", "JINA_API_KEY"),
        ("mixedbread", "MIXEDBREAD_API_KEY"),
        ("bedrock", "AWS_ACCESS_KEY_ID"),
    ] {
        match table.update(insert("m", OptionsValue::Tag(tag.to_string())), &none) {
            Err(TableError::Config(error)) => {
                assert_eq!(error.kind, ConfigErrorKind::MissingVariable);
                assert_eq!(error.detail, variable);
            }
            other => panic!("unexpected result {:?}", other),
        }
    }
    assert_eq!(table.clients.len(), 0);
}

#[test]
fn a_row_with_an_unknown_tag_is_refused() {
    let (_, mut table) = ClientsTable::connect(ClientRegistry::new());
    let error = table
        .update(insert("m", OptionsValue::Tag("gpt".to_string())), &Environment::empty())
        .unwrap_err();
    assert_eq!(error.message(), "'gpt' is not a valid rembed client.");
    match error {
        TableError::Config(error) => assert_eq!(error.kind, ConfigErrorKind::UnknownProvider),
        other => panic!("unexpected error {:?}", other),
    }
    assert_eq!(table.clients.len(), 0);
}

#[test]
fn a_row_with_built_options_registers_them() {
    let (_, mut table) = ClientsTable::connect(ClientRegistry::new());
    let none = Environment::empty();
    let built = rembed_client_options(
        &strings(&["format", "ollama", "model", "nomic-embed-text", "url", "http://h:1/api"]),
        &none,
    )
    .unwrap();
    table.update(insert("e1", OptionsValue::Built(built)), &none).unwrap();
    match table.clients.get("e1") {
        Some(Client::Ollama(client)) => {
            assert_eq!(client.model(), "nomic-embed-text");
            assert_eq!(client.url(), "http://h:1/api");
        }
        other => panic!("unexpected client {:?}", other),
    }
}

#[test]
fn a_row_without_options_is_refused() {
    let (_, mut table) = ClientsTable::connect(ClientRegistry::new());
    let error = table.update(insert("m", OptionsValue::Other), &Environment::empty()).unwrap_err();
    assert_eq!(error.message(), "client options required");
    assert_eq!(table.clients.len(), 0);
}

#[test]
fn cursor_walks_over_the_names() {
    let mut registry = ClientRegistry::new();
    registry.insert("a", ollama("A"));
    registry.insert("b", ollama("B"));
    let (_, mut table) = ClientsTable::connect(registry);
    let mut cursor = table.open();
    assert_eq!(cursor.rowid(), 0);
    assert!(!cursor.eof());
    assert_eq!(cursor.column(0), Some("a".to_string()));
    assert_eq!(cursor.column(1), None);
    assert_eq!(cursor.column(7), None);
    cursor.next();
    assert_eq!(cursor.rowid(), 1);
    assert_eq!(cursor.column(0), Some("b".to_string()));
    // A client registered while the cursor is open is not among its rows.
    table.update(insert("c", OptionsValue::Tag("ollama".to_string())), &Environment::empty())
        .unwrap();
    cursor.next();
    assert!(cursor.eof());
    assert_eq!(cursor.rowid(), 2);
    assert!(ClientsCursor::new(&ClientsTable::connect(ClientRegistry::new()).1).eof());
    assert_eq!(table.open().column(0), Some("a".to_string()));
}

#[test]
fn client_options_need_pairs_and_a_format() {
    let none = Environment::empty();
    let error = rembed_client_options(&strings(&["format"]), &none).unwrap_err();
    assert_eq!(error.kind, ConfigErrorKind::OddArguments);
    assert_eq!(
        error.message(),
        "Must have an even number of arguments to rembed_client_options, as key/value pairs."
    );
    let error = rembed_client_options(&strings(&[]), &none).unwrap_err();
    assert_eq!(error.kind, ConfigErrorKind::MissingFormat);
    assert_eq!(error.message(), "'format' key is required.");
    let error = rembed_client_options(&strings(&["model", "m"]), &none).unwrap_err();
    assert_eq!(error.kind, ConfigErrorKind::MissingFormat);
    let error = rembed_client_options(&strings(&["format", "gpt", "model", "m"]), &none).unwrap_err();
    assert_eq!(error.kind, ConfigErrorKind::UnknownFormat);
    assert_eq!(error.message(), "Unknown format 'gpt'");
}

#[test]
fn client_options_need_a_model_except_for_llamafile() {
    let none = Environment::empty();
    for format in ["openai", "nomic", "cohere", "jina", "mixedbread", "ollama", "bedrock"] {
        let error = rembed_client_options(&strings(&["format", format, "key", "k"]), &none)
            .unwrap_err();
        assert_eq!(error.kind, ConfigErrorKind::MissingOption);
        assert_eq!(error.detail, "model");
        assert_eq!(error.message(), "'model' option is required");
    }
    let client = rembed_client_options(&strings(&["format", "llamafile"]), &none).unwrap();
    assert_eq!(client, Client::Llamafile(LlamafileClient::new(None)));
}

#[test]
fn client_options_choose_the_provider_by_its_format() {
    let none = Environment::empty();
    let options = |format: &str| {
        rembed_client_options(
            &strings(&["model", "m", "key", "k", "url", "http://u", "format", format]),
            &none,
        )
        .unwrap()
    };
    match options("openai") {
        Client::OpenAI(c) => assert_eq!((c.model(), c.url(), c.key()), ("m", "http://u", "k")),
        other => panic!("unexpected client {:?}", other),
    }
    match options("nomic") {
        Client::Nomic(c) => assert_eq!((c.model(), c.url(), c.key()), ("m", "http://u", "k")),
        other => panic!("unexpected client {:?}", other),
    }
    match options("cohere") {
        Client::Cohere(c) => assert_eq!((c.model(), c.url(), c.key()), ("m", "http://u", "k")),
        other => panic!("unexpected client {:?}", other),
    }
    match options("jina") {
        Client::Jina(c) => assert_eq!((c.model(), c.url(), c.key()), ("m", "http://u", "k")),
        other => panic!("unexpected client {:?}", other),
    }
    match options("mixedbread") {
        Client::Mixedbread(c) => assert_eq!((c.model(), c.url(), c.key()), ("m", "http://u", "k")),
        other => panic!("unexpected client {:?}", other),
    }
    match options("ollama") {
        Client::Ollama(c) => assert_eq!((c.model(), c.url()), ("m", "http://u")),
        other => panic!("unexpected client {:?}", other),
    }
    match options("llamafile") {
        Client::Llamafile(c) => assert_eq!(c.url(), "http://u"),
        other => panic!("unexpected client {:?}", other),
    }
}

#[test]
fn client_options_configure_bedrock() {
    let client = rembed_client_options(
        &strings(&[
            "format",
            "bedrock",
            "model",
            "amazon.titan-embed-text-v1",
            "region",
            "eu-central-1",
            "aws_access_key_id",
            "id",
            "aws_secret_access_key",
            "secret",
        ]),
        &environment(&[("AWS_SESSION_TOKEN", "token")]),
    )
    .unwrap();
    match client {
        Client::AmazonBedrock(c) => {
            assert_eq!(c.model_id(), "amazon.titan-embed-text-v1");
            assert_eq!(c.region(), "eu-central-1");
            assert_eq!(c.aws_access_key_id(), "id");
            assert_eq!(c.aws_secret_access_key(), "secret");
            assert_eq!(c.aws_session_token(), "token");
        }
        other => panic!("unexpected client {:?}", other),
    }
}

#[test]
fn client_options_take_the_last_value_of_a_key() {
    let client = rembed_client_options(
        &strings(&["format", "openai", "model", "a", "format", "ollama", "model", "b"]),
        &Environment::empty(),
    )
    .unwrap();
    assert_eq!(client, ollama("b"));
}

#[test]
fn client_options_ask_for_the_model_before_the_key() {
    let none = Environment::empty();
    let error = rembed_client_options(&strings(&["format", "openai"]), &none).unwrap_err();
    assert_eq!(error.kind, ConfigErrorKind::MissingOption);
    let error =
        rembed_client_options(&strings(&["format", "openai", "model", "m"]), &none).unwrap_err();
    assert_eq!(error.kind, ConfigErrorKind::MissingVariable);
    assert_eq!(error.detail, "OPENAI_API_KEY");
}

#[test]
fn embedding_through_a_registered_ollama_client() {
    let none = Environment::empty();
    let (_, mut table) = ClientsTable::connect(ClientRegistry::new());
    let built = rembed_client_options(
        &strings(&["format", "ollama", "model", "nomic-embed-text"]),
        &none,
    )
    .unwrap();
    table.update(insert("e1", OptionsValue::Built(built)), &none).unwrap();
    let vector = rembed(&table.clients, "e1", "hello", None, |request| {
        assert_eq!(request.url, "http://localhost:11434/api/embeddings");
        assert_eq!(request.body, "{\"model\":\"nomic-embed-text\",\"prompt\":\"hello\"}");
        HttpOutcome::Body("{\"embedding\":[0.1,0.2,0.3]}".to_string())
    })
    .unwrap();
    assert_eq!(narrowed(&vector), vec![0.1f32, 0.2f32, 0.3f32]);
    let blob: Vec<u8> = narrowed(&vector).iter().flat_map(|x| x.to_le_bytes()).collect();
    assert_eq!(blob.len(), 12);
    assert_eq!(&blob[..4], &1036831949u32.to_le_bytes());
    assert_eq!(FLOAT32_VECTOR_SUBTYPE, 223);
}

#[test]
fn embedding_through_an_unknown_client_names_it() {
    let registry = ClientRegistry::new();
    let error = rembed(&registry, "missing", "hello", None, |_| {
        panic!("nothing is sent for a client that is not registered")
    })
    .unwrap_err();
    assert_eq!(error, RembedError::UnknownClient("missing".to_string()));
    assert_eq!(
        error.message(),
        "Client with name missing was not registered with rembed_clients."
    );
}

#[test]
fn embedding_hands_the_error_of_the_provider_on() {
    let mut registry = ClientRegistry::new();
    registry.insert("e1", ollama("m"));
    let error = rembed_at(&registry, "e1", "hello", Some("ignored"), 0, |request| {
        assert!(!request.body.contains("ignored"));
        HttpOutcome::Body("{\"embeddings\":[[1]]}".to_string())
    })
    .unwrap_err();
    match &error {
        RembedError::Provider(inner) => {
            assert_eq!(inner.kind, ProviderErrorKind::MissingKey);
            assert_eq!(inner.detail, "embedding");
        }
        other => panic!("unexpected error {:?}", other),
    }
    assert_eq!(error.message(), "expected 'embedding' key in response body");
}

#[test]
fn version_and_debug_texts() {
    assert_eq!(rembed_version("0.0.1"), "v0.0.1");
    assert_eq!(rembed_debug("0.0.1", "abc123"), "Version: v0.0.1\nSource: abc123\n");
}

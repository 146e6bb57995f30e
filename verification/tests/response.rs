use sqlite_rembed::errors::{ProviderError, ProviderErrorKind};
use sqlite_rembed::json::Json;
use sqlite_rembed::response::{numbers, path_text, read_vector, Step};

fn parsed(text: &str) -> Json {
    Json::parse(text).expect("valid JSON")
}

fn narrowed(vector: &[u64]) -> Vec<f32> {
    vector.iter().map(|bits| f64::from_bits(*bits) as f32).collect()
}

fn failure(body: &str, path: &[Step]) -> ProviderError {
    read_vector(&parsed(body), &path.to_vec()).unwrap_err()
}

const DATA: [Step; 3] = [Step::Key("data"), Step::Index(0), Step::Key("embedding")];
const STRICT: [Step; 2] = [Step::Key("embeddings"), Step::First];

#[test]
fn read_vector_follows_the_path() {
    let body = parsed("{\"data\":[{\"embedding\":[0.1,0.2,0.3]},{\"embedding\":[9]}]}");
    let vector = read_vector(&body, &DATA.to_vec()).unwrap();
    assert_eq!(vector, vec![0.1f64.to_bits(), 0.2f64.to_bits(), 0.3f64.to_bits()]);
    assert_eq!(narrowed(&vector), vec![0.1f32, 0.2f32, 0.3f32]);
}

#[test]
fn read_vector_with_an_empty_path_reads_the_body() {
    assert_eq!(read_vector(&parsed("[1, 2]"), &vec![]).unwrap().len(), 2);
    let error = read_vector(&parsed("{}"), &vec![]).unwrap_err();
    assert_eq!(error.kind, ProviderErrorKind::NotAnArray);
    assert_eq!(error.detail, "");
}

#[test]
fn read_vector_accepts_an_empty_array() {
    let body = parsed("{\"embedding\":[]}");
    assert_eq!(read_vector(&body, &vec![Step::Key("embedding")]).unwrap(), Vec::<u64>::new());
}

#[test]
fn read_vector_narrows_integers_and_floats_alike() {
    let body = parsed("{\"embedding\":[1, -2, 3.5, 1e-5, 16777217]}");
    let vector = read_vector(&body, &vec![Step::Key("embedding")]).unwrap();
    assert_eq!(narrowed(&vector), vec![1.0f32, -2.0f32, 3.5f32, 1e-5f32, 16777216.0f32]);
}

#[test]
fn a_missing_first_key_is_named_as_a_key() {
    let error = failure("{\"other\":1}", &DATA);
    assert_eq!(error.kind, ProviderErrorKind::MissingKey);
    assert_eq!(error.detail, "data");
    assert_eq!(error.message(), "expected 'data' key in response body");
}

#[test]
fn a_missing_later_step_is_named_as_a_path() {
    let error = failure("{\"data\":[]}", &DATA);
    assert_eq!(error.kind, ProviderErrorKind::MissingPath);
    assert_eq!(error.detail, "data.0");
    assert_eq!(error.message(), "expected 'data.0' path in response body");

    let error = failure("{\"data\":{\"0\":1}}", &DATA);
    assert_eq!(error.kind, ProviderErrorKind::MissingPath);
    assert_eq!(error.detail, "data.0");

    let error = failure("{\"data\":[{\"other\":[1]}]}", &DATA);
    assert_eq!(error.kind, ProviderErrorKind::MissingPath);
    assert_eq!(error.detail, "data.0.embedding");
    assert_eq!(error.message(), "expected 'data.0.embedding' path in response body");
}

#[test]
fn what_is_no_array_is_reported_with_its_path() {
    let error = failure("{\"data\":[{\"embedding\":\"x\"}]}", &DATA);
    assert_eq!(error.kind, ProviderErrorKind::NotAnArray);
    assert_eq!(error.detail, "data.0.embedding");
    assert_eq!(error.message(), "expected 'data.0.embedding' path to be an array");
}

#[test]
fn what_is_no_number_is_reported_with_its_path() {
    let error = failure("{\"data\":[{\"embedding\":[0.1,\"x\",0.3]}]}", &DATA);
    assert_eq!(error.kind, ProviderErrorKind::NotANumber);
    assert_eq!(error.detail, "data.0.embedding");
    assert_eq!(error.message(), "expected 'data.0.embedding' array to contain floats");
    let error = failure("{\"data\":[{\"embedding\":[null]}]}", &DATA);
    assert_eq!(error.kind, ProviderErrorKind::NotANumber);
}

#[test]
fn the_first_step_tells_a_wrong_type_from_an_empty_array() {
    let vector = read_vector(&parsed("{\"embeddings\":[[1,2]]}"), &STRICT.to_vec()).unwrap();
    assert_eq!(narrowed(&vector), vec![1.0f32, 2.0f32]);

    let error = failure("{\"embeddings\":{}}", &STRICT);
    assert_eq!(error.kind, ProviderErrorKind::NotAnArray);
    assert_eq!(error.detail, "embeddings");

    let error = failure("{\"embeddings\":[]}", &STRICT);
    assert_eq!(error.kind, ProviderErrorKind::MissingPath);
    assert_eq!(error.detail, "embeddings.0");

    let error = failure("{\"embeddings\":[1]}", &STRICT);
    assert_eq!(error.kind, ProviderErrorKind::NotAnArray);
    assert_eq!(error.detail, "embeddings.0");

    let error = failure("{}", &STRICT);
    assert_eq!(error.kind, ProviderErrorKind::MissingKey);
    assert_eq!(error.detail, "embeddings");
}

#[test]
fn path_text_writes_steps_with_dots() {
    let path = vec![Step::Key("data"), Step::Index(12), Step::First, Step::Key("embedding")];
    assert_eq!(path_text(&path, 0), "");
    assert_eq!(path_text(&path, 1), "data");
    assert_eq!(path_text(&path, 2), "data.12");
    assert_eq!(path_text(&path, 3), "data.12.0");
    assert_eq!(path_text(&path, 4), "data.12.0.embedding");
}

#[test]
fn numbers_gives_none_where_an_item_is_no_number() {
    let items = match parsed("[1, 2]") {
        Json::Array(items) => items,
        _ => unreachable!(),
    };
    assert_eq!(numbers(&items), Some(vec![1.0f64.to_bits(), 2.0f64.to_bits()]));
    let items = match parsed("[1, []]") {
        Json::Array(items) => items,
        _ => unreachable!(),
    };
    assert_eq!(numbers(&items), None);
}

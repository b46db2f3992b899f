use toshi_router::pipeline::{ContentEncoding, Pipeline, PipelineError, Stage, LOG_TARGET};
use toshi_router::response::Response;
use toshi_router::routes::Method;

fn inflate(stream: &[u8]) -> Vec<u8> {
    let mut decoder = flate2::read::DeflateDecoder::new(stream);
    let mut plain = Vec::new();
    std::io::Read::read_to_end(&mut decoder, &mut plain).unwrap();
    plain
}

fn sample_body() -> String {
    let mut body = String::from("{\"hits\":[");
    for i in 0..200 {
        if i > 0 {
            body.push(',');
        }
        body.push_str(&format!("{{\"id\":{},\"title\":\"document number {}\"}}", i, i));
    }
    body.push_str("]}");
    body
}

#[test]
fn log_target_names_the_router() {
    assert_eq!(LOG_TARGET, "toshi::router");
}

#[test]
fn standard_pipeline_logs_then_compresses() {
    let pipeline = Pipeline::standard();
    assert_eq!(pipeline.stages(), vec![Stage::AccessLog, Stage::Compression]);
}

#[test]
fn logging_only_pipeline_has_one_stage() {
    let pipeline = Pipeline::logging_only("access");
    assert_eq!(pipeline.stages(), vec![Stage::AccessLog]);
}

#[test]
fn logger_records_method_path_status_and_size() {
    let pipeline = Pipeline::standard();
    let reply = Response::json(404, "{\"error\":\"x\",\"uri\":\"/y\"}".to_string());
    let record = pipeline.observe(Method::Post, "/y", &reply);
    assert_eq!(record.target, "toshi::router");
    assert_eq!(record.method, Method::Post);
    assert_eq!(record.path, "/y");
    assert_eq!(record.status, 404);
    assert_eq!(record.length, 24);
}

#[test]
fn logger_counts_bytes_not_characters() {
    let pipeline = Pipeline::logging_only("t");
    let reply = Response::success("\"é\"".to_string());
    let record = pipeline.observe(Method::Get, "/", &reply);
    assert_eq!(record.target, "t");
    assert_eq!(record.length, 4);
}

#[test]
fn compressor_sets_the_encoding_and_keeps_the_rest() {
    let pipeline = Pipeline::standard();
    let body = sample_body();
    let wire = pipeline.encode(Response::json(200, body.clone())).unwrap();
    assert_eq!(wire.status, 200);
    assert_eq!(wire.content_type, "application/json");
    assert_eq!(wire.encoding, ContentEncoding::Deflate);
    assert_ne!(wire.body, body.as_bytes());
    assert!(wire.body.len() < body.len());
}

#[test]
fn compressed_body_inflates_to_the_plain_body() {
    let compressing = Pipeline::standard();
    let plain = Pipeline::logging_only("toshi::router");
    for body in [sample_body(), String::new(), "{}".to_string(), "{\"v\":\"é\"}".to_string()] {
        let wire = compressing.encode(Response::json(200, body.clone())).unwrap();
        let untouched = plain.encode(Response::json(200, body.clone())).unwrap();
        assert_eq!(untouched.encoding, ContentEncoding::Identity);
        assert_eq!(untouched.body, body.as_bytes());
        assert_eq!(inflate(&wire.body), untouched.body);
    }
}

#[test]
fn error_replies_are_compressed_like_any_other() {
    let pipeline = Pipeline::standard();
    let body = "{\"error\":\"Unknown index\",\"uri\":\"/nope/_search\"}".to_string();
    let failed = pipeline.encode(Response::json(404, body.clone())).unwrap();
    let served = pipeline.encode(Response::json(200, body.clone())).unwrap();
    assert_eq!(failed.status, 404);
    assert_eq!(served.status, 200);
    assert_eq!(failed.encoding, ContentEncoding::Deflate);
    assert_eq!(failed.body, served.body);
    assert_eq!(inflate(&failed.body), body.as_bytes());
}

#[test]
fn compression_is_repeatable() {
    let pipeline = Pipeline::standard();
    let first = pipeline.encode(Response::json(200, sample_body())).unwrap();
    let second = pipeline.encode(Response::json(200, sample_body())).unwrap();
    assert_eq!(first.body, second.body);
}

#[test]
fn run_logs_the_reply_as_it_was_before_compression() {
    let pipeline = Pipeline::standard();
    let body = sample_body();
    let delivery = pipeline.run(Method::Get, "/idx/_search", Response::json(200, body.clone()));
    assert_eq!(delivery.record.target, "toshi::router");
    assert_eq!(delivery.record.method, Method::Get);
    assert_eq!(delivery.record.path, "/idx/_search");
    assert_eq!(delivery.record.status, 200);
    assert_eq!(delivery.record.length, body.len());
    let wire = delivery.wire.unwrap();
    assert_eq!(wire.status, 200);
    assert_eq!(wire.encoding, ContentEncoding::Deflate);
    assert_ne!(wire.body.len(), delivery.record.length);
    assert_eq!(inflate(&wire.body), body.as_bytes());
}

#[test]
fn run_without_compressor_sends_the_body_as_it_is() {
    let pipeline = Pipeline::logging_only("plain");
    let delivery = pipeline.run(Method::Put, "/idx", Response::json(500, "{\"a\":1}".to_string()));
    assert_eq!(delivery.record.status, 500);
    assert_eq!(delivery.record.length, 7);
    let wire = delivery.wire.unwrap();
    assert_eq!(wire.status, 500);
    assert_eq!(wire.content_type, "application/json");
    assert_eq!(wire.encoding, ContentEncoding::Identity);
    assert_eq!(wire.body, b"{\"a\":1}");
}

#[test]
fn pipeline_error_has_one_variant() {
    assert_eq!(PipelineError::Compression, PipelineError::Compression);
}

use rag_core::config::{
    Config, ConfigHttp, ConfigModel, ConfigQdrant, ConfigRocksDB, ConfigStore,
};
use rag_core::coordinate::Coordinator;
use rag_core::requests::StoreOp;
use rag_core::retrieve::{
    ranking_descending, RagPhase, RagRequest, RespRetriever, RetrievalError,
};

#[test]
fn http_defaults() {
    let c = ConfigHttp::default();
    assert_eq!(c.port, 3000);
    assert_eq!(c.bind, "::0");
    assert_eq!(ConfigHttp::port_default(), 3000);
    assert_eq!(ConfigHttp::bind_default(), "::0");
}

#[test]
fn model_defaults() {
    let c = ConfigModel::default();
    assert_eq!(c.model_id, "moka-ai/m3e-large");
    assert_eq!(c.revision, "main");
    assert!(c.use_pth);
    assert!(!c.approximate_gelu);
}

#[test]
fn qdrant_defaults() {
    let c = ConfigQdrant::default();
    assert_eq!(c.uri, "http://localhost:6334");
    assert_eq!(c.timeout, 5);
    assert_eq!(c.connect_timeout, 5);
    assert!(c.keep_alive_while_idle);
    assert!(c.api_key.is_none());
    assert_eq!(c.collection, "default_collection");
}

#[test]
fn rocksdb_defaults() {
    assert_eq!(ConfigRocksDB::default().path, "rocksdb");
    assert_eq!(ConfigRocksDB::path_default(), "rocksdb");
}

#[test]
fn whole_config_default_and_image() {
    let c = Config::default();
    assert_eq!(c.http.port, 3000);
    assert_eq!(Config::http_default().port, 3000);
    let image = c.get_config_image();
    assert_eq!(image.http.bind, c.http.bind);
    assert_eq!(image.model.model_id, c.model.model_id);
    assert_eq!(image.qdrant.collection, c.qdrant.collection);
}

#[test]
fn config_store_hands_out_what_was_set() {
    let mut store = ConfigStore::new(Config::default());
    assert_eq!(store.get_config().http.port, 3000);
    let mut next = Config::default();
    next.http.port = 8080;
    store.set_config(next);
    assert_eq!(store.get_config().http.port, 8080);
}

#[test]
fn generation_handle_is_exclusive() {
    // Two concurrent requests: the second acquisition is refused until the
    // first request releases after its cache reset.
    let mut c = Coordinator::new();
    assert!(c.acquire_for_generation());
    assert!(!c.acquire_for_generation());
    assert!(!c.acquire_for_generation());
    c.release_generation();
    assert!(c.acquire_for_generation());
}

#[test]
fn embedding_handles_are_shared() {
    let mut c = Coordinator::new();
    assert!(c.acquire_for_generation());
    c.acquire_for_embedding();
    c.acquire_for_embedding();
    assert_eq!(c.embedding_readers, 2);
    c.release_embedding();
    assert_eq!(c.embedding_readers, 1);
}

fn matched(score_micros: i64) -> RespRetriever {
    RespRetriever {
        id: String::from("p"),
        score_micros,
        payload: String::from("{}"),
    }
}

#[test]
fn ranking_validation() {
    let sorted = vec![matched(900_000), matched(900_000), matched(100_000)];
    let unsorted = vec![matched(100_000), matched(900_000)];
    let empty: Vec<RespRetriever> = Vec::new();
    assert!(ranking_descending(&sorted));
    assert!(!ranking_descending(&unsorted));
    assert!(ranking_descending(&empty));
}

#[test]
fn rag_request_runs_embed_retrieve_generate_in_order() {
    let mut r = RagRequest::new(String::from("what is retrieval?"), 3);
    assert!(matches!(r.phase, RagPhase::AwaitEmbedding));
    r.embedding_ready();
    assert!(matches!(r.phase, RagPhase::AwaitRetrieval));
    let bad = vec![matched(100_000), matched(900_000)];
    assert_eq!(r.retrieval_ready(&bad), Err(RetrievalError::BadRanking));
    assert!(matches!(r.phase, RagPhase::AwaitRetrieval));
    let good = vec![matched(900_000), matched(100_000)];
    assert_eq!(r.retrieval_ready(&good), Ok(()));
    assert!(matches!(r.phase, RagPhase::AwaitGeneration));
    assert_eq!(r.prompt_text(), "what is retrieval?");
    r.generation_ready();
    assert!(matches!(r.phase, RagPhase::Complete));
}

#[test]
fn unavailable_search_aborts_the_query() {
    let mut r = RagRequest::new(String::from("q"), 1);
    r.embedding_ready();
    assert_eq!(r.retrieval_failed(), RetrievalError::Unavailable);
    assert!(matches!(r.phase, RagPhase::Complete));
}

#[test]
fn unique_names_drops_repeats_and_keeps_order() {
    let names = vec![
        String::from("model-00001.safetensors"),
        String::from("model-00002.safetensors"),
        String::from("model-00001.safetensors"),
        String::from("model-00003.safetensors"),
        String::from("model-00002.safetensors"),
    ];
    let files = rag_core::weights::unique_names(&names);
    assert_eq!(
        files,
        vec![
            String::from("model-00001.safetensors"),
            String::from("model-00002.safetensors"),
            String::from("model-00003.safetensors"),
        ]
    );
}

#[test]
fn store_op_labels() {
    assert_eq!(StoreOp::Put.label(), "Put");
    assert_eq!(StoreOp::Del.label(), "Del");
    assert_eq!(StoreOp::Get.label(), "Get");
}

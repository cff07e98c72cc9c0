use anchoring::intelligence::{ChatModel, EmbeddingModel, IntelligenceService, ModelType};

#[test]
fn models_are_known_by_name() {
    assert_eq!(EmbeddingModel::TextEmbedding3Large.as_str(), "text-embedding-3-large");
    assert_eq!(ChatModel::Gpt4oMini.as_str(), "gpt-4o-mini");
    assert_eq!(
        ModelType::Embedding(EmbeddingModel::TextEmbedding3Large).as_str(),
        "text-embedding-3-large"
    );
    assert_eq!(ModelType::Chat(ChatModel::Gpt4oMini).as_str(), "gpt-4o-mini");
}

#[test]
fn service_asks_for_embeddings_of_two_thousand_dimensions() {
    assert_eq!(IntelligenceService::new().dimension(), 2000);
}

#[test]
fn short_text_is_one_chunk() {
    let service = IntelligenceService::new();
    let chunks = service
        .chunk_text(None, ModelType::Chat(ChatModel::Gpt4oMini), "Some text to refine.".to_string())
        .unwrap();
    assert_eq!(chunks, vec!["Some text to refine.".to_string()]);
}

#[test]
fn long_text_is_cut_and_each_chunk_gets_the_prefix() {
    let service = IntelligenceService::new();
    let sentence = "The quick brown fox jumps over the lazy dog. ";
    let text = sentence.repeat(2000);
    let model = ModelType::Embedding(EmbeddingModel::TextEmbedding3Large);
    let plain = service.chunk_text(None, model, text.clone()).unwrap();
    assert!(plain.len() > 1);
    let prefixed = service.chunk_text(Some("Doc: ".to_string()), model, text).unwrap();
    assert!(prefixed.len() >= plain.len());
    for chunk in &prefixed {
        assert!(chunk.starts_with("Doc: "));
        assert!(chunk.len() > "Doc: ".len());
    }
    let joined: String = prefixed.iter().map(|c| &c["Doc: ".len()..]).collect::<Vec<_>>().join(" ");
    assert_eq!(joined.split_whitespace().count(), sentence.split_whitespace().count() * 2000);
}

#[test]
fn prefix_that_fills_the_limit_leaves_no_room() {
    let service = IntelligenceService::new();
    let model = ModelType::Embedding(EmbeddingModel::TextEmbedding3Large);
    let prefix = "word ".repeat(9000);
    assert_eq!(service.chunk_text(Some(prefix), model, "text".to_string()), None);
}

#[test]
fn chat_chunks_get_the_prefix_too() {
    let service = IntelligenceService::new();
    let chunks = service
        .chunk_text(
            Some("Context: ".to_string()),
            ModelType::Chat(ChatModel::Gpt4oMini),
            "A short text.".to_string(),
        )
        .unwrap();
    assert_eq!(chunks, vec!["Context: A short text.".to_string()]);
}

#[test]
fn text_with_an_endless_run_of_whitespace_is_not_cut() {
    let service = IntelligenceService::new();
    let model = ModelType::Embedding(EmbeddingModel::TextEmbedding3Large);
    let text = format!("first{}second", " ".repeat(500_001));
    assert_eq!(service.chunk_text(None, model, text.clone()), None);
    assert_eq!(
        service.chunk_text(Some("Doc: ".to_string()), ModelType::Chat(ChatModel::Gpt4oMini), text),
        None
    );
}

#[test]
fn text_with_long_gaps_within_the_limit_is_cut() {
    let service = IntelligenceService::new();
    let model = ModelType::Embedding(EmbeddingModel::TextEmbedding3Large);
    let text = format!("first{}second", "\t".repeat(2_000));
    let chunks = service.chunk_text(None, model, text).unwrap();
    assert!(!chunks.is_empty());
    assert!(chunks.first().unwrap().starts_with("first"));
    assert!(chunks.last().unwrap().ends_with("second"));
}

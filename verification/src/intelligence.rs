//! The language models that texts are prepared for, and the splitting of
//! a text into chunks that fit a model's input.

use vstd::prelude::*;
use crate::text::{longest_whitespace_run, views, whitespace_run};

verus! {

/// The embedding models.
#[derive(Debug, Clone, Copy, PartialEq, Eq, Structural)]
pub enum EmbeddingModel {
    TextEmbedding3Large,
}

/// The chat models.
#[derive(Debug, Clone, Copy, PartialEq, Eq, Structural)]
pub enum ChatModel {
    Gpt4oMini,
}

/// A model of either sort.
#[derive(Debug, Clone, Copy, PartialEq, Eq, Structural)]
pub enum ModelType {
    Embedding(EmbeddingModel),
    Chat(ChatModel),
}

/// The name by which the service knows a model.
pub open spec fn model_name(model: ModelType) -> Seq<char> {
    match model {
        ModelType::Embedding(EmbeddingModel::TextEmbedding3Large) => "text-embedding-3-large"@,
        ModelType::Chat(ChatModel::Gpt4oMini) => "gpt-4o-mini"@,
    }
}

impl EmbeddingModel {
    pub fn as_str(&self) -> (r: &'static str)
        ensures
            r@ == model_name(ModelType::Embedding(*self)),
    {
        match self {
            EmbeddingModel::TextEmbedding3Large => "text-embedding-3-large",
        }
    }
}

impl ChatModel {
    pub fn as_str(&self) -> (r: &'static str)
        ensures
            r@ == model_name(ModelType::Chat(*self)),
    {
        match self {
            ChatModel::Gpt4oMini => "gpt-4o-mini",
        }
    }
}

impl ModelType {
    pub fn as_str(&self) -> (r: &'static str)
        ensures
            r@ == model_name(*self),
    {
        match self {
            ModelType::Embedding(model) => model.as_str(),
            ModelType::Chat(model) => model.as_str(),
        }
    }
}

/// The number of tokens into which the `cl100k_base` encoding splits a
/// text, special tokens allowed; `None` where the encoding cannot be
/// loaded or the text cannot be split.
pub uninterp spec fn cl100k_token_count(text: Seq<char>) -> Option<nat>;

/// The number of tokens into which the `o200k_base` encoding splits a
/// text, special tokens allowed; `None` where the encoding cannot be
/// loaded or the text cannot be split.
pub uninterp spec fn o200k_token_count(text: Seq<char>) -> Option<nat>;

/// The chunks into which `TextSplitter` cuts a text, sized by the
/// `cl100k_base` encoding to at most `capacity` tokens each; `None` where
/// the encoding cannot be loaded.
pub uninterp spec fn cl100k_chunks(capacity: nat, text: Seq<char>) -> Option<Seq<Seq<char>>>;

/// The chunks into which `TextSplitter` cuts a text, sized by the
/// `o200k_base` encoding to at most `capacity` tokens each; `None` where
/// the encoding cannot be loaded.
pub uninterp spec fn o200k_chunks(capacity: nat, text: Seq<char>) -> Option<Seq<Seq<char>>>;

/// `tiktoken_rs::cl100k_base`, `CoreBPE::special_tokens` and
/// `CoreBPE::encode`: the number of tokens of a text.
#[verifier::external_body]
fn count_cl100k(text: &str) -> (r: Option<usize>)
    ensures
        match r {
            Some(n) => cl100k_token_count(text@) == Some(n as nat),
            None => cl100k_token_count(text@) is None,
        },
{
    let bpe = tiktoken_rs::cl100k_base().ok()?;
    Some(bpe.encode(text, &bpe.special_tokens()).ok()?.0.len())
}

/// `tiktoken_rs::o200k_base`, `CoreBPE::special_tokens` and
/// `CoreBPE::encode`: the number of tokens of a text.
#[verifier::external_body]
fn count_o200k(text: &str) -> (r: Option<usize>)
    ensures
        match r {
            Some(n) => o200k_token_count(text@) == Some(n as nat),
            None => o200k_token_count(text@) is None,
        },
{
    let bpe = tiktoken_rs::o200k_base().ok()?;
    Some(bpe.encode(text, &bpe.special_tokens()).ok()?.0.len())
}

/// `tiktoken_rs::cl100k_base`, `ChunkConfig::new` with `with_sizer`,
/// `TextSplitter::new` and `TextSplitter::chunks`: the chunks of a text,
/// for a capacity of at least one token and a text whose runs of
/// whitespace the tokenizer's matcher can take.
#[verifier::external_body]
fn split_cl100k(capacity: usize, text: &str) -> (r: Option<Vec<String>>)
    requires
        capacity > 0,
        longest_whitespace_run(text@) <= whitespace_limit(),
    ensures
        match r {
            Some(chunks) => cl100k_chunks(capacity as nat, text@) == Some(views(chunks@)),
            None => cl100k_chunks(capacity as nat, text@) is None,
        },
{
    let bpe = tiktoken_rs::cl100k_base().ok()?;
    let config = text_splitter::ChunkConfig::new(capacity).with_sizer(bpe);
    let splitter = text_splitter::TextSplitter::new(config);
    Some(splitter.chunks(text).map(String::from).collect())
}

/// `tiktoken_rs::o200k_base`, `ChunkConfig::new` with `with_sizer`,
/// `TextSplitter::new` and `TextSplitter::chunks`: the chunks of a text,
/// for a capacity of at least one token and a text whose runs of
/// whitespace the tokenizer's matcher can take.
#[verifier::external_body]
fn split_o200k(capacity: usize, text: &str) -> (r: Option<Vec<String>>)
    requires
        capacity > 0,
        longest_whitespace_run(text@) <= whitespace_limit(),
    ensures
        match r {
            Some(chunks) => o200k_chunks(capacity as nat, text@) == Some(views(chunks@)),
            None => o200k_chunks(capacity as nat, text@) is None,
        },
{
    let bpe = tiktoken_rs::o200k_base().ok()?;
    let config = text_splitter::ChunkConfig::new(capacity).with_sizer(bpe);
    let splitter = text_splitter::TextSplitter::new(config);
    Some(splitter.chunks(text).map(String::from).collect())
}

/// The number of tokens of a text for a model: embedding models count by
/// `cl100k_base`, chat models by `o200k_base`.
pub open spec fn token_count(model: ModelType, text: Seq<char>) -> Option<nat> {
    match model {
        ModelType::Embedding(_) => cl100k_token_count(text),
        ModelType::Chat(_) => o200k_token_count(text),
    }
}

/// The chunks of a text for a model.
pub open spec fn model_chunks(model: ModelType, capacity: nat, text: Seq<char>) -> Option<
    Seq<Seq<char>>,
> {
    match model {
        ModelType::Embedding(_) => cl100k_chunks(capacity, text),
        ModelType::Chat(_) => o200k_chunks(capacity, text),
    }
}

/// Each chunk with the prefix before it.
pub open spec fn prefixed(prefix: Seq<char>, chunks: Seq<Seq<char>>) -> Seq<Seq<char>> {
    Seq::new(chunks.len(), |i: int| prefix + chunks[i])
}

/// The limits that the service works within.
pub struct IntelligenceService {
    embedding_model: EmbeddingModel,
    chat_model: ChatModel,
    max_chat_tokens: usize,
    max_embedding_tokens: usize,
    embedding_dimension: usize,
}

/// The most tokens that a model takes as input.
pub open spec fn token_limit(model: ModelType) -> nat {
    match model {
        ModelType::Embedding(_) => 8191,
        ModelType::Chat(_) => 124000,
    }
}

/// The longest run of whitespace that a text may hold to be cut into
/// chunks. The tokenizer's matcher keeps one entry for each character of
/// such a run on a stack of a million entries, and gives up after a
/// million steps back; half of that is let pass.
pub open spec fn whitespace_limit() -> nat {
    500_000
}

/// The chunks that a text is sent in: cut so that each chunk, with the
/// prefix before it, stays within the model's limit. `None` where the
/// text holds a run of whitespace beyond the limit, where the prefix
/// leaves no room below the model's limit, or where the tokenizer is not
/// to be had.
pub open spec fn chunked(model: ModelType, prefix: Option<Seq<char>>, text: Seq<char>) -> Option<
    Seq<Seq<char>>,
> {
    if longest_whitespace_run(text) > whitespace_limit() {
        None
    } else {
        chunked_within(model, prefix, text)
    }
}

/// The chunks of a text whose runs of whitespace are within the limit.
pub open spec fn chunked_within(model: ModelType, prefix: Option<Seq<char>>, text: Seq<char>)
    -> Option<Seq<Seq<char>>> {
    match prefix {
        None => model_chunks(model, token_limit(model), text),
        Some(p) => match token_count(model, p) {
            None => None,
            Some(used) => if used >= token_limit(model) {
                None
            } else {
                match model_chunks(model, (token_limit(model) - used) as nat, text) {
                    None => None,
                    Some(chunks) => Some(prefixed(p, chunks)),
                }
            },
        },
    }
}

impl IntelligenceService {
    /// The service with its usual models and limits.
    pub fn new() -> (r: IntelligenceService)
        ensures
            r.embedding_dimension() == 2000,
    {
        IntelligenceService {
            embedding_model: EmbeddingModel::TextEmbedding3Large,
            chat_model: ChatModel::Gpt4oMini,
            max_chat_tokens: 124000,
            max_embedding_tokens: 8191,
            embedding_dimension: 2000,
        }
    }

    /// The number of dimensions of the embeddings that the service asks
    /// for.
    pub closed spec fn embedding_dimension(&self) -> nat {
        self.embedding_dimension as nat
    }

    /// The number of dimensions of the embeddings that the service asks
    /// for.
    pub fn dimension(&self) -> (r: usize)
        ensures
            r == self.embedding_dimension(),
    {
        self.embedding_dimension
    }

    /// Cuts a text into the chunks that it is sent in, each with the
    /// prefix before it.
    pub fn chunk_text(&self, prefix: Option<String>, model_type: ModelType, text: String) -> (r:
        Option<Vec<String>>)
        ensures
            match r {
                Some(chunks) => chunked(
                    model_type,
                    match prefix {
                        Some(p) => Some(p@),
                        None => None,
                    },
                    text@,
                ) == Some(views(chunks@)),
                None => chunked(
                    model_type,
                    match prefix {
                        Some(p) => Some(p@),
                        None => None,
                    },
                    text@,
                ) is None,
            },
    {
        if whitespace_run(text.as_str()) > 500_000 {
            return None;
        }
        let limit: usize = match model_type {
            ModelType::Embedding(_) => 8191,
            ModelType::Chat(_) => 124000,
        };
        let used: usize = match &prefix {
            Some(p) => {
                let counted = match model_type {
                    ModelType::Embedding(_) => count_cl100k(p.as_str()),
                    ModelType::Chat(_) => count_o200k(p.as_str()),
                };
                match counted {
                    Some(n) => n,
                    None => {
                        return None;
                    },
                }
            },
            None => 0,
        };
        if used >= limit {
            return None;
        }
        let split = match model_type {
            ModelType::Embedding(_) => split_cl100k(limit - used, text.as_str()),
            ModelType::Chat(_) => split_o200k(limit - used, text.as_str()),
        };
        let chunks = match split {
            Some(chunks) => chunks,
            None => {
                return None;
            },
        };
        match prefix {
            None => Some(chunks),
            Some(p) => {
                let mut out: Vec<String> = Vec::new();
                let mut i: usize = 0;
                while i < chunks.len()
                    invariant
                        i <= chunks@.len(),
                        out@.len() == i,
                        forall|j: int| 0 <= j < i ==> (#[trigger] out@[j])@ == p@ + chunks@[j]@,
                    decreases chunks@.len() - i,
                {
                    out.push(crate::text::concat2(p.as_str(), chunks[i].as_str()));
                    i += 1;
                }
                assert(views(out@) =~= prefixed(p@, views(chunks@)));
                Some(out)
            },
        }
    }
}

} // verus!

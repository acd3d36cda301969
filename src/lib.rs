//! Client-side model of a Korean morphological-analysis service: connection
//! resolution, the mapping of remote status codes to a closed error set, the
//! analysis result trees with their read-only queries, the requests sent for
//! a phrase, and a local custom-dictionary accumulator.

mod connection;
mod custom_dict;
mod error;
mod morph;
mod request;
mod tagger;
mod text;
mod tokenizer;

pub use crate::connection::{
    is_canonical_host, lemma_default_transport_of_hosts, resolve_port, select_port,
    ConnectionDescriptor, API_KEY_HEADER,
    CANONICAL_HOST, PLAIN_PORT, TLS_PORT,
};
pub use crate::custom_dict::{
    build_dict_set, lemma_dict_words_order_free, lemma_update_then_load, parse_dict_lines,
    pb_map_to_set, CustomDict, CustomDictionary, DictSet, DictType, NO_CONNECTION_MESSAGE,
};
pub use crate::error::{map_status, BareunError, NO_SERVER_MESSAGE};
pub use crate::morph::{OutOfVocab, Tag};
pub use crate::request::{
    join_with_newlines, lemma_empty_phrase_gives_empty_queries,
    lemma_empty_phrase_gives_no_segments, plan_tag, plan_taglist, plan_tags, plan_tokenize,
    plan_tokenize_list, AnalyzeListRequest, AnalyzeRequest, TagListStep, TagStep,
    TokenizeRequest, TokenizeStep, EncodingType, LANGUAGE,
};
pub use crate::tagger::{
    lemma_nouns_within_morphs, lemma_pos_flatten_law, lemma_tagged_nouns_within_morphs,
    AnalyzeSyntaxResponse, Morpheme, Probability, Sentence, Tagged, TextSpan, Token,
};
pub use crate::tokenizer::{
    SegResult, Segment, SegmentSentence, SegmentToken, TokenizeResponse, Tokenized,
};

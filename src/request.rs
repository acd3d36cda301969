use vstd::prelude::*;
use vstd::string::StringExecFns;

use crate::tagger::{
    morph_texts, noun_texts, pos_texts, verb_texts, AnalyzeSyntaxResponse, Tagged,
};
use crate::text::{copy_str, strs};
use crate::tokenizer::{segment_texts, seg_texts, TokenizeResponse, Tokenized};

verus! {

/// The language every request names.
pub const LANGUAGE: &'static str = "ko_KR";

/// The unit in which the service counts the offsets of the spans it
/// returns. Every request names `Utf32`: offsets count characters.
#[derive(Clone, Copy, Debug, PartialEq, Eq, Structural)]
pub enum EncodingType {
    Unspecified,
    Utf8,
    Utf16,
    Utf32,
}

/// What an analysis call sends for one text.
#[derive(Debug)]
pub struct AnalyzeRequest {
    pub content: String,
    pub language: String,
    pub encoding_type: EncodingType,
    pub auto_split_sentence: bool,
    pub auto_spacing: bool,
    pub auto_jointing: bool,
    pub custom_dict_names: Vec<String>,
}

/// What an analysis call sends for a list of sentences, kept apart.
#[derive(Debug)]
pub struct AnalyzeListRequest {
    pub sentences: Vec<String>,
    pub language: String,
    pub encoding_type: EncodingType,
    pub auto_spacing: bool,
    pub auto_jointing: bool,
    pub custom_dict_names: Vec<String>,
}

/// What a segmentation call sends.
#[derive(Debug)]
pub struct TokenizeRequest {
    pub content: String,
    pub language: String,
    pub encoding_type: EncodingType,
    pub auto_split_sentence: bool,
    pub auto_spacing: bool,
}

/// The next step of an analysis: the answer is known without asking the
/// service, or this request is to be sent.
#[derive(Debug)]
pub enum TagStep {
    Done(Tagged),
    Send(AnalyzeRequest),
}

#[derive(Debug)]
pub enum TagListStep {
    Done(Tagged),
    Send(AnalyzeListRequest),
}

#[derive(Debug)]
pub enum TokenizeStep {
    Done(Tokenized),
    Send(TokenizeRequest),
}

/// The lines of `parts` joined by newlines.
pub open spec fn join_lines(parts: Seq<Seq<char>>) -> Seq<char>
    decreases parts.len(),
{
    if parts.len() == 0 {
        Seq::empty()
    } else if parts.len() == 1 {
        parts[0]
    } else {
        join_lines(parts.drop_last()) + "\n"@ + parts.last()
    }
}

/// `parts` joined by newlines.
pub fn join_with_newlines(parts: &Vec<String>) -> (r: String)
    ensures
        r@ == join_lines(strs(parts@)),
{
    let mut r = String::new();
    let mut i: usize = 0;
    while i < parts.len()
        invariant
            i <= parts.len(),
            r@ == join_lines(strs(parts@.take(i as int))),
        decreases parts.len() - i,
    {
        if i > 0 {
            r.append("\n");
        }
        r.append(parts[i].as_str());
        assert(strs(parts@.take(i + 1)).drop_last() =~= strs(parts@.take(i as int)));
        assert(strs(parts@.take(i + 1)).last() == parts@[i as int]@);
        i += 1;
    }
    assert(parts@.take(parts@.len() as int) =~= parts@);
    r
}

fn copy_names(names: &Vec<String>) -> (r: Vec<String>)
    ensures
        r@ == names@,
{
    let r = names.clone();
    assert(r@ =~= names@);
    r
}

/// Whether `t` is the empty result: no phrase and no sentence.
pub open spec fn is_empty_tagged(t: Tagged) -> bool {
    t.phrase().len() == 0 && t.response().sentences@.len() == 0
}

/// Decides how to analyze `phrase`: an empty phrase gives the empty result
/// at once, any other is sent with the given options.
pub fn plan_tag(
    phrase: &str,
    custom_dicts: &Vec<String>,
    auto_split: bool,
    auto_spacing: bool,
    auto_jointing: bool,
) -> (r: TagStep)
    ensures
        phrase@.len() == 0 <==> r is Done,
        r matches TagStep::Done(t) ==> is_empty_tagged(t),
        r matches TagStep::Send(q) ==> (q.content@ == phrase@ && q.language@ == LANGUAGE@ && q.encoding_type == EncodingType::Utf32
            && q.auto_split_sentence == auto_split && q.auto_spacing == auto_spacing
            && q.auto_jointing == auto_jointing && q.custom_dict_names@ == custom_dicts@),
{
    if phrase.is_empty() {
        TagStep::Done(Tagged::new(String::new(), AnalyzeSyntaxResponse::empty()))
    } else {
        TagStep::Send(
            AnalyzeRequest {
                content: copy_str(phrase),
                language: copy_str(LANGUAGE),
                encoding_type: EncodingType::Utf32,
                auto_split_sentence: auto_split,
                auto_spacing,
                auto_jointing,
                custom_dict_names: copy_names(custom_dicts),
            },
        )
    }
}

/// Decides how to analyze several phrases as one text, joined by
/// newlines: no phrase gives the empty result at once.
pub fn plan_tags(
    phrases: &Vec<String>,
    custom_dicts: &Vec<String>,
    auto_split: bool,
    auto_spacing: bool,
    auto_jointing: bool,
) -> (r: TagStep)
    ensures
        phrases@.len() == 0 <==> r is Done,
        r matches TagStep::Done(t) ==> is_empty_tagged(t),
        r matches TagStep::Send(q) ==> (q.content@ == join_lines(strs(phrases@)) && q.language@
            == LANGUAGE@ && q.encoding_type == EncodingType::Utf32 && q.auto_split_sentence == auto_split && q.auto_spacing == auto_spacing
            && q.auto_jointing == auto_jointing && q.custom_dict_names@ == custom_dicts@),
{
    if phrases.len() == 0 {
        TagStep::Done(Tagged::new(String::new(), AnalyzeSyntaxResponse::empty()))
    } else {
        TagStep::Send(
            AnalyzeRequest {
                content: join_with_newlines(phrases),
                language: copy_str(LANGUAGE),
                encoding_type: EncodingType::Utf32,
                auto_split_sentence: auto_split,
                auto_spacing,
                auto_jointing,
                custom_dict_names: copy_names(custom_dicts),
            },
        )
    }
}

/// Decides how to analyze sentences that are to stay apart: no sentence
/// gives the empty result at once.
pub fn plan_taglist(
    phrases: &Vec<String>,
    custom_dicts: &Vec<String>,
    auto_spacing: bool,
    auto_jointing: bool,
) -> (r: TagListStep)
    ensures
        phrases@.len() == 0 <==> r is Done,
        r matches TagListStep::Done(t) ==> is_empty_tagged(t),
        r matches TagListStep::Send(q) ==> (q.sentences@ == phrases@ && q.language@ == LANGUAGE@ && q.encoding_type == EncodingType::Utf32
            && q.auto_spacing == auto_spacing && q.auto_jointing == auto_jointing
            && q.custom_dict_names@ == custom_dicts@),
{
    if phrases.len() == 0 {
        TagListStep::Done(Tagged::new(String::new(), AnalyzeSyntaxResponse::empty()))
    } else {
        TagListStep::Send(
            AnalyzeListRequest {
                sentences: copy_names(phrases),
                language: copy_str(LANGUAGE),
                encoding_type: EncodingType::Utf32,
                auto_spacing,
                auto_jointing,
                custom_dict_names: copy_names(custom_dicts),
            },
        )
    }
}

/// Whether `t` is the empty segmentation: no phrase and no sentence.
pub open spec fn is_empty_tokenized(t: Tokenized) -> bool {
    t.phrase().len() == 0 && t.response().sentences@.len() == 0
}

/// Decides how to segment `phrase`: an empty phrase gives the empty result
/// at once, any other is sent.
pub fn plan_tokenize(phrase: &str, auto_split: bool) -> (r: TokenizeStep)
    ensures
        phrase@.len() == 0 <==> r is Done,
        r matches TokenizeStep::Done(t) ==> is_empty_tokenized(t),
        r matches TokenizeStep::Send(q) ==> (q.content@ == phrase@ && q.language@ == LANGUAGE@ && q.encoding_type == EncodingType::Utf32
            && q.auto_split_sentence == auto_split && !q.auto_spacing),
{
    if phrase.is_empty() {
        TokenizeStep::Done(Tokenized::new(String::new(), TokenizeResponse::empty()))
    } else {
        TokenizeStep::Send(
            TokenizeRequest {
                content: copy_str(phrase),
                language: copy_str(LANGUAGE),
                encoding_type: EncodingType::Utf32,
                auto_split_sentence: auto_split,
                auto_spacing: false,
            },
        )
    }
}

/// Decides how to segment several phrases as one text, joined by newlines:
/// no phrase gives the empty result at once.
pub fn plan_tokenize_list(phrases: &Vec<String>) -> (r: TokenizeStep)
    ensures
        phrases@.len() == 0 <==> r is Done,
        r matches TokenizeStep::Done(t) ==> is_empty_tokenized(t),
        r matches TokenizeStep::Send(q) ==> (q.content@ == join_lines(strs(phrases@))
            && q.language@ == LANGUAGE@ && q.encoding_type == EncodingType::Utf32 && !q.auto_split_sentence && !q.auto_spacing),
{
    if phrases.len() == 0 {
        TokenizeStep::Done(Tokenized::new(String::new(), TokenizeResponse::empty()))
    } else {
        TokenizeStep::Send(
            TokenizeRequest {
                content: join_with_newlines(phrases),
                language: copy_str(LANGUAGE),
                encoding_type: EncodingType::Utf32,
                auto_split_sentence: false,
                auto_spacing: false,
            },
        )
    }
}

/// An empty phrase, which is never sent, gives nothing to any query: no
/// morpheme, noun, verb or printed entry.
pub proof fn lemma_empty_phrase_gives_empty_queries(t: Tagged, join: bool, detail: bool)
    requires
        is_empty_tagged(t),
    ensures
        morph_texts(t.response().morphemes()).len() == 0,
        noun_texts(t.response().morphemes()).len() == 0,
        verb_texts(t.response().morphemes()).len() == 0,
        pos_texts(t.response().morphemes(), join, detail).len() == 0,
{
    reveal(Seq::filter);
    assert(t.response().morphemes() =~= Seq::empty());
}

/// An empty phrase, which is never sent, gives no segment.
pub proof fn lemma_empty_phrase_gives_no_segments(t: Tokenized, join: bool, detail: bool)
    requires
        is_empty_tokenized(t),
    ensures
        segment_texts(t.response().segments()).len() == 0,
        seg_texts(t.response().segments(), join, detail).len() == 0,
{
    assert(t.response().segments() =~= Seq::empty());
}

} // verus!

use vstd::prelude::*;
use vstd::string::StringExecFns;

use crate::morph::{OutOfVocab, Tag};
use crate::text::{concat, lemma_strs_push, strs};

verus! {

/// A piece of the analyzed text and where it begins.
#[derive(Debug)]
pub struct TextSpan {
    pub content: String,
    pub begin_offset: i32,
}

/// The confidence of a morpheme, as the forms in which it is printed:
/// `plain` is the number written out in full, `rounded` with three
/// decimals, and `positive` tells whether it is above zero (an absent
/// value counts as zero).
#[derive(Debug)]
pub struct Probability {
    pub positive: bool,
    pub plain: String,
    pub rounded: String,
}

/// The smallest tagged unit of the analysis.
#[derive(Debug)]
pub struct Morpheme {
    pub text: TextSpan,
    pub tag: Tag,
    pub probability: Probability,
    pub out_of_vocab: OutOfVocab,
}

/// A word of a sentence and the morphemes it is made of.
#[derive(Debug)]
pub struct Token {
    pub text: TextSpan,
    pub morphemes: Vec<Morpheme>,
    pub lemma: String,
    pub tagged: String,
}

#[derive(Debug)]
pub struct Sentence {
    pub text: TextSpan,
    pub tokens: Vec<Token>,
}

/// The analysis of a whole phrase: its sentences in order.
#[derive(Debug)]
pub struct AnalyzeSyntaxResponse {
    pub sentences: Vec<Sentence>,
    pub language: String,
}

impl Clone for TextSpan {
    fn clone(&self) -> (r: Self)
        ensures
            r == *self,
    {
        TextSpan { content: self.content.clone(), begin_offset: self.begin_offset }
    }
}

impl Clone for Probability {
    fn clone(&self) -> (r: Self)
        ensures
            r == *self,
    {
        Probability {
            positive: self.positive,
            plain: self.plain.clone(),
            rounded: self.rounded.clone(),
        }
    }
}

impl Clone for Morpheme {
    fn clone(&self) -> (r: Self)
        ensures
            r == *self,
    {
        Morpheme {
            text: self.text.clone(),
            tag: self.tag,
            probability: self.probability.clone(),
            out_of_vocab: self.out_of_vocab,
        }
    }
}

impl Token {
    /// Equal field by field, the morphemes compared as sequences.
    pub open spec fn same_as(self, o: Token) -> bool {
        &&& self.text == o.text
        &&& self.morphemes@ == o.morphemes@
        &&& self.lemma == o.lemma
        &&& self.tagged == o.tagged
    }
}

impl Sentence {
    /// Equal field by field, each token by `same_as`.
    pub open spec fn same_as(self, o: Sentence) -> bool {
        &&& self.text == o.text
        &&& self.tokens@.len() == o.tokens@.len()
        &&& forall|i: int| 0 <= i < self.tokens@.len() ==> #[trigger] self.tokens@[i].same_as(o.tokens@[i])
    }
}

impl Clone for Token {
    fn clone(&self) -> (r: Self)
        ensures
            r.same_as(*self),
    {
        let morphemes = self.morphemes.clone();
        assert(morphemes@ =~= self.morphemes@);
        Token {
            text: self.text.clone(),
            morphemes,
            lemma: self.lemma.clone(),
            tagged: self.tagged.clone(),
        }
    }
}

impl Clone for Sentence {
    fn clone(&self) -> (r: Self)
        ensures
            r.same_as(*self),
    {
        let tokens = self.tokens.clone();
        Sentence { text: self.text.clone(), tokens }
    }
}

/// The morphemes of a run of tokens, in order.
pub open spec fn token_morphemes(ts: Seq<Token>) -> Seq<Morpheme>
    decreases ts.len(),
{
    if ts.len() == 0 {
        Seq::empty()
    } else {
        token_morphemes(ts.drop_last()) + ts.last().morphemes@
    }
}

/// The morphemes of a run of sentences, in document order.
pub open spec fn sentence_morphemes(ss: Seq<Sentence>) -> Seq<Morpheme>
    decreases ss.len(),
{
    if ss.len() == 0 {
        Seq::empty()
    } else {
        sentence_morphemes(ss.drop_last()) + token_morphemes(ss.last().tokens@)
    }
}

impl AnalyzeSyntaxResponse {
    /// The empty tree, with no sentence.
    pub fn empty() -> (r: AnalyzeSyntaxResponse)
        ensures
            r.sentences@.len() == 0,
            r.language@.len() == 0,
    {
        AnalyzeSyntaxResponse { sentences: Vec::new(), language: String::new() }
    }

    /// Every morpheme of the tree, in document order.
    pub open spec fn morphemes(self) -> Seq<Morpheme> {
        sentence_morphemes(self.sentences@)
    }
}

/// How one morpheme is printed, chosen by `join` and `detail`.
pub open spec fn pos_text(m: Morpheme, join: bool, detail: bool) -> Seq<char> {
    let text = m.text.content@;
    let tag = m.tag.spec_name();
    if join {
        if detail {
            let p = if m.probability.positive {
                ":"@ + m.probability.rounded@
            } else {
                Seq::empty()
            };
            let oov = if m.out_of_vocab != OutOfVocab::InWordEmbedding {
                "#"@ + m.out_of_vocab.spec_name()
            } else {
                Seq::empty()
            };
            text + "/"@ + tag + p + oov
        } else {
            text + "/"@ + tag
        }
    } else if detail {
        text + "\t"@ + tag + "\t"@ + m.out_of_vocab.spec_name() + "\t"@ + m.probability.plain@
    } else {
        text + "\t"@ + tag
    }
}

pub open spec fn pos_texts(ms: Seq<Morpheme>, join: bool, detail: bool) -> Seq<Seq<char>> {
    ms.map_values(|m: Morpheme| pos_text(m, join, detail))
}

pub open spec fn morph_text(m: Morpheme) -> Seq<char> {
    m.text.content@
}

pub open spec fn morph_texts(ms: Seq<Morpheme>) -> Seq<Seq<char>> {
    ms.map_values(|m: Morpheme| morph_text(m))
}

pub open spec fn noun_texts(ms: Seq<Morpheme>) -> Seq<Seq<char>> {
    morph_texts(ms.filter(|m: Morpheme| m.tag.is_noun()))
}

pub open spec fn verb_texts(ms: Seq<Morpheme>) -> Seq<Seq<char>> {
    morph_texts(ms.filter(|m: Morpheme| m.tag == Tag::Vv))
}

/// What a walk over the morphemes keeps of each.
#[derive(Clone, Copy)]
enum Pick {
    All,
    Nouns,
    Verbs,
    Pos(bool, bool),
}

spec fn picks(p: Pick, m: Morpheme) -> Option<Seq<char>> {
    match p {
        Pick::All => Some(morph_text(m)),
        Pick::Nouns => if m.tag.is_noun() {
            Some(morph_text(m))
        } else {
            None
        },
        Pick::Verbs => if m.tag == Tag::Vv {
            Some(morph_text(m))
        } else {
            None
        },
        Pick::Pos(join, detail) => Some(pos_text(m, join, detail)),
    }
}

spec fn select(ms: Seq<Morpheme>, p: Pick) -> Seq<Seq<char>>
    decreases ms.len(),
{
    if ms.len() == 0 {
        Seq::empty()
    } else {
        let rest = select(ms.drop_last(), p);
        match picks(p, ms.last()) {
            Some(t) => rest.push(t),
            None => rest,
        }
    }
}

proof fn lemma_select_all(ms: Seq<Morpheme>)
    ensures
        select(ms, Pick::All) == morph_texts(ms),
    decreases ms.len(),
{
    if ms.len() > 0 {
        lemma_select_all(ms.drop_last());
        assert(morph_texts(ms) =~= morph_texts(ms.drop_last()).push(morph_text(ms.last())));
    } else {
        assert(morph_texts(ms) =~= Seq::empty());
    }
}

proof fn lemma_select_pos(ms: Seq<Morpheme>, join: bool, detail: bool)
    ensures
        select(ms, Pick::Pos(join, detail)) == pos_texts(ms, join, detail),
    decreases ms.len(),
{
    if ms.len() > 0 {
        lemma_select_pos(ms.drop_last(), join, detail);
        assert(pos_texts(ms, join, detail) =~= pos_texts(ms.drop_last(), join, detail).push(
            pos_text(ms.last(), join, detail),
        ));
    } else {
        assert(pos_texts(ms, join, detail) =~= Seq::empty());
    }
}

proof fn lemma_select_filter(ms: Seq<Morpheme>, p: Pick, keep: spec_fn(Morpheme) -> bool)
    requires
        p == Pick::Nouns || p == Pick::Verbs,
        forall|m: Morpheme| #[trigger] keep(m) == (picks(p, m) is Some),
    ensures
        select(ms, p) == morph_texts(ms.filter(keep)),
    decreases ms.len(),
{
    reveal(Seq::filter);
    if ms.len() > 0 {
        lemma_select_filter(ms.drop_last(), p, keep);
        let rest = ms.drop_last().filter(keep);
        if keep(ms.last()) {
            assert(morph_texts(rest.push(ms.last())) =~= morph_texts(rest).push(
                morph_text(ms.last()),
            ));
        }
    } else {
        assert(morph_texts(ms.filter(keep)) =~= Seq::empty());
    }
}

fn pick_one(m: &Morpheme, p: Pick) -> (r: Option<String>)
    ensures
        r is Some <==> picks(p, *m) is Some,
        r is Some ==> r->0@ == picks(p, *m)->0,
{
    match p {
        Pick::All => Some(m.text.content.clone()),
        Pick::Nouns => {
            let t = m.tag;
            if t == Tag::Nnp || t == Tag::Nng || t == Tag::Np || t == Tag::Nnb {
                Some(m.text.content.clone())
            } else {
                None
            }
        },
        Pick::Verbs => {
            if m.tag == Tag::Vv {
                Some(m.text.content.clone())
            } else {
                None
            }
        },
        Pick::Pos(join, detail) => Some(render_pos(m, join, detail)),
    }
}

/// Prints one morpheme in the form chosen by `join` and `detail`.
fn render_pos(m: &Morpheme, join: bool, detail: bool) -> (r: String)
    ensures
        r@ == pos_text(*m, join, detail),
{
    let mut r = m.text.content.clone();
    if join {
        r.append("/");
        r.append(m.tag.name());
        if detail {
            if m.probability.positive {
                r.append(":");
                r.append(m.probability.rounded.as_str());
            }
            if m.out_of_vocab != OutOfVocab::InWordEmbedding {
                r.append("#");
                r.append(m.out_of_vocab.name());
            }
        }
    } else {
        r.append("\t");
        r.append(m.tag.name());
        if detail {
            r.append("\t");
            r.append(m.out_of_vocab.name());
            r.append("\t");
            r.append(m.probability.plain.as_str());
        }
    }
    proof {
        let text = m.text.content@;
        let tag = m.tag.spec_name();
        if join && detail {
            let p = if m.probability.positive {
                ":"@ + m.probability.rounded@
            } else {
                Seq::empty()
            };
            let oov = if m.out_of_vocab != OutOfVocab::InWordEmbedding {
                "#"@ + m.out_of_vocab.spec_name()
            } else {
                Seq::empty()
            };
            assert(r@ =~= text + "/"@ + tag + p + oov);
        } else if !join && detail {
            assert(r@ =~= text + "\t"@ + tag + "\t"@ + m.out_of_vocab.spec_name() + "\t"@
                + m.probability.plain@);
        } else if join {
            assert(r@ =~= text + "/"@ + tag);
        } else {
            assert(r@ =~= text + "\t"@ + tag);
        }
    }
    r
}

/// Appends what `p` keeps of the morphemes of `ts` to `out`, which holds
/// what it kept of `prefix`.
fn gather_tokens(
    ts: &Vec<Token>,
    p: Pick,
    out: &mut Vec<String>,
    Ghost(prefix): Ghost<Seq<Morpheme>>,
)
    requires
        strs(old(out)@) == select(prefix, p),
    ensures
        strs(final(out)@) == select(prefix + token_morphemes(ts@), p),
{
    let mut j: usize = 0;
    assert(prefix + token_morphemes(ts@.take(0)) =~= prefix);
    while j < ts.len()
        invariant
            j <= ts.len(),
            strs(out@) == select(prefix + token_morphemes(ts@.take(j as int)), p),
        decreases ts.len() - j,
    {
        let ms = &ts[j].morphemes;
        let ghost before = prefix + token_morphemes(ts@.take(j as int));
        let mut k: usize = 0;
        assert(before + ms@.take(0) =~= before);
        while k < ms.len()
            invariant
                k <= ms.len(),
                strs(out@) == select(before + ms@.take(k as int), p),
            decreases ms.len() - k,
        {
            let ghost old_out = out@;
            let picked = pick_one(&ms[k], p);
            proof {
                let next = before + ms@.take(k + 1);
                assert(next.drop_last() =~= before + ms@.take(k as int));
                assert(next.last() == ms@[k as int]);
            }
            match picked {
                Some(s) => {
                    proof {
                        lemma_strs_push(old_out, s);
                    }
                    out.push(s);
                },
                None => {},
            }
            k += 1;
        }
        proof {
            assert(ts@.take(j + 1).drop_last() =~= ts@.take(j as int));
            assert(ms@.take(ms@.len() as int) =~= ms@);
            assert(before + ms@ =~= prefix + token_morphemes(ts@.take(j + 1)));
        }
        j += 1;
    }
    assert(ts@.take(ts@.len() as int) =~= ts@);
}

/// What `p` keeps of every morpheme of `ss`, in order.
fn gather(ss: &Vec<Sentence>, p: Pick) -> (out: Vec<String>)
    ensures
        strs(out@) == select(sentence_morphemes(ss@), p),
{
    let mut out: Vec<String> = Vec::new();
    let mut i: usize = 0;
    assert(strs(out@) =~= Seq::empty());
    assert(ss@.take(0) =~= Seq::<Sentence>::empty());
    while i < ss.len()
        invariant
            i <= ss.len(),
            strs(out@) == select(sentence_morphemes(ss@.take(i as int)), p),
        decreases ss.len() - i,
    {
        gather_tokens(&ss[i].tokens, p, &mut out, Ghost(sentence_morphemes(ss@.take(i as int))));
        assert(ss@.take(i + 1).drop_last() =~= ss@.take(i as int));
        i += 1;
    }
    assert(ss@.take(ss@.len() as int) =~= ss@);
    out
}

/// The result of one analysis: the phrase that was sent and the tree that
/// came back. It is never changed after it is made.
#[derive(Debug)]
pub struct Tagged {
    phrase: String,
    r: AnalyzeSyntaxResponse,
}

/// The printed morphemes of each sentence of `ss`, sentence by sentence.
pub open spec fn nested_pos_texts(ss: Seq<Sentence>, join: bool, detail: bool) -> Seq<
    Seq<Seq<char>>,
> {
    ss.map_values(|s: Sentence| pos_texts(token_morphemes(s.tokens@), join, detail))
}

impl Tagged {
    pub closed spec fn phrase(&self) -> Seq<char> {
        self.phrase@
    }

    pub closed spec fn response(&self) -> AnalyzeSyntaxResponse {
        self.r
    }

    pub fn new(phrase: String, res: AnalyzeSyntaxResponse) -> (r: Tagged)
        ensures
            r.phrase() == phrase@,
            r.response() == res,
    {
        Tagged { phrase, r: res }
    }

    /// The tree as it came back.
    pub fn msg(&self) -> (r: &AnalyzeSyntaxResponse)
        ensures
            *r == self.response(),
    {
        &self.r
    }

    /// A copy of the sentences of the tree.
    pub fn sentences(&self) -> (r: Vec<Sentence>)
        ensures
            r@.len() == self.response().sentences@.len(),
            forall|i: int|
                0 <= i < r@.len() ==> #[trigger] r@[i].same_as(self.response().sentences@[i]),
    {
        self.r.sentences.clone()
    }

    /// Every morpheme printed as `join` and `detail` choose: in one list
    /// when `flatten` holds, else one list for each sentence.
    pub fn pos(&self, flatten: bool, join: bool, detail: bool) -> (r: Vec<Vec<String>>)
        ensures
            flatten ==> r@.len() == 1 && strs(r@[0]@) == pos_texts(
                self.response().morphemes(),
                join,
                detail,
            ),
            !flatten ==> r@.len() == self.response().sentences@.len() && forall|i: int|
                0 <= i < r@.len() ==> strs(#[trigger] r@[i]@) == nested_pos_texts(
                    self.response().sentences@,
                    join,
                    detail,
                )[i],
    {
        let ss = &self.r.sentences;
        if flatten {
            let flat = gather(ss, Pick::Pos(join, detail));
            proof {
                lemma_select_pos(self.r.morphemes(), join, detail);
            }
            let mut r: Vec<Vec<String>> = Vec::new();
            r.push(flat);
            r
        } else {
            let mut r: Vec<Vec<String>> = Vec::new();
            let mut i: usize = 0;
            while i < ss.len()
                invariant
                    i <= ss.len(),
                    r@.len() == i,
                    forall|k: int|
                        0 <= k < i ==> strs(#[trigger] r@[k]@) == nested_pos_texts(
                            ss@,
                            join,
                            detail,
                        )[k],
                decreases ss.len() - i,
            {
                let mut one: Vec<String> = Vec::new();
                assert(strs(one@) =~= select(Seq::empty(), Pick::Pos(join, detail)));
                gather_tokens(&ss[i].tokens, Pick::Pos(join, detail), &mut one, Ghost(Seq::empty()));
                proof {
                    let ms = token_morphemes(ss@[i as int].tokens@);
                    assert(Seq::<Morpheme>::empty() + ms =~= ms);
                    lemma_select_pos(ms, join, detail);
                }
                r.push(one);
                i += 1;
            }
            r
        }
    }

    /// The text of every morpheme, in document order.
    pub fn morphs(&self) -> (r: Vec<String>)
        ensures
            strs(r@) == morph_texts(self.response().morphemes()),
    {
        let r = gather(&self.r.sentences, Pick::All);
        proof {
            lemma_select_all(self.r.morphemes());
        }
        r
    }

    /// The text of every noun or pronoun, in document order.
    pub fn nouns(&self) -> (r: Vec<String>)
        ensures
            strs(r@) == noun_texts(self.response().morphemes()),
    {
        let r = gather(&self.r.sentences, Pick::Nouns);
        proof {
            lemma_select_filter(self.r.morphemes(), Pick::Nouns, |m: Morpheme| m.tag.is_noun());
        }
        r
    }

    /// The text of every verb, in document order; adjectives are not verbs.
    pub fn verbs(&self) -> (r: Vec<String>)
        ensures
            strs(r@) == verb_texts(self.response().morphemes()),
    {
        let r = gather(&self.r.sentences, Pick::Verbs);
        proof {
            lemma_select_filter(self.r.morphemes(), Pick::Verbs, |m: Morpheme| m.tag == Tag::Vv);
        }
        r
    }
}

proof fn lemma_pos_texts_add(a: Seq<Morpheme>, b: Seq<Morpheme>, join: bool, detail: bool)
    ensures
        pos_texts(a + b, join, detail) == pos_texts(a, join, detail) + pos_texts(b, join, detail),
{
    assert(pos_texts(a + b, join, detail) =~= pos_texts(a, join, detail) + pos_texts(
        b,
        join,
        detail,
    ));
}

/// The one flat list of printed morphemes is the lists of the sentences
/// put end to end.
pub proof fn lemma_flat_pos_is_nested_joined(ss: Seq<Sentence>, join: bool, detail: bool)
    ensures
        concat(nested_pos_texts(ss, join, detail)) == pos_texts(
            sentence_morphemes(ss),
            join,
            detail,
        ),
    decreases ss.len(),
{
    if ss.len() == 0 {
        assert(pos_texts(sentence_morphemes(ss), join, detail) =~= Seq::empty());
    } else {
        lemma_flat_pos_is_nested_joined(ss.drop_last(), join, detail);
        assert(nested_pos_texts(ss, join, detail).drop_last() =~= nested_pos_texts(
            ss.drop_last(),
            join,
            detail,
        ));
        lemma_pos_texts_add(
            sentence_morphemes(ss.drop_last()),
            token_morphemes(ss.last().tokens@),
            join,
            detail,
        );
    }
}

/// Of any analysis, `pos` with `flatten` gives the lists of `pos` without
/// it, put end to end.
pub proof fn lemma_pos_flatten_law(t: Tagged, join: bool, detail: bool)
    ensures
        concat(nested_pos_texts(t.response().sentences@, join, detail)) == pos_texts(
            t.response().morphemes(),
            join,
            detail,
        ),
{
    lemma_flat_pos_is_nested_joined(t.response().sentences@, join, detail);
}

/// Every noun of an analysis is one of its morphemes, counted with
/// multiplicity.
pub proof fn lemma_nouns_within_morphs(ms: Seq<Morpheme>)
    ensures
        noun_texts(ms).to_multiset().subset_of(morph_texts(ms).to_multiset()),
    decreases ms.len(),
{
    broadcast use vstd::seq_lib::group_to_multiset_ensures;

    reveal(Seq::filter);
    if ms.len() == 0 {
        assert(noun_texts(ms) =~= Seq::empty());
        assert(morph_texts(ms) =~= Seq::empty());
    } else {
        let rest = ms.drop_last();
        let x = ms.last();
        lemma_nouns_within_morphs(rest);
        let keep = |m: Morpheme| m.tag.is_noun();
        assert(morph_texts(ms) =~= morph_texts(rest).push(morph_text(x)));
        if x.tag.is_noun() {
            assert(ms.filter(keep) == rest.filter(keep).push(x));
            assert(noun_texts(ms) =~= noun_texts(rest).push(morph_text(x)));
        } else {
            assert(ms.filter(keep) == rest.filter(keep));
        }
    }
}

/// `nouns` of an analysis sits inside its `morphs`, as multisets.
pub proof fn lemma_tagged_nouns_within_morphs(t: Tagged)
    ensures
        noun_texts(t.response().morphemes()).to_multiset().subset_of(
            morph_texts(t.response().morphemes()).to_multiset(),
        ),
{
    lemma_nouns_within_morphs(t.response().morphemes());
}

} // verus!

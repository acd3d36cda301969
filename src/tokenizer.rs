use vstd::prelude::*;
use vstd::string::StringExecFns;

use crate::tagger::TextSpan;
use crate::text::{concat, copy_str, lemma_strs_push, strs};

verus! {

/// A unit of the segmentation, with its one-letter category: `N`
/// substantive, `V` predicate, `A` adverb, `M` prenoun, `J` postposition,
/// `I` interjection, `E` ending, `S` symbol.
#[derive(Debug)]
pub struct Segment {
    pub text: TextSpan,
    pub hint: String,
}

#[derive(Debug)]
pub struct SegmentToken {
    pub text: TextSpan,
    pub segments: Vec<Segment>,
    pub tagged: String,
}

#[derive(Debug)]
pub struct SegmentSentence {
    pub text: TextSpan,
    pub tokens: Vec<SegmentToken>,
}

/// The segmentation of a whole phrase: its sentences in order.
#[derive(Debug)]
pub struct TokenizeResponse {
    pub sentences: Vec<SegmentSentence>,
    pub language: String,
}

/// What `seg` gives: one list, or one list of words for each sentence.
#[derive(Debug)]
pub enum SegResult {
    Flat(Vec<String>),
    Nested(Vec<Vec<String>>),
}

impl Clone for Segment {
    fn clone(&self) -> (r: Self)
        ensures
            r == *self,
    {
        Segment { text: self.text.clone(), hint: self.hint.clone() }
    }
}

impl SegmentToken {
    pub open spec fn same_as(self, o: SegmentToken) -> bool {
        &&& self.text == o.text
        &&& self.segments@ == o.segments@
        &&& self.tagged == o.tagged
    }
}

impl SegmentSentence {
    pub open spec fn same_as(self, o: SegmentSentence) -> bool {
        &&& self.text == o.text
        &&& self.tokens@.len() == o.tokens@.len()
        &&& forall|i: int| 0 <= i < self.tokens@.len() ==> #[trigger] self.tokens@[i].same_as(o.tokens@[i])
    }
}

impl Clone for SegmentToken {
    fn clone(&self) -> (r: Self)
        ensures
            r.same_as(*self),
    {
        let segments = self.segments.clone();
        assert(segments@ =~= self.segments@);
        SegmentToken { text: self.text.clone(), segments, tagged: self.tagged.clone() }
    }
}

impl Clone for SegmentSentence {
    fn clone(&self) -> (r: Self)
        ensures
            r.same_as(*self),
    {
        SegmentSentence { text: self.text.clone(), tokens: self.tokens.clone() }
    }
}

impl TokenizeResponse {
    /// The empty tree, with no sentence.
    pub fn empty() -> (r: TokenizeResponse)
        ensures
            r.sentences@.len() == 0,
            r.language@.len() == 0,
    {
        TokenizeResponse { sentences: Vec::new(), language: String::new() }
    }

    /// Every segment of the tree, in document order.
    pub open spec fn segments(self) -> Seq<Segment> {
        sentence_segments(self.sentences@)
    }
}

pub open spec fn token_segments(ts: Seq<SegmentToken>) -> Seq<Segment>
    decreases ts.len(),
{
    if ts.len() == 0 {
        Seq::empty()
    } else {
        token_segments(ts.drop_last()) + ts.last().segments@
    }
}

pub open spec fn sentence_segments(ss: Seq<SegmentSentence>) -> Seq<Segment>
    decreases ss.len(),
{
    if ss.len() == 0 {
        Seq::empty()
    } else {
        sentence_segments(ss.drop_last()) + token_segments(ss.last().tokens@)
    }
}

/// How one segment is printed: with `join`, its text and category joined
/// by `/`; else, with `detail`, joined by `,`; else its text alone.
pub open spec fn seg_text(m: Segment, join: bool, detail: bool) -> Seq<char> {
    if join {
        m.text.content@ + "/"@ + m.hint@
    } else if detail {
        m.text.content@ + ","@ + m.hint@
    } else {
        m.text.content@
    }
}

pub open spec fn seg_texts(ms: Seq<Segment>, join: bool, detail: bool) -> Seq<Seq<char>> {
    ms.map_values(|m: Segment| seg_text(m, join, detail))
}

/// Each sentence as its words, a word printed as its segments run together.
pub open spec fn nested_seg_texts(ss: Seq<SegmentSentence>, join: bool, detail: bool) -> Seq<
    Seq<Seq<char>>,
> {
    ss.map_values(
        |s: SegmentSentence|
            s.tokens@.map_values(|t: SegmentToken| concat(seg_texts(t.segments@, join, detail))),
    )
}

pub open spec fn segment_texts(ms: Seq<Segment>) -> Seq<Seq<char>> {
    ms.map_values(|m: Segment| m.text.content@)
}

/// The text of the segments whose category is `code`, in order.
pub open spec fn hint_texts(ms: Seq<Segment>, code: Seq<char>) -> Seq<Seq<char>> {
    segment_texts(ms.filter(|m: Segment| m.hint@ == code))
}

#[derive(Clone, Copy)]
enum SegPick {
    All,
    Hint(&'static str),
    Seg(bool, bool),
}

spec fn seg_picks(p: SegPick, m: Segment) -> Option<Seq<char>> {
    match p {
        SegPick::All => Some(m.text.content@),
        SegPick::Hint(code) => if m.hint@ == code@ {
            Some(m.text.content@)
        } else {
            None
        },
        SegPick::Seg(join, detail) => Some(seg_text(m, join, detail)),
    }
}

spec fn seg_select(ms: Seq<Segment>, p: SegPick) -> Seq<Seq<char>>
    decreases ms.len(),
{
    if ms.len() == 0 {
        Seq::empty()
    } else {
        let rest = seg_select(ms.drop_last(), p);
        match seg_picks(p, ms.last()) {
            Some(t) => rest.push(t),
            None => rest,
        }
    }
}

proof fn lemma_seg_select_all(ms: Seq<Segment>)
    ensures
        seg_select(ms, SegPick::All) == segment_texts(ms),
    decreases ms.len(),
{
    if ms.len() > 0 {
        lemma_seg_select_all(ms.drop_last());
        assert(segment_texts(ms) =~= segment_texts(ms.drop_last()).push(ms.last().text.content@));
    } else {
        assert(segment_texts(ms) =~= Seq::empty());
    }
}

proof fn lemma_seg_select_seg(ms: Seq<Segment>, join: bool, detail: bool)
    ensures
        seg_select(ms, SegPick::Seg(join, detail)) == seg_texts(ms, join, detail),
    decreases ms.len(),
{
    if ms.len() > 0 {
        lemma_seg_select_seg(ms.drop_last(), join, detail);
        assert(seg_texts(ms, join, detail) =~= seg_texts(ms.drop_last(), join, detail).push(
            seg_text(ms.last(), join, detail),
        ));
    } else {
        assert(seg_texts(ms, join, detail) =~= Seq::empty());
    }
}

proof fn lemma_seg_select_hint(ms: Seq<Segment>, code: &'static str)
    ensures
        seg_select(ms, SegPick::Hint(code)) == hint_texts(ms, code@),
    decreases ms.len(),
{
    reveal(Seq::filter);
    let keep = |m: Segment| m.hint@ == code@;
    if ms.len() > 0 {
        lemma_seg_select_hint(ms.drop_last(), code);
        let rest = ms.drop_last().filter(keep);
        if keep(ms.last()) {
            assert(segment_texts(rest.push(ms.last())) =~= segment_texts(rest).push(
                ms.last().text.content@,
            ));
        }
    } else {
        assert(hint_texts(ms, code@) =~= Seq::empty());
    }
}

fn render_seg(m: &Segment, join: bool, detail: bool) -> (r: String)
    ensures
        r@ == seg_text(*m, join, detail),
{
    let mut r = m.text.content.clone();
    if join {
        r.append("/");
        r.append(m.hint.as_str());
    } else if detail {
        r.append(",");
        r.append(m.hint.as_str());
    }
    r
}

fn seg_pick_one(m: &Segment, p: SegPick) -> (r: Option<String>)
    ensures
        r is Some <==> seg_picks(p, *m) is Some,
        r is Some ==> r->0@ == seg_picks(p, *m)->0,
{
    match p {
        SegPick::All => Some(m.text.content.clone()),
        SegPick::Hint(code) => {
            if m.hint == copy_str(code) {
                Some(m.text.content.clone())
            } else {
                None
            }
        },
        SegPick::Seg(join, detail) => Some(render_seg(m, join, detail)),
    }
}

fn seg_gather_tokens(
    ts: &Vec<SegmentToken>,
    p: SegPick,
    out: &mut Vec<String>,
    Ghost(prefix): Ghost<Seq<Segment>>,
)
    requires
        strs(old(out)@) == seg_select(prefix, p),
    ensures
        strs(final(out)@) == seg_select(prefix + token_segments(ts@), p),
{
    let mut j: usize = 0;
    assert(prefix + token_segments(ts@.take(0)) =~= prefix);
    while j < ts.len()
        invariant
            j <= ts.len(),
            strs(out@) == seg_select(prefix + token_segments(ts@.take(j as int)), p),
        decreases ts.len() - j,
    {
        let ms = &ts[j].segments;
        let ghost before = prefix + token_segments(ts@.take(j as int));
        let mut k: usize = 0;
        assert(before + ms@.take(0) =~= before);
        while k < ms.len()
            invariant
                k <= ms.len(),
                strs(out@) == seg_select(before + ms@.take(k as int), p),
            decreases ms.len() - k,
        {
            let ghost old_out = out@;
            let picked = seg_pick_one(&ms[k], p);
            proof {
                let next = before + ms@.take(k + 1);
                assert(next.drop_last() =~= before + ms@.take(k as int));
                assert(next.last() == ms@[k as int]);
            }
            match picked {
                Some(s) => {
                    proof {
                        lemma_strs_push(old_out, s);
                    }
                    out.push(s);
                },
                None => {},
            }
            k += 1;
        }
        proof {
            assert(ts@.take(j + 1).drop_last() =~= ts@.take(j as int));
            assert(ms@.take(ms@.len() as int) =~= ms@);
            assert(before + ms@ =~= prefix + token_segments(ts@.take(j + 1)));
        }
        j += 1;
    }
    assert(ts@.take(ts@.len() as int) =~= ts@);
}

fn seg_gather(ss: &Vec<SegmentSentence>, p: SegPick) -> (out: Vec<String>)
    ensures
        strs(out@) == seg_select(sentence_segments(ss@), p),
{
    let mut out: Vec<String> = Vec::new();
    let mut i: usize = 0;
    assert(strs(out@) =~= Seq::empty());
    assert(ss@.take(0) =~= Seq::<SegmentSentence>::empty());
    while i < ss.len()
        invariant
            i <= ss.len(),
            strs(out@) == seg_select(sentence_segments(ss@.take(i as int)), p),
        decreases ss.len() - i,
    {
        seg_gather_tokens(
            &ss[i].tokens,
            p,
            &mut out,
            Ghost(sentence_segments(ss@.take(i as int))),
        );
        assert(ss@.take(i + 1).drop_last() =~= ss@.take(i as int));
        i += 1;
    }
    assert(ss@.take(ss@.len() as int) =~= ss@);
    out
}

/// One word: its segments printed and run together.
fn render_word(t: &SegmentToken, join: bool, detail: bool) -> (r: String)
    ensures
        r@ == concat(seg_texts(t.segments@, join, detail)),
{
    let ms = &t.segments;
    let mut r = String::new();
    let mut k: usize = 0;
    assert(seg_texts(ms@.take(0), join, detail) =~= Seq::empty());
    while k < ms.len()
        invariant
            k <= ms.len(),
            r@ == concat(seg_texts(ms@.take(k as int), join, detail)),
        decreases ms.len() - k,
    {
        let one = render_seg(&ms[k], join, detail);
        r.append(one.as_str());
        assert(seg_texts(ms@.take(k + 1), join, detail).drop_last() =~= seg_texts(
            ms@.take(k as int),
            join,
            detail,
        ));
        k += 1;
    }
    assert(ms@.take(ms@.len() as int) =~= ms@);
    r
}

/// The result of one segmentation: the phrase that was sent and the tree
/// that came back. It is never changed after it is made.
#[derive(Debug)]
pub struct Tokenized {
    phrase: String,
    r: TokenizeResponse,
}

impl Tokenized {
    pub closed spec fn phrase(&self) -> Seq<char> {
        self.phrase@
    }

    pub closed spec fn response(&self) -> TokenizeResponse {
        self.r
    }

    pub fn new(phrase: String, res: TokenizeResponse) -> (r: Tokenized)
        ensures
            r.phrase() == phrase@,
            r.response() == res,
    {
        Tokenized { phrase, r: res }
    }

    /// The tree as it came back.
    pub fn msg(&self) -> (r: &TokenizeResponse)
        ensures
            *r == self.response(),
    {
        &self.r
    }

    /// A copy of the sentences of the tree.
    pub fn sentences(&self) -> (r: Vec<SegmentSentence>)
        ensures
            r@.len() == self.response().sentences@.len(),
            forall|i: int|
                0 <= i < r@.len() ==> #[trigger] r@[i].same_as(self.response().sentences@[i]),
    {
        self.r.sentences.clone()
    }

    /// Every segment printed as `join` and `detail` choose: one flat list
    /// when `flatten` holds, else for each sentence the list of its words.
    pub fn seg(&self, flatten: bool, join: bool, detail: bool) -> (r: SegResult)
        ensures
            flatten ==> (r matches SegResult::Flat(v) && strs(v@) == seg_texts(
                self.response().segments(),
                join,
                detail,
            )),
            !flatten ==> (r matches SegResult::Nested(v) && v@.len()
                == self.response().sentences@.len() && forall|i: int|
                0 <= i < v@.len() ==> strs(#[trigger] v@[i]@) == nested_seg_texts(
                    self.response().sentences@,
                    join,
                    detail,
                )[i]),
    {
        let ss = &self.r.sentences;
        if flatten {
            let flat = seg_gather(ss, SegPick::Seg(join, detail));
            proof {
                lemma_seg_select_seg(self.r.segments(), join, detail);
            }
            SegResult::Flat(flat)
        } else {
            let mut r: Vec<Vec<String>> = Vec::new();
            let mut i: usize = 0;
            while i < ss.len()
                invariant
                    i <= ss.len(),
                    r@.len() == i,
                    forall|k: int|
                        0 <= k < i ==> strs(#[trigger] r@[k]@) == nested_seg_texts(
                            ss@,
                            join,
                            detail,
                        )[k],
                decreases ss.len() - i,
            {
                let ts = &ss[i].tokens;
                let mut words: Vec<String> = Vec::new();
                let mut j: usize = 0;
                while j < ts.len()
                    invariant
                        j <= ts.len(),
                        words@.len() == j,
                        forall|k: int|
                            0 <= k < j ==> (#[trigger] words@[k])@ == concat(
                                seg_texts(ts@[k].segments@, join, detail),
                            ),
                    decreases ts.len() - j,
                {
                    let w = render_word(&ts[j], join, detail);
                    words.push(w);
                    j += 1;
                }
                assert(strs(words@) =~= nested_seg_texts(ss@, join, detail)[i as int]);
                r.push(words);
                i += 1;
            }
            SegResult::Nested(r)
        }
    }

    /// The text of every segment, in document order.
    pub fn segments(&self) -> (r: Vec<String>)
        ensures
            strs(r@) == segment_texts(self.response().segments()),
    {
        let r = seg_gather(&self.r.sentences, SegPick::All);
        proof {
            lemma_seg_select_all(self.r.segments());
        }
        r
    }

    fn with_hint(&self, code: &'static str) -> (r: Vec<String>)
        ensures
            strs(r@) == hint_texts(self.response().segments(), code@),
    {
        let r = seg_gather(&self.r.sentences, SegPick::Hint(code));
        proof {
            lemma_seg_select_hint(self.r.segments(), code);
        }
        r
    }

    /// The text of the substantives (category `N`), in order.
    pub fn nouns(&self) -> (r: Vec<String>)
        ensures
            strs(r@) == hint_texts(self.response().segments(), "N"@),
    {
        self.with_hint("N")
    }

    /// The text of the predicates (category `V`), in order.
    pub fn verbs(&self) -> (r: Vec<String>)
        ensures
            strs(r@) == hint_texts(self.response().segments(), "V"@),
    {
        self.with_hint("V")
    }

    /// The text of the predicates (category `V`), in order.
    pub fn predicates(&self) -> (r: Vec<String>)
        ensures
            strs(r@) == hint_texts(self.response().segments(), "V"@),
    {
        self.with_hint("V")
    }

    /// The text of the substantives (category `N`), in order.
    pub fn substantives(&self) -> (r: Vec<String>)
        ensures
            strs(r@) == hint_texts(self.response().segments(), "N"@),
    {
        self.with_hint("N")
    }

    /// The text of the symbols (category `S`), in order.
    pub fn symbols(&self) -> (r: Vec<String>)
        ensures
            strs(r@) == hint_texts(self.response().segments(), "S"@),
    {
        self.with_hint("S")
    }

    /// The text of the adverbs (category `A`), in order.
    pub fn adverbs(&self) -> (r: Vec<String>)
        ensures
            strs(r@) == hint_texts(self.response().segments(), "A"@),
    {
        self.with_hint("A")
    }

    /// The text of the prenouns (category `M`), in order.
    pub fn prenouns(&self) -> (r: Vec<String>)
        ensures
            strs(r@) == hint_texts(self.response().segments(), "M"@),
    {
        self.with_hint("M")
    }

    /// The text of the postpositions (category `J`), in order.
    pub fn postpositions(&self) -> (r: Vec<String>)
        ensures
            strs(r@) == hint_texts(self.response().segments(), "J"@),
    {
        self.with_hint("J")
    }

    /// The text of the interjections (category `I`), in order.
    pub fn interjections(&self) -> (r: Vec<String>)
        ensures
            strs(r@) == hint_texts(self.response().segments(), "I"@),
    {
        self.with_hint("I")
    }

    /// The text of the endings (category `E`), in order.
    pub fn endings(&self) -> (r: Vec<String>)
        ensures
            strs(r@) == hint_texts(self.response().segments(), "E"@),
    {
        self.with_hint("E")
    }
}

} // verus!

use bareun_rs::{
    AnalyzeSyntaxResponse, Morpheme, OutOfVocab, Probability, Sentence, Tag, Tagged, TextSpan,
    Token,
};

const SAMPLE: &str = "오늘은 정말 추운 날이네요.";

fn span(s: &str, at: i32) -> TextSpan {
    TextSpan { content: s.to_string(), begin_offset: at }
}

fn morpheme(s: &str, at: i32, tag: Tag) -> Morpheme {
    Morpheme {
        text: span(s, at),
        tag,
        probability: Probability {
            positive: true,
            plain: "0.98765".to_string(),
            rounded: "0.988".to_string(),
        },
        out_of_vocab: OutOfVocab::InWordEmbedding,
    }
}

fn token(s: &str, at: i32, morphemes: Vec<Morpheme>) -> Token {
    let tagged = morphemes
        .iter()
        .map(|m| format!("{}/{}", m.text.content, m.tag.name()))
        .collect::<Vec<String>>()
        .join("+");
    Token { text: span(s, at), morphemes, lemma: String::new(), tagged }
}

/// The analysis of the sample phrase as the service gives it.
fn sample() -> Tagged {
    let tokens = vec![
        token("오늘은", 0, vec![morpheme("오늘", 0, Tag::Nng), morpheme("은", 2, Tag::Jx)]),
        token("정말", 4, vec![morpheme("정말", 4, Tag::Mag)]),
        token("추운", 7, vec![morpheme("춥", 7, Tag::Va), morpheme("ㄴ", 8, Tag::Etm)]),
        token(
            "날이네요.",
            10,
            vec![
                morpheme("날", 10, Tag::Nng),
                morpheme("이", 11, Tag::Vcp),
                morpheme("네", 12, Tag::Ef),
                morpheme("요", 13, Tag::Jx),
                morpheme(".", 14, Tag::Sf),
            ],
        ),
    ];
    let sentence = Sentence { text: span(SAMPLE, 0), tokens };
    Tagged::new(
        SAMPLE.to_string(),
        AnalyzeSyntaxResponse { sentences: vec![sentence], language: "ko_KR".to_string() },
    )
}

#[test]
fn test_tagger_pos() {
    let result = sample().pos(true, false, false);
    assert_eq!(result.len(), 1);
    let parsed: Vec<(&str, &str)> = result[0]
        .iter()
        .map(|s| {
            let parts: Vec<&str> = s.split('\t').collect();
            (parts[0], parts[1])
        })
        .collect();
    assert_eq!(
        parsed,
        vec![
            ("오늘", "NNG"),
            ("은", "JX"),
            ("정말", "MAG"),
            ("춥", "VA"),
            ("ㄴ", "ETM"),
            ("날", "NNG"),
            ("이", "VCP"),
            ("네", "EF"),
            ("요", "JX"),
            (".", "SF")
        ]
    );
}

#[test]
fn test_tagger_pos_join() {
    let result = sample().pos(true, true, false);
    assert_eq!(result.len(), 1);
    assert_eq!(
        result[0],
        vec![
            "오늘/NNG", "은/JX", "정말/MAG", "춥/VA", "ㄴ/ETM", "날/NNG", "이/VCP", "네/EF",
            "요/JX", "./SF"
        ]
    );
}

#[test]
fn test_tagger_pos_detail() {
    let result = sample().pos(true, false, true);
    assert_eq!(result.len(), 1);
    let parsed: Vec<(&str, &str, &str)> = result[0]
        .iter()
        .map(|s| {
            let parts: Vec<&str> = s.split('\t').collect();
            (parts[0], parts[1], parts[2])
        })
        .collect();
    assert_eq!(
        parsed,
        vec![
            ("오늘", "NNG", "IN_WORD_EMBEDDING"),
            ("은", "JX", "IN_WORD_EMBEDDING"),
            ("정말", "MAG", "IN_WORD_EMBEDDING"),
            ("춥", "VA", "IN_WORD_EMBEDDING"),
            ("ㄴ", "ETM", "IN_WORD_EMBEDDING"),
            ("날", "NNG", "IN_WORD_EMBEDDING"),
            ("이", "VCP", "IN_WORD_EMBEDDING"),
            ("네", "EF", "IN_WORD_EMBEDDING"),
            ("요", "JX", "IN_WORD_EMBEDDING"),
            (".", "SF", "IN_WORD_EMBEDDING")
        ]
    );
}

#[test]
fn test_tagger_morphs() {
    let result = sample().morphs();
    assert_eq!(result, vec!["오늘", "은", "정말", "춥", "ㄴ", "날", "이", "네", "요", "."]);
}

#[test]
fn test_tagger_nouns() {
    let result = sample().nouns();
    assert_eq!(result, vec!["오늘", "날"]);
}

#[test]
fn test_tagger_tag_as_msg() {
    let t = sample();
    let m = t.msg();
    assert_eq!(m.sentences[0].tokens[3].tagged, "날/NNG+이/VCP+네/EF+요/JX+./SF");
}

#[test]
fn pos_detail_prints_probability_and_oov() {
    let t = sample();
    let detail = t.pos(true, false, true);
    assert_eq!(detail[0][0], "오늘\tNNG\tIN_WORD_EMBEDDING\t0.98765");
    let joined = t.pos(true, true, true);
    assert_eq!(joined[0][0], "오늘/NNG:0.988");
}

#[test]
fn pos_join_detail_marks_unknown_words() {
    let mut m = morpheme("카톡", 0, Tag::Nnp);
    m.out_of_vocab = OutOfVocab::OutOfVocab;
    m.probability = Probability {
        positive: false,
        plain: "0".to_string(),
        rounded: "0.000".to_string(),
    };
    let sentence = Sentence { text: span("카톡", 0), tokens: vec![token("카톡", 0, vec![m])] };
    let t = Tagged::new(
        "카톡".to_string(),
        AnalyzeSyntaxResponse { sentences: vec![sentence], language: "ko_KR".to_string() },
    );
    assert_eq!(t.pos(true, true, true), vec![vec!["카톡/NNP#OUT_OF_VOCAB".to_string()]]);
    assert_eq!(t.pos(true, true, false), vec![vec!["카톡/NNP".to_string()]]);
}

#[test]
fn pos_nested_has_one_list_per_sentence() {
    let first = Sentence {
        text: span("오늘은", 0),
        tokens: vec![token(
            "오늘은",
            0,
            vec![morpheme("오늘", 0, Tag::Nng), morpheme("은", 2, Tag::Jx)],
        )],
    };
    let second = Sentence {
        text: span("춥다.", 4),
        tokens: vec![token(
            "춥다.",
            4,
            vec![morpheme("춥", 4, Tag::Va), morpheme("다", 5, Tag::Ef), morpheme(".", 6, Tag::Sf)],
        )],
    };
    let t = Tagged::new(
        "오늘은\n춥다.".to_string(),
        AnalyzeSyntaxResponse { sentences: vec![first, second], language: "ko_KR".to_string() },
    );
    let nested = t.pos(false, true, false);
    assert_eq!(nested, vec![vec!["오늘/NNG", "은/JX"], vec!["춥/VA", "다/EF", "./SF"]]);
    let flat = t.pos(true, true, false);
    let joined: Vec<String> = nested.into_iter().flatten().collect();
    assert_eq!(flat, vec![joined]);
}

#[test]
fn nouns_are_among_morphs() {
    let t = sample();
    let morphs = t.morphs();
    let mut rest = morphs.clone();
    for n in t.nouns() {
        let at = rest.iter().position(|m| *m == n).expect("noun among morphemes");
        rest.remove(at);
    }
    assert_eq!(rest.len(), morphs.len() - 2);
}

#[test]
fn verbs_exclude_adjectives() {
    let t = sample();
    assert!(t.verbs().is_empty());
    let sentence = Sentence {
        text: span("먹다", 0),
        tokens: vec![token("먹다", 0, vec![morpheme("먹", 0, Tag::Vv), morpheme("다", 1, Tag::Ef)])],
    };
    let t = Tagged::new(
        "먹다".to_string(),
        AnalyzeSyntaxResponse { sentences: vec![sentence], language: "ko_KR".to_string() },
    );
    assert_eq!(t.verbs(), vec!["먹"]);
}

#[test]
fn sentences_copies_the_tree() {
    let t = sample();
    let ss = t.sentences();
    assert_eq!(ss.len(), 1);
    assert_eq!(ss[0].tokens.len(), 4);
    assert_eq!(ss[0].tokens[3].morphemes.len(), 5);
}

#[test]
fn empty_result_has_no_morphemes() {
    let t = Tagged::new(String::new(), AnalyzeSyntaxResponse::empty());
    assert!(t.morphs().is_empty());
    assert!(t.nouns().is_empty());
    assert_eq!(t.pos(true, false, false), vec![Vec::<String>::new()]);
    assert!(t.pos(false, false, false).is_empty());
}

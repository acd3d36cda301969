use bareun_rs::{
    SegResult, Segment, SegmentSentence, SegmentToken, TextSpan, TokenizeResponse, Tokenized,
};

const TEST_STR: &str = "오늘은 정말 추운 날이네요.";

fn span(s: &str, at: i32) -> TextSpan {
    TextSpan { content: s.to_string(), begin_offset: at }
}

fn word(s: &str, at: i32, parts: &[(&str, &str)]) -> SegmentToken {
    SegmentToken {
        text: span(s, at),
        segments: parts
            .iter()
            .map(|(t, h)| Segment { text: span(t, at), hint: h.to_string() })
            .collect(),
        tagged: String::new(),
    }
}

/// The segmentation of the sample phrase as the service gives it.
fn sample() -> Tokenized {
    let tokens = vec![
        word("오늘은", 0, &[("오늘", "N"), ("은", "J")]),
        word("정말", 4, &[("정말", "A")]),
        word("추운", 7, &[("춥", "V"), ("ㄴ", "E")]),
        word("날이네요.", 10, &[("날", "N"), ("이", "V"), ("네", "E"), ("요", "J"), (".", "S")]),
    ];
    Tokenized::new(
        TEST_STR.to_string(),
        TokenizeResponse {
            sentences: vec![SegmentSentence { text: span(TEST_STR, 0), tokens }],
            language: "ko_KR".to_string(),
        },
    )
}

#[test]
fn test_tokenizer_seg_not_flatten() {
    let result = sample().seg(false, false, false);
    if let SegResult::Nested(nested) = result {
        let expected = vec![vec![
            "오늘은".to_string(),
            "정말".to_string(),
            "춥ㄴ".to_string(),
            "날이네요.".to_string(),
        ]];
        assert_eq!(nested, expected, "Nested segmentation mismatch");
    } else {
        panic!("Expected Nested result");
    }
}

#[test]
fn test_tokenizer_seg_join() {
    let result = sample().seg(true, true, false);
    if let SegResult::Flat(flat) = result {
        let expected = vec![
            "오늘/N".to_string(),
            "은/J".to_string(),
            "정말/A".to_string(),
            "춥/V".to_string(),
            "ㄴ/E".to_string(),
            "날/N".to_string(),
            "이/V".to_string(),
            "네/E".to_string(),
            "요/J".to_string(),
            "./S".to_string(),
        ];
        assert_eq!(flat, expected, "Joined segmentation mismatch");
    } else {
        panic!("Expected Flat result");
    }
}

#[test]
fn test_tokenizer_seg_detail() {
    let result = sample().seg(true, false, true);
    if let SegResult::Flat(flat) = result {
        assert_eq!(
            flat,
            vec![
                "오늘,N".to_string(),
                "은,J".to_string(),
                "정말,A".to_string(),
                "춥,V".to_string(),
                "ㄴ,E".to_string(),
                "날,N".to_string(),
                "이,V".to_string(),
                "네,E".to_string(),
                "요,J".to_string(),
                ".,S".to_string()
            ]
        );
    } else {
        panic!("Expected Flat result");
    }
}

#[test]
fn test_tokenizer_seg() {
    let result = sample().seg(true, false, false);
    if let SegResult::Flat(flat) = result {
        assert_eq!(
            flat,
            vec![
                "오늘".to_string(),
                "은".to_string(),
                "정말".to_string(),
                "춥".to_string(),
                "ㄴ".to_string(),
                "날".to_string(),
                "이".to_string(),
                "네".to_string(),
                "요".to_string(),
                ".".to_string()
            ]
        );
    } else {
        panic!("Expected Flat result");
    }
}

#[test]
fn test_tokenizer_nouns() {
    let result = sample().nouns();
    assert_eq!(result, vec!["오늘".to_string(), "날".to_string()]);
}

#[test]
fn test_tokenized_nouns() {
    let tokenized = sample();
    assert_eq!(tokenized.nouns(), vec!["오늘".to_string(), "날".to_string()]);
}

#[test]
fn test_tokenized_verbs() {
    let tokenized = sample();
    assert_eq!(tokenized.predicates(), vec!["춥".to_string(), "이".to_string()]);
}

#[test]
fn test_tokenized_symbols() {
    let tokenized = sample();
    assert_eq!(tokenized.symbols(), vec![".".to_string()]);
}

#[test]
fn test_tokenized_adverbs() {
    let tokenized = sample();
    assert_eq!(tokenized.adverbs(), vec!["정말".to_string()]);
}

#[test]
fn test_tokenized_endings() {
    let tokenized = sample();
    assert_eq!(tokenized.endings(), vec!["ㄴ".to_string(), "네".to_string()]);
}

#[test]
fn test_tokenized_postpositions() {
    let tokenized = sample();
    assert_eq!(tokenized.postpositions(), vec!["은".to_string(), "요".to_string()]);
}

#[test]
fn seg_join_with_detail_uses_slash() {
    let result = sample().seg(true, true, true);
    if let SegResult::Flat(flat) = result {
        assert_eq!(flat[0], "오늘/N");
        assert_eq!(flat[9], "./S");
    } else {
        panic!("Expected Flat result");
    }
    if let SegResult::Nested(nested) = sample().seg(false, true, false) {
        assert_eq!(nested[0][0], "오늘/N은/J");
    } else {
        panic!("Expected Nested result");
    }
}

#[test]
fn aliases_and_other_categories() {
    let t = sample();
    assert_eq!(t.verbs(), t.predicates());
    assert_eq!(t.substantives(), t.nouns());
    assert!(t.prenouns().is_empty());
    assert!(t.interjections().is_empty());
    assert_eq!(
        t.segments(),
        vec!["오늘", "은", "정말", "춥", "ㄴ", "날", "이", "네", "요", "."]
    );
}

#[test]
fn empty_segmentation_is_empty() {
    let t = Tokenized::new(String::new(), TokenizeResponse::empty());
    assert!(t.segments().is_empty());
    assert!(t.sentences().is_empty());
    assert!(matches!(t.seg(false, false, false), SegResult::Nested(v) if v.is_empty()));
}

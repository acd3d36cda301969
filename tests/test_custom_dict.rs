use bareun_rs::{
    build_dict_set, parse_dict_lines, pb_map_to_set, plan_tag, plan_tags, plan_tokenize,
    BareunError, CustomDict, DictSet, DictType, EncodingType, TagStep, TokenizeStep, NO_CONNECTION_MESSAGE,
};

fn strings(v: &[&str]) -> Vec<String> {
    v.iter().map(|s| s.to_string()).collect()
}

fn sorted(mut v: Vec<String>) -> Vec<String> {
    v.sort();
    v
}

fn connected(domain: &str) -> CustomDict {
    let mut cd = CustomDict::new(domain).unwrap();
    cd.set_connection("appppppiiii", "127.0.0.1", 5656);
    cd
}

#[test]
fn test_tagger_create_custom_dict() {
    let cd = CustomDict::new("my").unwrap();
    assert!(cd.domain == "my");
}

#[test]
fn test_tagger_update_custom_dict() {
    let mut cd = connected("my");
    cd.copy_np_set(strings(&["유리왕", "근초고왕", "누루하치", "베링거인겔하임"]));
    cd.copy_cp_set(strings(&["코로나19"]));
    cd.copy_cp_caret_set(strings(&["인공지능^데이터^학습", "자연어^처리^엔진"]));
    let msg = cd.update_request().unwrap();
    assert_eq!(msg.domain_name, "my");
    assert_eq!(msg.np_set.as_ref().unwrap().name, "my-np-set");
    assert_eq!(msg.cp_caret_set.as_ref().unwrap().name, "my-cp-caret-set");
    let result = cd.is_update_confirmed(&"my".to_string());
    assert!(result);
}

#[test]
fn test_tagger_get_custom_dict_np_set() {
    let mut writer = connected("my");
    writer.copy_np_set(strings(&["유리왕", "근초고왕", "누루하치", "베링거인겔하임"]));
    let msg = writer.update_request().unwrap();
    let mut dic = connected("my");
    dic.load_from(&msg);
    assert_eq!(dic.np_set.len(), 4);
    assert!(dic.np_set.contains(&"유리왕".to_string()));
    assert!(dic.np_set.contains(&"근초고왕".to_string()));
    assert!(dic.np_set.contains(&"누루하치".to_string()));
    assert!(dic.np_set.contains(&"베링거인겔하임".to_string()));
}

#[test]
fn test_tagger_get_custom_dict_cp_set() {
    let mut writer = connected("my");
    writer.copy_cp_set(strings(&["코로나19"]));
    let msg = writer.update_request().unwrap();
    let mut dic = connected("my");
    dic.load_from(&msg);
    assert_eq!(dic.cp_set.len(), 1);
    assert!(dic.cp_set.contains(&"코로나19".to_string()));
}

#[test]
fn test_tagger_get_custom_dict_cp_caret_set() {
    let mut writer = connected("my");
    writer.copy_cp_caret_set(strings(&["인공지능^데이터^학습", "자연어^처리^엔진"]));
    let msg = writer.update_request().unwrap();
    let mut dic = connected("my");
    dic.load_from(&msg);
    assert_eq!(dic.cp_caret_set.len(), 2);
    assert!(dic.cp_caret_set.contains(&"인공지능^데이터^학습".to_string()));
    assert!(dic.cp_caret_set.contains(&"자연어^처리^엔진".to_string()));
}

#[test]
fn update_then_load_gives_back_all_five_sets() {
    let mut writer = connected("law");
    writer.copy_np_set(strings(&["유리왕", "Zürich"]));
    writer.copy_cp_set(strings(&["새단어", "K방역"]));
    writer.copy_cp_caret_set(strings(&["자연어^처리"]));
    writer.copy_vv_set(strings(&["카톡하"]));
    writer.copy_va_set(strings(&["드라마틱하", "판타스틱하"]));
    let msg = writer.update_request().unwrap();
    let mut reader = connected("law");
    reader.copy_vv_set(strings(&["old"]));
    reader.load_from(&msg);
    assert_eq!(sorted(reader.np_set.clone()), sorted(writer.np_set.clone()));
    assert_eq!(sorted(reader.cp_set.clone()), sorted(writer.cp_set.clone()));
    assert_eq!(sorted(reader.cp_caret_set.clone()), sorted(writer.cp_caret_set.clone()));
    assert_eq!(sorted(reader.vv_set.clone()), sorted(writer.vv_set.clone()));
    assert_eq!(sorted(reader.va_set.clone()), sorted(writer.va_set.clone()));
}

#[test]
fn empty_domain_is_refused() {
    assert!(matches!(CustomDict::new(""), Err(BareunError::InvalidCustomDictName(_))));
    assert!(matches!(
        CustomDict::with_connection("", "k", "h", 1),
        Err(BareunError::InvalidCustomDictName(_))
    ));
}

#[test]
fn remote_work_needs_a_connection() {
    let mut cd = CustomDict::new("my").unwrap();
    cd.copy_np_set(strings(&["유리왕"]));
    match cd.update_request() {
        Err(BareunError::InvalidArgument { message }) => assert_eq!(message, NO_CONNECTION_MESSAGE),
        _ => panic!("expected InvalidArgument"),
    }
    assert!(cd.check_connection().is_err());
    assert!(cd.clear_request().is_err());
    assert_eq!(cd.np_set.len(), 1);
}

#[test]
fn clear_empties_sets_and_names_the_domain() {
    let mut cd = CustomDict::with_connection("my", "k", "h", 5656).unwrap();
    cd.copy_np_set(strings(&["유리왕"]));
    cd.copy_va_set(strings(&["드라마틱하"]));
    assert_eq!(cd.clear_request().unwrap(), vec!["my".to_string()]);
    assert_eq!(cd.np_set.len(), 1);
    cd.clear_sets();
    assert!(cd.np_set.is_empty());
    assert!(cd.va_set.is_empty());
}

#[test]
fn duplicates_pushed_by_hand_are_sent_once() {
    let mut cd = connected("my");
    cd.np_set.push("유리왕".to_string());
    cd.np_set.push("유리왕".to_string());
    let msg = cd.update_request().unwrap();
    assert_eq!(msg.np_set.unwrap().items, vec![("유리왕".to_string(), 1)]);
}

#[test]
fn copy_collapses_duplicates() {
    let mut cd = CustomDict::new("my").unwrap();
    cd.copy_vv_set(strings(&["하", "하", "먹"]));
    assert_eq!(sorted(cd.vv_set.clone()), strings(&["먹", "하"]));
}

#[test]
fn dictionary_file_lines() {
    let lines = strings(&["# comment", "유리왕", "  근초고왕  ", "", "   ", "유리왕", "누루하치\t"]);
    let words = parse_dict_lines(&lines);
    assert_eq!(sorted(words), strings(&["근초고왕", "누루하치", "유리왕"]));
}

#[test]
fn dictionary_file_order_does_not_matter() {
    let a = strings(&["하나", "#둘", "셋", "", "하나"]);
    let b = strings(&["셋", "하나", "", "하나", "#둘"]);
    assert_eq!(sorted(parse_dict_lines(&a)), sorted(parse_dict_lines(&b)));
    assert_eq!(parse_dict_lines(&a).len(), 2);
}

#[test]
fn read_from_file_replaces_one_set() {
    let mut cd = CustomDict::new("my").unwrap();
    cd.copy_cp_set(strings(&["코로나19"]));
    cd.read_np_set_from_file(&strings(&["#proper nouns", "유리왕", " 근초고왕"]));
    assert_eq!(sorted(cd.np_set.clone()), strings(&["근초고왕", "유리왕"]));
    assert_eq!(cd.cp_set, strings(&["코로나19"]));
    cd.read_va_set_from_file(&strings(&["# none"]));
    assert!(cd.va_set.is_empty());
}

#[test]
fn word_lists_are_built_and_read() {
    let ds = build_dict_set("law", "vv-set", &strings(&["카톡하", "신박하", "카톡하"]));
    assert_eq!(ds.name, "law-vv-set");
    assert_eq!(ds.dict_type, DictType::WordList);
    assert_eq!(ds.items, vec![("카톡하".to_string(), 1), ("신박하".to_string(), 1)]);
    let back = pb_map_to_set(&DictSet {
        name: "x".to_string(),
        dict_type: DictType::WordList,
        items: vec![("a".to_string(), 1), ("b".to_string(), 3), ("a".to_string(), 2)],
    });
    assert_eq!(sorted(back), strings(&["a", "b"]));
}

#[test]
fn empty_phrase_needs_no_call() {
    match plan_tag("", &vec![], false, true, false) {
        TagStep::Done(t) => assert!(t.morphs().is_empty()),
        TagStep::Send(_) => panic!("no request expected"),
    }
    match plan_tags(&vec![], &vec![], false, true, false) {
        TagStep::Done(t) => assert!(t.pos(false, false, false).is_empty()),
        TagStep::Send(_) => panic!("no request expected"),
    }
    match plan_tokenize("하나", true) {
        TokenizeStep::Send(q) => {
            assert_eq!(q.encoding_type, EncodingType::Utf32);
            assert!(q.auto_split_sentence && !q.auto_spacing);
        }
        TokenizeStep::Done(_) => panic!("request expected"),
    }
    match plan_tokenize("", false) {
        TokenizeStep::Done(t) => assert!(t.segments().is_empty()),
        TokenizeStep::Send(_) => panic!("no request expected"),
    }
}

#[test]
fn phrases_become_requests() {
    match plan_tag("오늘은", &strings(&["my"]), true, false, true) {
        TagStep::Send(q) => {
            assert_eq!(q.content, "오늘은");
            assert_eq!(q.language, "ko_KR");
            assert_eq!(q.encoding_type, EncodingType::Utf32);
            assert!(q.auto_split_sentence && !q.auto_spacing && q.auto_jointing);
            assert_eq!(q.custom_dict_names, strings(&["my"]));
        }
        TagStep::Done(_) => panic!("request expected"),
    }
    match plan_tags(&strings(&["하나", "둘"]), &vec![], false, false, false) {
        TagStep::Send(q) => {
            assert_eq!(q.content, "하나\n둘");
            assert_eq!(q.encoding_type, EncodingType::Utf32);
        }
        TagStep::Done(_) => panic!("request expected"),
    }
}

use serde_json::Value;
use spm::commands::{apply_funding_choice, init_plan, load_funding, load_science, Loaded};
use spm::json::{lookup_member, Json};
use spm::records::{chain_labels, optional_text, Chain, FundingInfo, Paper, ScienceConfig};
use spm::schema::{
    funding_from_json, funding_to_json, paper_from_json, paper_to_json, science_from_json,
    science_to_json, SpmError,
};

fn to_value(j: &Json) -> Value {
    match j {
        Json::Null => Value::Null,
        Json::Bool(b) => Value::Bool(*b),
        Json::Number(n) => Value::Number(n.parse().unwrap()),
        Json::Str(s) => Value::String(s.clone()),
        Json::Array(items) => Value::Array(items.iter().map(to_value).collect()),
        Json::Object(fields) => {
            let mut m = serde_json::Map::new();
            for (k, v) in fields {
                m.insert(k.clone(), to_value(v));
            }
            Value::Object(m)
        }
    }
}

fn from_value(v: &Value) -> Json {
    match v {
        Value::Null => Json::Null,
        Value::Bool(b) => Json::Bool(*b),
        Value::Number(n) => Json::Number(n.to_string()),
        Value::String(s) => Json::Str(s.clone()),
        Value::Array(items) => Json::Array(items.iter().map(from_value).collect()),
        Value::Object(m) => Json::Object(m.iter().map(|(k, v)| (k.clone(), from_value(v))).collect()),
    }
}

fn text(j: &Json) -> String {
    serde_json::to_string(&to_value(j)).unwrap()
}

fn parsed(s: &str) -> Loaded {
    match serde_json::from_str::<Value>(s) {
        Ok(v) => Loaded::Parsed(from_value(&v)),
        Err(_) => Loaded::Malformed,
    }
}

fn some(s: &str) -> Option<String> {
    Some(s.to_string())
}

#[test]
fn empty_answer_is_absent() {
    assert_eq!(optional_text(String::new()), None);
    assert_eq!(optional_text("10.1000/xyz".to_string()), some("10.1000/xyz"));
    assert_eq!(optional_text(" ".to_string()), some(" "));
}

#[test]
fn chain_from_menu_index() {
    assert_eq!(Chain::from_index(0), Some(Chain::Ethereum));
    assert_eq!(Chain::from_index(1), Some(Chain::Optimism));
    assert_eq!(Chain::from_index(2), Some(Chain::Celo));
    assert_eq!(Chain::from_index(3), None);
    assert_eq!(Chain::from_index(usize::MAX), None);
}

#[test]
fn menu_labels_in_order() {
    assert_eq!(chain_labels(), vec!["Ethereum", "Optimism", "Celo"]);
    assert_eq!(Chain::Celo.label(), "Celo");
}

#[test]
fn fund_sets_one_field_and_keeps_the_others() {
    let mut f = load_funding(&Loaded::Absent).unwrap();
    apply_funding_choice(&mut f, 1, "0xabc123".to_string());
    assert_eq!(
        text(&funding_to_json(&f)),
        r#"{"ethereum_address":null,"optimism_address":"0xabc123","celo_address":null}"#
    );
    apply_funding_choice(&mut f, 0, "0xdef456".to_string());
    assert_eq!(
        text(&funding_to_json(&f)),
        r#"{"ethereum_address":"0xdef456","optimism_address":"0xabc123","celo_address":null}"#
    );
}

#[test]
fn fund_overwrites_same_chain() {
    let mut f = FundingInfo::new();
    f.set_address(Chain::Celo, "0x1".to_string());
    f.set_address(Chain::Celo, "0x2".to_string());
    assert_eq!(f.celo_address, some("0x2"));
    assert_eq!(f.ethereum_address, None);
    assert_eq!(f.optimism_address, None);
}

#[test]
fn init_then_add_scenario() {
    let plan = init_plan(false, false);
    let funding_doc = plan.funding.unwrap();
    let science_doc = plan.science.unwrap();
    assert_eq!(
        text(&funding_doc),
        r#"{"ethereum_address":null,"optimism_address":null,"celo_address":null}"#
    );
    assert_eq!(text(&science_doc), r#"{"papers":[]}"#);

    let on_disk = text(&science_doc);
    let mut science = load_science(&parsed(&on_disk)).unwrap();
    science.add_paper("Smith et al. (2023)".to_string(), String::new(), String::new());
    assert_eq!(
        text(&science_to_json(&science)),
        r#"{"papers":[{"citation":"Smith et al. (2023)","doi":null,"url":null}]}"#
    );
}

#[test]
fn init_twice_writes_nothing_the_second_time() {
    let first = init_plan(false, true);
    assert!(first.funding.is_some());
    assert!(first.science.is_none());
    let second = init_plan(true, true);
    assert!(second.funding.is_none());
    assert!(second.science.is_none());
}

#[test]
fn funding_round_trip() {
    let f = FundingInfo {
        ethereum_address: some("0xdef456"),
        optimism_address: None,
        celo_address: some("0xc"),
    };
    let written = serde_json::to_string_pretty(&to_value(&funding_to_json(&f))).unwrap();
    let back = load_funding(&parsed(&written)).unwrap();
    assert_eq!(back, f);
    assert_eq!(funding_from_json(&funding_to_json(&f)), Ok(f));
}

#[test]
fn science_round_trip() {
    let mut s = ScienceConfig::new();
    s.add_paper("A (2020)".to_string(), "10.1/a".to_string(), String::new());
    s.add_paper("B \"quoted\" (2021)".to_string(), String::new(), "https://b.example".to_string());
    let written = serde_json::to_string_pretty(&to_value(&science_to_json(&s))).unwrap();
    let back = load_science(&parsed(&written)).unwrap();
    assert_eq!(back, s);
}

#[test]
fn paper_round_trip() {
    let p = Paper::from_answers("C (2022)".to_string(), "10.2/c".to_string(), "u".to_string());
    assert_eq!(p.doi, some("10.2/c"));
    assert_eq!(paper_from_json(&paper_to_json(&p)), Ok(p));
}

#[test]
fn malformed_papers_file_is_a_parse_error() {
    let loaded = parsed("{ \"papers\": [ ");
    assert!(matches!(loaded, Loaded::Malformed));
    assert_eq!(load_science(&loaded), Err(SpmError::Parse));
}

#[test]
fn misshapen_files_are_parse_errors() {
    assert_eq!(load_science(&parsed(r#"{"papers":3}"#)), Err(SpmError::Parse));
    assert_eq!(load_science(&parsed(r#"[]"#)), Err(SpmError::Parse));
    assert_eq!(load_science(&parsed(r#"{}"#)), Err(SpmError::Parse));
    assert_eq!(load_science(&parsed(r#"{"papers":[{"doi":null}]}"#)), Err(SpmError::Parse));
    assert_eq!(
        load_science(&parsed(r#"{"papers":[{"citation":"x","url":5}]}"#)),
        Err(SpmError::Parse)
    );
    assert_eq!(load_funding(&parsed(r#"{"celo_address":true}"#)), Err(SpmError::Parse));
    assert_eq!(load_funding(&parsed(r#""text""#)), Err(SpmError::Parse));
    assert_eq!(load_funding(&Loaded::Malformed), Err(SpmError::Parse));
}

#[test]
fn unreadable_file_is_an_io_error() {
    assert_eq!(load_funding(&Loaded::Unreadable), Err(SpmError::Io));
    assert_eq!(load_science(&Loaded::Unreadable), Err(SpmError::Io));
}

#[test]
fn missing_files_give_empty_records() {
    assert_eq!(load_funding(&Loaded::Absent), Ok(FundingInfo::new()));
    assert_eq!(load_science(&Loaded::Absent), Ok(ScienceConfig::new()));
}

#[test]
fn missing_optional_members_read_as_absent() {
    let f = load_funding(&parsed(r#"{"optimism_address":"0xo","extra":1}"#)).unwrap();
    assert_eq!(f.ethereum_address, None);
    assert_eq!(f.optimism_address, some("0xo"));
    assert_eq!(f.celo_address, None);
    let s = load_science(&parsed(r#"{"papers":[{"citation":"Z"}],"note":[1,2]}"#)).unwrap();
    assert_eq!(s.papers.len(), 1);
    assert_eq!(s.papers[0].citation, "Z");
    assert_eq!(s.papers[0].doi, None);
    assert_eq!(s.papers[0].url, None);
}

#[test]
fn adds_append_in_order() {
    let mut s = load_science(&parsed(r#"{"papers":[{"citation":"old","doi":null,"url":null}]}"#))
        .unwrap();
    for c in ["first", "second", "third"] {
        s.add_paper(c.to_string(), String::new(), format!("https://{}", c));
    }
    let citations: Vec<&str> = s.papers.iter().map(|p| p.citation.as_str()).collect();
    assert_eq!(citations, vec!["old", "first", "second", "third"]);
    assert_eq!(s.papers[2].url, some("https://second"));
    assert_eq!(s.papers[0].url, None);
}

#[test]
fn lookup_finds_first_member() {
    let fields = vec![
        ("a".to_string(), Json::Null),
        ("b".to_string(), Json::Bool(true)),
        ("b".to_string(), Json::Bool(false)),
    ];
    assert_eq!(lookup_member(&fields, "b"), Some(&Json::Bool(true)));
    assert_eq!(lookup_member(&fields, "c"), None);
    assert_eq!(lookup_member(&Vec::new(), "a"), None);
}

#[test]
fn decoding_picks_first_duplicate_member() {
    let j = Json::Object(vec![
        ("citation".to_string(), Json::Str("one".to_string())),
        ("citation".to_string(), Json::Str("two".to_string())),
    ]);
    assert_eq!(paper_from_json(&j).unwrap().citation, "one");
    assert_eq!(science_from_json(&Json::Null), Err(SpmError::Parse));
}

#[test]
fn error_messages_are_distinct() {
    assert_ne!(SpmError::Io.message(), SpmError::Parse.message());
    assert_ne!(SpmError::Parse.message(), SpmError::PromptCancelled.message());
}

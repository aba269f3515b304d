use meta_contract::attrjson::attributes_json;
use meta_contract::{
    is_nft_storage_link, is_profane, on_clone, on_execute, on_mint, text_is_flagged, MetaContract,
    MetaContractResult, Metadata, OpenSeaAttributes, Transaction,
};

fn contract() -> MetaContract {
    MetaContract { public_key: "contract-pk".to_string() }
}

fn tx(payload: &str) -> Transaction {
    Transaction {
        public_key: "submitter-pk".to_string(),
        data: payload.to_string(),
        version: "7".to_string(),
    }
}

fn run_execute(payload: &str) -> MetaContractResult {
    on_execute(contract(), Vec::<Metadata>::new(), tx(payload))
}

#[test]
fn execute_rejects_unparseable_payload() {
    let r = run_execute("this is not json");
    assert!(!r.result);
    assert_eq!(r.error_string, "Data is not a valid format.");
    assert_eq!(r.metadatas.len(), 0);
}

#[test]
fn execute_rejects_non_object_payload() {
    for payload in ["[1,2,3]", "42", "\"text\"", "null", "true"] {
        let r = run_execute(payload);
        assert!(!r.result);
        assert_eq!(r.error_string, "Data does not follow the required JSON schema.");
        assert_eq!(r.metadatas.len(), 0);
    }
}

#[test]
fn execute_rejects_object_without_recognized_fields() {
    let r = run_execute("{}");
    assert!(!r.result);
    assert_eq!(r.error_string, "No data inputted");
    assert_eq!(r.metadatas.len(), 0);
}

#[test]
fn execute_treats_non_string_fields_as_absent() {
    let r = run_execute("{\"image\": 5, \"text\": [1]}");
    assert!(!r.result);
    assert_eq!(r.error_string, "No data inputted");
    assert_eq!(r.metadatas.len(), 0);
}

#[test]
fn execute_rejects_untrusted_image_link() {
    let r = run_execute("{\"image\":\"https://evil.example/x\",\"text\":\"hi\"}");
    assert!(!r.result);
    assert_eq!(r.error_string, "Invalid image link is been used");
    assert_eq!(r.metadatas.len(), 0);
}

#[test]
fn execute_rejects_untrusted_image_link_whatever_the_text() {
    for text in ["", "anything at all", "\\u0000"] {
        let payload =
            format!("{{\"image\":\"ipfs://not-a-gateway-url\",\"text\":\"{}\"}}", text);
        let r = run_execute(&payload);
        assert!(!r.result);
        assert_eq!(r.error_string, "Invalid image link is been used");
    }
}

#[test]
fn execute_accepts_trusted_image_and_echoes_payload() {
    let payload = "{\"image\":\"https://nftstorage.link/ipfs/bafybeigd\",\"text\":\"hello\"}";
    let r = run_execute(payload);
    assert!(r.result);
    assert_eq!(r.error_string, "");
    assert_eq!(r.metadatas.len(), 1);
    let rec = &r.metadatas[0];
    assert_eq!(rec.public_key, "submitter-pk");
    assert_eq!(rec.alias, "");
    assert_eq!(rec.content, payload);
    assert_eq!(rec.loose, 1);
    assert_eq!(rec.version, "7");
}

#[test]
fn execute_accepts_text_only_payload() {
    let payload = "{\"text\":\"just words\"}";
    let r = run_execute(payload);
    assert!(r.result);
    assert_eq!(r.metadatas.len(), 1);
    assert_eq!(r.metadatas[0].content, payload);
}

#[test]
fn execute_accepts_image_only_payload() {
    let payload = "{\"image\":\"https://nftstorage.link/ipfs/abc\"}";
    let r = run_execute(payload);
    assert!(r.result);
    assert_eq!(r.error_string, "");
    assert_eq!(r.metadatas.len(), 1);
    assert_eq!(r.metadatas[0].content, payload);
}

#[test]
fn execute_accepts_empty_image_as_not_provided() {
    let payload = "{\"image\":\"\",\"text\":\"hi\"}";
    let r = run_execute(payload);
    assert!(r.result);
    assert_eq!(r.metadatas.len(), 1);
}

#[test]
fn moderation_gate_with_empty_config_flags_nothing() {
    for text in ["", "anything", "damn", "https://nftstorage.link/ipfs/x"] {
        assert!(!is_profane(text));
    }
}

#[test]
fn moderation_gate_flags_configured_substrings() {
    let blocklist: Vec<String> = vec!["".to_string(), "bad".to_string()];
    assert!(text_is_flagged("this is bad indeed", &blocklist));
    assert!(!text_is_flagged("this is fine", &blocklist));
    assert!(!text_is_flagged("BAD in upper case only", &blocklist));
}

#[test]
fn moderation_gate_ignores_empty_entries() {
    let blocklist: Vec<String> = vec!["".to_string(), "".to_string()];
    assert!(!text_is_flagged("", &blocklist));
    assert!(!text_is_flagged("whatever", &blocklist));
}

#[test]
fn moderation_gate_handles_multibyte_text() {
    let blocklist: Vec<String> = vec!["wör".to_string()];
    assert!(text_is_flagged("héllo wörld", &blocklist));
    assert!(!text_is_flagged("héllo world", &blocklist));
}

#[test]
fn link_validator_accepts_empty_and_trusted_prefix() {
    assert!(is_nft_storage_link(""));
    assert!(is_nft_storage_link("https://nftstorage.link/ipfs/"));
    assert!(is_nft_storage_link("https://nftstorage.link/ipfs/bafybeigd"));
}

#[test]
fn link_validator_rejects_everything_else() {
    assert!(!is_nft_storage_link("https://nftstorage.link/ipfs"));
    assert!(!is_nft_storage_link("HTTPS://NFTSTORAGE.LINK/IPFS/x"));
    assert!(!is_nft_storage_link("ipfs://bafybeigd"));
    assert!(!is_nft_storage_link("https://example.com/https://nftstorage.link/ipfs/x"));
}

#[test]
fn clone_always_acknowledges() {
    assert!(on_clone());
}

const EXPECTED_ATTRIBUTES: &str =
    "[{\"trait_type\":\"origin\",\"value\":\"w3wall\"},{\"trait_type\":\"type\",\"value\":\"topic\"}]";

#[test]
fn mint_with_empty_data_yields_description_and_attributes() {
    let r = on_mint(contract(), "key".to_string(), "1".to_string(), String::new());
    assert!(r.result);
    assert_eq!(r.error_string, "");
    assert_eq!(r.metadatas.len(), 2);
    assert_eq!(r.metadatas[0].alias, "description");
    assert_eq!(r.metadatas[0].content, "A subject in w3wall decentralize forum");
    assert_eq!(r.metadatas[1].alias, "attributes");
    assert_eq!(r.metadatas[1].content, EXPECTED_ATTRIBUTES);
    for rec in &r.metadatas {
        assert_eq!(rec.public_key, "contract-pk");
        assert_eq!(rec.loose, 1);
        assert_eq!(rec.version, "");
    }
}

#[test]
fn mint_with_bad_hex_reports_the_decode_failure() {
    let r = on_mint(contract(), "key".to_string(), "1".to_string(), "zz".to_string());
    assert!(!r.result);
    assert_eq!(r.metadatas.len(), 0);
    assert_eq!(r.error_string, "Invalid data structure: Invalid character 'z' at position 0");
}

#[test]
fn mint_with_odd_length_hex_reports_the_decode_failure() {
    let r = on_mint(contract(), "key".to_string(), "1".to_string(), "abc".to_string());
    assert!(!r.result);
    assert_eq!(r.metadatas.len(), 0);
    assert_eq!(r.error_string, "Invalid data structure: Odd number of digits");
}

#[test]
fn mint_with_undecodable_abi_payload_reports_the_failure() {
    let r = on_mint(contract(), "key".to_string(), "1".to_string(), "00".to_string());
    assert!(!r.result);
    assert_eq!(r.metadatas.len(), 0);
    assert!(r.error_string.starts_with("Invalid data structure: "));
    assert!(r.error_string.len() > "Invalid data structure: ".len());
}

fn encode_three_strings(a: &str, b: &str, c: &str) -> String {
    let tokens = vec![
        ethabi::Token::String(a.to_string()),
        ethabi::Token::String(b.to_string()),
        ethabi::Token::String(c.to_string()),
    ];
    hex::encode(ethabi::encode(&tokens))
}

#[test]
fn mint_with_valid_tuple_derives_all_records() {
    let data = encode_three_strings("Alice", "ipfs://x", "hello");
    let r = on_mint(contract(), "key".to_string(), "1".to_string(), data);
    assert!(r.result);
    assert_eq!(r.error_string, "");
    assert_eq!(r.metadatas.len(), 5);
    assert_eq!(r.metadatas[0].alias, "name");
    assert_eq!(r.metadatas[0].content, "Alice");
    assert_eq!(r.metadatas[1].alias, "image");
    assert_eq!(r.metadatas[1].content, "ipfs://x");
    assert_eq!(r.metadatas[2].alias, "body");
    assert_eq!(r.metadatas[2].content, "hello");
    assert_eq!(r.metadatas[3].alias, "description");
    assert_eq!(r.metadatas[4].alias, "attributes");
    assert_eq!(r.metadatas[4].content, EXPECTED_ATTRIBUTES);
    for rec in &r.metadatas {
        assert_eq!(rec.public_key, "contract-pk");
        assert_eq!(rec.loose, 1);
        assert_eq!(rec.version, "");
    }
}

fn assert_same_result(a: &MetaContractResult, b: &MetaContractResult) {
    assert_eq!(a.result, b.result);
    assert_eq!(a.error_string, b.error_string);
    assert_eq!(a.metadatas.len(), b.metadatas.len());
    for (x, y) in a.metadatas.iter().zip(b.metadatas.iter()) {
        assert_eq!(x.public_key, y.public_key);
        assert_eq!(x.alias, y.alias);
        assert_eq!(x.content, y.content);
        assert_eq!(x.loose, y.loose);
        assert_eq!(x.version, y.version);
    }
}

#[test]
fn entry_points_are_idempotent() {
    let payload = "{\"text\":\"same again\"}";
    let r1 = run_execute(payload);
    let r2 = run_execute(payload);
    assert_same_result(&r1, &r2);

    let data = encode_three_strings("a", "", "b");
    let m1 = on_mint(contract(), "k".to_string(), "1".to_string(), data.clone());
    let m2 = on_mint(contract(), "k".to_string(), "1".to_string(), data);
    assert_same_result(&m1, &m2);

    let bad1 = run_execute("not json");
    let bad2 = run_execute("not json");
    assert_same_result(&bad1, &bad2);

    assert_eq!(on_clone(), on_clone());
}

fn attrs_as_json_value(attrs: &[(&str, &str)]) -> serde_json::Value {
    let mut list: Vec<serde_json::Value> = Vec::new();
    for (t, v) in attrs {
        let mut obj = serde_json::Map::new();
        obj.insert("trait_type".to_string(), serde_json::Value::String(t.to_string()));
        obj.insert("value".to_string(), serde_json::Value::String(v.to_string()));
        list.push(serde_json::Value::Object(obj));
    }
    serde_json::Value::Array(list)
}

fn attrs_as_library_values(attrs: &[(&str, &str)]) -> Vec<OpenSeaAttributes> {
    attrs
        .iter()
        .map(|(t, v)| OpenSeaAttributes { trait_type: t.to_string(), value: v.to_string() })
        .collect()
}

#[test]
fn attribute_serialization_matches_serde_json() {
    let cases: Vec<Vec<(&str, &str)>> = vec![
        vec![],
        vec![("origin", "w3wall"), ("type", "topic")],
        vec![("quote", "a\"b"), ("backslash", "a\\b")],
        vec![("newline", "a\nb"), ("tab", "a\tb"), ("cr", "a\rb")],
        vec![("control", "a\u{1}b\u{1f}c"), ("backspace", "a\u{8}b\u{c}c")],
        vec![("unicode", "héllo wörld ✓")],
    ];
    for case in cases {
        let ours = attributes_json(&attrs_as_library_values(&case));
        let expected = serde_json::to_string(&attrs_as_json_value(&case)).unwrap();
        assert_eq!(ours, expected);
    }
}

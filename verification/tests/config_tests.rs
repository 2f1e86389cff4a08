use run_ledger::{resolve_concurrency, BlockType, RunConfig};
use serde_json::{Number, Value};
use std::str::FromStr;

fn object(members: Vec<(&str, Value)>) -> Value {
    let mut map = serde_json::Map::new();
    for (key, value) in members {
        map.insert(key.to_string(), value);
    }
    Value::Object(map)
}

fn config(entries: Vec<(&str, Value)>) -> RunConfig {
    RunConfig {
        blocks: entries
            .into_iter()
            .map(|(name, blob)| (name.to_string(), blob))
            .collect(),
    }
}

#[test]
fn configured_concurrency_is_returned() {
    let c = config(vec![("summarize", object(vec![("concurrency", Value::from(3u64))]))]);
    assert_eq!(c.concurrency_for_block(BlockType::LLM, "summarize"), 3);
}

#[test]
fn empty_config_gives_llm_default() {
    let c = config(vec![]);
    assert_eq!(c.concurrency_for_block(BlockType::LLM, "summarize"), 8);
    assert_eq!(RunConfig::new().concurrency_for_block(BlockType::LLM, "summarize"), 8);
}

#[test]
fn default_table_by_block_type() {
    let c = config(vec![("other", object(vec![("concurrency", Value::from(3u64))]))]);
    assert_eq!(c.concurrency_for_block(BlockType::Input, "b"), 64);
    assert_eq!(c.concurrency_for_block(BlockType::Data, "b"), 64);
    assert_eq!(c.concurrency_for_block(BlockType::Code, "b"), 64);
    assert_eq!(c.concurrency_for_block(BlockType::LLM, "b"), 8);
    assert_eq!(c.concurrency_for_block(BlockType::MapBlock, "b"), 64);
    assert_eq!(c.concurrency_for_block(BlockType::Reduce, "b"), 64);
}

#[test]
fn configured_concurrency_ignores_block_type() {
    let c = config(vec![("b", object(vec![("concurrency", Value::from(5u64))]))]);
    let types = [
        BlockType::Input,
        BlockType::Data,
        BlockType::Code,
        BlockType::LLM,
        BlockType::MapBlock,
        BlockType::Reduce,
    ];
    for t in types {
        assert_eq!(c.concurrency_for_block(t, "b"), 5);
    }
}

#[test]
fn zero_concurrency_is_accepted() {
    let c = config(vec![("b", object(vec![("concurrency", Value::from(0u64))]))]);
    assert_eq!(c.concurrency_for_block(BlockType::Code, "b"), 0);
}

#[test]
fn concurrency_that_is_no_unsigned_integer_falls_back() {
    let negative = config(vec![("b", object(vec![("concurrency", Value::from(-64i64))]))]);
    assert_eq!(negative.concurrency_for_block(BlockType::LLM, "b"), 8);
    let float = config(vec![(
        "b",
        object(vec![("concurrency", Value::Number(Number::from_f64(256.0).unwrap()))]),
    )]);
    assert_eq!(float.concurrency_for_block(BlockType::Code, "b"), 64);
    let text = config(vec![("b", object(vec![("concurrency", Value::String("3".to_string()))]))]);
    assert_eq!(text.concurrency_for_block(BlockType::LLM, "b"), 8);
}

#[test]
fn blob_without_concurrency_falls_back() {
    let other_member = config(vec![("b", object(vec![("temperature", Value::from(3u64))]))]);
    assert_eq!(other_member.concurrency_for_block(BlockType::LLM, "b"), 8);
    let no_object = config(vec![("b", Value::from(3u64))]);
    assert_eq!(no_object.concurrency_for_block(BlockType::LLM, "b"), 8);
    let array = config(vec![("b", Value::Array(vec![Value::from(3u64)]))]);
    assert_eq!(array.concurrency_for_block(BlockType::Reduce, "b"), 64);
}

#[test]
fn nested_member_is_not_mistaken_for_the_blob() {
    let inner = object(vec![("concurrency", Value::from(2u64))]);
    let c = config(vec![("b", object(vec![("nested", inner)]))]);
    assert_eq!(c.concurrency_for_block(BlockType::LLM, "b"), 8);
}

#[test]
fn config_for_block_finds_the_named_blob() {
    let blob_a = object(vec![("concurrency", Value::from(1u64))]);
    let blob_b = object(vec![("model", Value::String("m".to_string()))]);
    let c = config(vec![("a", blob_a.clone()), ("b", blob_b.clone())]);
    assert_eq!(c.config_for_block("a"), Some(&blob_a));
    assert_eq!(c.config_for_block("b"), Some(&blob_b));
    assert_eq!(c.config_for_block("c"), None);
    assert_eq!(c.config_for_block(""), None);
}

#[test]
fn first_entry_of_a_name_is_the_configuration() {
    let c = config(vec![
        ("a", object(vec![("concurrency", Value::from(1u64))])),
        ("a", object(vec![("concurrency", Value::from(2u64))])),
    ]);
    assert_eq!(c.concurrency_for_block(BlockType::Code, "a"), 1);
}

#[test]
fn resolve_concurrency_exact_values() {
    assert_eq!(resolve_concurrency(BlockType::LLM, None), 8);
    assert_eq!(resolve_concurrency(BlockType::Input, None), 64);
    assert_eq!(resolve_concurrency(BlockType::LLM, Some(0)), 0);
    assert_eq!(resolve_concurrency(BlockType::Reduce, Some(1000)), 1000);
}

#[test]
fn config_clone_keeps_nested_values() {
    let nested = object(vec![(
        "outer",
        Value::Array(vec![object(vec![("k", Value::Null)]), Value::Bool(true)]),
    )]);
    let c = config(vec![("a", nested)]);
    let d = c.clone();
    assert_eq!(c, d);
    assert_eq!(d.blocks.len(), 1);
}

#[test]
fn block_type_rendering() {
    assert_eq!(BlockType::Input.to_string(), "input");
    assert_eq!(BlockType::Data.to_string(), "data");
    assert_eq!(BlockType::Code.to_string(), "code");
    assert_eq!(BlockType::LLM.to_string(), "llm");
    assert_eq!(BlockType::MapBlock.to_string(), "map");
    assert_eq!(BlockType::Reduce.to_string(), "reduce");
}

#[test]
fn insert_configures_and_replaces() {
    let mut c = RunConfig::new();
    c.insert("a".to_string(), object(vec![("concurrency", Value::from(1u64))]));
    c.insert("b".to_string(), object(vec![("concurrency", Value::from(2u64))]));
    assert_eq!(c.blocks.len(), 2);
    assert_eq!(c.concurrency_for_block(BlockType::LLM, "a"), 1);
    assert_eq!(c.concurrency_for_block(BlockType::LLM, "b"), 2);
    c.insert("a".to_string(), object(vec![("concurrency", Value::from(7u64))]));
    assert_eq!(c.blocks.len(), 2);
    assert_eq!(c.blocks[0].0, "a");
    assert_eq!(c.concurrency_for_block(BlockType::LLM, "a"), 7);
    assert_eq!(c.concurrency_for_block(BlockType::LLM, "b"), 2);
    assert_eq!(c.concurrency_for_block(BlockType::LLM, "c"), 8);
}

#[test]
fn block_type_parses_its_tokens() {
    let types = [
        BlockType::Input,
        BlockType::Data,
        BlockType::Code,
        BlockType::LLM,
        BlockType::MapBlock,
        BlockType::Reduce,
    ];
    for t in types {
        assert_eq!(BlockType::from_str(&t.to_string()), Ok(t));
    }
    assert_eq!("map".parse::<BlockType>(), Ok(BlockType::MapBlock));
    assert_eq!("llm".parse::<BlockType>(), Ok(BlockType::LLM));
}

#[test]
fn unknown_block_type_token_is_a_fault() {
    let e = BlockType::from_str("LLM").unwrap_err();
    assert_eq!(e.message(), "Unknown BlockType");
    assert!(BlockType::from_str("").is_err());
    assert!(BlockType::from_str("mapper").is_err());
}

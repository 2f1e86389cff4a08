use run_ledger::{BlockStatus, BlockType, ParseError, Run, RunConfig, RunStatus, Status};
use std::str::FromStr;

fn entry(block_type: BlockType, name: &str, status: Status, ok: usize, err: usize) -> BlockStatus {
    BlockStatus {
        block_type,
        name: name.to_string(),
        status,
        success_count: ok,
        error_count: err,
    }
}

#[test]
fn status_renders_lower_case() {
    assert_eq!(Status::Running.to_string(), "running");
    assert_eq!(Status::Succeeded.to_string(), "succeeded");
    assert_eq!(Status::Errored.to_string(), "errored");
}

#[test]
fn status_parses_its_tokens() {
    assert_eq!(Status::from_str("running"), Ok(Status::Running));
    assert_eq!(Status::from_str("succeeded"), Ok(Status::Succeeded));
    assert_eq!(Status::from_str("errored"), Ok(Status::Errored));
    assert_eq!("errored".parse::<Status>(), Ok(Status::Errored));
}

#[test]
fn status_round_trips_through_its_token() {
    for s in [Status::Running, Status::Succeeded, Status::Errored] {
        assert_eq!(Status::from_str(&s.to_string()), Ok(s));
    }
}

#[test]
fn unknown_status_token_is_a_fault() {
    let e = Status::from_str("done").unwrap_err();
    assert_eq!(e.message(), "Unknown Status");
    assert_eq!(e, ParseError::with_message("Unknown Status"));
    assert!(Status::from_str("Running").is_err());
    assert!(Status::from_str("").is_err());
    assert!(Status::from_str("running ").is_err());
    assert!("failed".parse::<Status>().is_err());
}

#[test]
fn new_ledger_is_running_and_empty() {
    let s = RunStatus::new();
    assert_eq!(s.run_status(), Status::Running);
    assert!(s.blocks().is_empty());
}

#[test]
fn set_block_status_appends_new_keys_in_order() {
    let mut s = RunStatus::new();
    s.set_block_status(entry(BlockType::Input, "in", Status::Succeeded, 1, 0));
    s.set_block_status(entry(BlockType::LLM, "gen", Status::Running, 0, 0));
    s.set_block_status(entry(BlockType::Code, "gen", Status::Running, 0, 0));
    let names: Vec<(BlockType, String)> =
        s.blocks().iter().map(|b| (b.block_type, b.name.clone())).collect();
    assert_eq!(
        names,
        vec![
            (BlockType::Input, "in".to_string()),
            (BlockType::LLM, "gen".to_string()),
            (BlockType::Code, "gen".to_string()),
        ]
    );
}

#[test]
fn set_block_status_twice_keeps_one_entry_with_latest_values() {
    let mut s = RunStatus::new();
    s.set_block_status(entry(BlockType::Input, "in", Status::Succeeded, 4, 0));
    s.set_block_status(entry(BlockType::LLM, "gen", Status::Running, 1, 0));
    s.set_block_status(entry(BlockType::Reduce, "out", Status::Running, 0, 0));
    s.set_block_status(entry(BlockType::LLM, "gen", Status::Errored, 3, 1));
    assert_eq!(
        s.blocks(),
        &vec![
            entry(BlockType::Input, "in", Status::Succeeded, 4, 0),
            entry(BlockType::LLM, "gen", Status::Errored, 3, 1),
            entry(BlockType::Reduce, "out", Status::Running, 0, 0),
        ]
    );
    let count = s
        .blocks()
        .iter()
        .filter(|b| b.block_type == BlockType::LLM && b.name == "gen")
        .count();
    assert_eq!(count, 1);
}

#[test]
fn same_name_with_another_type_is_another_key() {
    let mut s = RunStatus::new();
    s.set_block_status(entry(BlockType::LLM, "x", Status::Running, 0, 0));
    s.set_block_status(entry(BlockType::Code, "x", Status::Succeeded, 1, 0));
    assert_eq!(s.blocks().len(), 2);
    s.set_block_status(entry(BlockType::LLM, "x", Status::Succeeded, 2, 0));
    assert_eq!(s.blocks().len(), 2);
    assert_eq!(s.blocks()[0], entry(BlockType::LLM, "x", Status::Succeeded, 2, 0));
    assert_eq!(s.blocks()[1], entry(BlockType::Code, "x", Status::Succeeded, 1, 0));
}

#[test]
fn set_block_status_replaces_the_first_of_doubled_keys() {
    let mut s = RunStatus::from_parts(
        Status::Running,
        vec![
            entry(BlockType::LLM, "x", Status::Running, 0, 0),
            entry(BlockType::LLM, "x", Status::Running, 9, 9),
        ],
    );
    s.set_block_status(entry(BlockType::LLM, "x", Status::Errored, 1, 1));
    assert_eq!(s.blocks()[0], entry(BlockType::LLM, "x", Status::Errored, 1, 1));
    assert_eq!(s.blocks()[1], entry(BlockType::LLM, "x", Status::Running, 9, 9));
}

#[test]
fn set_run_status_overwrites_and_keeps_the_ledger() {
    let mut s = RunStatus::new();
    s.set_block_status(entry(BlockType::Input, "in", Status::Succeeded, 1, 0));
    s.set_run_status(Status::Errored);
    assert_eq!(s.run_status(), Status::Errored);
    assert_eq!(s.blocks().len(), 1);
    s.set_run_status(Status::Succeeded);
    assert_eq!(s.run_status(), Status::Succeeded);
}

#[test]
fn run_status_clone_is_equal() {
    let mut s = RunStatus::new();
    s.set_block_status(entry(BlockType::Input, "in", Status::Succeeded, 1, 0));
    s.set_run_status(Status::Succeeded);
    assert_eq!(s.clone(), s);
}

#[test]
fn run_mutators_reach_the_ledger() {
    let mut run = Run::new("r1", 7, "hash", RunConfig::new());
    run.set_block_status(entry(BlockType::LLM, "gen", Status::Running, 0, 0));
    run.set_block_status(entry(BlockType::LLM, "gen", Status::Errored, 1, 1));
    assert_eq!(run.status().blocks().len(), 1);
    assert_eq!(run.status().blocks()[0].error_count, 1);
    assert_eq!(run.status().run_status(), Status::Running);
    run.set_run_status(Status::Errored);
    assert_eq!(run.status().run_status(), Status::Errored);
    assert_eq!(run.status().blocks().len(), 1);
    run.set_status(RunStatus::new());
    assert_eq!(run.status().run_status(), Status::Running);
    assert!(run.status().blocks().is_empty());
    assert_eq!(run.run_id(), "r1");
}

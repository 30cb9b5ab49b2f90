use embedding_core::errors::ResolveError;
use embedding_core::identity::WeightLayout;
use embedding_core::resolver::{collect_paths, next_action, Action, FetchOutcome};

fn fetched(path: &str) -> FetchOutcome {
    FetchOutcome::Fetched(path.to_string())
}

#[test]
fn fetched_answer_gives_its_path() {
    assert_eq!(fetched("/cache/config.json").path(), Ok("/cache/config.json".to_string()));
    assert_eq!(FetchOutcome::NotFound.path(), Err(ResolveError::NotFound));
    assert_eq!(FetchOutcome::IoFailure.path(), Err(ResolveError::IoFailure));
}

#[test]
fn all_fetched_gives_all_paths_in_order() {
    let outcomes = vec![fetched("b"), fetched("a"), fetched("c")];
    assert_eq!(
        collect_paths(&outcomes),
        Ok(vec!["b".to_string(), "a".to_string(), "c".to_string()])
    );
    assert_eq!(collect_paths(&vec![]), Ok(vec![]));
}

#[test]
fn first_failure_wins() {
    let outcomes = vec![fetched("a"), FetchOutcome::IoFailure, FetchOutcome::NotFound];
    assert_eq!(collect_paths(&outcomes), Err(ResolveError::IoFailure));
    let outcomes = vec![FetchOutcome::NotFound, fetched("a"), FetchOutcome::IoFailure];
    assert_eq!(collect_paths(&outcomes), Err(ResolveError::NotFound));
}

fn fetch_name(action: Action) -> String {
    match action {
        Action::Fetch(name) => name,
        other => panic!("expected a fetch, got {:?}", other),
    }
}

fn failure(action: Action) -> ResolveError {
    match action {
        Action::Fail(e) => e,
        other => panic!("expected a failure, got {:?}", other),
    }
}

#[test]
fn requests_go_out_in_order() {
    let mut answers = vec![];
    assert_eq!(fetch_name(next_action(WeightLayout::Single, &answers, &None)), "config.json");
    answers.push(fetched("/c/config.json"));
    assert_eq!(fetch_name(next_action(WeightLayout::Single, &answers, &None)), "tokenizer.json");
    answers.push(fetched("/c/tokenizer.json"));
    assert_eq!(
        fetch_name(next_action(WeightLayout::Single, &answers, &None)),
        "model.safetensors"
    );
    assert_eq!(
        fetch_name(next_action(WeightLayout::Sharded, &answers, &None)),
        "model.safetensors.index.json"
    );
}

#[test]
fn single_layout_finishes_after_three_files() {
    let answers = vec![fetched("/c/config.json"), fetched("/c/tokenizer.json"), fetched("/c/w")];
    match next_action(WeightLayout::Single, &answers, &None) {
        Action::Finish(artifacts) => {
            assert_eq!(artifacts.config_path, "/c/config.json");
            assert_eq!(artifacts.tokenizer_path, "/c/tokenizer.json");
            assert_eq!(artifacts.weight_paths, vec!["/c/w".to_string()]);
        }
        other => panic!("expected the end, got {:?}", other),
    }
}

#[test]
fn sharded_layout_reads_the_index_then_fetches_each_shard() {
    let mut answers = vec![fetched("/c/config.json"), fetched("/c/tokenizer.json"), fetched("/c/i")];
    match next_action(WeightLayout::Sharded, &answers, &None) {
        Action::ReadIndex(path) => assert_eq!(path, "/c/i"),
        other => panic!("expected to read the index, got {:?}", other),
    }
    let shards = Some(Ok(vec!["s1".to_string(), "s2".to_string()]));
    assert_eq!(fetch_name(next_action(WeightLayout::Sharded, &answers, &shards)), "s1");
    answers.push(fetched("/c/s1"));
    assert_eq!(fetch_name(next_action(WeightLayout::Sharded, &answers, &shards)), "s2");
    answers.push(fetched("/c/s2"));
    match next_action(WeightLayout::Sharded, &answers, &shards) {
        Action::Finish(artifacts) => {
            assert_eq!(artifacts.config_path, "/c/config.json");
            assert_eq!(artifacts.tokenizer_path, "/c/tokenizer.json");
            assert_eq!(artifacts.weight_paths, vec!["/c/s1".to_string(), "/c/s2".to_string()]);
        }
        other => panic!("expected the end, got {:?}", other),
    }
}

#[test]
fn malformed_index_fetches_no_shard() {
    let answers = vec![fetched("/c/config.json"), fetched("/c/tokenizer.json"), fetched("/c/i")];
    let shards = Some(embedding_core::shard_index::hub_load_safetensors("[\"a\", \"b\"]"));
    assert_eq!(
        failure(next_action(WeightLayout::Sharded, &answers, &shards)),
        ResolveError::MalformedIndex
    );
    let empty = Some(embedding_core::shard_index::hub_load_safetensors("{\"weight_map\": {}}"));
    assert_eq!(
        failure(next_action(WeightLayout::Sharded, &answers, &empty)),
        ResolveError::MalformedIndex
    );
    let unreadable = Some(Err(ResolveError::IoFailure));
    assert_eq!(
        failure(next_action(WeightLayout::Sharded, &answers, &unreadable)),
        ResolveError::IoFailure
    );
}

#[test]
fn index_without_files_is_refused() {
    let answers = vec![fetched("/c/config.json"), fetched("/c/tokenizer.json"), fetched("/c/i")];
    let shards = Some(Ok(vec![]));
    assert_eq!(
        failure(next_action(WeightLayout::Sharded, &answers, &shards)),
        ResolveError::MalformedIndex
    );
}

#[test]
fn a_failed_answer_ends_the_resolution() {
    let answers = vec![FetchOutcome::NotFound];
    assert_eq!(failure(next_action(WeightLayout::Single, &answers, &None)), ResolveError::NotFound);
    let answers = vec![fetched("/c/config.json"), FetchOutcome::IoFailure];
    assert_eq!(
        failure(next_action(WeightLayout::Sharded, &answers, &None)),
        ResolveError::IoFailure
    );
    let answers = vec![
        fetched("/c/config.json"),
        fetched("/c/tokenizer.json"),
        fetched("/c/i"),
        fetched("/c/s1"),
        FetchOutcome::NotFound,
    ];
    let shards = Some(Ok(vec!["s1".to_string(), "s2".to_string()]));
    assert_eq!(
        failure(next_action(WeightLayout::Sharded, &answers, &shards)),
        ResolveError::NotFound
    );
}

#[test]
fn ten_weights_in_two_shards_cost_two_fetches() {
    let mut text = String::from("{\"weight_map\": {");
    for i in 0..10 {
        if i > 0 {
            text.push_str(", ");
        }
        text.push_str(&format!("\"w{}\": \"shard-{}.safetensors\"", i, i % 2));
    }
    text.push_str("}}");
    let shards = Some(embedding_core::shard_index::hub_load_safetensors(&text));
    let mut answers = vec![fetched("/c/config.json"), fetched("/c/tokenizer.json"), fetched("/c/i")];
    let mut asked: Vec<String> = vec![];
    loop {
        match next_action(WeightLayout::Sharded, &answers, &shards) {
            Action::Fetch(name) => {
                answers.push(fetched(&format!("/c/{}", name)));
                asked.push(name);
            }
            Action::Finish(artifacts) => {
                assert_eq!(artifacts.weight_paths.len(), 2);
                break;
            }
            other => panic!("unexpected step {:?}", other),
        }
    }
    asked.sort();
    assert_eq!(asked, vec!["shard-0.safetensors".to_string(), "shard-1.safetensors".to_string()]);
}

//! Resolution of a model's artifacts: which files are asked for, and what the
//! answers of the artifact store add up to.

use crate::errors::ResolveError;
use crate::identity::{config_file, tokenizer_file, weight_entry_file, weight_entry_of, WeightLayout};
use crate::shard_index::{json_member, name_texts, shard_files_of};
use vstd::prelude::*;

verus! {

/// The answer of the artifact store to one request.
#[derive(Clone, Debug)]
pub enum FetchOutcome {
    /// The file is there, at this local path.
    Fetched(String),
    /// The store has no such file.
    NotFound,
    /// The file could not be written or read locally.
    IoFailure,
}

impl FetchOutcome {
    /// The error that this answer stands for, if it is one.
    pub open spec fn failure(&self) -> Option<ResolveError> {
        match *self {
            FetchOutcome::Fetched(_) => None,
            FetchOutcome::NotFound => Some(ResolveError::NotFound),
            FetchOutcome::IoFailure => Some(ResolveError::IoFailure),
        }
    }

    /// The local path of a fetched file.
    pub open spec fn path_text(&self) -> Seq<char> {
        match *self {
            FetchOutcome::Fetched(path) => path@,
            _ => Seq::empty(),
        }
    }

    /// The local path, or the error that the answer stands for.
    pub fn path(&self) -> (r: Result<String, ResolveError>)
        ensures
            match r {
                Ok(path) => self.failure() is None && path@ == self.path_text(),
                Err(e) => self.failure() == Some(e),
            },
    {
        match self {
            FetchOutcome::Fetched(path) => Ok(path.clone()),
            FetchOutcome::NotFound => Err(ResolveError::NotFound),
            FetchOutcome::IoFailure => Err(ResolveError::IoFailure),
        }
    }
}

/// The error of the first answer that is one.
pub open spec fn first_failure(outcomes: Seq<FetchOutcome>) -> Option<ResolveError>
    decreases outcomes.len(),
{
    if outcomes.len() == 0 {
        None
    } else {
        match first_failure(outcomes.drop_last()) {
            Some(e) => Some(e),
            None => outcomes.last().failure(),
        }
    }
}

/// The local paths of a list of answers.
pub open spec fn path_texts(outcomes: Seq<FetchOutcome>) -> Seq<Seq<char>> {
    Seq::new(outcomes.len(), |i: int| outcomes[i].path_text())
}

/// Without a failure every answer is a fetched file, and the other way round.
pub proof fn no_failure_means_all_fetched(outcomes: Seq<FetchOutcome>)
    ensures
        first_failure(outcomes) is None <==> forall|i: int|
            0 <= i < outcomes.len() ==> (#[trigger] outcomes[i]).failure() is None,
    decreases outcomes.len(),
{
    if outcomes.len() > 0 {
        let init = outcomes.drop_last();
        no_failure_means_all_fetched(init);
        if first_failure(outcomes) is None {
            assert forall|i: int| 0 <= i < outcomes.len() implies (#[trigger] outcomes[i]).failure()
                is None by {
                if i < init.len() {
                    assert(init[i] == outcomes[i]);
                }
            }
        }
        if forall|i: int| 0 <= i < outcomes.len() ==> (#[trigger] outcomes[i]).failure() is None {
            assert forall|i: int| 0 <= i < init.len() implies (#[trigger] init[i]).failure()
                is None by {
                assert(init[i] == outcomes[i]);
            }
            assert(outcomes.last() == outcomes[outcomes.len() - 1]);
        }
    }
}

/// The local paths of a list of answers, all or nothing: the paths in the
/// order of the answers where every file was fetched, else the error of the
/// first answer that is one.
pub fn collect_paths(outcomes: &Vec<FetchOutcome>) -> (r: Result<Vec<String>, ResolveError>)
    ensures
        match r {
            Ok(paths) => first_failure(outcomes@) is None && name_texts(paths@) == path_texts(
                outcomes@,
            ),
            Err(e) => first_failure(outcomes@) == Some(e),
        },
{
    let mut paths: Vec<String> = Vec::new();
    let mut i: usize = 0;
    while i < outcomes.len()
        invariant
            i <= outcomes@.len(),
            first_failure(outcomes@.take(i as int)) is None,
            name_texts(paths@) == path_texts(outcomes@.take(i as int)),
        decreases outcomes@.len() - i,
    {
        proof {
            assert(outcomes@.take(i + 1).drop_last() == outcomes@.take(i as int));
            assert(outcomes@.take(i + 1).last() == outcomes@[i as int]);
        }
        let ghost before = name_texts(paths@);
        match outcomes[i].path() {
            Ok(path) => {
                paths.push(path);
                assert(name_texts(paths@) =~= before.push(outcomes@[i as int].path_text()));
            },
            Err(e) => {
                proof {
                    failure_persists(outcomes@, i + 1);
                }
                return Err(e);
            },
        }
        i += 1;
        assert(name_texts(paths@) =~= path_texts(outcomes@.take(i as int)));
    }
    assert(outcomes@.take(i as int) == outcomes@);
    Ok(paths)
}

/// A failure among the first `n` answers is the first failure of the whole
/// list.
pub proof fn failure_persists(outcomes: Seq<FetchOutcome>, n: int)
    requires
        0 <= n <= outcomes.len(),
        first_failure(outcomes.take(n)) is Some,
    ensures
        first_failure(outcomes) == first_failure(outcomes.take(n)),
    decreases outcomes.len() - n,
{
    if n < outcomes.len() {
        assert(outcomes.take(n + 1).drop_last() == outcomes.take(n));
        failure_persists(outcomes, n + 1);
    } else {
        assert(outcomes.take(n) == outcomes);
    }
}

/// The local files of one model: its configuration, its tokenizer and its
/// weights, one file or several shards.
#[derive(Clone, Debug)]
pub struct ResolvedArtifacts {
    pub config_path: String,
    pub tokenizer_path: String,
    pub weight_paths: Vec<String>,
}

impl ResolvedArtifacts {
    /// A resolved set is never without weights.
    pub open spec fn well_formed(&self) -> bool {
        self.weight_paths@.len() >= 1
    }
}

/// What the caller that talks to the artifact store has to do next.
#[derive(Debug)]
pub enum Action {
    /// Ask the store for the file of this name and add its answer to the list.
    Fetch(String),
    /// Read the shard index at this local path and work out the shards it names.
    ReadIndex(String),
    /// Every file is there: the resolution is done.
    Finish(ResolvedArtifacts),
    /// Stop: the resolution has failed, and no set of artifacts is kept.
    Fail(ResolveError),
}

/// The mathematical content of an [`Action`].
pub enum ActionModel {
    Fetch(Seq<char>),
    ReadIndex(Seq<char>),
    /// The paths of the configuration, of the tokenizer and of the weights.
    Finish(Seq<char>, Seq<char>, Seq<Seq<char>>),
    Fail(ResolveError),
}

impl View for Action {
    type V = ActionModel;

    open spec fn view(&self) -> ActionModel {
        match *self {
            Action::Fetch(name) => ActionModel::Fetch(name@),
            Action::ReadIndex(path) => ActionModel::ReadIndex(path@),
            Action::Finish(artifacts) => ActionModel::Finish(
                artifacts.config_path@,
                artifacts.tokenizer_path@,
                name_texts(artifacts.weight_paths@),
            ),
            Action::Fail(e) => ActionModel::Fail(e),
        }
    }
}

/// What is known of the shard index: nothing yet, that it is unusable, or the
/// files it names.
pub open spec fn shards_model(shards: Option<Result<Vec<String>, ResolveError>>) -> Option<
    Result<Seq<Seq<char>>, ResolveError>,
> {
    match shards {
        None => None,
        Some(Err(e)) => Some(Err(e)),
        Some(Ok(files)) => Some(Ok(name_texts(files@))),
    }
}

/// The step that is due after the answers so far. The requests go out in a
/// fixed order: configuration, tokenizer, then the weight file or, for sharded
/// weights, the index and each shard it names. The first failed answer ends
/// the resolution with its error, and so does an unusable index or one that
/// names no file.
pub open spec fn action_of(
    layout: WeightLayout,
    answers: Seq<FetchOutcome>,
    shards: Option<Result<Seq<Seq<char>>, ResolveError>>,
) -> ActionModel {
    if first_failure(answers) is Some {
        ActionModel::Fail(first_failure(answers).unwrap())
    } else if answers.len() == 0 {
        ActionModel::Fetch("config.json"@)
    } else if answers.len() == 1 {
        ActionModel::Fetch("tokenizer.json"@)
    } else if answers.len() == 2 {
        ActionModel::Fetch(weight_entry_of(layout))
    } else {
        match layout {
            WeightLayout::Single => ActionModel::Finish(
                answers[0].path_text(),
                answers[1].path_text(),
                path_texts(answers.subrange(2, answers.len() as int)),
            ),
            WeightLayout::Sharded => match shards {
                None => ActionModel::ReadIndex(answers[2].path_text()),
                Some(Err(e)) => ActionModel::Fail(e),
                Some(Ok(files)) => if answers.len() - 3 < files.len() {
                    ActionModel::Fetch(files[answers.len() - 3])
                } else if files.len() == 0 {
                    ActionModel::Fail(ResolveError::MalformedIndex)
                } else {
                    ActionModel::Finish(
                        answers[0].path_text(),
                        answers[1].path_text(),
                        path_texts(answers.subrange(3, answers.len() as int)),
                    )
                },
            },
        }
    }
}

/// The paths from index `from` on.
fn paths_from(paths: &Vec<String>, from: usize) -> (tail: Vec<String>)
    requires
        from <= paths@.len(),
    ensures
        name_texts(tail@) == name_texts(paths@).subrange(from as int, paths@.len() as int),
{
    let mut tail: Vec<String> = Vec::new();
    let mut i: usize = from;
    while i < paths.len()
        invariant
            from <= i <= paths@.len(),
            name_texts(tail@) == name_texts(paths@).subrange(from as int, i as int),
        decreases paths@.len() - i,
    {
        let ghost before = name_texts(tail@);
        tail.push(paths[i].clone());
        assert(name_texts(tail@) =~= before.push(paths@[i as int]@));
        i += 1;
        assert(name_texts(tail@) =~= name_texts(paths@).subrange(from as int, i as int));
    }
    tail
}

/// Decides the next step of a resolution from the answers that the store has
/// given so far, in the order of the requests, and from what is known of the
/// shard index.
pub fn next_action(
    layout: WeightLayout,
    answers: &Vec<FetchOutcome>,
    shards: &Option<Result<Vec<String>, ResolveError>>,
) -> (action: Action)
    ensures
        action@ == action_of(layout, answers@, shards_model(*shards)),
        action matches Action::Finish(artifacts) ==> artifacts.well_formed(),
{
    let paths = match collect_paths(answers) {
        Ok(paths) => paths,
        Err(e) => {
            return Action::Fail(e);
        },
    };
    let n = paths.len();
    assert(name_texts(paths@).len() == path_texts(answers@).len());
    if n == 0 {
        return Action::Fetch(config_file());
    }
    if n == 1 {
        return Action::Fetch(tokenizer_file());
    }
    if n == 2 {
        return Action::Fetch(weight_entry_file(layout));
    }
    assert(name_texts(paths@)[0] == path_texts(answers@)[0]);
    assert(name_texts(paths@)[1] == path_texts(answers@)[1]);
    assert(name_texts(paths@)[2] == path_texts(answers@)[2]);
    match layout {
        WeightLayout::Single => {
            let weight_paths = paths_from(&paths, 2);
            assert(name_texts(weight_paths@) =~= path_texts(
                answers@.subrange(2, answers@.len() as int),
            ));
            assert(name_texts(weight_paths@).len() == weight_paths@.len());
            Action::Finish(
                ResolvedArtifacts {
                    config_path: paths[0].clone(),
                    tokenizer_path: paths[1].clone(),
                    weight_paths,
                },
            )
        },
        WeightLayout::Sharded => match shards {
            None => Action::ReadIndex(paths[2].clone()),
            Some(Err(e)) => Action::Fail(*e),
            Some(Ok(files)) => {
                assert(name_texts(files@).len() == files@.len());
                if n - 3 < files.len() {
                    assert(name_texts(files@)[n - 3] == files@[n - 3]@);
                    Action::Fetch(files[n - 3].clone())
                } else if files.len() == 0 {
                    Action::Fail(ResolveError::MalformedIndex)
                } else {
                    let weight_paths = paths_from(&paths, 3);
                    assert(name_texts(weight_paths@) =~= path_texts(
                        answers@.subrange(3, answers@.len() as int),
                    ));
                    assert(name_texts(weight_paths@).len() == weight_paths@.len());
                    Action::Finish(
                        ResolvedArtifacts {
                            config_path: paths[0].clone(),
                            tokenizer_path: paths[1].clone(),
                            weight_paths,
                        },
                    )
                }
            },
        },
    }
}

/// A failed answer ends the resolution at once, with the error of the first
/// one, whatever the layout and whatever is known of the index.
pub proof fn failure_ends_resolution(
    layout: WeightLayout,
    answers: Seq<FetchOutcome>,
    shards: Option<Result<Seq<Seq<char>>, ResolveError>>,
)
    requires
        first_failure(answers) is Some,
    ensures
        action_of(layout, answers, shards) == ActionModel::Fail(first_failure(answers).unwrap()),
{
}

/// A model with a single weight file is resolved by three requests: once the
/// three answers are there, the resolution is done, with one weight path.
pub proof fn single_file_takes_three_requests(
    answers: Seq<FetchOutcome>,
    shards: Option<Result<Seq<Seq<char>>, ResolveError>>,
)
    requires
        answers.len() == 3,
        first_failure(answers) is None,
    ensures
        action_of(WeightLayout::Single, answers, shards) == ActionModel::Finish(
            answers[0].path_text(),
            answers[1].path_text(),
            seq![answers[2].path_text()],
        ),
{
    assert(path_texts(answers.subrange(2, 3)) =~= seq![answers[2].path_text()]);
}

/// With an unusable index no shard is ever asked for: once the index is known
/// to be unusable, the step is to fail with its error.
pub proof fn unusable_index_fetches_nothing(answers: Seq<FetchOutcome>, error: ResolveError)
    requires
        answers.len() >= 3,
        first_failure(answers) is None,
    ensures
        action_of(WeightLayout::Sharded, answers, Some(Err(error))) == ActionModel::Fail(error),
{
}

/// A malformed index ends the resolution before any shard is asked for. Where
/// the text of the index is no JSON document, has no weight map, has one that
/// is no object or one that names no file, the step that follows the reading
/// of the index is to fail with `MalformedIndex`: it is never a request, and
/// never the end with a set of artifacts.
pub proof fn malformed_index_ends_resolution(answers: Seq<FetchOutcome>, index: Seq<char>)
    requires
        answers.len() >= 3,
        first_failure(answers) is None,
        shard_files_of(json_member(index, "weight_map"@)) is Err,
    ensures
        action_of(
            WeightLayout::Sharded,
            answers,
            Some(shard_files_of(json_member(index, "weight_map"@))),
        ) == ActionModel::Fail(ResolveError::MalformedIndex),
{
}

/// Each file that the index names is asked for once, in the order of the
/// list: after `k` answers to shard requests the next request is for the file
/// at `k`, and after as many answers as there are files the resolution is done,
/// with one weight path for each file.
pub proof fn each_shard_is_fetched_once(answers: Seq<FetchOutcome>, files: Seq<Seq<char>>)
    requires
        answers.len() >= 3,
        first_failure(answers) is None,
        files.len() > 0,
        answers.len() - 3 <= files.len(),
    ensures
        answers.len() - 3 < files.len() ==> action_of(
            WeightLayout::Sharded,
            answers,
            Some(Ok(files)),
        ) == ActionModel::Fetch(files[answers.len() - 3]),
        answers.len() - 3 == files.len() ==> (action_of(
            WeightLayout::Sharded,
            answers,
            Some(Ok(files)),
        ) matches ActionModel::Finish(_, _, weights) && weights.len() == files.len()),
{
}

} // verus!

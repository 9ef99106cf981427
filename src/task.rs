use vstd::prelude::*;
use vstd::string::*;
use crate::freshness::{cache_fresh_spec, fresh_spec, lemma_new_version_is_stale, CacheLookup};
use crate::model::{version_numbers, CrateMetadata};

verus! {

/// The name of a package's metadata file: `<name>.json`.
pub fn metadata_file_name(name: &str) -> (r: String)
    ensures
        r@ == name@ + ".json"@,
{
    let mut r = String::from_str(name);
    r.append(".json");
    r
}

/// The message of a failed fetch.
pub open spec fn fetch_error_spec(name: Seq<char>, cause: Seq<char>) -> Seq<char> {
    "Error fetching data for "@ + name + ": "@ + cause
}

/// How one package's task ended.
pub enum TaskOutcome {
    /// The cached metadata was up to date: nothing was fetched or written.
    Fresh,
    /// New metadata was fetched and written.
    Downloaded,
    /// The task failed, for the reason given.
    Failed(String),
}

/// Where a package's task stands.
#[derive(PartialEq, Eq, Structural, Clone, Copy)]
pub enum TaskStage {
    /// Waiting to learn whether the destination directory exists.
    Start,
    /// Creating the destination directory.
    Creating,
    /// Checking the cached metadata.
    Checking,
    /// Waiting for the registry.
    Fetching,
    /// Writing the fetched metadata.
    Writing,
    /// Finished.
    Done,
}

/// What the caller saw while carrying out the task's last action.
pub enum TaskEvent {
    /// Whether the destination directory exists.
    DestProbed(bool),
    /// The destination directory was created, or why not.
    DirCreated(Result<(), String>),
    /// Whether the cached metadata is fresh.
    CacheChecked(bool),
    /// The registry's answer: the metadata to store, or the cause of failure.
    Fetched(Result<String, String>),
    /// The metadata file was written, or why not.
    Written(Result<(), String>),
}

/// What the caller is to do next for the task.
pub enum TaskAction {
    /// Create the destination directory and its missing ancestors.
    CreateDir,
    /// Check whether the cached metadata is fresh.
    CheckCache,
    /// Ask the registry for the package's metadata.
    Fetch,
    /// Write this metadata to the package's metadata file.
    Write(String),
    /// Stop: the task is over.
    Finish(TaskOutcome),
}

/// How far a stage lies along the task: every step moves forward, so a
/// task finishes after at most five events.
pub open spec fn stage_rank(stage: TaskStage) -> nat {
    match stage {
        TaskStage::Start => 0,
        TaskStage::Creating => 1,
        TaskStage::Checking => 1,
        TaskStage::Fetching => 2,
        TaskStage::Writing => 3,
        TaskStage::Done => 4,
    }
}

/// The stage at which an event is expected.
pub open spec fn expected_stage(event: TaskEvent) -> TaskStage {
    match event {
        TaskEvent::DestProbed(_) => TaskStage::Start,
        TaskEvent::DirCreated(_) => TaskStage::Creating,
        TaskEvent::CacheChecked(_) => TaskStage::Checking,
        TaskEvent::Fetched(_) => TaskStage::Fetching,
        TaskEvent::Written(_) => TaskStage::Writing,
    }
}

/// The stage that an event leads to.
pub open spec fn next_stage(event: TaskEvent) -> TaskStage {
    match event {
        TaskEvent::DestProbed(exists) => if exists { TaskStage::Checking } else { TaskStage::Creating },
        TaskEvent::DirCreated(res) => if res is Ok { TaskStage::Fetching } else { TaskStage::Done },
        TaskEvent::CacheChecked(fresh) => if fresh { TaskStage::Done } else { TaskStage::Fetching },
        TaskEvent::Fetched(res) => if res is Ok { TaskStage::Writing } else { TaskStage::Done },
        TaskEvent::Written(_) => TaskStage::Done,
    }
}

/// The action that an event leads to, for the package `name`.
pub open spec fn next_action(name: Seq<char>, event: TaskEvent, action: TaskAction) -> bool {
    match event {
        TaskEvent::DestProbed(exists) => if exists {
            action is CheckCache
        } else {
            action is CreateDir
        },
        TaskEvent::DirCreated(res) => match res {
            Ok(_) => action is Fetch,
            Err(m) => action == TaskAction::Finish(TaskOutcome::Failed(m)),
        },
        TaskEvent::CacheChecked(fresh) => if fresh {
            action == TaskAction::Finish(TaskOutcome::Fresh)
        } else {
            action is Fetch
        },
        TaskEvent::Fetched(res) => match res {
            Ok(blob) => action == TaskAction::Write(blob),
            Err(cause) => match action {
                TaskAction::Finish(TaskOutcome::Failed(m)) => m@ == fetch_error_spec(name, cause@),
                _ => false,
            },
        },
        TaskEvent::Written(res) => match res {
            Ok(_) => action == TaskAction::Finish(TaskOutcome::Downloaded),
            Err(m) => action == TaskAction::Finish(TaskOutcome::Failed(m)),
        },
    }
}

/// The work on one package: find out whether its destination exists, check
/// its cache or create the directory, fetch when stale, write what came back.
/// Every failure ends the task alone, with its cause.
pub struct CrateTask {
    name: String,
    stage: TaskStage,
}

impl CrateTask {
    /// The package's name.
    pub closed spec fn spec_name(&self) -> Seq<char> {
        self.name@
    }

    /// Where the task stands.
    pub closed spec fn spec_stage(&self) -> TaskStage {
        self.stage
    }

    /// A task for the package `name`, which first asks whether the
    /// destination directory exists.
    pub fn new(name: String) -> (r: CrateTask)
        ensures
            r.spec_name() == name@,
            r.spec_stage() == TaskStage::Start,
    {
        CrateTask { name, stage: TaskStage::Start }
    }

    /// The package's name.
    pub fn name(&self) -> (r: &str)
        ensures
            r@ == self.spec_name(),
    {
        self.name.as_str()
    }

    /// Where the task stands.
    pub fn stage(&self) -> (r: TaskStage)
        ensures
            r == self.spec_stage(),
    {
        self.stage
    }

    /// The name of the package's metadata file.
    pub fn file_name(&self) -> (r: String)
        ensures
            r@ == self.spec_name() + ".json"@,
    {
        metadata_file_name(self.name.as_str())
    }

    /// Whether the task waits for this event.
    pub fn accepts(&self, event: &TaskEvent) -> (r: bool)
        ensures
            r == (self.spec_stage() == expected_stage(*event)),
    {
        let want = match event {
            TaskEvent::DestProbed(_) => TaskStage::Start,
            TaskEvent::DirCreated(_) => TaskStage::Creating,
            TaskEvent::CacheChecked(_) => TaskStage::Checking,
            TaskEvent::Fetched(_) => TaskStage::Fetching,
            TaskEvent::Written(_) => TaskStage::Writing,
        };
        self.stage == want
    }

    /// Takes in what the caller saw and says what to do next.
    pub fn step(&mut self, event: TaskEvent) -> (r: TaskAction)
        requires
            old(self).spec_stage() == expected_stage(event),
        ensures
            final(self).spec_name() == old(self).spec_name(),
            final(self).spec_stage() == next_stage(event),
            next_action(old(self).spec_name(), event, r),
            (r is Finish) == (final(self).spec_stage() == TaskStage::Done),
            stage_rank(final(self).spec_stage()) > stage_rank(old(self).spec_stage()),
    {
        match event {
            TaskEvent::DestProbed(exists) => {
                if exists {
                    self.stage = TaskStage::Checking;
                    TaskAction::CheckCache
                } else {
                    self.stage = TaskStage::Creating;
                    TaskAction::CreateDir
                }
            },
            TaskEvent::DirCreated(res) => match res {
                Ok(_) => {
                    self.stage = TaskStage::Fetching;
                    TaskAction::Fetch
                },
                Err(m) => {
                    self.stage = TaskStage::Done;
                    TaskAction::Finish(TaskOutcome::Failed(m))
                },
            },
            TaskEvent::CacheChecked(fresh) => {
                if fresh {
                    self.stage = TaskStage::Done;
                    TaskAction::Finish(TaskOutcome::Fresh)
                } else {
                    self.stage = TaskStage::Fetching;
                    TaskAction::Fetch
                }
            },
            TaskEvent::Fetched(res) => match res {
                Ok(blob) => {
                    self.stage = TaskStage::Writing;
                    TaskAction::Write(blob)
                },
                Err(cause) => {
                    self.stage = TaskStage::Done;
                    let mut m = String::from_str("Error fetching data for ");
                    m.append(self.name.as_str());
                    m.append(": ");
                    m.append(cause.as_str());
                    TaskAction::Finish(TaskOutcome::Failed(m))
                },
            },
            TaskEvent::Written(res) => {
                self.stage = TaskStage::Done;
                match res {
                    Ok(_) => TaskAction::Finish(TaskOutcome::Downloaded),
                    Err(m) => TaskAction::Finish(TaskOutcome::Failed(m)),
                }
            },
        }
    }
}

/// A package whose cached record knows every version directory of the
/// source index is not fetched again: its destination exists, the cache
/// check finds it fresh, and the task finishes there.
pub proof fn lemma_warm_cache_fetches_nothing(
    name: Seq<char>,
    meta: CrateMetadata,
    local: Seq<Seq<char>>,
    action: TaskAction,
)
    requires
        fresh_spec(version_numbers(meta), local),
    ensures
        next_stage(TaskEvent::DestProbed(true)) == TaskStage::Checking,
        cache_fresh_spec(CacheLookup::Parsed(meta), Some(local)),
        next_action(name, TaskEvent::CacheChecked(cache_fresh_spec(CacheLookup::Parsed(meta), Some(local))), action)
            ==> action == TaskAction::Finish(TaskOutcome::Fresh),
{
}

/// A new version directory that the cached record does not know of makes
/// the task fetch the package again.
pub proof fn lemma_new_version_fetches_again(
    name: Seq<char>,
    meta: CrateMetadata,
    local: Seq<Seq<char>>,
    v: Seq<char>,
    action: TaskAction,
)
    requires
        !version_numbers(meta).contains(v),
    ensures
        !cache_fresh_spec(CacheLookup::Parsed(meta), Some(local.push(v))),
        next_action(name, TaskEvent::CacheChecked(cache_fresh_spec(CacheLookup::Parsed(meta), Some(local.push(v)))), action)
            ==> action is Fetch,
{
    lemma_new_version_is_stale(version_numbers(meta), local, v);
}

/// A task ends in `Downloaded` only when the metadata file was written, and
/// in `Fresh` only when the cache check found the cached record fresh; any
/// other end is a failure with its cause.
pub proof fn lemma_task_endings(name: Seq<char>, event: TaskEvent, action: TaskAction)
    requires
        next_action(name, event, action),
    ensures
        action == TaskAction::Finish(TaskOutcome::Downloaded) ==> (event matches TaskEvent::Written(Ok(_))),
        action == TaskAction::Finish(TaskOutcome::Fresh) ==> event == TaskEvent::CacheChecked(true),
{
}

} // verus!

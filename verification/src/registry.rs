//! The registry of task types: from the key that a declaration names to
//! the task that its configuration describes.

use crate::error::{TaskError, TaskErrorView};
use crate::task::{
    Progress, ProgressView, TaskContext, TaskContextView, TaskExecutor, TaskStep, TaskStepView,
};
use crate::tasks::packages::apt::{AptTask, AptTaskView};
use crate::tasks::system::command::{CommandTask, CommandTaskView};
use crate::tasks::system::file::{FileTask, FileTaskView};
use crate::text::{lemma_occurs_between, occurs_in, views};
use crate::value::{ConfigValue, ConfigView};
use vstd::prelude::*;

verus! {

/// A task of one of the kinds that the engine knows.
#[derive(Debug)]
pub enum Task {
    Apt(AptTask),
    File(FileTask),
    Command(CommandTask),
}

/// The mathematical value of a [`Task`].
pub enum TaskView {
    Apt(AptTaskView),
    File(FileTaskView),
    Command(CommandTaskView),
}

impl View for Task {
    type V = TaskView;

    open spec fn view(&self) -> TaskView {
        match self {
            Task::Apt(task) => TaskView::Apt(task@),
            Task::File(task) => TaskView::File(task@),
            Task::Command(task) => TaskView::Command(task@),
        }
    }
}

impl TaskView {
    /// The step that the task takes.
    pub open spec fn step(self, context: TaskContextView, progress: ProgressView) -> TaskStepView {
        match self {
            TaskView::Apt(task) => task.step(context, progress),
            TaskView::File(task) => task.step(context, progress),
            TaskView::Command(task) => task.step(context, progress),
        }
    }

    /// The key under which the task's kind is registered from the start.
    pub open spec fn type_key(self) -> Seq<char> {
        match self {
            TaskView::Apt(_) => "apt"@,
            TaskView::File(_) => "file"@,
            TaskView::Command(_) => "command"@,
        }
    }

    /// What is wrong with the way the task is set up: nothing, for every
    /// kind that the engine knows.
    pub open spec fn defect(self) -> Option<Seq<char>> {
        None
    }
}

impl TaskView {
    /// Whatever goes wrong while a task is at work is an error of the
    /// kind `Execution`.
    pub proof fn law_failures_are_of_execution(
        self,
        context: TaskContextView,
        progress: ProgressView,
    )
        ensures
            self.step(context, progress) matches TaskStepView::Failed { error, .. }
                ==> error is Execution,
    {
    }
}

impl TaskExecutor for Task {
    open spec fn step(&self, context: TaskContextView, progress: ProgressView) -> TaskStepView {
        self@.step(context, progress)
    }

    fn execute(&self, context: &TaskContext, progress: &Progress) -> (step: TaskStep) {
        match self {
            Task::Apt(task) => task.execute(context, progress),
            Task::File(task) => task.execute(context, progress),
            Task::Command(task) => task.execute(context, progress),
        }
    }

    open spec fn type_key(&self) -> Seq<char> {
        self@.type_key()
    }

    fn task_type(&self) -> (key: &'static str) {
        match self {
            Task::Apt(task) => task.task_type(),
            Task::File(task) => task.task_type(),
            Task::Command(task) => task.task_type(),
        }
    }

    open spec fn defect(&self) -> Option<Seq<char>> {
        self@.defect()
    }

    fn validate(&self) -> (checked: Result<(), TaskError>) {
        match self {
            Task::Apt(task) => task.validate(),
            Task::File(task) => task.validate(),
            Task::Command(task) => task.validate(),
        }
    }

    fn description(&self) -> (text: &'static str)
        ensures
            text@ == match self@ {
                TaskView::Apt(_) => "Manage APT packages"@,
                TaskView::File(_) => "Manage files and directories"@,
                TaskView::Command(_) => "Execute a shell command"@,
            },
    {
        match self {
            Task::Apt(task) => task.description(),
            Task::File(task) => task.description(),
            Task::Command(task) => task.description(),
        }
    }

    fn requires_sudo(&self) -> (needed: bool)
        ensures
            needed == (self@ is Apt),
    {
        match self {
            Task::Apt(task) => task.requires_sudo(),
            Task::File(task) => task.requires_sudo(),
            Task::Command(task) => task.requires_sudo(),
        }
    }
}

/// How a task of one kind is made from a configuration.
#[derive(Debug, Clone, Copy, PartialEq, Eq)]
pub enum TaskFactory {
    Apt,
    File,
    Command,
}

/// The values that the result of making a task stands for.
pub open spec fn made_view(made: Result<Task, TaskError>) -> Result<TaskView, TaskErrorView> {
    match made {
        Ok(task) => Ok(task@),
        Err(error) => Err(error@),
    }
}

impl TaskFactory {
    /// The task that the factory makes from `config`, or the error that
    /// tells why `config` describes no task of the kind.
    pub open spec fn construct(self, config: ConfigView) -> Result<TaskView, TaskErrorView> {
        match self {
            TaskFactory::Apt => match AptTaskView::decode(config) {
                Ok(task) => Ok(TaskView::Apt(task)),
                Err(error) => Err(error),
            },
            TaskFactory::File => match FileTaskView::decode(config) {
                Ok(task) => Ok(TaskView::File(task)),
                Err(error) => Err(error),
            },
            TaskFactory::Command => match CommandTaskView::decode(config) {
                Ok(task) => Ok(TaskView::Command(task)),
                Err(error) => Err(error),
            },
        }
    }

    /// Makes a task from `config`.
    pub fn make(&self, config: &ConfigValue) -> (made: Result<Task, TaskError>)
        ensures
            made_view(made) == self.construct(config@),
    {
        match self {
            TaskFactory::Apt => match AptTask::from_config(config) {
                Ok(task) => Ok(Task::Apt(task)),
                Err(error) => Err(error),
            },
            TaskFactory::File => match FileTask::from_config(config) {
                Ok(task) => Ok(Task::File(task)),
                Err(error) => Err(error),
            },
            TaskFactory::Command => match CommandTask::from_config(config) {
                Ok(task) => Ok(Task::Command(task)),
                Err(error) => Err(error),
            },
        }
    }
}

/// The mathematical value of a [`TaskRegistry`].
pub struct RegistryView {
    /// The registered keys, in the order in which they were first
    /// registered.
    pub keys: Seq<Seq<char>>,
    /// The factory registered under each key.
    pub factories: Map<Seq<char>, TaskFactory>,
}

impl RegistryView {
    /// The registry that holds nothing.
    pub open spec fn empty() -> RegistryView {
        RegistryView { keys: Seq::empty(), factories: Map::empty() }
    }

    /// This registry with `factory` under `key`: in place of the factory
    /// that stood there, or as a new entry after all others.
    pub open spec fn register(self, key: Seq<char>, factory: TaskFactory) -> RegistryView {
        RegistryView {
            keys: if self.factories.dom().contains(key) {
                self.keys
            } else {
                self.keys.push(key)
            },
            factories: self.factories.insert(key, factory),
        }
    }

    /// The registry of the kinds that the engine knows from the start.
    pub open spec fn builtin() -> RegistryView {
        Self::empty().register("apt"@, TaskFactory::Apt).register(
            "file"@,
            TaskFactory::File,
        ).register("command"@, TaskFactory::Command)
    }

    /// The detail of the error that meets a key under which nothing is
    /// registered.
    pub open spec fn not_found(key: Seq<char>) -> Seq<char> {
        "Task type '"@ + key + "' not found"@
    }

    /// The task that the registry makes for `key` from `config`.
    ///
    /// Under a key that is not registered nothing is made, and the error
    /// names the key. Else the factory under the key decides, and a task
    /// that it made is handed out only if nothing is wrong with it.
    pub open spec fn create(self, key: Seq<char>, config: ConfigView) -> Result<
        TaskView,
        TaskErrorView,
    > {
        if !self.factories.dom().contains(key) {
            Err(TaskErrorView::NotFound(Self::not_found(key)))
        } else {
            match self.factories[key].construct(config) {
                Err(error) => Err(error),
                Ok(task) => match task.defect() {
                    Some(detail) => Err(TaskErrorView::Validation(detail)),
                    None => Ok(task),
                },
            }
        }
    }
}

impl RegistryView {
    /// A key under which nothing is registered gets no task: the error
    /// is of the kind `NotFound`, and its detail holds the key as it was
    /// given.
    pub proof fn law_unknown_key_is_not_found(self, key: Seq<char>, config: ConfigView)
        requires
            !self.factories.dom().contains(key),
        ensures
            self.create(key, config) == Err::<TaskView, TaskErrorView>(
                TaskErrorView::NotFound(Self::not_found(key)),
            ),
            occurs_in(Self::not_found(key), key),
    {
        lemma_occurs_between("Task type '"@, key, "' not found"@);
    }

    /// What is made for a key from a configuration depends on nothing
    /// but the factory under the key, the key and the configuration: two
    /// registries that hold the same factories make the same task or
    /// fail with the same error, and two tasks so made take the same
    /// step wherever they stand.
    pub proof fn law_create_is_deterministic(
        self,
        other: RegistryView,
        key: Seq<char>,
        config: ConfigView,
    )
        requires
            self.factories == other.factories,
        ensures
            self.create(key, config) == other.create(key, config),
            forall|context: TaskContextView, progress: ProgressView|
                self.create(key, config) is Ok ==> #[trigger] self.create(key, config)->Ok_0.step(
                    context,
                    progress,
                ) == other.create(key, config)->Ok_0.step(context, progress),
    {
    }

    /// The registry of the kinds known from the start holds `apt`,
    /// `file` and `command`, in this order, each with the factory of its
    /// kind, and nothing else.
    pub proof fn law_builtin_registry()
        ensures
            Self::builtin().keys == seq!["apt"@, "file"@, "command"@],
            Self::builtin().factories == map![
                "apt"@ => TaskFactory::Apt,
                "file"@ => TaskFactory::File,
                "command"@ => TaskFactory::Command,
            ],
    {
        reveal_strlit("apt");
        reveal_strlit("file");
        reveal_strlit("command");
        assert("apt"@.len() == 3 && "file"@.len() == 4 && "command"@.len() == 7);
        assert(Self::builtin().keys =~= seq!["apt"@, "file"@, "command"@]);
        assert(Self::builtin().factories =~= map![
            "apt"@ => TaskFactory::Apt,
            "file"@ => TaskFactory::File,
            "command"@ => TaskFactory::Command,
        ]);
    }

    /// No task that the registry hands out has anything wrong with it.
    pub proof fn law_created_tasks_are_valid(self, key: Seq<char>, config: ConfigView)
        ensures
            self.create(key, config) is Ok ==> self.create(key, config)->Ok_0.defect() is None,
    {
    }
}

/// The task types that declarations can name.
#[derive(Debug)]
pub struct TaskRegistry {
    keys: Vec<String>,
    factories: Vec<TaskFactory>,
}

impl View for TaskRegistry {
    type V = RegistryView;

    closed spec fn view(&self) -> RegistryView {
        RegistryView {
            keys: views(self.keys@),
            factories: Map::new(
                |key: Seq<char>| views(self.keys@).contains(key),
                |key: Seq<char>| self.factories@[views(self.keys@).index_of(key)],
            ),
        }
    }
}

proof fn lemma_index_of_distinct(keys: Seq<Seq<char>>, at: int)
    requires
        keys.no_duplicates(),
        0 <= at < keys.len(),
    ensures
        keys.index_of(keys[at]) == at,
        keys.contains(keys[at]),
{
}

impl TaskRegistry {
    /// Every key has its factory, and no key stands twice.
    #[verifier::type_invariant]
    spec fn wf(&self) -> bool {
        &&& self.keys@.len() == self.factories@.len()
        &&& views(self.keys@).no_duplicates()
    }

    /// A registry that holds nothing.
    pub fn empty() -> (registry: TaskRegistry)
        ensures
            registry@ == RegistryView::empty(),
    {
        let registry = TaskRegistry { keys: Vec::new(), factories: Vec::new() };
        assert(registry@.keys =~= Seq::<Seq<char>>::empty());
        assert(registry@.factories =~= Map::<Seq<char>, TaskFactory>::empty());
        registry
    }

    /// The registry of the kinds that the engine knows from the start:
    /// `apt`, `file` and `command`.
    pub fn new() -> (registry: TaskRegistry)
        ensures
            registry@ == RegistryView::builtin(),
    {
        let mut registry = Self::empty();
        registry.register_package_tasks();
        registry.register_system_tasks();
        registry
    }

    fn register_package_tasks(&mut self)
        ensures
            final(self)@ == old(self)@.register("apt"@, TaskFactory::Apt),
    {
        self.register(String::from_str("apt"), TaskFactory::Apt);
    }

    fn register_system_tasks(&mut self)
        ensures
            final(self)@ == old(self)@.register("file"@, TaskFactory::File).register(
                "command"@,
                TaskFactory::Command,
            ),
    {
        self.register(String::from_str("file"), TaskFactory::File);
        self.register(String::from_str("command"), TaskFactory::Command);
    }

    fn find(&self, key: &str) -> (found: Option<usize>)
        ensures
            match found {
                Some(at) => at < self.keys@.len() && self.keys@[at as int]@ == key@,
                None => !views(self.keys@).contains(key@),
            },
    {
        let wanted = String::from_str(key);
        let mut at: usize = 0;
        while at < self.keys.len()
            invariant
                at <= self.keys.len(),
                wanted@ == key@,
                forall|i: int| 0 <= i < at ==> views(self.keys@)[i] != key@,
            decreases self.keys.len() - at,
        {
            if self.keys[at] == wanted {
                return Some(at);
            }
            at += 1;
        }
        None
    }

    /// Puts `factory` under `key`: in place of the factory that stood
    /// there, or as a new entry.
    pub fn register(&mut self, key: String, factory: TaskFactory)
        ensures
            final(self)@ == old(self)@.register(key@, factory),
    {
        proof {
            use_type_invariant(&*self);
        }
        let found = self.find(key.as_str());
        let mut taken = Self::empty();
        core::mem::swap(self, &mut taken);
        let TaskRegistry { mut keys, mut factories } = taken;
        let ghost before = views(keys@);
        match found {
            Some(at) => {
                factories.set(at, factory);
                *self = TaskRegistry { keys, factories };
                proof {
                    lemma_index_of_distinct(before, at as int);
                    assert forall|name: Seq<char>| before.contains(name) implies #[trigger] self@.factories[name]
                        == old(self)@.factories.insert(key@, factory)[name] by {
                        let i = before.index_of(name);
                        if name != key@ {
                            assert(i != at);
                        }
                    }
                    assert(self@.factories =~= old(self)@.factories.insert(key@, factory));
                }
            },
            None => {
                keys.push(key);
                factories.push(factory);
                proof {
                    let after = views(keys@);
                    assert(after =~= before.push(key@));
                    assert(after.no_duplicates());
                }
                *self = TaskRegistry { keys, factories };
                proof {
                    let after = views(self.keys@);
                    lemma_index_of_distinct(after, before.len() as int);
                    assert forall|name: Seq<char>| after.contains(name) implies #[trigger] self@.factories[name]
                        == old(self)@.factories.insert(key@, factory)[name] by {
                        let i = after.index_of(name);
                        if name != key@ {
                            assert(i < before.len());
                            assert(before[i] == name);
                            lemma_index_of_distinct(before, i);
                        }
                    }
                    assert forall|name: Seq<char>| after.contains(name) <==> (before.contains(name)
                        || name == key@) by {
                        if before.contains(name) {
                            let i = before.index_of(name);
                            assert(after[i] == name);
                        }
                    }
                    assert(self@.factories =~= old(self)@.factories.insert(key@, factory));
                }
            },
        }
    }

    /// Makes the task that a declaration asks for: the one that the
    /// factory under `task_type` makes from `config`.
    pub fn create_task(&self, task_type: &str, config: &ConfigValue) -> (made: Result<
        Task,
        TaskError,
    >)
        ensures
            made_view(made) == self@.create(task_type@, config@),
    {
        proof {
            use_type_invariant(self);
        }
        let at = match self.find(task_type) {
            Some(at) => at,
            None => {
                let detail = String::from_str("Task type '").concat(task_type).concat(
                    "' not found",
                );
                return Err(TaskError::NotFound(detail));
            },
        };
        proof {
            lemma_index_of_distinct(views(self.keys@), at as int);
        }
        let task = match self.factories[at].make(config) {
            Ok(task) => task,
            Err(error) => {
                return Err(error);
            },
        };
        match task.validate() {
            Ok(_) => Ok(task),
            Err(error) => Err(error),
        }
    }

    /// The registered keys, in the order in which they were first
    /// registered.
    pub fn list_tasks(&self) -> (keys: Vec<String>)
        ensures
            views(keys@) == self@.keys,
            views(keys@).no_duplicates(),
            forall|key: Seq<char>| views(keys@).contains(key) <==> self@.factories.dom().contains(key),
    {
        proof {
            use_type_invariant(self);
        }
        let mut keys: Vec<String> = Vec::new();
        let mut at: usize = 0;
        while at < self.keys.len()
            invariant
                at <= self.keys.len(),
                keys.len() == at,
                forall|i: int| 0 <= i < at ==> keys@[i]@ == self.keys@[i]@,
            decreases self.keys.len() - at,
        {
            keys.push(self.keys[at].clone());
            at += 1;
        }
        assert(views(keys@) =~= views(self.keys@));
        keys
    }
}

} // verus!

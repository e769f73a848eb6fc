//! The settings that a run is started with.

use crate::task::{TaskContext, TaskContextView};
use std::collections::HashMap;
use vstd::prelude::*;

verus! {

/// The run-wide settings of a list of declarations.
#[derive(Debug, Clone, Copy, PartialEq, Eq)]
pub struct Config {
    /// Whether tasks may run side by side. The runner takes the
    /// declarations one after the other whatever this says.
    pub parallel: bool,
    /// Whether the run tells what it asks of the host.
    pub verbose: bool,
}

/// The setting of `parallel` where none is given.
pub fn default_parallel() -> (parallel: bool)
    ensures
        !parallel,
{
    false
}

/// The setting of `verbose` where none is given.
pub fn default_verbose() -> (verbose: bool)
    ensures
        !verbose,
{
    false
}

impl Default for Config {
    fn default() -> (config: Config)
        ensures
            !config.parallel,
            !config.verbose,
    {
        Config { parallel: default_parallel(), verbose: default_verbose() }
    }
}

impl Config {
    /// The context of a run with these settings: as verbose as they
    /// say, not a dry run, in the current directory, with no
    /// environment of its own.
    pub open spec fn context_view(self) -> TaskContextView {
        TaskContextView {
            verbose: self.verbose,
            dry_run: false,
            working_directory: "."@,
            environment: Map::empty(),
        }
    }

    /// Makes the context of a run with these settings.
    pub fn context(&self) -> (context: TaskContext)
        ensures
            context@ == self.context_view(),
    {
        let environment: HashMap<String, String> = HashMap::new();
        proof {
            vstd::std_specs::hash::lemma_hashmap_deepview_dom(environment);
            assert(environment@.dom().map(|k: String| k.deep_view()) =~= Set::<Seq<char>>::empty());
            assert(environment.deep_view() =~= Map::<Seq<char>, Seq<char>>::empty());
        }
        TaskContext {
            verbose: self.verbose,
            dry_run: false,
            working_directory: String::from_str("."),
            environment,
        }
    }
}

} // verus!

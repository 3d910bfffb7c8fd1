//! Settings: what the command line gives, and what the settings file keeps.

use vstd::prelude::*;
use crate::text::push_str;

verus! {

/// What the command line gives: up to two words and two switches.
#[derive(Clone, Debug, PartialEq, Eq)]
pub struct Cli {
    /// The command to run, or a project ID.
    pub command: Option<String>,
    /// What the command works on.
    pub subcommand: Option<String>,
    /// Show only projects without tasks.
    pub short: bool,
    /// Colour the tables.
    pub color: bool,
}

/// The settings of one run.
#[derive(Clone, Debug, PartialEq, Eq)]
pub struct GtdConfig {
    /// Where the catalogue is kept.
    pub storage_path: String,
    /// The tracker's program.
    pub task_path: String,
    /// Show only projects without tasks.
    pub short: bool,
    /// Colour the tables.
    pub color: bool,
}

/// Where the catalogue is kept unless the settings say otherwise, below the
/// home directory `home`.
pub open spec fn default_storage(home: Seq<char>) -> Seq<char> {
    home + "/.task/projects.data"@
}

impl GtdConfig {
    /// The settings of a first run: the catalogue below the home directory
    /// `home`, the tracker's program at `task_path`, the short display on and
    /// colour off.
    pub fn initial(home: &str, task_path: String) -> (cfg: GtdConfig)
        ensures
            cfg.storage_path@ == default_storage(home@),
            cfg.task_path == task_path,
            cfg.short,
            !cfg.color,
    {
        let mut storage_path = String::new();
        push_str(&mut storage_path, home);
        push_str(&mut storage_path, "/.task/projects.data");
        GtdConfig { storage_path, task_path, short: true, color: false }
    }
}

/// The settings of this run: the stored ones, with the display switches as
/// the command line has them.
pub fn get_config(args: &Cli, stored: GtdConfig) -> (cfg: GtdConfig)
    ensures
        cfg.storage_path == stored.storage_path,
        cfg.task_path == stored.task_path,
        cfg.short == args.short,
        cfg.color == args.color,
{
    GtdConfig {
        storage_path: stored.storage_path,
        task_path: stored.task_path,
        short: args.short,
        color: args.color,
    }
}

} // verus!

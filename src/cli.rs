//! The command model of the command-line program and what each command asks for.

use vstd::prelude::*;
use crate::text::{chars_of, concat, slice_of, string_of};

verus! {

/// The arguments of the program.
pub struct Cli {
    pub command: Option<Commands>,
    /// Output directory for downloaded photos.
    pub output: Option<String>,
    /// Show what would be downloaded without downloading.
    pub dry_run: bool,
    /// Verbose output.
    pub verbose: bool,
}

/// The subcommands.
pub enum Commands {
    /// Set up configuration interactively.
    Setup(SetupArgs),
    /// Download photos (the default command).
    Download(DownloadArgs),
    /// Show the current configuration.
    Config(ConfigArgs),
}

pub struct SetupArgs {
    /// Run setup even where a configuration file exists.
    pub force: bool,
}

pub struct DownloadArgs {
    /// Output directory for downloaded photos.
    pub output: Option<String>,
    /// Show what would be downloaded without downloading.
    pub dry_run: bool,
}

pub struct ConfigArgs {
    /// Show only the configuration file's path.
    pub path: bool,
}

/// What the program is asked to do.
#[derive(Debug, Clone, PartialEq, Eq)]
pub enum Task {
    Setup { force: bool },
    Download { output: String, dry_run: bool },
    ShowConfig { path_only: bool },
}

/// The output directory used when none is given.
pub open spec fn default_output() -> Seq<char> {
    "./photos"@
}

/// The directory given, else the default one.
pub open spec fn output_or_default(o: Option<String>) -> Seq<char> {
    match o {
        Some(d) => d@,
        None => default_output(),
    }
}

fn output_of(o: Option<String>) -> (r: String)
    ensures
        r@ == output_or_default(o),
{
    match o {
        Some(d) => d,
        None => String::from_str("./photos"),
    }
}

impl Cli {
    /// The task the arguments ask for: download where no subcommand is
    /// given; a download subcommand's own output directory and dry-run flag
    /// take precedence over the global ones.
    pub fn task(self) -> (r: Task)
        ensures
            match self.command {
                Some(Commands::Setup(a)) => r == Task::Setup { force: a.force },
                Some(Commands::Config(a)) => r == Task::ShowConfig { path_only: a.path },
                Some(Commands::Download(a)) => r matches Task::Download { output, dry_run }
                    && output@ == output_or_default(
                    if a.output is Some {
                        a.output
                    } else {
                        self.output
                    },
                ) && dry_run == (a.dry_run || self.dry_run),
                None => r matches Task::Download { output, dry_run } && output@ == output_or_default(
                    self.output,
                ) && dry_run == self.dry_run,
            },
    {
        match self.command {
            Some(Commands::Setup(a)) => Task::Setup { force: a.force },
            Some(Commands::Config(a)) => Task::ShowConfig { path_only: a.path },
            Some(Commands::Download(a)) => {
                let chosen = match a.output {
                    Some(d) => Some(d),
                    None => self.output,
                };
                Task::Download { output: output_of(chosen), dry_run: a.dry_run || self.dry_run }
            },
            None => Task::Download { output: output_of(self.output), dry_run: self.dry_run },
        }
    }
}

/// A title shortened for display: kept where it has at most `max_len`
/// characters, else its first `max_len - 3` characters and `...`.
pub open spec fn shortened(title: Seq<char>, max_len: nat) -> Seq<char> {
    if title.len() <= max_len {
        title
    } else {
        title.take(if max_len >= 3 {
            max_len - 3
        } else {
            0
        }) + "..."@
    }
}

/// Shortens a title for display.
pub fn truncate_title(title: &str, max_len: usize) -> (r: String)
    ensures
        r@ == shortened(title@, max_len as nat),
{
    let t = chars_of(title);
    if t.len() <= max_len {
        return String::from_str(title);
    }
    let keep: usize = if max_len >= 3 {
        max_len - 3
    } else {
        0
    };
    let head = slice_of(&t, 0, keep);
    proof {
        assert(t@.subrange(0, keep as int) =~= t@.take(keep as int));
    }
    string_of(&concat(&head, &chars_of("...")))
}

} // verus!

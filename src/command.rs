use vstd::prelude::*;

use crate::generator::GenerationSummary;
use crate::templates::Preset;
use crate::templates::TemplateKind;

verus! {

/// The subcommands of the command line.
pub enum Command {
    /// List existing templates; does nothing yet.
    List { project_root: String },
    /// Generate configuration files under the project root.
    Generate {
        project_root: String,
        selected: Vec<TemplateKind>,
        preset: Preset,
        template_dir: Option<String>,
        interactive: bool,
    },
    /// Validate templates in a directory; only echoes the path.
    Validate { template_root: String },
}

/// A parsed command line.
pub struct Cli {
    pub verbose: bool,
    pub command: Command,
}

/// Why a generation was refused before it started.
#[derive(Clone, Copy, Debug, PartialEq, Eq, Structural)]
pub enum PreflightError {
    RootMissing,
    RootNotDir,
    TemplateDirMissing,
    TemplateDirNotDir,
}

/// What is known of a path on disk.
#[derive(Clone, Copy, Debug, PartialEq, Eq, Structural)]
pub struct PathStatus {
    pub exists: bool,
    pub is_dir: bool,
}

/// The outcome of the checks made before a generation, in their order: the
/// project root must be an existing directory, then so must the template
/// directory when one is given.
pub open spec fn preflight_spec(root: PathStatus, template_dir: Option<PathStatus>) -> Result<(), PreflightError> {
    if !root.exists {
        Err(PreflightError::RootMissing)
    } else if !root.is_dir {
        Err(PreflightError::RootNotDir)
    } else {
        match template_dir {
            Some(d) => if !d.exists {
                Err(PreflightError::TemplateDirMissing)
            } else if !d.is_dir {
                Err(PreflightError::TemplateDirNotDir)
            } else {
                Ok(())
            },
            None => Ok(()),
        }
    }
}

pub fn preflight(root: PathStatus, template_dir: Option<PathStatus>) -> (r: Result<(), PreflightError>)
    ensures
        r == preflight_spec(root, template_dir),
{
    if !root.exists {
        return Err(PreflightError::RootMissing);
    }
    if !root.is_dir {
        return Err(PreflightError::RootNotDir);
    }
    match template_dir {
        Some(d) => {
            if !d.exists {
                Err(PreflightError::TemplateDirMissing)
            } else if !d.is_dir {
                Err(PreflightError::TemplateDirNotDir)
            } else {
                Ok(())
            }
        },
        None => Ok(()),
    }
}

impl PreflightError {
    /// The words the error is reported with, before the offending path.
    pub fn message(&self) -> (r: &'static str)
        ensures
            r@ == match *self {
                PreflightError::RootMissing => "project root does not exist"@,
                PreflightError::RootNotDir => "project root is not a directory"@,
                PreflightError::TemplateDirMissing => "template dir does not exist"@,
                PreflightError::TemplateDirNotDir => "template dir is not a directory"@,
            },
    {
        match self {
            PreflightError::RootMissing => "project root does not exist",
            PreflightError::RootNotDir => "project root is not a directory",
            PreflightError::TemplateDirMissing => "template dir does not exist",
            PreflightError::TemplateDirNotDir => "template dir is not a directory",
        }
    }

    /// The process exit code of a refused generation.
    pub fn exit_code(&self) -> (r: i32)
        ensures
            r == 1,
    {
        1
    }
}

/// All kinds, in their fixed order.
pub open spec fn all_kinds() -> Seq<TemplateKind> {
    seq![TemplateKind::Launch, TemplateKind::Tasks, TemplateKind::Settings]
}

/// The kinds to generate: those asked for, or all of them when none was.
pub fn selection_or_default(selected: Vec<TemplateKind>) -> (r: Vec<TemplateKind>)
    ensures
        r@ == if selected@.len() == 0 { all_kinds() } else { selected@ },
{
    if selected.len() == 0 {
        let r = vec![TemplateKind::Launch, TemplateKind::Tasks, TemplateKind::Settings];
        assert(r@ =~= all_kinds());
        r
    } else {
        selected
    }
}

/// Prompting is used when asked for, or when input comes from a terminal.
pub fn use_prompt(interactive: bool, stdin_is_terminal: bool) -> (r: bool)
    ensures
        r == (interactive || stdin_is_terminal),
{
    interactive || stdin_is_terminal
}

/// The process exit code after a generation: non-zero exactly when an error
/// was recorded.
pub fn exit_code(summary: &GenerationSummary) -> (r: i32)
    ensures
        r == (if summary.errors@.len() > 0 { 1i32 } else { 0i32 }),
{
    if summary.errors.len() > 0 {
        1
    } else {
        0
    }
}

/// A generation whose project root does not exist is refused, whatever the
/// template directory, and the process then exits with code 1.
pub proof fn lemma_missing_root_refused(root: PathStatus, template_dir: Option<PathStatus>)
    requires
        !root.exists,
    ensures
        preflight_spec(root, template_dir) == Err::<(), PreflightError>(PreflightError::RootMissing),
{
}

} // verus!

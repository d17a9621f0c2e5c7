//! The configuration scaffold and where it is written.
//!
//! The scaffold is fixed text: the documented defaults as keys and values,
//! with the options that have no default commented out. Writing it is
//! planned here and carried out by the caller, step by step.

use crate::error::ControlError;
use crate::paths::{join, joined};
use vstd::prelude::*;
use vstd::string::*;

verus! {

/// The scaffold, as it is written to the file.
pub const TEMPLATE: &'static str =
    "host=\"0.0.0.0\"\nport=7999\nworkers=1\n#proxies=[]\ntimeout=600\nconnect_timeout=60\ntcp_keepalive=60\n#tls_cert=\n#tls_key=\n#api_prefix=\ntb_enable=false\ntb_store_strategy=\"mem\"\ntb_redis_url=[\"redis://127.0.0.1:6379\"]\ntb_capacity=60\ntb_fill_rate=1\ntb_expired=86400\n#sign_secret_key=\n#cf_site_key=\n#cf_secret_key=\n";

/// The name of the scaffold file where no target is given.
pub const TEMPLATE_NAME: &'static str = "opengpt-serve.toml";

/// The permission bits that the scaffold file is created with.
pub const TEMPLATE_MODE: u32 = 0o755;

/// What was found at the path that the scaffold is to be written to.
#[derive(Debug, PartialEq, Eq)]
pub struct Target {
    /// The path as it was given.
    pub path: String,
    /// Whether a directory exists at the path.
    pub is_directory: bool,
    /// The parent directory of the path, where the path has one and it does
    /// not exist.
    pub missing_parent: Option<String>,
}

/// The mathematical content of a [`Target`].
pub struct TargetView {
    pub path: Seq<char>,
    pub is_directory: bool,
    pub missing_parent: Option<Seq<char>>,
}

impl View for Target {
    type V = TargetView;

    open spec fn view(&self) -> TargetView {
        TargetView {
            path: self.path@,
            is_directory: self.is_directory,
            missing_parent: self.missing_parent.deep_view(),
        }
    }
}

/// Where the scaffold goes.
#[derive(Debug, PartialEq, Eq)]
pub enum Destination {
    /// To a path that the caller named and looked at.
    Named(Target),
    /// To the file of the default name in this working directory.
    Default(String),
}

/// The mathematical content of a [`Destination`].
pub enum DestinationView {
    Named(TargetView),
    Default(Seq<char>),
}

impl View for Destination {
    type V = DestinationView;

    open spec fn view(&self) -> DestinationView {
        match self {
            Destination::Named(target) => DestinationView::Named(target@),
            Destination::Default(dir) => DestinationView::Default(dir@),
        }
    }
}

/// One change to the file system.
#[derive(Debug, PartialEq, Eq)]
pub enum FileStep {
    /// Create this directory and every missing directory above it.
    CreateDirectories(String),
    /// Create or truncate the file, give it these permission bits, and write
    /// the content.
    WriteFile { path: String, mode: u32, content: String },
}

/// The mathematical content of a [`FileStep`].
pub enum FileStepView {
    CreateDirectories(Seq<char>),
    WriteFile { path: Seq<char>, mode: u32, content: Seq<char> },
}

impl View for FileStep {
    type V = FileStepView;

    open spec fn view(&self) -> FileStepView {
        match self {
            FileStep::CreateDirectories(dir) => FileStepView::CreateDirectories(dir@),
            FileStep::WriteFile { path, mode, content } => FileStepView::WriteFile {
                path: path@,
                mode: *mode,
                content: content@,
            },
        }
    }
}

/// The views of a list of steps, in order.
pub open spec fn steps_view(steps: Seq<FileStep>) -> Seq<FileStepView> {
    steps.map_values(|s: FileStep| s@)
}

/// The path that the scaffold is written to.
pub open spec fn output_path(destination: DestinationView) -> Seq<char> {
    match destination {
        DestinationView::Named(target) => target.path,
        DestinationView::Default(dir) => joined(dir, TEMPLATE_NAME@),
    }
}

/// The step that writes the scaffold to `path`.
pub open spec fn write_step(path: Seq<char>) -> FileStepView {
    FileStepView::WriteFile { path, mode: TEMPLATE_MODE, content: TEMPLATE@ }
}

/// The changes to the file system that generating the scaffold makes, in
/// order, or the reason why it makes none.
///
/// A target that is a directory is refused whether or not anything would be
/// written. Without `overwrite` nothing is changed: no file, no directory.
/// With it, a missing parent directory is created first, then the file is
/// written, whatever it held before.
pub open spec fn planned(overwrite: bool, destination: DestinationView) -> Result<
    Seq<FileStepView>,
    ControlError,
> {
    match destination {
        DestinationView::Named(target) => if target.is_directory {
            Err(ControlError::TargetIsDirectory)
        } else if !overwrite {
            Ok(Seq::empty())
        } else {
            match target.missing_parent {
                Some(parent) => Ok(
                    seq![FileStepView::CreateDirectories(parent), write_step(target.path)],
                ),
                None => Ok(seq![write_step(target.path)]),
            }
        },
        DestinationView::Default(dir) => if !overwrite {
            Ok(Seq::empty())
        } else {
            Ok(seq![write_step(joined(dir, TEMPLATE_NAME@))])
        },
    }
}

/// The view of a planning result.
pub open spec fn plan_view(r: Result<Vec<FileStep>, ControlError>) -> Result<
    Seq<FileStepView>,
    ControlError,
> {
    match r {
        Ok(steps) => Ok(steps_view(steps@)),
        Err(e) => Err(e),
    }
}

/// Without `overwrite` no step is planned, so nothing is created or written;
/// for a target that is a directory no plan is made at all; and whatever is
/// written is the scaffold, to the output path, with the mode of the
/// scaffold.
pub proof fn law_nothing_created(overwrite: bool, destination: DestinationView)
    ensures
        !overwrite ==> (planned(overwrite, destination) matches Ok(steps) ==> steps.len() == 0),
        destination matches DestinationView::Named(target) && target.is_directory ==> planned(
            overwrite,
            destination,
        ) == Err::<Seq<FileStepView>, ControlError>(ControlError::TargetIsDirectory),
        planned(overwrite, destination) matches Ok(steps) ==> forall|i: int|
            0 <= i < steps.len() ==> (#[trigger] steps[i] matches FileStepView::WriteFile {
                path,
                mode,
                content,
            } ==> path == output_path(destination) && content == TEMPLATE@ && mode
                == TEMPLATE_MODE),
{
}

fn scaffold(path: String) -> (step: FileStep)
    ensures
        step@ == write_step(path@),
{
    FileStep::WriteFile { path, mode: TEMPLATE_MODE, content: String::from_str(TEMPLATE) }
}

/// Plans the generation of the scaffold.
pub fn plan_template(overwrite: bool, destination: Destination) -> (plan: Result<
    Vec<FileStep>,
    ControlError,
>)
    ensures
        plan_view(plan) == planned(overwrite, destination@),
{
    let mut steps: Vec<FileStep> = Vec::new();
    match destination {
        Destination::Named(target) => {
            if target.is_directory {
                return Err(ControlError::TargetIsDirectory);
            }
            if overwrite {
                if let Some(parent) = target.missing_parent {
                    steps.push(FileStep::CreateDirectories(parent));
                }
                steps.push(scaffold(target.path));
            }
        },
        Destination::Default(dir) => {
            if overwrite {
                steps.push(scaffold(join(dir.as_str(), TEMPLATE_NAME)));
            }
        },
    }
    assert(steps_view(steps@) =~= planned(overwrite, destination@)->Ok_0);
    Ok(steps)
}

} // verus!

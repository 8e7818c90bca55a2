//! The command line of the preview evidence replay workflow: which document
//! to export and which argument names the output path.

use vstd::prelude::*;
use crate::text::{concat_text, text_equal};

verus! {

/// The document an export writes.
#[derive(Clone, Debug, PartialEq, Eq)]
pub enum ReplayWorkflowExport {
    StorageBundle,
    ModuleDescriptor { build_id: String },
    SettingsSchema,
}

/// What the command line asks for: the export, and the position (among the
/// arguments after the program name) of the output path.
#[derive(Clone, Debug, PartialEq, Eq)]
pub struct ReplayWorkflowPlan {
    pub export: ReplayWorkflowExport,
    pub output_argument: usize,
}

/// An export as the contracts see it.
pub enum ExportView {
    StorageBundle,
    ModuleDescriptor(Seq<char>),
    SettingsSchema,
}

/// The arguments as text; an argument that is not valid Unicode is `None`.
pub open spec fn arguments_view(arguments: Seq<Option<String>>) -> Seq<Option<Seq<char>>> {
    arguments.map_values(|a: Option<String>| match a {
        Some(s) => Some(s@),
        None => None,
    })
}

/// The non-empty text argument at `position`, or the error that names it.
pub open spec fn required_string_of(args: Seq<Option<Seq<char>>>, position: int, name: Seq<char>) -> Result<
    Seq<char>,
    Seq<char>,
> {
    if 0 <= position < args.len() && args[position] is Some && args[position]->0.len() > 0 {
        Ok(args[position]->0)
    } else {
        Err("Replay workflow "@ + name + " is required"@)
    }
}

/// The output path is the argument at `position`, and it is the last one.
pub open spec fn output_argument_of(args: Seq<Option<Seq<char>>>, position: int) -> Result<int, Seq<char>> {
    if args.len() <= position {
        Err("Replay workflow output path is required"@)
    } else if args.len() > position + 1 {
        Err("Replay workflow arguments are invalid"@)
    } else {
        Ok(position)
    }
}

/// The plan of `args` with `export`, the output path standing at `position`.
pub open spec fn export_to(args: Seq<Option<Seq<char>>>, export: ExportView, position: int) -> Result<
    (ExportView, int),
    Seq<char>,
> {
    match output_argument_of(args, position) {
        Ok(k) => Ok((export, k)),
        Err(m) => Err(m),
    }
}

/// What the command line `args` asks for, or the error it is refused with.
pub open spec fn replay_plan_of(args: Seq<Option<Seq<char>>>) -> Result<(ExportView, int), Seq<char>> {
    if args.len() == 0 || args[0] is None {
        Err("Replay workflow command is required"@)
    } else if args[0]->0 == "export-storage-bundle"@ {
        export_to(args, ExportView::StorageBundle, 1)
    } else if args[0]->0 == "export-module-descriptor"@ {
        match required_string_of(args, 1, "build id"@) {
            Ok(build_id) => export_to(args, ExportView::ModuleDescriptor(build_id), 2),
            Err(m) => Err(m),
        }
    } else if args[0]->0 == "export-settings-schema"@ {
        export_to(args, ExportView::SettingsSchema, 1)
    } else {
        Err("Replay workflow command is invalid"@)
    }
}

/// An accepted command line is exact: the output path is its last argument,
/// and nothing follows it.
pub proof fn lemma_output_path_is_the_last_argument(args: Seq<Option<Seq<char>>>)
    ensures
        match replay_plan_of(args) {
            Ok((_, output)) => output == args.len() - 1,
            Err(_) => true,
        },
{
}

pub open spec fn export_view(export: ReplayWorkflowExport) -> ExportView {
    match export {
        ReplayWorkflowExport::StorageBundle => ExportView::StorageBundle,
        ReplayWorkflowExport::ModuleDescriptor { build_id } => ExportView::ModuleDescriptor(build_id@),
        ReplayWorkflowExport::SettingsSchema => ExportView::SettingsSchema,
    }
}

pub open spec fn plan_result_view(result: Result<ReplayWorkflowPlan, String>) -> Result<(ExportView, int), Seq<char>> {
    match result {
        Ok(plan) => Ok((export_view(plan.export), plan.output_argument as int)),
        Err(m) => Err(m@),
    }
}

/// The non-empty text argument at `position`; `name` says which argument
/// it is in the error.
pub fn required_string(arguments: &Vec<Option<String>>, position: usize, name: &str) -> (result: Result<
    String,
    String,
>)
    ensures
        match (result, required_string_of(arguments_view(arguments@), position as int, name@)) {
            (Ok(s), Ok(t)) => s@ == t,
            (Err(m), Err(t)) => m@ == t,
            _ => false,
        },
{
    let ghost args = arguments_view(arguments@);
    if position < arguments.len() {
        match &arguments[position] {
            Some(value) => {
                if !value.as_str().is_empty() {
                    assert(args[position as int] == Some(value@));
                    return Ok(value.clone());
                }
            },
            None => {},
        }
    }
    let head = concat_text("Replay workflow ", name);
    let message = concat_text(head.as_str(), " is required");
    proof {
        reveal_strlit("Replay workflow ");
        reveal_strlit(" is required");
    }
    Err(message)
}

/// The plan for `export` when the output path stands at `position`.
fn export_to_plan(arguments: &Vec<Option<String>>, export: ReplayWorkflowExport, position: usize) -> (result:
    Result<ReplayWorkflowPlan, String>)
    requires
        position <= 2,
    ensures
        plan_result_view(result) == export_to(arguments_view(arguments@), export_view(export), position as int),
{
    if arguments.len() <= position {
        Err("Replay workflow output path is required".to_owned())
    } else if arguments.len() > position + 1 {
        Err("Replay workflow arguments are invalid".to_owned())
    } else {
        Ok(ReplayWorkflowPlan { export, output_argument: position })
    }
}

/// What the replay workflow's command line asks for: `arguments` are the
/// arguments after the program name, `None` standing for one that is not
/// valid Unicode.
pub fn replay_workflow_plan(arguments: &Vec<Option<String>>) -> (result: Result<ReplayWorkflowPlan, String>)
    ensures
        plan_result_view(result) == replay_plan_of(arguments_view(arguments@)),
{
    let ghost args = arguments_view(arguments@);
    if arguments.len() == 0 {
        return Err("Replay workflow command is required".to_owned());
    }
    let command = match &arguments[0] {
        Some(c) => c,
        None => {
            return Err("Replay workflow command is required".to_owned());
        },
    };
    assert(args[0] == Some(command@));
    if text_equal(command.as_str(), "export-storage-bundle") {
        export_to_plan(arguments, ReplayWorkflowExport::StorageBundle, 1)
    } else if text_equal(command.as_str(), "export-module-descriptor") {
        match required_string(arguments, 1, "build id") {
            Ok(build_id) => export_to_plan(arguments, ReplayWorkflowExport::ModuleDescriptor { build_id }, 2),
            Err(m) => Err(m),
        }
    } else if text_equal(command.as_str(), "export-settings-schema") {
        export_to_plan(arguments, ReplayWorkflowExport::SettingsSchema, 1)
    } else {
        Err("Replay workflow command is invalid".to_owned())
    }
}

} // verus!

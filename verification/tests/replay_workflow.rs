use hermes_hub::replay_workflow::{
    replay_workflow_plan, required_string, ReplayWorkflowExport, ReplayWorkflowPlan,
};

fn args(values: &[&str]) -> Vec<Option<String>> {
    values.iter().map(|v| Some((*v).to_owned())).collect()
}

#[test]
fn requires_exact_export_arguments() {
    let missing: Vec<Option<String>> = Vec::new();
    assert!(required_string(&missing, 0, "build id").is_err());
    let exact = args(&["build-1"]);
    assert_eq!(required_string(&exact, 0, "build id"), Ok("build-1".to_owned()));
}

#[test]
fn required_string_refuses_empty_and_non_unicode_values() {
    assert_eq!(
        required_string(&args(&[""]), 0, "build id"),
        Err("Replay workflow build id is required".to_owned())
    );
    assert_eq!(
        required_string(&vec![None], 0, "build id"),
        Err("Replay workflow build id is required".to_owned())
    );
}

#[test]
fn export_commands_name_their_document_and_output() {
    assert_eq!(
        replay_workflow_plan(&args(&["export-storage-bundle", "out.bin"])),
        Ok(ReplayWorkflowPlan { export: ReplayWorkflowExport::StorageBundle, output_argument: 1 })
    );
    assert_eq!(
        replay_workflow_plan(&args(&["export-module-descriptor", "build-7", "out.bin"])),
        Ok(ReplayWorkflowPlan {
            export: ReplayWorkflowExport::ModuleDescriptor { build_id: "build-7".to_owned() },
            output_argument: 2,
        })
    );
    assert_eq!(
        replay_workflow_plan(&args(&["export-settings-schema", "schema.bin"])),
        Ok(ReplayWorkflowPlan { export: ReplayWorkflowExport::SettingsSchema, output_argument: 1 })
    );
}

#[test]
fn malformed_command_lines_are_refused() {
    assert_eq!(
        replay_workflow_plan(&Vec::new()),
        Err("Replay workflow command is required".to_owned())
    );
    assert_eq!(
        replay_workflow_plan(&vec![None]),
        Err("Replay workflow command is required".to_owned())
    );
    assert_eq!(
        replay_workflow_plan(&args(&["export-everything", "out.bin"])),
        Err("Replay workflow command is invalid".to_owned())
    );
    assert_eq!(
        replay_workflow_plan(&args(&["export-storage-bundle"])),
        Err("Replay workflow output path is required".to_owned())
    );
    assert_eq!(
        replay_workflow_plan(&args(&["export-settings-schema", "a", "b"])),
        Err("Replay workflow arguments are invalid".to_owned())
    );
    assert_eq!(
        replay_workflow_plan(&args(&["export-module-descriptor", "", "out.bin"])),
        Err("Replay workflow build id is required".to_owned())
    );
}

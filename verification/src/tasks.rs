use vstd::prelude::*;

verus! {

/// A task offered for Python files: its label, the program it runs and that
/// program's arguments. Every other setting of the task keeps its default.
pub struct TaskSpec {
    pub label: String,
    pub command: String,
    pub args: Vec<String>,
}

/// The interpreter that both Python tasks run.
pub open spec fn interpreter() -> Seq<char> {
    "python3"@
}

/// The tasks offered for Python files: one that executes the selected text,
/// one that runs the current file. `selected_text` and `file` are the
/// template values that the editor substitutes with the selection and the
/// file's path when a task runs.
pub fn python_task_templates(selected_text: &str, file: &str) -> (tasks: Vec<TaskSpec>)
    ensures
        tasks@.len() == 2,
        tasks@[0].label@ == "execute selection"@,
        tasks@[0].command@ == interpreter(),
        tasks@[0].args@.len() == 2,
        tasks@[0].args@[0]@ == "-c"@,
        tasks@[0].args@[1]@ == selected_text@,
        tasks@[1].label@ == "run '"@ + file@ + "'"@,
        tasks@[1].command@ == interpreter(),
        tasks@[1].args@.len() == 1,
        tasks@[1].args@[0]@ == file@,
{
    let mut selection_args: Vec<String> = Vec::new();
    selection_args.push(String::from_str("-c"));
    selection_args.push(String::from_str(selected_text));
    let execute_selection = TaskSpec {
        label: String::from_str("execute selection"),
        command: String::from_str("python3"),
        args: selection_args,
    };
    let mut file_args: Vec<String> = Vec::new();
    file_args.push(String::from_str(file));
    let run_file = TaskSpec {
        label: String::from_str("run '").concat(file).concat("'"),
        command: String::from_str("python3"),
        args: file_args,
    };
    let mut tasks: Vec<TaskSpec> = Vec::new();
    tasks.push(execute_selection);
    tasks.push(run_file);
    tasks
}

} // verus!

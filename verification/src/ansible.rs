//! What the service hands to `ansible-playbook` and how it reads the outcome.
use vstd::prelude::*;

use crate::text::{push_signed_decimal, signed_decimal};

verus! {

/// The program that runs the playbooks.
pub const PLAYBOOK_COMMAND: &'static str = "ansible-playbook";

/// The environment variable, and its value, that make the listing run print its report
/// as JSON.
pub const STDOUT_CALLBACK_VAR: &'static str = "ANSIBLE_STDOUT_CALLBACK";

pub const STDOUT_CALLBACK: &'static str = "json";

/// The inventory every playbook run uses.
pub const INVENTORY: &'static str = "ansible/inventory.ini";

/// The playbook that deploys a container.
pub const DEPLOY_PLAYBOOK: &'static str = "ansible/playbook.yml";

/// The playbook that lists the running containers.
pub const LIST_PLAYBOOK: &'static str = "ansible/list_containers.yml";

/// `{:?}` of an optional exit code: `Some(<code>)` or `None`.
pub open spec fn exit_code_text(code: Option<i32>) -> Seq<char> {
    match code {
        Some(c) => "Some("@ + signed_decimal(c as int) + ")"@,
        None => "None"@,
    }
}

/// The report of a failed playbook run.
pub open spec fn failure_report(code: Option<i32>, stderr: Seq<char>, stdout: Seq<char>) -> Seq<
    char,
> {
    "Exit code: "@ + exit_code_text(code) + ". Stderr: "@ + stderr + ". Stdout: "@ + stdout
}

/// The `--extra-vars` value of a deployment: `container_name=<name> container_image=<image>`.
pub fn deployment_extra_vars(container_name: &str, container_image: &str) -> (r: String)
    ensures
        r@ == "container_name="@ + container_name@ + " container_image="@ + container_image@,
{
    let mut r = String::from_str("container_name=");
    r.append(container_name);
    r.append(" container_image=");
    r.append(container_image);
    r
}

/// The arguments of `ansible-playbook` for a deployment.
pub fn deployment_args(container_name: &str, container_image: &str) -> (r: Vec<String>)
    ensures
        r@.len() == 5,
        r@[0]@ == "-i"@,
        r@[1]@ == INVENTORY@,
        r@[2]@ == DEPLOY_PLAYBOOK@,
        r@[3]@ == "--extra-vars"@,
        r@[4]@ == "container_name="@ + container_name@ + " container_image="@ + container_image@,
{
    let mut r: Vec<String> = Vec::new();
    r.push(String::from_str("-i"));
    r.push(String::from_str(INVENTORY));
    r.push(String::from_str(DEPLOY_PLAYBOOK));
    r.push(String::from_str("--extra-vars"));
    r.push(deployment_extra_vars(container_name, container_image));
    r
}

/// The arguments of `ansible-playbook` for listing containers.
pub fn list_containers_args() -> (r: Vec<String>)
    ensures
        r@.len() == 3,
        r@[0]@ == "-i"@,
        r@[1]@ == INVENTORY@,
        r@[2]@ == LIST_PLAYBOOK@,
{
    let mut r: Vec<String> = Vec::new();
    r.push(String::from_str("-i"));
    r.push(String::from_str(INVENTORY));
    r.push(String::from_str(LIST_PLAYBOOK));
    r
}

/// `{:?}` of an optional exit code.
pub fn exit_code_debug(code: Option<i32>) -> (r: String)
    ensures
        r@ == exit_code_text(code),
{
    match code {
        Some(c) => {
            let mut r = String::from_str("Some(");
            push_signed_decimal(&mut r, c as i64);
            r.append(")");
            r
        },
        None => String::from_str("None"),
    }
}

/// The report of a failed playbook run:
/// `Exit code: <code>. Stderr: <stderr>. Stdout: <stdout>`.
pub fn failure_message(code: Option<i32>, stderr: &str, stdout: &str) -> (r: String)
    ensures
        r@ == failure_report(code, stderr@, stdout@),
{
    let mut r = String::from_str("Exit code: ");
    let code_text = exit_code_debug(code);
    r.append(code_text.as_str());
    r.append(". Stderr: ");
    r.append(stderr);
    r.append(". Stdout: ");
    r.append(stdout);
    r
}

/// How a playbook run ended: `Ok` when its exit status was success, otherwise the report
/// of the failure.
pub fn playbook_outcome(success: bool, code: Option<i32>, stdout: &str, stderr: &str) -> (r: Result<
    (),
    String,
>)
    ensures
        success ==> r is Ok,
        !success ==> (r matches Err(m) && m@ == failure_report(code, stderr@, stdout@)),
{
    if success {
        Ok(())
    } else {
        Err(failure_message(code, stderr, stdout))
    }
}

} // verus!

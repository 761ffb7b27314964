//! Permission correction rules: missing sudo, execute bits, and recursive
//! permission changes.

use crate::rules::builders::simple::is_simple_rule;
use crate::rules::builders::SimpleRuleBuilder;
use crate::types::Rule;
use vstd::prelude::*;

verus! {

/// All permission rules, in a fixed order.
pub fn permission_rules() -> (r: Vec<Rule>)
    ensures
        r@.len() == 4,
        is_simple_rule(
            r@[0],
            "sudo_permission_denied"@,
            None,
            Some("Permission denied"@),
            ""@,
            "sudo "@,
            100,
        ),
        is_simple_rule(
            r@[1],
            "sudo_apt"@,
            Some("apt "@),
            Some("E: Could not open lock file"@),
            "apt "@,
            "sudo apt "@,
            200,
        ),
        is_simple_rule(
            r@[2],
            "chmod_execute"@,
            Some("."@),
            Some("Permission denied"@),
            "."@,
            "chmod +x "@,
            300,
        ),
        is_simple_rule(
            r@[3],
            "chmod_recursive"@,
            Some("chmod "@),
            Some("No such file or directory"@),
            "chmod "@,
            "chmod -R "@,
            400,
        ),
{
    let mut r: Vec<Rule> = Vec::new();
    r.push(create_sudo_permission_denied());
    r.push(create_sudo_apt());
    r.push(create_chmod_execute());
    r.push(create_chmod_recursive());
    r
}

/// sudo_permission_denied: prefix the script with sudo on a permission
/// failure (the empty find text prepends the replacement once).
pub fn create_sudo_permission_denied() -> (r: Rule)
    ensures
        is_simple_rule(
            r,
            "sudo_permission_denied"@,
            None,
            Some("Permission denied"@),
            ""@,
            "sudo "@,
            100,
        ),
{
    SimpleRuleBuilder::new("sudo_permission_denied").match_output("Permission denied").priority(
        100,
    ).replace("", "sudo ")
}

/// sudo_apt: run the package manager with sudo when its lock is unreadable.
pub fn create_sudo_apt() -> (r: Rule)
    ensures
        is_simple_rule(
            r,
            "sudo_apt"@,
            Some("apt "@),
            Some("E: Could not open lock file"@),
            "apt "@,
            "sudo apt "@,
            200,
        ),
{
    SimpleRuleBuilder::new("sudo_apt").match_command("apt ").match_output(
        "E: Could not open lock file",
    ).priority(200).replace("apt ", "sudo apt ")
}

/// chmod_execute: add the execute bit to a script that cannot be run.
pub fn create_chmod_execute() -> (r: Rule)
    ensures
        is_simple_rule(
            r,
            "chmod_execute"@,
            Some("."@),
            Some("Permission denied"@),
            "."@,
            "chmod +x "@,
            300,
        ),
{
    SimpleRuleBuilder::new("chmod_execute").match_output("Permission denied").match_command(
        ".",
    ).priority(300).replace(".", "chmod +x ")
}

/// chmod_recursive: change permissions recursively.
pub fn create_chmod_recursive() -> (r: Rule)
    ensures
        is_simple_rule(
            r,
            "chmod_recursive"@,
            Some("chmod "@),
            Some("No such file or directory"@),
            "chmod "@,
            "chmod -R "@,
            400,
        ),
{
    SimpleRuleBuilder::new("chmod_recursive").match_command("chmod ").match_output(
        "No such file or directory",
    ).priority(400).replace("chmod ", "chmod -R ")
}

} // verus!

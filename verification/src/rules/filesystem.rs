//! Filesystem correction rules: missing parent directories, recursive flags,
//! and moves into directories that do not exist yet.

use crate::rules::builders::simple::is_simple_rule;
use crate::rules::builders::SimpleRuleBuilder;
use crate::types::Rule;
use vstd::prelude::*;

verus! {

/// All filesystem rules, in a fixed order.
pub fn filesystem_rules() -> (r: Vec<Rule>)
    ensures
        r@.len() == 4,
        is_simple_rule(
            r@[0],
            "mkdir_p"@,
            Some("mkdir "@),
            Some("No such file or directory"@),
            "mkdir "@,
            "mkdir -p "@,
            100,
        ),
        is_simple_rule(
            r@[1],
            "rm_recursive"@,
            Some("rm "@),
            Some("Is a directory"@),
            "rm "@,
            "rm -r "@,
            200,
        ),
        is_simple_rule(
            r@[2],
            "cp_recursive"@,
            Some("cp "@),
            Some("Is a directory"@),
            "cp "@,
            "cp -r "@,
            300,
        ),
        is_simple_rule(
            r@[3],
            "mv_to_directory"@,
            Some("mv "@),
            Some("No such file or directory"@),
            "mv "@,
            "mkdir -p /path && mv "@,
            400,
        ),
{
    let mut r: Vec<Rule> = Vec::new();
    r.push(create_mkdir_p());
    r.push(create_rm_recursive());
    r.push(create_cp_recursive());
    r.push(create_mv_to_directory());
    r
}

/// mkdir_p: create parent directories with the -p flag.
pub fn create_mkdir_p() -> (r: Rule)
    ensures
        is_simple_rule(
            r,
            "mkdir_p"@,
            Some("mkdir "@),
            Some("No such file or directory"@),
            "mkdir "@,
            "mkdir -p "@,
            100,
        ),
{
    SimpleRuleBuilder::new("mkdir_p").match_command("mkdir ").match_output(
        "No such file or directory",
    ).priority(100).replace("mkdir ", "mkdir -p ")
}

/// rm_recursive: add the recursive flag when removing a directory.
pub fn create_rm_recursive() -> (r: Rule)
    ensures
        is_simple_rule(
            r,
            "rm_recursive"@,
            Some("rm "@),
            Some("Is a directory"@),
            "rm "@,
            "rm -r "@,
            200,
        ),
{
    SimpleRuleBuilder::new("rm_recursive").match_command("rm ").match_output(
        "Is a directory",
    ).priority(200).replace("rm ", "rm -r ")
}

/// cp_recursive: add the recursive flag when copying a directory.
pub fn create_cp_recursive() -> (r: Rule)
    ensures
        is_simple_rule(
            r,
            "cp_recursive"@,
            Some("cp "@),
            Some("Is a directory"@),
            "cp "@,
            "cp -r "@,
            300,
        ),
{
    SimpleRuleBuilder::new("cp_recursive").match_command("cp ").match_output(
        "Is a directory",
    ).priority(300).replace("cp ", "cp -r ")
}

/// mv_to_directory: create the target directory before moving.
pub fn create_mv_to_directory() -> (r: Rule)
    ensures
        is_simple_rule(
            r,
            "mv_to_directory"@,
            Some("mv "@),
            Some("No such file or directory"@),
            "mv "@,
            "mkdir -p /path && mv "@,
            400,
        ),
{
    SimpleRuleBuilder::new("mv_to_directory").match_command("mv ").match_output(
        "No such file or directory",
    ).priority(400).replace("mv ", "mkdir -p /path && mv ")
}

} // verus!

//! Git correction rules: branch operations, push/pull mistakes, and staging
//! or committing errors.

use crate::error::Error;
use crate::re::regex_accepts;
use crate::rules::builders::regex::CaptureRewrite;
use crate::rules::builders::regex::RegexRuleBuilder;
use crate::rules::builders::simple::is_simple_rule;
use crate::rules::builders::SimpleRuleBuilder;
use crate::types::Rule;
use vstd::prelude::*;
use vstd::string::StringExecFns;

verus! {

/// `r` is the branch-creation regex rule with its two patterns and the
/// capture-group rewrite that proposes `git checkout -b <branch>`.
pub open spec fn is_git_branch_exists_rule(r: Rule) -> bool {
    r matches Rule::Regex(rr) && {
        &&& rr.name@ == "git_branch_exists"@
        &&& rr.command_pattern matches Some(rp) && rp.pattern_view() == "git checkout ([a-z_-]+)"@
        &&& rr.output_pattern matches Some(rp) && rp.pattern_view()
            == "error: pathspec '([a-z_-]+)' did not match"@
        &&& rr.rewrite matches CaptureRewrite::Group { index, prefix, suffix } && index == 1
            && prefix@ == "git checkout -b "@ && suffix@ == ""@
        &&& rr.priority == 1000
    }
}

/// All git branch rules, in a fixed order. Fails exactly when one of the
/// branch-creation rule's patterns is not accepted as a regular expression.
pub fn git_branch_rules() -> (r: Result<Vec<Rule>, Error>)
    ensures
        r is Ok <==> regex_accepts("git checkout ([a-z_-]+)"@) && regex_accepts(
            "error: pathspec '([a-z_-]+)' did not match"@,
        ),
        r matches Ok(v) ==> {
            &&& v@.len() == 3
            &&& is_simple_rule(
                v@[0],
                "git_branch_delete"@,
                Some("git branch -d"@),
                Some("error: The branch"@),
                "git branch -d"@,
                "git branch -D"@,
                500,
            )
            &&& is_git_branch_exists_rule(v@[1])
            &&& is_simple_rule(
                v@[2],
                "git_branch_0flag"@,
                Some("git branch"@),
                Some("fatal: bad revision"@),
                "git branch"@,
                "git branch -a"@,
                400,
            )
        },
{
    let exists_rule = match create_git_branch_exists() {
        Ok(rule) => rule,
        Err(e) => {
            return Err(e);
        },
    };
    let mut r: Vec<Rule> = Vec::new();
    r.push(create_git_branch_delete());
    r.push(exists_rule);
    r.push(create_git_branch_0flag());
    Ok(r)
}

/// All git push/pull rules, in a fixed order.
pub fn git_push_pull_rules() -> (r: Vec<Rule>)
    ensures
        r@.len() == 3,
        is_simple_rule(
            r@[0],
            "git_push_set_upstream"@,
            Some("git push"@),
            Some("fatal: The current branch"@),
            "git push"@,
            "git push -u origin"@,
            600,
        ),
        is_simple_rule(
            r@[1],
            "git_pull_rebase"@,
            Some("git pull"@),
            Some("Please specify which branch you want to merge with"@),
            "git pull"@,
            "git pull --rebase origin"@,
            500,
        ),
        is_simple_rule(
            r@[2],
            "git_push_force"@,
            Some("git push"@),
            Some("rejected"@),
            "git push"@,
            "git push --force-with-lease"@,
            700,
        ),
{
    let mut r: Vec<Rule> = Vec::new();
    r.push(create_git_push_set_upstream());
    r.push(create_git_pull_rebase());
    r.push(create_git_push_force());
    r
}

/// All git staging and commit rules, in a fixed order.
pub fn git_staging_rules() -> (r: Vec<Rule>)
    ensures
        r@.len() == 2,
        is_simple_rule(
            r@[0],
            "git_add_all"@,
            Some("git commit"@),
            Some("fatal: your current branch is behind"@),
            "git commit"@,
            "git add -A && git commit"@,
            800,
        ),
        is_simple_rule(
            r@[1],
            "git_commit_amend"@,
            Some("git commit"@),
            Some("nothing to commit"@),
            "git commit"@,
            "git commit --amend --no-edit"@,
            550,
        ),
{
    let mut r: Vec<Rule> = Vec::new();
    r.push(create_git_add_all());
    r.push(create_git_commit_amend());
    r
}

/// git_branch_delete: force-delete a branch with unmerged commits.
pub fn create_git_branch_delete() -> (r: Rule)
    ensures
        is_simple_rule(
            r,
            "git_branch_delete"@,
            Some("git branch -d"@),
            Some("error: The branch"@),
            "git branch -d"@,
            "git branch -D"@,
            500,
        ),
{
    SimpleRuleBuilder::new("git_branch_delete").match_command("git branch -d").match_output(
        "error: The branch",
    ).priority(500).replace("git branch -d", "git branch -D")
}

/// git_branch_exists: create the branch when checkout cannot find it. The
/// proposal reads the branch name from capture group 1 of the script match.
/// Fails exactly when one of its two patterns is not accepted.
pub fn create_git_branch_exists() -> (r: Result<Rule, Error>)
    ensures
        r is Ok <==> regex_accepts("git checkout ([a-z_-]+)"@) && regex_accepts(
            "error: pathspec '([a-z_-]+)' did not match"@,
        ),
        r matches Ok(rule) ==> is_git_branch_exists_rule(rule),
{
    let builder = RegexRuleBuilder::new("git_branch_exists");
    let builder = match builder.match_command_regex("git checkout ([a-z_-]+)") {
        Ok(b) => b,
        Err(e) => {
            return Err(e);
        },
    };
    let builder = match builder.match_output_regex("error: pathspec '([a-z_-]+)' did not match") {
        Ok(b) => b,
        Err(e) => {
            return Err(e);
        },
    };
    builder.replace_with(
        CaptureRewrite::Group {
            index: 1,
            prefix: String::from_str("git checkout -b "),
            suffix: String::from_str(""),
        },
    ).build()
}

/// git_branch_0flag: list all branches when a bare revision is rejected.
pub fn create_git_branch_0flag() -> (r: Rule)
    ensures
        is_simple_rule(
            r,
            "git_branch_0flag"@,
            Some("git branch"@),
            Some("fatal: bad revision"@),
            "git branch"@,
            "git branch -a"@,
            400,
        ),
{
    SimpleRuleBuilder::new("git_branch_0flag").match_command("git branch").match_output(
        "fatal: bad revision",
    ).priority(400).replace("git branch", "git branch -a")
}

/// git_push_set_upstream: set the upstream on the first push.
pub fn create_git_push_set_upstream() -> (r: Rule)
    ensures
        is_simple_rule(
            r,
            "git_push_set_upstream"@,
            Some("git push"@),
            Some("fatal: The current branch"@),
            "git push"@,
            "git push -u origin"@,
            600,
        ),
{
    SimpleRuleBuilder::new("git_push_set_upstream").match_command("git push").match_output(
        "fatal: The current branch",
    ).priority(600).replace("git push", "git push -u origin")
}

/// git_pull_rebase: pull with rebase when no merge branch is configured.
pub fn create_git_pull_rebase() -> (r: Rule)
    ensures
        is_simple_rule(
            r,
            "git_pull_rebase"@,
            Some("git pull"@),
            Some("Please specify which branch you want to merge with"@),
            "git pull"@,
            "git pull --rebase origin"@,
            500,
        ),
{
    SimpleRuleBuilder::new("git_pull_rebase").match_command("git pull").match_output(
        "Please specify which branch you want to merge with",
    ).priority(500).replace("git pull", "git pull --rebase origin")
}

/// git_push_force: force-push safely after a rejected push.
pub fn create_git_push_force() -> (r: Rule)
    ensures
        is_simple_rule(
            r,
            "git_push_force"@,
            Some("git push"@),
            Some("rejected"@),
            "git push"@,
            "git push --force-with-lease"@,
            700,
        ),
{
    SimpleRuleBuilder::new("git_push_force").match_command("git push").match_output(
        "rejected",
    ).priority(700).replace("git push", "git push --force-with-lease")
}

/// git_add_all: stage everything before committing.
pub fn create_git_add_all() -> (r: Rule)
    ensures
        is_simple_rule(
            r,
            "git_add_all"@,
            Some("git commit"@),
            Some("fatal: your current branch is behind"@),
            "git commit"@,
            "git add -A && git commit"@,
            800,
        ),
{
    SimpleRuleBuilder::new("git_add_all").match_command("git commit").match_output(
        "fatal: your current branch is behind",
    ).priority(800).replace("git commit", "git add -A && git commit")
}

/// git_commit_amend: amend the previous commit when there is nothing new.
pub fn create_git_commit_amend() -> (r: Rule)
    ensures
        is_simple_rule(
            r,
            "git_commit_amend"@,
            Some("git commit"@),
            Some("nothing to commit"@),
            "git commit"@,
            "git commit --amend --no-edit"@,
            550,
        ),
{
    SimpleRuleBuilder::new("git_commit_amend").match_command("git commit").match_output(
        "nothing to commit",
    ).priority(550).replace("git commit", "git commit --amend --no-edit")
}

} // verus!

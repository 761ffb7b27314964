use cmdfix::rules::filesystem::create_cp_recursive;
use cmdfix::rules::filesystem::create_mkdir_p;
use cmdfix::rules::filesystem::create_mv_to_directory;
use cmdfix::rules::filesystem::create_rm_recursive;
use cmdfix::rules::filesystem::filesystem_rules;
use cmdfix::rules::git::create_git_add_all;
use cmdfix::rules::git::create_git_branch_0flag;
use cmdfix::rules::git::create_git_branch_delete;
use cmdfix::rules::git::create_git_branch_exists;
use cmdfix::rules::git::create_git_commit_amend;
use cmdfix::rules::git::create_git_pull_rebase;
use cmdfix::rules::git::create_git_push_force;
use cmdfix::rules::git::create_git_push_set_upstream;
use cmdfix::rules::package_managers::create_apt_autoremove;
use cmdfix::rules::package_managers::create_apt_get_search;
use cmdfix::rules::package_managers::create_apt_install_builddeps;
use cmdfix::rules::package_managers::package_manager_rules;
use cmdfix::rules::permissions::create_chmod_execute;
use cmdfix::rules::permissions::create_chmod_recursive;
use cmdfix::rules::permissions::create_sudo_apt;
use cmdfix::rules::permissions::create_sudo_permission_denied;
use cmdfix::rules::permissions::permission_rules;
use cmdfix::types::Command;

#[test]
fn test_mkdir_p_rule() {
    let rule = create_mkdir_p();
    assert_eq!(rule.name(), "mkdir_p");

    let cmd = Command::new(
        "mkdir a/b/c",
        "mkdir: cannot create directory 'a/b/c': No such file or directory",
        1,
    );

    assert!(rule.matches(&cmd));
    let corrections = rule.get_new_commands(&cmd);
    assert!(!corrections.is_empty());
    assert!(corrections[0].contains("-p"));
}

#[test]
fn test_rm_recursive_rule() {
    let rule = create_rm_recursive();
    assert_eq!(rule.name(), "rm_recursive");

    let cmd = Command::new("rm my_dir", "rm: cannot remove 'my_dir': Is a directory", 1);

    assert!(rule.matches(&cmd));
    let corrections = rule.get_new_commands(&cmd);
    assert!(!corrections.is_empty());
    assert!(corrections[0].contains("-r"));
}

#[test]
fn test_cp_recursive_rule() {
    let rule = create_cp_recursive();
    assert_eq!(rule.name(), "cp_recursive");

    let cmd = Command::new(
        "cp my_dir /backup/",
        "cp: my_dir is a directory (not copied).Is a directory",
        1,
    );

    assert!(rule.matches(&cmd));
    let corrections = rule.get_new_commands(&cmd);
    assert!(!corrections.is_empty());
    assert!(corrections[0].contains("-r"));
}

#[test]
fn test_mv_to_directory_rule() {
    let rule = create_mv_to_directory();
    assert_eq!(rule.name(), "mv_to_directory");

    let cmd = Command::new(
        "mv file.txt backup/file.txt",
        "mv: cannot move 'file.txt' to 'backup/file.txt': No such file or directory",
        1,
    );

    assert!(rule.matches(&cmd));
}

#[test]
fn test_filesystem_rules_exist() {
    let rules = filesystem_rules();
    assert_eq!(rules.len(), 4);
}

#[test]
fn test_filesystem_rules_priorities() {
    let rules = filesystem_rules();
    let priorities: Vec<_> = rules.iter().map(|r| r.priority()).collect();

    assert!(priorities.contains(&100));
    assert!(priorities.contains(&200));
    assert!(priorities.contains(&300));
    assert!(priorities.contains(&400));
}

#[test]
fn test_git_branch_delete_rule() {
    let rule = create_git_branch_delete();
    assert_eq!(rule.name(), "git_branch_delete");

    let cmd = Command::new(
        "git branch -d feature",
        "error: The branch 'feature' is not fully merged.",
        1,
    );

    assert!(rule.matches(&cmd));
    let corrections = rule.get_new_commands(&cmd);
    assert!(!corrections.is_empty());
    assert!(corrections[0].contains("-D"));
}

#[test]
fn test_git_branch_delete_no_match() {
    let rule = create_git_branch_delete();

    let cmd = Command::new("git branch -d main", "Deleted branch main", 0);

    assert!(!rule.matches(&cmd));
}

#[test]
fn test_git_branch_exists_rule() {
    let rule = create_git_branch_exists().unwrap();
    assert_eq!(rule.name(), "git_branch_exists");

    let cmd = Command::new(
        "git checkout feature",
        "error: pathspec 'feature' did not match any file(s) known to git",
        1,
    );

    assert!(rule.matches(&cmd));
    let corrections = rule.get_new_commands(&cmd);
    assert!(!corrections.is_empty());
    assert!(corrections[0].contains("checkout -b"));
}

#[test]
fn test_git_branch_0flag_rule() {
    let rule = create_git_branch_0flag();
    assert_eq!(rule.name(), "git_branch_0flag");

    let cmd = Command::new("git branch", "fatal: bad revision ''", 128);

    assert!(rule.matches(&cmd));
    let corrections = rule.get_new_commands(&cmd);
    assert!(!corrections.is_empty());
    assert!(corrections[0].contains("-a"));
}

#[test]
fn test_git_push_set_upstream_rule() {
    let rule = create_git_push_set_upstream();
    assert_eq!(rule.name(), "git_push_set_upstream");

    let cmd = Command::new("git push", "fatal: The current branch main has no upstream branch.", 1);

    assert!(rule.matches(&cmd));
    let corrections = rule.get_new_commands(&cmd);
    assert!(!corrections.is_empty());
    assert!(corrections[0].contains("-u origin"));
}

#[test]
fn test_git_pull_rebase_rule() {
    let rule = create_git_pull_rebase();
    assert_eq!(rule.name(), "git_pull_rebase");

    let cmd = Command::new("git pull", "Please specify which branch you want to merge with", 1);

    assert!(rule.matches(&cmd));
    let corrections = rule.get_new_commands(&cmd);
    assert!(!corrections.is_empty());
    assert!(corrections[0].contains("--rebase"));
}

#[test]
fn test_git_push_force_rule() {
    let rule = create_git_push_force();
    assert_eq!(rule.name(), "git_push_force");

    let cmd = Command::new(
        "git push",
        "error: failed to push some refs to origin\n[rejected]        main -> main (non-fast-forward)",
        1,
    );

    assert!(rule.matches(&cmd));
    let corrections = rule.get_new_commands(&cmd);
    assert!(!corrections.is_empty());
    assert!(corrections[0].contains("--force-with-lease"));
}

#[test]
fn test_git_add_all_rule() {
    let rule = create_git_add_all();
    assert_eq!(rule.name(), "git_add_all");

    let cmd = Command::new(
        "git commit -m 'test'",
        "fatal: your current branch is behind 'origin/main' by 1 commit",
        1,
    );

    assert!(rule.matches(&cmd));
    let corrections = rule.get_new_commands(&cmd);
    assert!(!corrections.is_empty());
    assert!(corrections[0].contains("git add -A"));
}

#[test]
fn test_git_commit_amend_rule() {
    let rule = create_git_commit_amend();
    assert_eq!(rule.name(), "git_commit_amend");

    let cmd = Command::new(
        "git commit --allow-empty",
        "On branch main\nnothing to commit, working tree clean",
        1,
    );

    assert!(rule.matches(&cmd));
    let corrections = rule.get_new_commands(&cmd);
    assert!(!corrections.is_empty());
    assert!(corrections[0].contains("--amend"));
}

#[test]
fn test_apt_autoremove_rule() {
    let rule = create_apt_autoremove();
    assert_eq!(rule.name(), "apt_autoremove");

    let cmd = Command::new(
        "apt remove package_name",
        "WARNING: The following packages were automatically installed",
        0,
    );

    assert!(rule.matches(&cmd));
}

#[test]
fn test_apt_get_search_rule() {
    let rule = create_apt_get_search();
    assert_eq!(rule.name(), "apt_get_search");

    let cmd = Command::new("apt search keyword", "E: Invalid operation search", 100);

    assert!(rule.matches(&cmd));
    let corrections = rule.get_new_commands(&cmd);
    assert!(!corrections.is_empty());
    assert!(corrections[0].contains("apt-cache"));
}

#[test]
fn test_apt_install_builddeps_rule() {
    let rule = create_apt_install_builddeps();
    assert_eq!(rule.name(), "apt_install_builddeps");

    let cmd = Command::new("apt install some-package", "error: you need to be root", 1);

    assert!(rule.matches(&cmd));
}

#[test]
fn test_package_manager_rules_exist() {
    let rules = package_manager_rules();
    assert_eq!(rules.len(), 3);
}

#[test]
fn test_package_manager_rules_have_priorities() {
    let rules = package_manager_rules();
    let priorities: Vec<_> = rules.iter().map(|r| r.priority()).collect();

    assert!(priorities.contains(&600));
    assert!(priorities.contains(&500));
    assert!(priorities.contains(&700));
}

#[test]
fn test_sudo_permission_denied_rule() {
    let rule = create_sudo_permission_denied();
    assert_eq!(rule.name(), "sudo_permission_denied");

    let cmd = Command::new(
        "apt update",
        "E: Could not open lock file /var/lib/apt/lists/lock - open (13: Permission denied)",
        100,
    );

    assert!(rule.matches(&cmd));
}

#[test]
fn test_sudo_apt_rule() {
    let rule = create_sudo_apt();
    assert_eq!(rule.name(), "sudo_apt");

    let cmd = Command::new("apt update", "E: Could not open lock file /var/lib/apt/lists/lock", 100);

    assert!(rule.matches(&cmd));
    let corrections = rule.get_new_commands(&cmd);
    assert!(!corrections.is_empty());
    assert!(corrections[0].contains("sudo"));
}

#[test]
fn test_chmod_execute_rule() {
    let rule = create_chmod_execute();
    assert_eq!(rule.name(), "chmod_execute");

    let cmd = Command::new("./script.sh", "bash: ./script.sh: Permission denied", 126);

    assert!(rule.matches(&cmd));
}

#[test]
fn test_chmod_recursive_rule() {
    let rule = create_chmod_recursive();
    assert_eq!(rule.name(), "chmod_recursive");

    let cmd = Command::new(
        "chmod 755 /path/to/dir",
        "chmod: cannot access '/path/to/dir': No such file or directory",
        1,
    );

    assert!(rule.matches(&cmd));
    let corrections = rule.get_new_commands(&cmd);
    assert!(!corrections.is_empty());
    assert!(corrections[0].contains("-R"));
}

#[test]
fn test_permission_rules_exist() {
    let rules = permission_rules();
    assert_eq!(rules.len(), 4);
}

#[test]
fn test_permission_rules_have_different_names() {
    let rules = permission_rules();
    let names: Vec<_> = rules.iter().map(|r| r.name().to_string()).collect();

    assert!(names.contains(&"sudo_permission_denied".to_string()));
    assert!(names.contains(&"sudo_apt".to_string()));
    assert!(names.contains(&"chmod_execute".to_string()));
    assert!(names.contains(&"chmod_recursive".to_string()));
}

#[test]
fn test_git_rule_groups() {
    let branch = cmdfix::rules::git::git_branch_rules().unwrap();
    assert_eq!(branch.len(), 3);
    let push_pull = cmdfix::rules::git::git_push_pull_rules();
    assert_eq!(push_pull.len(), 3);
    let staging = cmdfix::rules::git::git_staging_rules();
    assert_eq!(staging.len(), 2);
}

#[test]
fn test_filter_rules_by_config() {
    let mut config = cmdfix::Config::default();
    config.set_rule(
        "mkdir_p",
        cmdfix::config::RuleConfig { enabled: false, priority: None },
    );
    let kept = cmdfix::rules::filter_rules_by_config(filesystem_rules(), &config);
    let names: Vec<_> = kept.iter().map(|r| r.name().to_string()).collect();
    assert_eq!(names, vec!["rm_recursive", "cp_recursive", "mv_to_directory"]);
}

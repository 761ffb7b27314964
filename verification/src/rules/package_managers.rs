//! Package-manager correction rules: cleanup, search and build-dependency
//! mistakes around apt.

use crate::rules::builders::simple::is_simple_rule;
use crate::rules::builders::SimpleRuleBuilder;
use crate::types::Rule;
use vstd::prelude::*;

verus! {

/// All package-manager rules, in a fixed order.
pub fn package_manager_rules() -> (r: Vec<Rule>)
    ensures
        r@.len() == 3,
        is_simple_rule(
            r@[0],
            "apt_autoremove"@,
            Some("apt remove"@),
            Some("WARNING: The following"@),
            "apt remove"@,
            "apt autoremove"@,
            600,
        ),
        is_simple_rule(
            r@[1],
            "apt_get_search"@,
            Some("apt search"@),
            Some("E: Invalid operation"@),
            "apt search"@,
            "apt-cache search"@,
            500,
        ),
        is_simple_rule(
            r@[2],
            "apt_install_builddeps"@,
            Some("apt install"@),
            Some("error: you need to be root"@),
            "apt install"@,
            "apt install build-essential"@,
            700,
        ),
{
    let mut r: Vec<Rule> = Vec::new();
    r.push(create_apt_autoremove());
    r.push(create_apt_get_search());
    r.push(create_apt_install_builddeps());
    r
}

/// apt_autoremove: clean up packages that are no longer needed.
pub fn create_apt_autoremove() -> (r: Rule)
    ensures
        is_simple_rule(
            r,
            "apt_autoremove"@,
            Some("apt remove"@),
            Some("WARNING: The following"@),
            "apt remove"@,
            "apt autoremove"@,
            600,
        ),
{
    SimpleRuleBuilder::new("apt_autoremove").match_command("apt remove").match_output(
        "WARNING: The following",
    ).priority(600).replace("apt remove", "apt autoremove")
}

/// apt_get_search: use apt-cache when apt itself cannot search.
pub fn create_apt_get_search() -> (r: Rule)
    ensures
        is_simple_rule(
            r,
            "apt_get_search"@,
            Some("apt search"@),
            Some("E: Invalid operation"@),
            "apt search"@,
            "apt-cache search"@,
            500,
        ),
{
    SimpleRuleBuilder::new("apt_get_search").match_command("apt search").match_output(
        "E: Invalid operation",
    ).priority(500).replace("apt search", "apt-cache search")
}

/// apt_install_builddeps: install the build toolchain alongside a package.
pub fn create_apt_install_builddeps() -> (r: Rule)
    ensures
        is_simple_rule(
            r,
            "apt_install_builddeps"@,
            Some("apt install"@),
            Some("error: you need to be root"@),
            "apt install"@,
            "apt install build-essential"@,
            700,
        ),
{
    SimpleRuleBuilder::new("apt_install_builddeps").match_command("apt install").match_output(
        "error: you need to be root",
    ).priority(700).replace("apt install", "apt install build-essential")
}

} // verus!

use timedumper::{shell_named, ShellKind};

#[test]
fn the_five_shells_go_by_their_names() {
    assert_eq!(shell_named("bash"), ShellKind::Bash);
    assert_eq!(shell_named("fish"), ShellKind::Fish);
    assert_eq!(shell_named("zsh"), ShellKind::Zsh);
    assert_eq!(shell_named("powershell"), ShellKind::PowerShell);
    assert_eq!(shell_named("elvish"), ShellKind::Elvish);
}

#[test]
fn the_case_of_a_name_does_not_matter() {
    assert_eq!(shell_named("FISH"), ShellKind::Fish);
    assert_eq!(shell_named("Zsh"), ShellKind::Zsh);
    assert_eq!(shell_named("PowerShell"), ShellKind::PowerShell);
    assert_eq!(shell_named("eLvIsH"), ShellKind::Elvish);
}

#[test]
fn any_other_name_is_taken_for_bash() {
    assert_eq!(shell_named(""), ShellKind::Bash);
    assert_eq!(shell_named("tcsh"), ShellKind::Bash);
    assert_eq!(shell_named("fish "), ShellKind::Bash);
    assert_eq!(shell_named("/bin/zsh"), ShellKind::Bash);
    assert_eq!(shell_named("zsh5"), ShellKind::Bash);
}

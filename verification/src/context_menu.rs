//! Planning of the shell-integration registry entries.
//!
//! The lock-resolution core owns no registry state; what belongs here is the
//! pure part of installation: computing, exactly, which keys and values the
//! context-menu entries consist of. Writing and deleting the keys is one-shot
//! OS work left to the embedding program, which executes these plans.

use vstd::prelude::*;
use vstd::string::StringExecFns;

verus! {

/// One context-menu entry as registry content: the menu key with its display
/// name and icon, and the `command` subkey with the invocation string.
#[derive(Debug)]
pub struct MenuEntryPlan {
    /// The menu key under the classes root, e.g. `*\shell\FLC_Check`.
    pub key_path: String,
    /// The menu caption (the key's default value).
    pub display_name: String,
    /// The icon specification, `<exe_path>,0`.
    pub icon_value: String,
    /// The command subkey, `<key_path>\command`.
    pub command_key_path: String,
    /// The invocation string, `"<exe_path>" <subcommand> "%1"`.
    pub command_value: String,
}

/// The menu key path: `<base>\<key>`.
pub open spec fn menu_key_path(base: Seq<char>, key: Seq<char>) -> Seq<char> {
    base + "\\"@ + key
}

/// The command subkey path: `<base>\<key>\command`.
pub open spec fn command_key_path_spec(base: Seq<char>, key: Seq<char>) -> Seq<char> {
    menu_key_path(base, key) + "\\command"@
}

/// The icon value: the executable's first icon.
pub open spec fn icon_value_spec(exe: Seq<char>) -> Seq<char> {
    exe + ",0"@
}

/// The invocation string: the quoted executable, the subcommand, and the
/// quoted selection placeholder.
pub open spec fn command_value_spec(exe: Seq<char>, cmd: Seq<char>) -> Seq<char> {
    "\""@ + exe + "\" "@ + cmd + " \"%1\""@
}

/// The shell key under one file-type class: `<file_type>\shell`.
pub open spec fn shell_base(file_type: Seq<char>) -> Seq<char> {
    file_type + "\\shell"@
}

/// Whether a plan consists exactly of the entry for the given base key, key
/// name, display name, executable, and subcommand.
pub open spec fn plan_matches(
    p: MenuEntryPlan,
    base: Seq<char>,
    key: Seq<char>,
    disp: Seq<char>,
    exe: Seq<char>,
    cmd: Seq<char>,
) -> bool {
    &&& p.key_path@ == menu_key_path(base, key)
    &&& p.display_name@ == disp
    &&& p.icon_value@ == icon_value_spec(exe)
    &&& p.command_key_path@ == command_key_path_spec(base, key)
    &&& p.command_value@ == command_value_spec(exe, cmd)
}

/// Computes the registry content of one context-menu entry.
pub fn plan_menu_entry(
    base_key: &str,
    key_name: &str,
    display_name: &str,
    exe_path: &str,
    command: &str,
) -> (r: MenuEntryPlan)
    ensures
        plan_matches(r, base_key@, key_name@, display_name@, exe_path@, command@),
{
    let mut key_path = base_key.to_owned();
    key_path.append("\\");
    key_path.append(key_name);
    let mut command_key_path = key_path.clone();
    command_key_path.append("\\command");
    let mut icon_value = exe_path.to_owned();
    icon_value.append(",0");
    let mut command_value = "\"".to_owned();
    command_value.append(exe_path);
    command_value.append("\" ");
    command_value.append(command);
    command_value.append(" \"%1\"");
    let r = MenuEntryPlan {
        key_path,
        display_name: display_name.to_owned(),
        icon_value,
        command_key_path,
        command_value,
    };
    proof {
        assert(r.key_path@ =~= menu_key_path(base_key@, key_name@));
        assert(r.command_key_path@ =~= command_key_path_spec(base_key@, key_name@));
        assert(r.icon_value@ =~= icon_value_spec(exe_path@));
        assert(r.command_value@ =~= command_value_spec(exe_path@, command@));
    }
    r
}

/// The three context-menu entries — check, unlock, monitor — for one
/// file-type class (`*` for all files).
pub fn install_for_file_type(file_type: &str, exe_path: &str) -> (r: Vec<MenuEntryPlan>)
    ensures
        r@.len() == 3,
        plan_matches(
            r@[0],
            shell_base(file_type@),
            "FLC_Check"@,
            "FLC Check"@,
            exe_path@,
            "check"@,
        ),
        plan_matches(
            r@[1],
            shell_base(file_type@),
            "FLC_Unlock"@,
            "FLC Unlock"@,
            exe_path@,
            "unlock"@,
        ),
        plan_matches(
            r@[2],
            shell_base(file_type@),
            "FLC_Monitor"@,
            "FLC Monitor"@,
            exe_path@,
            "monitor"@,
        ),
{
    let mut base = file_type.to_owned();
    base.append("\\shell");
    proof {
        assert(base@ =~= shell_base(file_type@));
    }
    let mut r: Vec<MenuEntryPlan> = Vec::new();
    r.push(plan_menu_entry(base.as_str(), "FLC_Check", "FLC Check", exe_path, "check"));
    r.push(plan_menu_entry(base.as_str(), "FLC_Unlock", "FLC Unlock", exe_path, "unlock"));
    r.push(plan_menu_entry(base.as_str(), "FLC_Monitor", "FLC Monitor", exe_path, "monitor"));
    r
}

/// The two context-menu entries — check and monitor — for folders.
pub fn install_for_folders(exe_path: &str) -> (r: Vec<MenuEntryPlan>)
    ensures
        r@.len() == 2,
        plan_matches(
            r@[0],
            "Directory\\shell"@,
            "FLC_Check"@,
            "FLC Check"@,
            exe_path@,
            "check"@,
        ),
        plan_matches(
            r@[1],
            "Directory\\shell"@,
            "FLC_Monitor"@,
            "FLC Monitor"@,
            exe_path@,
            "monitor"@,
        ),
{
    let mut r: Vec<MenuEntryPlan> = Vec::new();
    r.push(plan_menu_entry("Directory\\shell", "FLC_Check", "FLC Check", exe_path, "check"));
    r.push(plan_menu_entry("Directory\\shell", "FLC_Monitor", "FLC Monitor", exe_path, "monitor"));
    r
}

/// The registry keys whose removal uninstalls every context-menu entry this
/// program ever installs, for all files and for folders.
pub fn uninstall() -> (r: Vec<String>)
    ensures
        r@.len() == 5,
        r@[0]@ == "*\\shell\\FLC_Check"@,
        r@[1]@ == "*\\shell\\FLC_Unlock"@,
        r@[2]@ == "*\\shell\\FLC_Monitor"@,
        r@[3]@ == "Directory\\shell\\FLC_Check"@,
        r@[4]@ == "Directory\\shell\\FLC_Monitor"@,
{
    let mut r: Vec<String> = Vec::new();
    r.push("*\\shell\\FLC_Check".to_owned());
    r.push("*\\shell\\FLC_Unlock".to_owned());
    r.push("*\\shell\\FLC_Monitor".to_owned());
    r.push("Directory\\shell\\FLC_Check".to_owned());
    r.push("Directory\\shell\\FLC_Monitor".to_owned());
    r
}

/// The status code with which the registry reports a key that does not
/// exist: deleting an already-absent key is success (idempotent delete).
pub const KEY_ABSENT_STATUS: u32 = 2;

/// The outcome of one registry-key deletion during uninstall.
#[derive(Debug, Clone, Copy, PartialEq, Eq, Structural)]
pub enum DeleteOutcome {
    /// The key existed and was removed.
    Removed,
    /// The key was already absent; the deletion is idempotent, so this is
    /// success, not an error.
    AlreadyAbsent,
    /// The deletion failed with the given raw status code.
    Failed(u32),
}

/// Classifies the raw status of a registry-key deletion: success, the
/// ignorable already-absent case, or a genuine failure.
pub fn classify_delete_status(status: u32) -> (r: DeleteOutcome)
    ensures
        status == 0 ==> r == DeleteOutcome::Removed,
        status == KEY_ABSENT_STATUS ==> r == DeleteOutcome::AlreadyAbsent,
        status != 0 && status != KEY_ABSENT_STATUS ==> r == DeleteOutcome::Failed(status),
{
    if status == 0 {
        DeleteOutcome::Removed
    } else if status == KEY_ABSENT_STATUS {
        DeleteOutcome::AlreadyAbsent
    } else {
        DeleteOutcome::Failed(status)
    }
}

} // verus!

//! Settings of the system: administrator membership, login screen options
//! and autologon.
use vstd::prelude::*;

pub mod lockscreen;
pub mod profile;

use crate::command::{owned, texts, CommandLine};
use crate::error::AmectError;
use crate::registry::{Hive, RegistryEdit};

verus! {

/// The `NET localgroup` switch that adds (`true`) or removes (`false`) a member.
pub open spec fn membership_switch(enable: bool) -> Seq<char> {
    if enable {
        "/add"@
    } else {
        "/delete"@
    }
}

/// The command that adds `username` to, or removes it from, the
/// administrators group.
pub fn elevation_command(enable: bool, username: &str) -> (c: CommandLine)
    ensures
        c@ == ("NET"@, seq!["localgroup"@, "administrators"@, username@, membership_switch(enable)]),
{
    let action = if enable {
        "/add"
    } else {
        "/delete"
    };
    let c = CommandLine {
        program: owned("NET"),
        args: vec![owned("localgroup"), owned("administrators"), owned(username), owned(action)],
    };
    assert(texts(c.args@) =~= seq![
        "localgroup"@,
        "administrators"@,
        username@,
        membership_switch(enable),
    ]);
    c
}

/// What a finished elevation command means for `username`.
pub fn elevation_outcome(success: bool, username: &str, status: &str) -> (r: Result<
    (),
    AmectError,
>)
    ensures
        success ==> r is Ok,
        !success ==> (r matches Err(AmectError::ElevationFailed { username: u, status: t })
            && u@ == username@ && t@ == status@),
{
    if success {
        Ok(())
    } else {
        Err(AmectError::ElevationFailed { username: owned(username), status: owned(status) })
    }
}

/// Key of the logon policies under `HKEY_LOCAL_MACHINE`.
pub open spec fn system_policies_key() -> Seq<char> {
    "SOFTWARE\\Microsoft\\Windows\\CurrentVersion\\Policies\\System"@
}

/// Key of the lock screen policies under `HKEY_LOCAL_MACHINE`.
pub open spec fn lockscreen_policies_key() -> Seq<char> {
    "SOFTWARE\\Policies\\Microsoft\\Windows\\System"@
}

/// A policy switched on by the `REG_DWORD` 1 and off by deleting the value.
pub open spec fn policy_edit(e: RegistryEdit, enable: bool, key: Seq<char>, name: Seq<char>) -> bool {
    if enable {
        e matches RegistryEdit::SetDword { hive, key: k, name: n, value } && hive == Hive::LocalMachine
            && k@ == key && n@ == name && value == 1
    } else {
        e matches RegistryEdit::DeleteValue { hive, key: k, name: n } && hive == Hive::LocalMachine
            && k@ == key && n@ == name
    }
}

/// The edit for the login screen's user name requirement: `true` makes
/// the login screen ask for the user name (the last user is not shown).
pub open spec fn username_requirement_edit(e: RegistryEdit, enable: bool) -> bool {
    policy_edit(e, enable, system_policies_key(), "dontdisplaylastusername"@)
}

/// The edit for the lock screen blur: `true` switches the acrylic blur of
/// the logon background on, by deleting the policy that disables it.
pub open spec fn lockscreen_blur_edit_of(e: RegistryEdit, enable: bool) -> bool {
    policy_edit(e, !enable, lockscreen_policies_key(), "DisableAcrylicBackgroundOnLogon"@)
}

fn policy(enable: bool, key: &str, name: &str) -> (e: RegistryEdit)
    ensures
        policy_edit(e, enable, key@, name@),
{
    if enable {
        RegistryEdit::SetDword { hive: Hive::LocalMachine, key: owned(key), name: owned(name), value: 1 }
    } else {
        RegistryEdit::DeleteValue { hive: Hive::LocalMachine, key: owned(key), name: owned(name) }
    }
}

/// The edit that makes the login screen ask for the user name (`true`,
/// the last user is not shown) or not.
pub fn username_login_requirement_edit(enable: bool) -> (e: RegistryEdit)
    ensures
        username_requirement_edit(e, enable),
{
    policy(enable, "SOFTWARE\\Microsoft\\Windows\\CurrentVersion\\Policies\\System", "dontdisplaylastusername")
}

/// The edit that switches the acrylic blur of the logon background on
/// (`true`: the policy that disables it is deleted) or off (`false`: that
/// policy is set).
pub fn lockscreen_blur_edit(enable: bool) -> (e: RegistryEdit)
    ensures
        lockscreen_blur_edit_of(e, enable),
{
    policy(!enable, "SOFTWARE\\Policies\\Microsoft\\Windows\\System", "DisableAcrylicBackgroundOnLogon")
}

/// Runs of the autologon helper, one after the other; the first that does
/// not succeed makes the whole fail with `failure`.
#[derive(Clone, Debug, PartialEq, Eq)]
pub struct AutologonPlan {
    pub runs: Vec<Vec<String>>,
    pub failure: AmectError,
}

impl AutologonPlan {
    /// The arguments of each run, as text.
    pub open spec fn run_texts(self) -> Seq<Seq<Seq<char>>> {
        self.runs@.map_values(|r: Vec<String>| texts(r@))
    }

    /// The result of the plan when run `i` (in order) is the first that did
    /// not succeed, or `i == runs.len()` when all succeeded.
    pub open spec fn result_when_first_failure_at(self, i: int) -> Result<(), AmectError> {
        if i >= self.runs@.len() {
            Ok(())
        } else {
            Err(self.failure)
        }
    }

    /// What the plan results in after `completed` runs succeeded and the
    /// next one ended with `success`; `None` when the next run is due.
    pub fn after_run(&self, completed: usize, success: bool) -> (r: Option<Result<(), AmectError>>)
        requires
            completed < self.runs@.len(),
        ensures
            !success ==> r == Some(Err::<(), AmectError>(self.failure)),
            success && completed + 1 < self.runs@.len() ==> r is None,
            success && completed + 1 == self.runs@.len() ==> r == Some(Ok::<(), AmectError>(())),
    {
        if !success {
            Some(Err(self.failure.duplicate()))
        } else if completed < self.runs.len() - 1 {
            None
        } else {
            Some(Ok(()))
        }
    }
}

/// The helper runs that set up autologon for `username` with `password`:
/// clear any earlier setup, then store the new one without requiring
/// Ctrl+Alt+Del.
pub fn enable_autologon_plan(username: &str, password: &str) -> (p: AutologonPlan)
    ensures
        p.run_texts() == seq![seq!["/del"@], seq![username@, password@, "/DISABLECAD"@]],
        p.failure == AmectError::EnableAutologon,
{
    let p = AutologonPlan {
        runs: vec![vec![owned("/del")], vec![owned(username), owned(password), owned("/DISABLECAD")]],
        failure: AmectError::EnableAutologon,
    };
    assert(texts(p.runs@[0]@) =~= seq!["/del"@]);
    assert(texts(p.runs@[1]@) =~= seq![username@, password@, "/DISABLECAD"@]);
    assert(p.run_texts() =~= seq![seq!["/del"@], seq![username@, password@, "/DISABLECAD"@]]);
    p
}

/// The helper run that removes the autologon setup.
pub fn disable_autologon_plan() -> (p: AutologonPlan)
    ensures
        p.run_texts() == seq![seq!["/del"@]],
        p.failure == AmectError::DisableAutologon,
{
    let p = AutologonPlan { runs: vec![vec![owned("/del")]], failure: AmectError::DisableAutologon };
    assert(texts(p.runs@[0]@) =~= seq!["/del"@]);
    assert(p.run_texts() =~= seq![seq!["/del"@]]);
    p
}

/// Enabling autologon first clears any earlier setup: its first helper run
/// is the run that disables autologon.
pub proof fn lemma_enable_clears_first(enable: AutologonPlan, disable: AutologonPlan, username: Seq<char>, password: Seq<char>)
    requires
        enable.run_texts() == seq![seq!["/del"@], seq![username, password, "/DISABLECAD"@]],
        disable.run_texts() == seq![seq!["/del"@]],
    ensures
        enable.run_texts()[0] == disable.run_texts()[0],
        disable.run_texts().len() == 1,
        enable.run_texts().len() == 2,
{
}

/// Elevating a user adds it to the administrators group and revoking the
/// elevation removes it: the command ends with `/add` exactly when the user
/// is to be elevated, and with `/delete` otherwise.
pub proof fn lemma_elevation_switch(enable: bool)
    ensures
        membership_switch(enable) == "/add"@ <==> enable,
        membership_switch(enable) == "/delete"@ <==> !enable,
{
    reveal_strlit("/add");
    reveal_strlit("/delete");
    assert("/add"@.len() != "/delete"@.len());
}

/// Switching the lock screen blur on deletes the value
/// `DisableAcrylicBackgroundOnLogon` of the lock screen policies, and
/// switching it off stores 1 there; requiring the user name on the login
/// screen stores 1 in `dontdisplaylastusername` of the logon policies, and
/// not requiring it deletes that value. Both act on `HKEY_LOCAL_MACHINE`.
pub proof fn lemma_policy_edits(e: RegistryEdit, enable: bool)
    ensures
        lockscreen_blur_edit_of(e, enable) ==> {
            &&& (enable <==> e is DeleteValue)
            &&& (!enable <==> (e matches RegistryEdit::SetDword { value, .. } && value == 1))
            &&& e matches RegistryEdit::SetDword { hive, key, name, .. } ==> hive == Hive::LocalMachine
                && key@ == lockscreen_policies_key() && name@ == "DisableAcrylicBackgroundOnLogon"@
            &&& e matches RegistryEdit::DeleteValue { hive, key, name } ==> hive == Hive::LocalMachine
                && key@ == lockscreen_policies_key() && name@ == "DisableAcrylicBackgroundOnLogon"@
        },
        username_requirement_edit(e, enable) ==> {
            &&& (enable <==> (e matches RegistryEdit::SetDword { value, .. } && value == 1))
            &&& (!enable <==> e is DeleteValue)
            &&& e matches RegistryEdit::SetDword { hive, key, name, .. } ==> hive == Hive::LocalMachine
                && key@ == system_policies_key() && name@ == "dontdisplaylastusername"@
            &&& e matches RegistryEdit::DeleteValue { hive, key, name } ==> hive == Hive::LocalMachine
                && key@ == system_policies_key() && name@ == "dontdisplaylastusername"@
        },
{
}

} // verus!

//! The choices of the interactive menus and the labels they are shown with.
use vstd::prelude::*;

verus! {

/// Account settings.
#[derive(Clone, Copy, Debug, PartialEq, Eq)]
pub enum UserOptions {
    SetUsername,
    SetPassword,
    SetAdminPassword,
    UserElevation,
}

/// Whether the user becomes an administrator.
#[derive(Clone, Copy, Debug, PartialEq, Eq)]
pub enum UserElevationOptions {
    Enable,
    Disable,
}

/// Appearance settings.
#[derive(Clone, Copy, Debug, PartialEq, Eq)]
pub enum VisualOptions {
    SetProfile,
    SetLockscreen,
    LockscreenBlur,
}

/// Whether the lock screen background is blurred.
#[derive(Clone, Copy, Debug, PartialEq, Eq)]
pub enum LockscreenBlurOptions {
    Enable,
    Disable,
}

/// Login settings.
#[derive(Clone, Copy, Debug, PartialEq, Eq)]
pub enum LoginOptions {
    UserRequirement,
    AutoLogin,
}

/// Whether the login screen asks for the user name.
#[derive(Clone, Copy, Debug, PartialEq, Eq)]
pub enum UserRequirementOptions {
    Enable,
    Disable,
}

/// Whether the user is logged in automatically.
#[derive(Clone, Copy, Debug, PartialEq, Eq)]
pub enum AutoLoginOptions {
    Enable,
    Disable,
}

impl UserOptions {
    /// The label of the choice.
    pub open spec fn text(self) -> Seq<char> {
        match self {
            UserOptions::SetUsername => "Set username"@,
            UserOptions::SetPassword => "Set user password"@,
            UserOptions::SetAdminPassword => "Set admin password"@,
            UserOptions::UserElevation => "User elevation"@,
        }
    }

    /// The label of the choice.
    pub fn label(&self) -> (r: String)
        ensures
            r@ == self.text(),
    {
        match self {
            UserOptions::SetUsername => String::from_str("Set username"),
            UserOptions::SetPassword => String::from_str("Set user password"),
            UserOptions::SetAdminPassword => String::from_str("Set admin password"),
            UserOptions::UserElevation => String::from_str("User elevation"),
        }
    }
}

impl UserElevationOptions {
    /// The label of the choice.
    pub open spec fn text(self) -> Seq<char> {
        match self {
            UserElevationOptions::Enable => "Elevate user to admin"@,
            UserElevationOptions::Disable => "Revoke user elevations"@,
        }
    }

    /// The label of the choice.
    pub fn label(&self) -> (r: String)
        ensures
            r@ == self.text(),
    {
        match self {
            UserElevationOptions::Enable => String::from_str("Elevate user to admin"),
            UserElevationOptions::Disable => String::from_str("Revoke user elevations"),
        }
    }
}

impl VisualOptions {
    /// The label of the choice.
    pub open spec fn text(self) -> Seq<char> {
        match self {
            VisualOptions::SetProfile => "Set profile image"@,
            VisualOptions::SetLockscreen => "Set lockscreen image"@,
            VisualOptions::LockscreenBlur => "Lockscreen blur"@,
        }
    }

    /// The label of the choice.
    pub fn label(&self) -> (r: String)
        ensures
            r@ == self.text(),
    {
        match self {
            VisualOptions::SetProfile => String::from_str("Set profile image"),
            VisualOptions::SetLockscreen => String::from_str("Set lockscreen image"),
            VisualOptions::LockscreenBlur => String::from_str("Lockscreen blur"),
        }
    }
}

impl LockscreenBlurOptions {
    /// The label of the choice.
    pub open spec fn text(self) -> Seq<char> {
        match self {
            LockscreenBlurOptions::Enable => "Enable lockscreen blur"@,
            LockscreenBlurOptions::Disable => "Disable lockscreen blur"@,
        }
    }

    /// The label of the choice.
    pub fn label(&self) -> (r: String)
        ensures
            r@ == self.text(),
    {
        match self {
            LockscreenBlurOptions::Enable => String::from_str("Enable lockscreen blur"),
            LockscreenBlurOptions::Disable => String::from_str("Disable lockscreen blur"),
        }
    }
}

impl LoginOptions {
    /// The label of the choice.
    pub open spec fn text(self) -> Seq<char> {
        match self {
            LoginOptions::UserRequirement => "Username requirement"@,
            LoginOptions::AutoLogin => "Auto-login"@,
        }
    }

    /// The label of the choice.
    pub fn label(&self) -> (r: String)
        ensures
            r@ == self.text(),
    {
        match self {
            LoginOptions::UserRequirement => String::from_str("Username requirement"),
            LoginOptions::AutoLogin => String::from_str("Auto-login"),
        }
    }
}

impl UserRequirementOptions {
    /// The label of the choice.
    pub open spec fn text(self) -> Seq<char> {
        match self {
            UserRequirementOptions::Enable => "Enable username requiement on login"@,
            UserRequirementOptions::Disable => "Disable username requiement on login"@,
        }
    }

    /// The label of the choice.
    pub fn label(&self) -> (r: String)
        ensures
            r@ == self.text(),
    {
        match self {
            UserRequirementOptions::Enable => String::from_str("Enable username requiement on login"),
            UserRequirementOptions::Disable => String::from_str(
                "Disable username requiement on login",
            ),
        }
    }
}

impl AutoLoginOptions {
    /// The label of the choice.
    pub open spec fn text(self) -> Seq<char> {
        match self {
            AutoLoginOptions::Enable => "Enable AutoLogon"@,
            AutoLoginOptions::Disable => "Disable AutoLogon"@,
        }
    }

    /// The label of the choice.
    pub fn label(&self) -> (r: String)
        ensures
            r@ == self.text(),
    {
        match self {
            AutoLoginOptions::Enable => String::from_str("Enable AutoLogon"),
            AutoLoginOptions::Disable => String::from_str("Disable AutoLogon"),
        }
    }
}

/// Every menu tells its choices apart: different choices have different labels.
pub proof fn lemma_labels_distinct()
    ensures
        forall|a: UserOptions, b: UserOptions| a != b ==> a.text() != b.text(),
        forall|a: UserElevationOptions, b: UserElevationOptions| a != b ==> a.text() != b.text(),
        forall|a: VisualOptions, b: VisualOptions| a != b ==> a.text() != b.text(),
        forall|a: LockscreenBlurOptions, b: LockscreenBlurOptions| a != b ==> a.text() != b.text(),
        forall|a: LoginOptions, b: LoginOptions| a != b ==> a.text() != b.text(),
        forall|a: UserRequirementOptions, b: UserRequirementOptions|
            a != b ==> a.text() != b.text(),
        forall|a: AutoLoginOptions, b: AutoLoginOptions| a != b ==> a.text() != b.text(),
{
    reveal_strlit("Set username");
    reveal_strlit("Set user password");
    reveal_strlit("Set admin password");
    reveal_strlit("User elevation");
    reveal_strlit("Elevate user to admin");
    reveal_strlit("Revoke user elevations");
    reveal_strlit("Set profile image");
    reveal_strlit("Set lockscreen image");
    reveal_strlit("Lockscreen blur");
    reveal_strlit("Enable lockscreen blur");
    reveal_strlit("Disable lockscreen blur");
    reveal_strlit("Username requirement");
    reveal_strlit("Auto-login");
    reveal_strlit("Enable username requiement on login");
    reveal_strlit("Disable username requiement on login");
    reveal_strlit("Enable AutoLogon");
    reveal_strlit("Disable AutoLogon");
    assert("Set username"@.len() == 12);
    assert("Set user password"@.len() == 17);
    assert("Set admin password"@.len() == 18);
    assert("User elevation"@.len() == 14);
    assert("Elevate user to admin"@.len() == 21);
    assert("Revoke user elevations"@.len() == 22);
    assert("Set profile image"@.len() == 17);
    assert("Set lockscreen image"@.len() == 20);
    assert("Lockscreen blur"@.len() == 15);
    assert("Enable lockscreen blur"@.len() == 22);
    assert("Disable lockscreen blur"@.len() == 23);
    assert("Username requirement"@.len() == 20);
    assert("Auto-login"@.len() == 10);
    assert("Enable username requiement on login"@.len() == 35);
    assert("Disable username requiement on login"@.len() == 36);
    assert("Enable AutoLogon"@.len() == 16);
    assert("Disable AutoLogon"@.len() == 17);
}

} // verus!

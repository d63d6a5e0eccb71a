//! Command-line arguments of the graphical program, whose `cli`
//! subcommand applies settings without the window.
use vstd::prelude::*;

use std::path::PathBuf;

verus! {

/// Declares `std::path::PathBuf` to Verus as an opaque type, so paths of
/// image files can be carried through unchanged.
#[verifier::external_type_specification]
#[verifier::external_body]
pub struct ExPathBuf(PathBuf);

/// The program's arguments.
pub struct AmectCli {
    pub command: Option<Commands>,
}

/// The program's subcommands.
pub enum Commands {
    /// Use the app in cli mode.
    Cli(Cli),
}

/// The groups of settings of cli mode.
pub enum Cli {
    User(User),
    Visual(Visual),
    Login(Login),
}

/// Account settings.
pub struct User {
    /// Set new username.
    pub username: Option<String>,
    /// Set new user password.
    pub user_password: Option<String>,
    /// Set new admin password.
    pub admin_password: Option<String>,
    /// Add or remove user from admin group.
    pub elevate_user: Option<bool>,
}

/// Appearance settings.
pub struct Visual {
    /// Set new profile image.
    pub profile_img: Option<PathBuf>,
    /// Set new lockscreen image.
    pub lockscreen_img: Option<PathBuf>,
}

/// Login settings.
pub struct Login {
    pub require_username: Option<bool>,
    pub auto_login: Option<bool>,
}

impl Default for User {
    fn default() -> (r: Self)
        ensures
            r.username is None,
            r.user_password is None,
            r.admin_password is None,
            r.elevate_user is None,
    {
        User { username: None, user_password: None, admin_password: None, elevate_user: None }
    }
}

impl Default for Visual {
    fn default() -> (r: Self)
        ensures
            r.profile_img is None,
            r.lockscreen_img is None,
    {
        Visual { profile_img: None, lockscreen_img: None }
    }
}

impl Default for Login {
    fn default() -> (r: Self)
        ensures
            r.require_username is None,
            r.auto_login is None,
    {
        Login { require_username: None, auto_login: None }
    }
}

} // verus!

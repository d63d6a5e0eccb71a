//! State of the graphical program's window and its toggle switch widget.
use vstd::prelude::*;

verus! {

/// What the window's fields hold.
#[derive(Debug)]
pub struct AMEApp {
    /// New username.
    pub username: String,
    /// New user password.
    pub user_pass: String,
    /// New administrator password.
    pub admin_pass: String,
    /// Whether the login screen asks for the user name.
    pub username_login: bool,
    /// Whether autologon is on.
    pub autologon: bool,
}

impl AMEApp {
    /// All fields empty and both switches off.
    pub open spec fn blank(self) -> bool {
        &&& self.username@ == Seq::<char>::empty()
        &&& self.user_pass@ == Seq::<char>::empty()
        &&& self.admin_pass@ == Seq::<char>::empty()
        &&& !self.username_login
        &&& !self.autologon
    }

    /// The state the window opens with (no earlier state is restored).
    pub fn new() -> (r: Self)
        ensures
            r.blank(),
    {
        AMEApp {
            username: String::new(),
            user_pass: String::new(),
            admin_pass: String::new(),
            username_login: false,
            autologon: false,
        }
    }
}

impl Default for AMEApp {
    fn default() -> (r: Self)
        ensures
            r.blank(),
    {
        AMEApp::new()
    }
}

/// A toggle switch bound to a flag.
pub struct Switch<'a>(pub &'a mut bool);

impl<'a> Switch<'a> {
    /// A switch showing and changing `on`: it starts with the flag's value,
    /// and whatever the switch leaves in its flag is what `on` holds after.
    pub fn new(on: &'a mut bool) -> (s: Self)
        ensures
            *s.0 == *old(on),
            *final(on) == *final(s.0),
    {
        Switch(on)
    }

    /// What a click does: the flag flips, and the switch stays bound to
    /// the same flag.
    pub fn toggle(&mut self)
        ensures
            *final(self).0 == !*old(self).0,
            *final(final(self).0) == *final(old(self).0),
    {
        *self.0 = !*self.0;
    }
}

} // verus!

//! The interactive mode: questions asked one by one, each answer applied
//! before the next question.
use vstd::prelude::*;

use std::path::PathBuf;

use crate::cli::{Account, Operation};
use crate::command::owned;

verus! {

/// A question for the person at the terminal.
#[derive(Debug, PartialEq, Eq)]
pub enum Prompt {
    /// A yes/no question with a default answer.
    Confirm { message: String, default: bool },
    /// A yes/no question that Esc skips, with a help line.
    ConfirmSkippable { message: String, help: String },
    /// A password, typed masked, with an optional help line.
    Password { message: String, help: Option<String> },
    /// A line of text.
    Text { message: String },
    /// An image file chosen in a file dialog.
    ImageFile,
}

/// The answer to a question, or the acknowledgement that an operation was carried out.
#[derive(Debug, PartialEq, Eq)]
pub enum Reply {
    /// The operation was carried out.
    Ack,
    /// The answer to a yes/no question.
    Confirmed(bool),
    /// The answer to a skippable yes/no question (`None`: skipped).
    Skipped(Option<bool>),
    /// The text typed.
    Entered(String),
    /// The file chosen.
    Chosen(PathBuf),
}

/// What the interactive mode does next.
#[derive(Debug, PartialEq, Eq)]
pub enum Step {
    Ask(Prompt),
    Perform(Operation),
    Done,
}

/// Where the interactive mode stands. `Ask*` stages wait for the answer to
/// their question, `Enter*`/`Pick*` for typed text or a chosen file, and
/// `Find*`/`Did*` for the acknowledgement of an operation.
#[derive(Clone, Copy, Debug, PartialEq, Eq)]
pub enum WizardStage {
    UserFind,
    UserAskUserPassword,
    UserEnterUserPassword,
    UserDidUserPassword,
    UserAskAdminPassword,
    UserEnterAdminPassword,
    UserDidAdminPassword,
    UserAskElevation,
    UserDidElevation,
    UserAskUsername,
    UserEnterUsername,
    UserDidUsername,
    VisualFindUser,
    VisualFindSid,
    VisualAskProfile,
    VisualPickProfile,
    VisualDidProfile,
    VisualAskLockscreen,
    VisualPickLockscreen,
    VisualDidLockscreen,
    VisualAskBlur,
    VisualDidBlur,
    LoginFind,
    LoginAskRequirement,
    LoginDidRequirement,
    LoginAskAutologon,
    LoginEnterPassword,
    LoginDidAutologon,
    Over,
}

/// The kind of reply a stage waits for.
#[derive(Clone, Copy, Debug, PartialEq, Eq)]
pub enum Expecting {
    Ack,
    Confirmation,
    Skippable,
    Text,
    File,
    Nothing,
}

/// The kind of reply `stage` waits for.
pub open spec fn expecting(stage: WizardStage) -> Expecting {
    match stage {
        WizardStage::UserAskUserPassword | WizardStage::UserAskAdminPassword
        | WizardStage::UserAskUsername | WizardStage::VisualAskProfile
        | WizardStage::VisualAskLockscreen => Expecting::Confirmation,
        WizardStage::UserAskElevation | WizardStage::VisualAskBlur
        | WizardStage::LoginAskRequirement | WizardStage::LoginAskAutologon => Expecting::Skippable,
        WizardStage::UserEnterUserPassword | WizardStage::UserEnterAdminPassword
        | WizardStage::UserEnterUsername | WizardStage::LoginEnterPassword => Expecting::Text,
        WizardStage::VisualPickProfile | WizardStage::VisualPickLockscreen => Expecting::File,
        WizardStage::Over => Expecting::Nothing,
        _ => Expecting::Ack,
    }
}

/// Whether `r` is a reply of the kind `e`.
pub open spec fn fits(e: Expecting, r: Reply) -> bool {
    match r {
        Reply::Ack => e == Expecting::Ack,
        Reply::Confirmed(_) => e == Expecting::Confirmation,
        Reply::Skipped(_) => e == Expecting::Skippable,
        Reply::Entered(_) => e == Expecting::Text,
        Reply::Chosen(_) => e == Expecting::File,
    }
}

impl Step {
    /// Asks the yes/no question `message` with the answer `default`.
    pub open spec fn asks_confirm(self, message: Seq<char>, default: bool) -> bool {
        self matches Step::Ask(Prompt::Confirm { message: m, default: d }) && m@ == message && d
            == default
    }

    /// Asks the skippable yes/no question `message` with the help line
    /// "Press Esc to skip".
    pub open spec fn asks_skippable(self, message: Seq<char>) -> bool {
        self matches Step::Ask(Prompt::ConfirmSkippable { message: m, help: h }) && m@ == message
            && h@ == "Press Esc to skip"@
    }

    /// Asks for a password with the message `message` and no help line.
    pub open spec fn asks_password(self, message: Seq<char>) -> bool {
        self matches Step::Ask(Prompt::Password { message: m, help: None }) && m@ == message
    }

    /// Asks for a line of text with the message `message`.
    pub open spec fn asks_text(self, message: Seq<char>) -> bool {
        self matches Step::Ask(Prompt::Text { message: m }) && m@ == message
    }
}

/// The question about the user's password.
pub open spec fn ask_user_password(s: Step) -> bool {
    s.asks_confirm("Set new User password?"@, false)
}

/// The question about the administrator's password.
pub open spec fn ask_admin_password(s: Step) -> bool {
    s.asks_confirm("Set new Admin password?"@, false)
}

/// The question about elevation.
pub open spec fn ask_elevation(s: Step) -> bool {
    s.asks_skippable("Should user be elevated?"@)
}

/// The question about renaming.
pub open spec fn ask_username(s: Step) -> bool {
    s.asks_confirm("Set new username?"@, false)
}

/// The question about the account picture.
pub open spec fn ask_profile(s: Step) -> bool {
    s.asks_confirm("Set a new profile image?"@, false)
}

/// The question about the lock screen image.
pub open spec fn ask_lockscreen(s: Step) -> bool {
    s.asks_confirm("Set a new lockscreen image?"@, false)
}

/// The question about the lock screen blur.
pub open spec fn ask_blur(s: Step) -> bool {
    s.asks_skippable("Set Lockscreen blur?"@)
}

/// The question about the login requirement.
pub open spec fn ask_requirement(s: Step) -> bool {
    s.asks_skippable("Require username on login?"@)
}

/// The question about autologon.
pub open spec fn ask_autologon(s: Step) -> bool {
    s.asks_skippable("Ask for password when logging in?"@)
}

/// The request for the password autologon will use.
pub open spec fn ask_autologon_password(s: Step) -> bool {
    s matches Step::Ask(Prompt::Password { message: m, help: Some(h) }) && m@
        == "Enter your user password:"@ && h@ == "Autologin would be setup using this password!"@
}

/// One step of the interactive mode: at stage `st`, on the reply `r`, the
/// mode moves to stage `n` and does `s`.
pub open spec fn wizard_step(st: WizardStage, r: Reply, n: WizardStage, s: Step) -> bool {
    match st {
        WizardStage::UserFind => n == WizardStage::UserAskUserPassword && ask_user_password(s),
        WizardStage::UserAskUserPassword => match r {
            Reply::Confirmed(true) => n == WizardStage::UserEnterUserPassword && s.asks_password(
                "New password:"@,
            ),
            _ => n == WizardStage::UserAskAdminPassword && ask_admin_password(s),
        },
        WizardStage::UserEnterUserPassword => match r {
            Reply::Entered(p) => n == WizardStage::UserDidUserPassword && s == Step::Perform(
                Operation::SetPassword { account: Account::Session, password: p },
            ),
            _ => false,
        },
        WizardStage::UserDidUserPassword => n == WizardStage::UserAskAdminPassword
            && ask_admin_password(s),
        WizardStage::UserAskAdminPassword => match r {
            Reply::Confirmed(true) => n == WizardStage::UserEnterAdminPassword && s.asks_password(
                "New password:"@,
            ),
            _ => n == WizardStage::UserAskElevation && ask_elevation(s),
        },
        WizardStage::UserEnterAdminPassword => match r {
            Reply::Entered(p) => n == WizardStage::UserDidAdminPassword && s == Step::Perform(
                Operation::SetPassword { account: Account::Current, password: p },
            ),
            _ => false,
        },
        WizardStage::UserDidAdminPassword => n == WizardStage::UserAskElevation && ask_elevation(
            s,
        ),
        WizardStage::UserAskElevation => match r {
            Reply::Skipped(Some(b)) => n == WizardStage::UserDidElevation && s == Step::Perform(
                Operation::SetElevation(b),
            ),
            _ => n == WizardStage::UserAskUsername && ask_username(s),
        },
        WizardStage::UserDidElevation => n == WizardStage::UserAskUsername && ask_username(s),
        WizardStage::UserAskUsername => match r {
            Reply::Confirmed(true) => n == WizardStage::UserEnterUsername && s.asks_text(
                "New username:"@,
            ),
            _ => n == WizardStage::Over && s == Step::Done,
        },
        WizardStage::UserEnterUsername => match r {
            Reply::Entered(name) => n == WizardStage::UserDidUsername && s == Step::Perform(
                Operation::SetUsername(name),
            ),
            _ => false,
        },
        WizardStage::UserDidUsername => n == WizardStage::Over && s == Step::Done,
        WizardStage::VisualFindUser => n == WizardStage::VisualFindSid && s == Step::Perform(
            Operation::FindSessionSid,
        ),
        WizardStage::VisualFindSid => n == WizardStage::VisualAskProfile && ask_profile(s),
        WizardStage::VisualAskProfile => match r {
            Reply::Confirmed(true) => n == WizardStage::VisualPickProfile && s == Step::Ask(
                Prompt::ImageFile,
            ),
            _ => n == WizardStage::VisualAskLockscreen && ask_lockscreen(s),
        },
        WizardStage::VisualPickProfile => match r {
            Reply::Chosen(p) => n == WizardStage::VisualDidProfile && s == Step::Perform(
                Operation::SetProfileImage(p),
            ),
            _ => false,
        },
        WizardStage::VisualDidProfile => n == WizardStage::VisualAskLockscreen && ask_lockscreen(
            s,
        ),
        WizardStage::VisualAskLockscreen => match r {
            Reply::Confirmed(true) => n == WizardStage::VisualPickLockscreen && s == Step::Ask(
                Prompt::ImageFile,
            ),
            _ => n == WizardStage::VisualAskBlur && ask_blur(s),
        },
        WizardStage::VisualPickLockscreen => match r {
            Reply::Chosen(p) => n == WizardStage::VisualDidLockscreen && s == Step::Perform(
                Operation::SetLockscreenImage(p),
            ),
            _ => false,
        },
        WizardStage::VisualDidLockscreen => n == WizardStage::VisualAskBlur && ask_blur(s),
        WizardStage::VisualAskBlur => match r {
            Reply::Skipped(Some(b)) => n == WizardStage::VisualDidBlur && s == Step::Perform(
                Operation::SetLockscreenBlur(b),
            ),
            _ => n == WizardStage::Over && s == Step::Done,
        },
        WizardStage::VisualDidBlur => n == WizardStage::Over && s == Step::Done,
        WizardStage::LoginFind => n == WizardStage::LoginAskRequirement && ask_requirement(s),
        WizardStage::LoginAskRequirement => match r {
            Reply::Skipped(Some(b)) => n == WizardStage::LoginDidRequirement && s == Step::Perform(
                Operation::SetUsernameLoginRequirement(b),
            ),
            _ => n == WizardStage::LoginAskAutologon && ask_autologon(s),
        },
        WizardStage::LoginDidRequirement => n == WizardStage::LoginAskAutologon && ask_autologon(
            s,
        ),
        WizardStage::LoginAskAutologon => match r {
            Reply::Skipped(Some(true)) => n == WizardStage::LoginDidAutologon && s == Step::Perform(
                Operation::DisableAutologon,
            ),
            Reply::Skipped(Some(false)) => n == WizardStage::LoginEnterPassword
                && ask_autologon_password(s),
            _ => n == WizardStage::Over && s == Step::Done,
        },
        WizardStage::LoginEnterPassword => match r {
            Reply::Entered(p) => n == WizardStage::LoginDidAutologon && s == Step::Perform(
                Operation::EnableAutologon(p),
            ),
            _ => false,
        },
        WizardStage::LoginDidAutologon => n == WizardStage::Over && s == Step::Done,
        WizardStage::Over => false,
    }
}

fn confirm(message: &str, default: bool) -> (s: Step)
    ensures
        s.asks_confirm(message@, default),
{
    Step::Ask(Prompt::Confirm { message: owned(message), default })
}

fn skippable(message: &str) -> (s: Step)
    ensures
        s.asks_skippable(message@),
{
    Step::Ask(Prompt::ConfirmSkippable { message: owned(message), help: owned("Press Esc to skip") })
}

fn password(message: &str) -> (s: Step)
    ensures
        s.asks_password(message@),
{
    Step::Ask(Prompt::Password { message: owned(message), help: None })
}

/// The interactive mode for one group of settings.
pub struct Wizard {
    pub stage: WizardStage,
}

impl Wizard {
    /// Interactive account settings: first find the session's user.
    pub fn user() -> (r: (Wizard, Step))
        ensures
            r.0.stage == WizardStage::UserFind,
            r.1 == Step::Perform(Operation::FindSessionUser),
    {
        (Wizard { stage: WizardStage::UserFind }, Step::Perform(Operation::FindSessionUser))
    }

    /// Interactive appearance settings: first find the session's user.
    pub fn visual() -> (r: (Wizard, Step))
        ensures
            r.0.stage == WizardStage::VisualFindUser,
            r.1 == Step::Perform(Operation::FindSessionUser),
    {
        (Wizard { stage: WizardStage::VisualFindUser }, Step::Perform(Operation::FindSessionUser))
    }

    /// Interactive login settings: first find the session's user.
    pub fn login() -> (r: (Wizard, Step))
        ensures
            r.0.stage == WizardStage::LoginFind,
            r.1 == Step::Perform(Operation::FindSessionUser),
    {
        (Wizard { stage: WizardStage::LoginFind }, Step::Perform(Operation::FindSessionUser))
    }

    /// Whether `reply` is of the kind the wizard waits for.
    pub fn accepts(&self, reply: &Reply) -> (b: bool)
        ensures
            b == fits(expecting(self.stage), *reply),
    {
        let e = match self.stage {
            WizardStage::UserAskUserPassword | WizardStage::UserAskAdminPassword
            | WizardStage::UserAskUsername | WizardStage::VisualAskProfile
            | WizardStage::VisualAskLockscreen => Expecting::Confirmation,
            WizardStage::UserAskElevation | WizardStage::VisualAskBlur
            | WizardStage::LoginAskRequirement | WizardStage::LoginAskAutologon => Expecting::Skippable,
            WizardStage::UserEnterUserPassword | WizardStage::UserEnterAdminPassword
            | WizardStage::UserEnterUsername | WizardStage::LoginEnterPassword => Expecting::Text,
            WizardStage::VisualPickProfile | WizardStage::VisualPickLockscreen => Expecting::File,
            WizardStage::Over => Expecting::Nothing,
            _ => Expecting::Ack,
        };
        match reply {
            Reply::Ack => matches!(e, Expecting::Ack),
            Reply::Confirmed(_) => matches!(e, Expecting::Confirmation),
            Reply::Skipped(_) => matches!(e, Expecting::Skippable),
            Reply::Entered(_) => matches!(e, Expecting::Text),
            Reply::Chosen(_) => matches!(e, Expecting::File),
        }
    }

    /// The next step, given the reply to the previous one.
    pub fn step(&mut self, reply: Reply) -> (s: Step)
        requires
            fits(expecting(old(self).stage), reply),
        ensures
            wizard_step(old(self).stage, reply, final(self).stage, s),
    {
        match self.stage {
            WizardStage::UserFind => {
                self.stage = WizardStage::UserAskUserPassword;
                confirm("Set new User password?", false)
            },
            WizardStage::UserAskUserPassword => {
                if let Reply::Confirmed(true) = reply {
                    self.stage = WizardStage::UserEnterUserPassword;
                    password("New password:")
                } else {
                    self.stage = WizardStage::UserAskAdminPassword;
                    confirm("Set new Admin password?", false)
                }
            },
            WizardStage::UserEnterUserPassword => {
                if let Reply::Entered(p) = reply {
                    self.stage = WizardStage::UserDidUserPassword;
                    Step::Perform(Operation::SetPassword { account: Account::Session, password: p })
                } else {
                    self.stage = WizardStage::Over;
                    Step::Done
                }
            },
            WizardStage::UserDidUserPassword => {
                self.stage = WizardStage::UserAskAdminPassword;
                confirm("Set new Admin password?", false)
            },
            WizardStage::UserAskAdminPassword => {
                if let Reply::Confirmed(true) = reply {
                    self.stage = WizardStage::UserEnterAdminPassword;
                    password("New password:")
                } else {
                    self.stage = WizardStage::UserAskElevation;
                    skippable("Should user be elevated?")
                }
            },
            WizardStage::UserEnterAdminPassword => {
                if let Reply::Entered(p) = reply {
                    self.stage = WizardStage::UserDidAdminPassword;
                    Step::Perform(Operation::SetPassword { account: Account::Current, password: p })
                } else {
                    self.stage = WizardStage::Over;
                    Step::Done
                }
            },
            WizardStage::UserDidAdminPassword => {
                self.stage = WizardStage::UserAskElevation;
                skippable("Should user be elevated?")
            },
            WizardStage::UserAskElevation => {
                if let Reply::Skipped(Some(b)) = reply {
                    self.stage = WizardStage::UserDidElevation;
                    Step::Perform(Operation::SetElevation(b))
                } else {
                    self.stage = WizardStage::UserAskUsername;
                    confirm("Set new username?", false)
                }
            },
            WizardStage::UserDidElevation => {
                self.stage = WizardStage::UserAskUsername;
                confirm("Set new username?", false)
            },
            WizardStage::UserAskUsername => {
                if let Reply::Confirmed(true) = reply {
                    self.stage = WizardStage::UserEnterUsername;
                    Step::Ask(Prompt::Text { message: owned("New username:") })
                } else {
                    self.stage = WizardStage::Over;
                    Step::Done
                }
            },
            WizardStage::UserEnterUsername => {
                if let Reply::Entered(name) = reply {
                    self.stage = WizardStage::UserDidUsername;
                    Step::Perform(Operation::SetUsername(name))
                } else {
                    self.stage = WizardStage::Over;
                    Step::Done
                }
            },
            WizardStage::UserDidUsername => {
                self.stage = WizardStage::Over;
                Step::Done
            },
            WizardStage::VisualFindUser => {
                self.stage = WizardStage::VisualFindSid;
                Step::Perform(Operation::FindSessionSid)
            },
            WizardStage::VisualFindSid => {
                self.stage = WizardStage::VisualAskProfile;
                confirm("Set a new profile image?", false)
            },
            WizardStage::VisualAskProfile => {
                if let Reply::Confirmed(true) = reply {
                    self.stage = WizardStage::VisualPickProfile;
                    Step::Ask(Prompt::ImageFile)
                } else {
                    self.stage = WizardStage::VisualAskLockscreen;
                    confirm("Set a new lockscreen image?", false)
                }
            },
            WizardStage::VisualPickProfile => {
                if let Reply::Chosen(p) = reply {
                    self.stage = WizardStage::VisualDidProfile;
                    Step::Perform(Operation::SetProfileImage(p))
                } else {
                    self.stage = WizardStage::Over;
                    Step::Done
                }
            },
            WizardStage::VisualDidProfile => {
                self.stage = WizardStage::VisualAskLockscreen;
                confirm("Set a new lockscreen image?", false)
            },
            WizardStage::VisualAskLockscreen => {
                if let Reply::Confirmed(true) = reply {
                    self.stage = WizardStage::VisualPickLockscreen;
                    Step::Ask(Prompt::ImageFile)
                } else {
                    self.stage = WizardStage::VisualAskBlur;
                    skippable("Set Lockscreen blur?")
                }
            },
            WizardStage::VisualPickLockscreen => {
                if let Reply::Chosen(p) = reply {
                    self.stage = WizardStage::VisualDidLockscreen;
                    Step::Perform(Operation::SetLockscreenImage(p))
                } else {
                    self.stage = WizardStage::Over;
                    Step::Done
                }
            },
            WizardStage::VisualDidLockscreen => {
                self.stage = WizardStage::VisualAskBlur;
                skippable("Set Lockscreen blur?")
            },
            WizardStage::VisualAskBlur => {
                if let Reply::Skipped(Some(b)) = reply {
                    self.stage = WizardStage::VisualDidBlur;
                    Step::Perform(Operation::SetLockscreenBlur(b))
                } else {
                    self.stage = WizardStage::Over;
                    Step::Done
                }
            },
            WizardStage::VisualDidBlur => {
                self.stage = WizardStage::Over;
                Step::Done
            },
            WizardStage::LoginFind => {
                self.stage = WizardStage::LoginAskRequirement;
                skippable("Require username on login?")
            },
            WizardStage::LoginAskRequirement => {
                if let Reply::Skipped(Some(b)) = reply {
                    self.stage = WizardStage::LoginDidRequirement;
                    Step::Perform(Operation::SetUsernameLoginRequirement(b))
                } else {
                    self.stage = WizardStage::LoginAskAutologon;
                    skippable("Ask for password when logging in?")
                }
            },
            WizardStage::LoginDidRequirement => {
                self.stage = WizardStage::LoginAskAutologon;
                skippable("Ask for password when logging in?")
            },
            WizardStage::LoginAskAutologon => {
                match reply {
                    Reply::Skipped(Some(true)) => {
                        self.stage = WizardStage::LoginDidAutologon;
                        Step::Perform(Operation::DisableAutologon)
                    },
                    Reply::Skipped(Some(false)) => {
                        self.stage = WizardStage::LoginEnterPassword;
                        Step::Ask(
                            Prompt::Password {
                                message: owned("Enter your user password:"),
                                help: Some(owned("Autologin would be setup using this password!")),
                            },
                        )
                    },
                    _ => {
                        self.stage = WizardStage::Over;
                        Step::Done
                    },
                }
            },
            WizardStage::LoginEnterPassword => {
                if let Reply::Entered(p) = reply {
                    self.stage = WizardStage::LoginDidAutologon;
                    Step::Perform(Operation::EnableAutologon(p))
                } else {
                    self.stage = WizardStage::Over;
                    Step::Done
                }
            },
            WizardStage::LoginDidAutologon => {
                self.stage = WizardStage::Over;
                Step::Done
            },
            WizardStage::Over => Step::Done,
        }
    }
}

/// Position of a stage in the order the interactive mode goes through them.
pub open spec fn wizard_rank(st: WizardStage) -> int {
    match st {
        WizardStage::UserFind => 0,
        WizardStage::UserAskUserPassword => 1,
        WizardStage::UserEnterUserPassword => 2,
        WizardStage::UserDidUserPassword => 3,
        WizardStage::UserAskAdminPassword => 4,
        WizardStage::UserEnterAdminPassword => 5,
        WizardStage::UserDidAdminPassword => 6,
        WizardStage::UserAskElevation => 7,
        WizardStage::UserDidElevation => 8,
        WizardStage::UserAskUsername => 9,
        WizardStage::UserEnterUsername => 10,
        WizardStage::UserDidUsername => 11,
        WizardStage::VisualFindUser => 12,
        WizardStage::VisualFindSid => 13,
        WizardStage::VisualAskProfile => 14,
        WizardStage::VisualPickProfile => 15,
        WizardStage::VisualDidProfile => 16,
        WizardStage::VisualAskLockscreen => 17,
        WizardStage::VisualPickLockscreen => 18,
        WizardStage::VisualDidLockscreen => 19,
        WizardStage::VisualAskBlur => 20,
        WizardStage::VisualDidBlur => 21,
        WizardStage::LoginFind => 22,
        WizardStage::LoginAskRequirement => 23,
        WizardStage::LoginDidRequirement => 24,
        WizardStage::LoginAskAutologon => 25,
        WizardStage::LoginEnterPassword => 26,
        WizardStage::LoginDidAutologon => 27,
        WizardStage::Over => 28,
    }
}

/// The interactive mode always comes to an end: every step moves it to a
/// later stage, and no stage comes after the last one.
pub proof fn lemma_wizard_progress(st: WizardStage, r: Reply, n: WizardStage, s: Step)
    requires
        wizard_step(st, r, n, s),
    ensures
        wizard_rank(st) < wizard_rank(n) <= wizard_rank(WizardStage::Over),
        s == Step::Done <==> n == WizardStage::Over,
{
}

/// In the interactive mode a rename is the last thing done: once it has
/// been carried out, the mode is over.
pub proof fn lemma_rename_ends_wizard(st: WizardStage, r: Reply, n: WizardStage, s: Step, n2: WizardStage, s2: Step)
    requires
        wizard_step(st, r, n, s),
        s is Perform && s->Perform_0 is SetUsername,
        wizard_step(n, Reply::Ack, n2, s2),
    ensures
        s2 == Step::Done,
        n2 == WizardStage::Over,
{
}

/// In the interactive mode every question has a place: the account
/// questions come in the order user password, administrator password,
/// elevation, rename, whatever the answers.
pub proof fn lemma_user_questions_in_order(st: WizardStage, r: Reply, n: WizardStage, s: Step)
    requires
        wizard_step(st, r, n, s),
    ensures
        ask_admin_password(s) ==> st == WizardStage::UserAskUserPassword || st
            == WizardStage::UserDidUserPassword,
        ask_elevation(s) ==> st == WizardStage::UserAskAdminPassword || st
            == WizardStage::UserDidAdminPassword,
        ask_username(s) ==> st == WizardStage::UserAskElevation || st
            == WizardStage::UserDidElevation,
{
    reveal_strlit("Set new User password?");
    reveal_strlit("Set new Admin password?");
    reveal_strlit("Should user be elevated?");
    reveal_strlit("Set new username?");
    reveal_strlit("Set a new profile image?");
    reveal_strlit("Set a new lockscreen image?");
    reveal_strlit("Set Lockscreen blur?");
    reveal_strlit("Require username on login?");
    reveal_strlit("Ask for password when logging in?");
    assert("Set new User password?"@.len() == 22);
    assert("Set new Admin password?"@.len() == 23);
    assert("Should user be elevated?"@.len() == 24);
    assert("Set new username?"@.len() == 17);
    assert("Set a new profile image?"@.len() == 24);
    assert("Set a new lockscreen image?"@.len() == 27);
    assert("Set Lockscreen blur?"@.len() == 20);
    assert("Require username on login?"@.len() == 26);
    assert("Ask for password when logging in?"@.len() == 33);
}

/// Every operation of the interactive mode applies the answer just given,
/// to what the question asked about: a password typed after "Set new Admin
/// password?" goes to the account running the tool and one typed after
/// "Set new User password?" to the session's user; a yes/no answer, a typed
/// name or a chosen file is applied as given.
pub proof fn lemma_wizard_applies_answers(st: WizardStage, r: Reply, n: WizardStage, s: Step)
    requires
        wizard_step(st, r, n, s),
    ensures
        s matches Step::Perform(Operation::SetPassword { account, password }) ==> {
            &&& r == Reply::Entered(password)
            &&& (account == Account::Current <==> st == WizardStage::UserEnterAdminPassword)
            &&& (account == Account::Session <==> st == WizardStage::UserEnterUserPassword)
        },
        s matches Step::Perform(Operation::SetElevation(b)) ==> st == WizardStage::UserAskElevation
            && r == Reply::Skipped(Some(b)),
        s matches Step::Perform(Operation::SetUsername(x)) ==> st == WizardStage::UserEnterUsername
            && r == Reply::Entered(x),
        s matches Step::Perform(Operation::SetProfileImage(p)) ==> st
            == WizardStage::VisualPickProfile && r == Reply::Chosen(p),
        s matches Step::Perform(Operation::SetLockscreenImage(p)) ==> st
            == WizardStage::VisualPickLockscreen && r == Reply::Chosen(p),
        s matches Step::Perform(Operation::SetLockscreenBlur(b)) ==> st == WizardStage::VisualAskBlur
            && r == Reply::Skipped(Some(b)),
        s matches Step::Perform(Operation::SetUsernameLoginRequirement(b)) ==> st
            == WizardStage::LoginAskRequirement && r == Reply::Skipped(Some(b)),
        s matches Step::Perform(Operation::EnableAutologon(p)) ==> st
            == WizardStage::LoginEnterPassword && r == Reply::Entered(p),
        s == Step::Perform(Operation::DisableAutologon) ==> st == WizardStage::LoginAskAutologon
            && r == Reply::Skipped(Some(true)),
{
}

/// A password is only asked for right after its question was answered yes:
/// the administrator's after "Set new Admin password?", the user's after
/// "Set new User password?"; and each of the two questions is asked exactly
/// when the mode moves to the stage that waits for its answer.
pub proof fn lemma_password_questions(st: WizardStage, r: Reply, n: WizardStage, s: Step)
    requires
        wizard_step(st, r, n, s),
    ensures
        n == WizardStage::UserEnterAdminPassword ==> st == WizardStage::UserAskAdminPassword && r
            == Reply::Confirmed(true) && s.asks_password("New password:"@),
        n == WizardStage::UserEnterUserPassword ==> st == WizardStage::UserAskUserPassword && r
            == Reply::Confirmed(true) && s.asks_password("New password:"@),
        n == WizardStage::UserAskAdminPassword <==> ask_admin_password(s),
        n == WizardStage::UserAskUserPassword <==> ask_user_password(s),
{
    reveal_strlit("Set new User password?");
    reveal_strlit("Set new Admin password?");
    reveal_strlit("Should user be elevated?");
    reveal_strlit("Set new username?");
    reveal_strlit("Set a new profile image?");
    reveal_strlit("Set a new lockscreen image?");
    reveal_strlit("Set Lockscreen blur?");
    reveal_strlit("Require username on login?");
    reveal_strlit("Ask for password when logging in?");
    assert("Set new User password?"@.len() == 22);
    assert("Set new Admin password?"@.len() == 23);
    assert("Set new username?"@.len() == 17);
    assert("Set a new profile image?"@.len() == 24);
    assert("Set a new lockscreen image?"@.len() == 27);
    assert("Set new User password?"@[8] != "Set new Admin password?"@[8]);
}

/// No question is skipped: each question of the appearance and login
/// settings, and the first account question, is asked only right after the
/// question before it (or its operation), and the interactive mode ends
/// only after the last question of its subcommand was answered (or its
/// operation done).
pub proof fn lemma_every_question_asked(st: WizardStage, r: Reply, n: WizardStage, s: Step)
    requires
        wizard_step(st, r, n, s),
    ensures
        ask_user_password(s) ==> st == WizardStage::UserFind,
        s == Step::Perform(Operation::FindSessionSid) ==> st == WizardStage::VisualFindUser,
        ask_profile(s) ==> st == WizardStage::VisualFindSid,
        ask_lockscreen(s) ==> st == WizardStage::VisualAskProfile || st
            == WizardStage::VisualDidProfile,
        ask_blur(s) ==> st == WizardStage::VisualAskLockscreen || st
            == WizardStage::VisualDidLockscreen,
        ask_requirement(s) ==> st == WizardStage::LoginFind,
        ask_autologon(s) ==> st == WizardStage::LoginAskRequirement || st
            == WizardStage::LoginDidRequirement,
        s == Step::Done ==> st == WizardStage::UserAskUsername || st == WizardStage::UserDidUsername
            || st == WizardStage::VisualAskBlur || st == WizardStage::VisualDidBlur || st
            == WizardStage::LoginAskAutologon || st == WizardStage::LoginDidAutologon,
{
    reveal_strlit("Set new User password?");
    reveal_strlit("Set new Admin password?");
    reveal_strlit("Should user be elevated?");
    reveal_strlit("Set new username?");
    reveal_strlit("Set a new profile image?");
    reveal_strlit("Set a new lockscreen image?");
    reveal_strlit("Set Lockscreen blur?");
    reveal_strlit("Require username on login?");
    reveal_strlit("Ask for password when logging in?");
    assert("Set new User password?"@.len() == 22);
    assert("Set new Admin password?"@.len() == 23);
    assert("Should user be elevated?"@.len() == 24);
    assert("Set new username?"@.len() == 17);
    assert("Set a new profile image?"@.len() == 24);
    assert("Set a new lockscreen image?"@.len() == 27);
    assert("Set Lockscreen blur?"@.len() == 20);
    assert("Require username on login?"@.len() == 26);
    assert("Ask for password when logging in?"@.len() == 33);
    assert("Set new User password?"@[8] != "Set new Admin password?"@[8]);
    assert("Should user be elevated?"@[1] != "Set a new profile image?"@[1]);
}

} // verus!

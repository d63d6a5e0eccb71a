//! The command-line program: its arguments and the order in which it asks
//! questions and applies settings.
use vstd::prelude::*;

use std::path::PathBuf;

pub mod wizard;

use crate::cli::wizard::{Step, Wizard, WizardStage};

verus! {

/// The program's arguments.
pub struct AmectCli {
    pub command: Option<Commands>,
}

/// The program's subcommands.
pub enum Commands {
    /// Users related settings.
    User(User),
    /// Visuals related settings.
    Visual(Visual),
    /// Login related settings.
    Login(Login),
}

/// Account settings.
pub struct User {
    /// Set new username.
    pub username: Option<String>,
    /// Set new user password.
    pub user_password: Option<String>,
    /// Set new admin password.
    pub admin_password: Option<String>,
    /// Add or remove user from admin group.
    pub elevate_user: Option<bool>,
}

/// Appearance settings.
pub struct Visual {
    /// Set new profile image.
    pub profile_img: Option<PathBuf>,
    /// Set new lockscreen image.
    pub lockscreen_img: Option<PathBuf>,
    /// Enable/disable lockscreen blur.
    pub lockscreen_blur: Option<bool>,
}

/// Login settings.
pub struct Login {
    /// Whether to require username on login or not.
    pub require_username: Option<bool>,
    /// Enable/disable AutoLogon.
    pub auto_login: Option<bool>,
    /// Current user password; needed to set up autologin.
    pub user_password: Option<String>,
}

impl Default for User {
    fn default() -> (r: Self)
        ensures
            r.username is None,
            r.user_password is None,
            r.admin_password is None,
            r.elevate_user is None,
    {
        User { username: None, user_password: None, admin_password: None, elevate_user: None }
    }
}

impl Default for Visual {
    fn default() -> (r: Self)
        ensures
            r.profile_img is None,
            r.lockscreen_img is None,
            r.lockscreen_blur is None,
    {
        Visual { profile_img: None, lockscreen_img: None, lockscreen_blur: None }
    }
}

impl Default for Login {
    fn default() -> (r: Self)
        ensures
            r.require_username is None,
            r.auto_login is None,
            r.user_password is None,
    {
        Login { require_username: None, auto_login: None, user_password: None }
    }
}

impl User {
    /// No setting is given: the program asks for each one.
    pub open spec fn unset(self) -> bool {
        self.username is None && self.user_password is None && self.admin_password is None
            && self.elevate_user is None
    }

    /// No setting is given: the program asks for each one.
    pub fn is_unset(&self) -> (r: bool)
        ensures
            r == self.unset(),
    {
        self.username.is_none() && self.user_password.is_none() && self.admin_password.is_none()
            && self.elevate_user.is_none()
    }
}

impl Visual {
    /// No setting is given: the program asks for each one.
    pub open spec fn unset(self) -> bool {
        self.profile_img is None && self.lockscreen_img is None && self.lockscreen_blur is None
    }

    /// No setting is given: the program asks for each one.
    pub fn is_unset(&self) -> (r: bool)
        ensures
            r == self.unset(),
    {
        self.profile_img.is_none() && self.lockscreen_img.is_none() && self.lockscreen_blur.is_none()
    }
}

impl Login {
    /// No setting is given: the program asks for each one.
    pub open spec fn unset(self) -> bool {
        self.require_username is None && self.auto_login is None && self.user_password is None
    }

    /// No setting is given: the program asks for each one.
    pub fn is_unset(&self) -> (r: bool)
        ensures
            r == self.unset(),
    {
        self.require_username.is_none() && self.auto_login.is_none() && self.user_password.is_none()
    }

    /// Autologon is only switched on together with the password it logs in with.
    pub open spec fn consistent(self) -> bool {
        self.auto_login == Some(true) ==> self.user_password is Some
    }
}

/// Whose password is changed.
#[derive(Clone, Copy, Debug, PartialEq, Eq)]
pub enum Account {
    /// The user of the interactive session.
    Session,
    /// The account running the program, the administrator.
    Current,
}

/// One setting to apply, or one fact to look up, for the session's user.
#[derive(Debug, PartialEq, Eq)]
pub enum Operation {
    /// Find the user of the interactive session (fails with `SessionUserUnknown`).
    FindSessionUser,
    /// Find the SID of that user (fails with `SessionUserUnknown`).
    FindSessionSid,
    /// Set a password.
    SetPassword { account: Account, password: String },
    /// Add the user to (`true`) or remove it from the administrators.
    SetElevation(bool),
    /// Rename the user.
    SetUsername(String),
    /// Replace the account picture with this image.
    SetProfileImage(PathBuf),
    /// Replace the lock screen image with this image.
    SetLockscreenImage(PathBuf),
    /// Switch the lock screen blur policy.
    SetLockscreenBlur(bool),
    /// Switch whether the login screen asks for the user name.
    SetUsernameLoginRequirement(bool),
    /// Log the user in automatically with this password.
    EnableAutologon(String),
    /// Stop logging the user in automatically.
    DisableAutologon,
}

/// The operation for an optional setting, if it is given.
pub open spec fn when_given<T>(o: Option<T>, f: spec_fn(T) -> Operation) -> Seq<Operation> {
    match o {
        Some(x) => seq![f(x)],
        None => Seq::empty(),
    }
}

/// The operations for account settings given on the command line, in the
/// order they are applied; the rename comes last so that the other changes
/// still find the account under its old name.
pub open spec fn user_plan(u: User) -> Seq<Operation> {
    seq![Operation::FindSessionUser] + when_given(
        u.user_password,
        |p: String| Operation::SetPassword { account: Account::Session, password: p },
    ) + when_given(
        u.admin_password,
        |p: String| Operation::SetPassword { account: Account::Current, password: p },
    ) + when_given(u.elevate_user, |b: bool| Operation::SetElevation(b)) + when_given(
        u.username,
        |n: String| Operation::SetUsername(n),
    )
}

/// The operations for appearance settings given on the command line.
pub open spec fn visual_plan(v: Visual) -> Seq<Operation> {
    seq![Operation::FindSessionUser, Operation::FindSessionSid] + when_given(
        v.profile_img,
        |p: PathBuf| Operation::SetProfileImage(p),
    ) + when_given(v.lockscreen_img, |p: PathBuf| Operation::SetLockscreenImage(p)) + when_given(
        v.lockscreen_blur,
        |b: bool| Operation::SetLockscreenBlur(b),
    )
}

/// The operations for login settings given on the command line.
pub open spec fn login_plan(l: Login) -> Seq<Operation> {
    seq![Operation::FindSessionUser] + when_given(
        l.require_username,
        |b: bool| Operation::SetUsernameLoginRequirement(b),
    ) + match l.auto_login {
        Some(true) => seq![Operation::EnableAutologon(l.user_password.unwrap())],
        Some(false) => seq![Operation::DisableAutologon],
        None => Seq::empty(),
    }
}

/// The operations for account settings given on the command line.
pub fn user_operations(u: User) -> (r: Vec<Operation>)
    ensures
        r@ == user_plan(u),
{
    let ghost spec_u = u;
    let mut ops: Vec<Operation> = Vec::new();
    ops.push(Operation::FindSessionUser);
    let ghost a = ops@;
    if let Some(p) = u.user_password {
        ops.push(Operation::SetPassword { account: Account::Session, password: p });
    }
    let ghost b = ops@;
    assert(b =~= a + when_given(
        spec_u.user_password,
        |p: String| Operation::SetPassword { account: Account::Session, password: p },
    ));
    if let Some(p) = u.admin_password {
        ops.push(Operation::SetPassword { account: Account::Current, password: p });
    }
    let ghost c = ops@;
    assert(c =~= b + when_given(
        spec_u.admin_password,
        |p: String| Operation::SetPassword { account: Account::Current, password: p },
    ));
    if let Some(e) = u.elevate_user {
        ops.push(Operation::SetElevation(e));
    }
    let ghost d = ops@;
    assert(d =~= c + when_given(spec_u.elevate_user, |b: bool| Operation::SetElevation(b)));
    if let Some(n) = u.username {
        ops.push(Operation::SetUsername(n));
    }
    assert(ops@ =~= d + when_given(spec_u.username, |n: String| Operation::SetUsername(n)));
    ops
}

/// The operations for appearance settings given on the command line.
pub fn visual_operations(v: Visual) -> (r: Vec<Operation>)
    ensures
        r@ == visual_plan(v),
{
    let ghost spec_v = v;
    let mut ops: Vec<Operation> = Vec::new();
    ops.push(Operation::FindSessionUser);
    ops.push(Operation::FindSessionSid);
    let ghost a = ops@;
    if let Some(p) = v.profile_img {
        ops.push(Operation::SetProfileImage(p));
    }
    let ghost b = ops@;
    assert(b =~= a + when_given(spec_v.profile_img, |p: PathBuf| Operation::SetProfileImage(p)));
    if let Some(p) = v.lockscreen_img {
        ops.push(Operation::SetLockscreenImage(p));
    }
    let ghost c = ops@;
    assert(c =~= b + when_given(
        spec_v.lockscreen_img,
        |p: PathBuf| Operation::SetLockscreenImage(p),
    ));
    if let Some(x) = v.lockscreen_blur {
        ops.push(Operation::SetLockscreenBlur(x));
    }
    assert(ops@ =~= c + when_given(spec_v.lockscreen_blur, |b: bool| Operation::SetLockscreenBlur(b)));
    ops
}

/// The operations for login settings given on the command line.
pub fn login_operations(l: Login) -> (r: Vec<Operation>)
    requires
        l.consistent(),
    ensures
        r@ == login_plan(l),
{
    let ghost spec_l = l;
    let mut ops: Vec<Operation> = Vec::new();
    ops.push(Operation::FindSessionUser);
    let ghost a = ops@;
    if let Some(x) = l.require_username {
        ops.push(Operation::SetUsernameLoginRequirement(x));
    }
    let ghost b = ops@;
    assert(b =~= a + when_given(
        spec_l.require_username,
        |b: bool| Operation::SetUsernameLoginRequirement(b),
    ));
    match l.auto_login {
        Some(true) => {
            if let Some(p) = l.user_password {
                ops.push(Operation::EnableAutologon(p));
            }
        },
        Some(false) => {
            ops.push(Operation::DisableAutologon);
        },
        None => {},
    }
    assert(ops@ =~= login_plan(spec_l));
    ops
}

/// Account settings given on the command line: the session's user is
/// looked up first, and a rename, if any, is the last operation.
pub proof fn lemma_user_plan_order(u: User)
    ensures
        user_plan(u)[0] == Operation::FindSessionUser,
        forall|i: int|
            0 <= i < user_plan(u).len() && (#[trigger] user_plan(u)[i] is SetUsername) ==> i
                == user_plan(u).len() - 1,
        u.username is Some ==> user_plan(u).last() == Operation::SetUsername(u.username.unwrap()),
{
    let a = seq![Operation::FindSessionUser] + when_given(
        u.user_password,
        |p: String| Operation::SetPassword { account: Account::Session, password: p },
    ) + when_given(
        u.admin_password,
        |p: String| Operation::SetPassword { account: Account::Current, password: p },
    ) + when_given(u.elevate_user, |b: bool| Operation::SetElevation(b));
    assert forall|i: int| 0 <= i < a.len() implies !(a[i] is SetUsername) by {}
    assert(user_plan(u) == a + when_given(u.username, |n: String| Operation::SetUsername(n)));
}

/// Appearance settings given on the command line: the session's user and
/// then its SID are looked up before anything is changed.
pub proof fn lemma_visual_plan_order(v: Visual)
    ensures
        visual_plan(v)[0] == Operation::FindSessionUser,
        visual_plan(v)[1] == Operation::FindSessionSid,
{
}

/// Login settings given on the command line: the session's user is looked
/// up first, and autologon is switched on with the password given.
pub proof fn lemma_login_plan_order(l: Login)
    requires
        l.consistent(),
    ensures
        login_plan(l)[0] == Operation::FindSessionUser,
        l.auto_login == Some(true) ==> login_plan(l).last() == Operation::EnableAutologon(
            l.user_password.unwrap(),
        ),
{
}

/// How a subcommand runs: asking for each setting, when none is given, or
/// applying the given settings in a fixed order.
pub enum Mode {
    Interactive(Wizard, Step),
    Batch(Vec<Operation>),
}

/// The stage the interactive mode of a subcommand starts in.
pub open spec fn first_stage(c: Commands) -> WizardStage {
    match c {
        Commands::User(_) => WizardStage::UserFind,
        Commands::Visual(_) => WizardStage::VisualFindUser,
        Commands::Login(_) => WizardStage::LoginFind,
    }
}

/// Whether no setting of the subcommand is given.
pub open spec fn nothing_given(c: Commands) -> bool {
    match c {
        Commands::User(u) => u.unset(),
        Commands::Visual(v) => v.unset(),
        Commands::Login(l) => l.unset(),
    }
}

/// The operations for the settings the subcommand gives.
pub open spec fn plan_of(c: Commands) -> Seq<Operation> {
    match c {
        Commands::User(u) => user_plan(u),
        Commands::Visual(v) => visual_plan(v),
        Commands::Login(l) => login_plan(l),
    }
}

/// How the subcommand `c` runs: interactively exactly when it gives no setting.
pub fn mode_for(c: Commands) -> (m: Mode)
    requires
        c matches Commands::Login(l) ==> l.consistent(),
    ensures
        nothing_given(c) ==> (m matches Mode::Interactive(w, s) && w.stage == first_stage(c) && s
            == Step::Perform(Operation::FindSessionUser)),
        !nothing_given(c) ==> (m matches Mode::Batch(ops) && ops@ == plan_of(c)),
{
    match c {
        Commands::User(u) => {
            if u.is_unset() {
                let (w, s) = Wizard::user();
                Mode::Interactive(w, s)
            } else {
                Mode::Batch(user_operations(u))
            }
        },
        Commands::Visual(v) => {
            if v.is_unset() {
                let (w, s) = Wizard::visual();
                Mode::Interactive(w, s)
            } else {
                Mode::Batch(visual_operations(v))
            }
        },
        Commands::Login(l) => {
            if l.is_unset() {
                let (w, s) = Wizard::login();
                Mode::Interactive(w, s)
            } else {
                Mode::Batch(login_operations(l))
            }
        },
    }
}

/// `x` is in `a + b` exactly when it is in `a` or in `b`.
pub proof fn lemma_concat_contains<A>(a: Seq<A>, b: Seq<A>, x: A)
    ensures
        (a + b).contains(x) <==> a.contains(x) || b.contains(x),
{
    if a.contains(x) {
        let i = choose|i: int| 0 <= i < a.len() && a[i] == x;
        assert((a + b)[i] == x);
    }
    if b.contains(x) {
        let i = choose|i: int| 0 <= i < b.len() && b[i] == x;
        assert((a + b)[a.len() + i] == x);
    }
    if (a + b).contains(x) {
        let i = choose|i: int| 0 <= i < (a + b).len() && (a + b)[i] == x;
        if i < a.len() {
            assert(a[i] == x);
        } else {
            assert(b[i - a.len()] == x);
        }
    }
}

/// The operation of an optional setting is there exactly when the setting is given.
pub proof fn lemma_when_given_contains<T>(o: Option<T>, f: spec_fn(T) -> Operation, x: Operation)
    ensures
        when_given(o, f).contains(x) <==> (o is Some && x == f(o.unwrap())),
{
    match o {
        Some(v) => {
            assert(seq![f(v)][0] == f(v));
        },
        None => {},
    }
}

/// `seq![y]` holds `x` exactly when `x` is `y`.
pub proof fn lemma_single_contains(y: Operation, x: Operation)
    ensures
        seq![y].contains(x) <==> x == y,
{
    assert(seq![y][0] == y);
}

/// Account settings given on the command line are applied as given, and
/// nothing else is done: the operations are the session user's lookup, the
/// user's password when one is given, the administrator's password when
/// one is given, the elevation with exactly the flag given, and the rename
/// to exactly the name given.
pub proof fn lemma_user_plan_applies_settings(u: User)
    ensures
        forall|op: Operation|
            #![trigger user_plan(u).contains(op)]
            user_plan(u).contains(op) <==> {
                ||| op == Operation::FindSessionUser
                ||| u.user_password is Some && op == Operation::SetPassword {
                    account: Account::Session,
                    password: u.user_password.unwrap(),
                }
                ||| u.admin_password is Some && op == Operation::SetPassword {
                    account: Account::Current,
                    password: u.admin_password.unwrap(),
                }
                ||| u.elevate_user is Some && op == Operation::SetElevation(u.elevate_user.unwrap())
                ||| u.username is Some && op == Operation::SetUsername(u.username.unwrap())
            },
{
    let s0 = seq![Operation::FindSessionUser];
    let a = when_given(
        u.user_password,
        |p: String| Operation::SetPassword { account: Account::Session, password: p },
    );
    let b = when_given(
        u.admin_password,
        |p: String| Operation::SetPassword { account: Account::Current, password: p },
    );
    let c = when_given(u.elevate_user, |b: bool| Operation::SetElevation(b));
    let d = when_given(u.username, |n: String| Operation::SetUsername(n));
    assert(user_plan(u) == s0 + a + b + c + d);
    assert forall|op: Operation| #![trigger user_plan(u).contains(op)]
        user_plan(u).contains(op) <==> {
            ||| op == Operation::FindSessionUser
            ||| u.user_password is Some && op == Operation::SetPassword {
                account: Account::Session,
                password: u.user_password.unwrap(),
            }
            ||| u.admin_password is Some && op == Operation::SetPassword {
                account: Account::Current,
                password: u.admin_password.unwrap(),
            }
            ||| u.elevate_user is Some && op == Operation::SetElevation(u.elevate_user.unwrap())
            ||| u.username is Some && op == Operation::SetUsername(u.username.unwrap())
        } by {
        lemma_concat_contains(s0 + a + b + c, d, op);
        lemma_concat_contains(s0 + a + b, c, op);
        lemma_concat_contains(s0 + a, b, op);
        lemma_concat_contains(s0, a, op);
        lemma_single_contains(Operation::FindSessionUser, op);
        lemma_when_given_contains(
            u.user_password,
            |p: String| Operation::SetPassword { account: Account::Session, password: p },
            op,
        );
        lemma_when_given_contains(
            u.admin_password,
            |p: String| Operation::SetPassword { account: Account::Current, password: p },
            op,
        );
        lemma_when_given_contains(u.elevate_user, |b: bool| Operation::SetElevation(b), op);
        lemma_when_given_contains(u.username, |n: String| Operation::SetUsername(n), op);
    }
}

/// Appearance settings given on the command line are applied as given,
/// and nothing else is done: the session user's and its SID's lookups, the
/// account picture and the lock screen image from exactly the files given,
/// and the blur switched exactly as given.
pub proof fn lemma_visual_plan_applies_settings(v: Visual)
    ensures
        forall|op: Operation|
            #![trigger visual_plan(v).contains(op)]
            visual_plan(v).contains(op) <==> {
                ||| op == Operation::FindSessionUser
                ||| op == Operation::FindSessionSid
                ||| v.profile_img is Some && op == Operation::SetProfileImage(v.profile_img.unwrap())
                ||| v.lockscreen_img is Some && op == Operation::SetLockscreenImage(
                    v.lockscreen_img.unwrap(),
                )
                ||| v.lockscreen_blur is Some && op == Operation::SetLockscreenBlur(
                    v.lockscreen_blur.unwrap(),
                )
            },
{
    let s0 = seq![Operation::FindSessionUser, Operation::FindSessionSid];
    let a = when_given(v.profile_img, |p: PathBuf| Operation::SetProfileImage(p));
    let b = when_given(v.lockscreen_img, |p: PathBuf| Operation::SetLockscreenImage(p));
    let c = when_given(v.lockscreen_blur, |b: bool| Operation::SetLockscreenBlur(b));
    assert(visual_plan(v) == s0 + a + b + c);
    assert forall|op: Operation| #![trigger visual_plan(v).contains(op)]
        visual_plan(v).contains(op) <==> {
            ||| op == Operation::FindSessionUser
            ||| op == Operation::FindSessionSid
            ||| v.profile_img is Some && op == Operation::SetProfileImage(v.profile_img.unwrap())
            ||| v.lockscreen_img is Some && op == Operation::SetLockscreenImage(
                v.lockscreen_img.unwrap(),
            )
            ||| v.lockscreen_blur is Some && op == Operation::SetLockscreenBlur(
                v.lockscreen_blur.unwrap(),
            )
        } by {
        lemma_concat_contains(s0 + a + b, c, op);
        lemma_concat_contains(s0 + a, b, op);
        lemma_concat_contains(s0, a, op);
        lemma_concat_contains(seq![Operation::FindSessionUser], seq![Operation::FindSessionSid], op);
        assert(s0 == seq![Operation::FindSessionUser] + seq![Operation::FindSessionSid]);
        lemma_single_contains(Operation::FindSessionUser, op);
        lemma_single_contains(Operation::FindSessionSid, op);
        lemma_when_given_contains(v.profile_img, |p: PathBuf| Operation::SetProfileImage(p), op);
        lemma_when_given_contains(
            v.lockscreen_img,
            |p: PathBuf| Operation::SetLockscreenImage(p),
            op,
        );
        lemma_when_given_contains(
            v.lockscreen_blur,
            |b: bool| Operation::SetLockscreenBlur(b),
            op,
        );
    }
}

/// Login settings given on the command line are applied as given, and
/// nothing else is done: the session user's lookup, the login requirement
/// switched exactly as given, autologon switched on with exactly the
/// password given when it is asked for, and switched off when that is
/// asked for.
pub proof fn lemma_login_plan_applies_settings(l: Login)
    requires
        l.consistent(),
    ensures
        forall|op: Operation|
            #![trigger login_plan(l).contains(op)]
            login_plan(l).contains(op) <==> {
                ||| op == Operation::FindSessionUser
                ||| l.require_username is Some && op == Operation::SetUsernameLoginRequirement(
                    l.require_username.unwrap(),
                )
                ||| l.auto_login == Some(true) && op == Operation::EnableAutologon(
                    l.user_password.unwrap(),
                )
                ||| l.auto_login == Some(false) && op == Operation::DisableAutologon
            },
{
    let s0 = seq![Operation::FindSessionUser];
    let a = when_given(l.require_username, |b: bool| Operation::SetUsernameLoginRequirement(b));
    let c: Seq<Operation> = match l.auto_login {
        Some(true) => seq![Operation::EnableAutologon(l.user_password.unwrap())],
        Some(false) => seq![Operation::DisableAutologon],
        None => Seq::empty(),
    };
    assert(login_plan(l) == s0 + a + c);
    assert forall|op: Operation| #![trigger login_plan(l).contains(op)]
        login_plan(l).contains(op) <==> {
            ||| op == Operation::FindSessionUser
            ||| l.require_username is Some && op == Operation::SetUsernameLoginRequirement(
                l.require_username.unwrap(),
            )
            ||| l.auto_login == Some(true) && op == Operation::EnableAutologon(
                l.user_password.unwrap(),
            )
            ||| l.auto_login == Some(false) && op == Operation::DisableAutologon
        } by {
        lemma_concat_contains(s0 + a, c, op);
        lemma_concat_contains(s0, a, op);
        lemma_single_contains(Operation::FindSessionUser, op);
        lemma_when_given_contains(
            l.require_username,
            |b: bool| Operation::SetUsernameLoginRequirement(b),
            op,
        );
        match l.auto_login {
            Some(true) => lemma_single_contains(
                Operation::EnableAutologon(l.user_password.unwrap()),
                op,
            ),
            Some(false) => lemma_single_contains(Operation::DisableAutologon, op),
            None => {},
        }
    }
}

/// A subcommand runs interactively exactly when, run from its arguments,
/// it would change nothing: for account and appearance settings, when its
/// operations would only look up the session's user (and SID); for login
/// settings, running interactively means nothing would be changed.
pub proof fn lemma_interactive_when_nothing_to_change(c: Commands)
    ensures
        c is User ==> (nothing_given(c) <==> plan_of(c).len() == 1),
        c is Visual ==> (nothing_given(c) <==> plan_of(c).len() == 2),
        c is Login ==> (nothing_given(c) ==> plan_of(c).len() == 1),
{
}

} // verus!

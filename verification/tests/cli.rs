use std::path::PathBuf;

use amect::cli::wizard::{Prompt, Reply, Step, Wizard, WizardStage};
use amect::cli::{
    mode_for, Commands, Mode, login_operations, user_operations, visual_operations, Account, Login, Operation, User, Visual,
};

fn confirm(message: &str) -> Step {
    Step::Ask(Prompt::Confirm { message: message.to_string(), default: false })
}

fn skippable(message: &str) -> Step {
    Step::Ask(Prompt::ConfirmSkippable {
        message: message.to_string(),
        help: "Press Esc to skip".to_string(),
    })
}

#[test]
fn empty_settings_mean_interactive_mode() {
    assert!(User::default().is_unset());
    assert!(Visual::default().is_unset());
    assert!(Login::default().is_unset());
    let u = User { elevate_user: Some(false), ..User::default() };
    assert!(!u.is_unset());
    let l = Login { user_password: Some("x".to_string()), ..Login::default() };
    assert!(!l.is_unset());
}

#[test]
fn user_settings_rename_last() {
    let u = User {
        username: Some("newname".to_string()),
        user_password: Some("up".to_string()),
        admin_password: Some("ap".to_string()),
        elevate_user: Some(true),
    };
    assert_eq!(
        user_operations(u),
        vec![
            Operation::FindSessionUser,
            Operation::SetPassword { account: Account::Session, password: "up".to_string() },
            Operation::SetPassword { account: Account::Current, password: "ap".to_string() },
            Operation::SetElevation(true),
            Operation::SetUsername("newname".to_string()),
        ]
    );
    let u = User { username: Some("n".to_string()), ..User::default() };
    assert_eq!(
        user_operations(u),
        vec![Operation::FindSessionUser, Operation::SetUsername("n".to_string())]
    );
}

#[test]
fn visual_settings_look_up_the_sid() {
    let v = Visual {
        profile_img: Some(PathBuf::from("me.png")),
        lockscreen_img: None,
        lockscreen_blur: Some(false),
    };
    assert_eq!(
        visual_operations(v),
        vec![
            Operation::FindSessionUser,
            Operation::FindSessionSid,
            Operation::SetProfileImage(PathBuf::from("me.png")),
            Operation::SetLockscreenBlur(false),
        ]
    );
}

#[test]
fn login_settings() {
    let l = Login {
        require_username: Some(true),
        auto_login: Some(true),
        user_password: Some("pw".to_string()),
    };
    assert_eq!(
        login_operations(l),
        vec![
            Operation::FindSessionUser,
            Operation::SetUsernameLoginRequirement(true),
            Operation::EnableAutologon("pw".to_string()),
        ]
    );
    let l = Login { auto_login: Some(false), ..Login::default() };
    assert_eq!(
        login_operations(l),
        vec![Operation::FindSessionUser, Operation::DisableAutologon]
    );
}

#[test]
fn interactive_account_settings() {
    let (mut w, s) = Wizard::user();
    assert_eq!(s, Step::Perform(Operation::FindSessionUser));
    assert_eq!(w.step(Reply::Ack), confirm("Set new User password?"));
    assert_eq!(
        w.step(Reply::Confirmed(true)),
        Step::Ask(Prompt::Password { message: "New password:".to_string(), help: None })
    );
    assert_eq!(
        w.step(Reply::Entered("pw".to_string())),
        Step::Perform(Operation::SetPassword {
            account: Account::Session,
            password: "pw".to_string()
        })
    );
    assert_eq!(w.step(Reply::Ack), confirm("Set new Admin password?"));
    assert_eq!(w.step(Reply::Confirmed(false)), skippable("Should user be elevated?"));
    assert_eq!(w.step(Reply::Skipped(Some(true))), Step::Perform(Operation::SetElevation(true)));
    assert_eq!(w.step(Reply::Ack), confirm("Set new username?"));
    assert_eq!(
        w.step(Reply::Confirmed(true)),
        Step::Ask(Prompt::Text { message: "New username:".to_string() })
    );
    assert_eq!(
        w.step(Reply::Entered("newname".to_string())),
        Step::Perform(Operation::SetUsername("newname".to_string()))
    );
    assert_eq!(w.step(Reply::Ack), Step::Done);
    assert_eq!(w.stage, WizardStage::Over);
    assert!(!w.accepts(&Reply::Ack));
}

#[test]
fn interactive_account_settings_skipping_everything() {
    let (mut w, _) = Wizard::user();
    w.step(Reply::Ack);
    assert_eq!(w.step(Reply::Confirmed(false)), confirm("Set new Admin password?"));
    assert!(!w.accepts(&Reply::Skipped(None)));
    assert!(w.accepts(&Reply::Confirmed(false)));
    w.step(Reply::Confirmed(false));
    assert_eq!(w.step(Reply::Skipped(None)), confirm("Set new username?"));
    assert_eq!(w.step(Reply::Confirmed(false)), Step::Done);
}

#[test]
fn interactive_appearance_settings() {
    let (mut w, _) = Wizard::visual();
    assert_eq!(w.step(Reply::Ack), Step::Perform(Operation::FindSessionSid));
    assert_eq!(w.step(Reply::Ack), confirm("Set a new profile image?"));
    assert_eq!(w.step(Reply::Confirmed(true)), Step::Ask(Prompt::ImageFile));
    assert_eq!(
        w.step(Reply::Chosen(PathBuf::from("a.png"))),
        Step::Perform(Operation::SetProfileImage(PathBuf::from("a.png")))
    );
    assert_eq!(w.step(Reply::Ack), confirm("Set a new lockscreen image?"));
    assert_eq!(w.step(Reply::Confirmed(false)), skippable("Set Lockscreen blur?"));
    assert_eq!(w.step(Reply::Skipped(None)), Step::Done);
}

#[test]
fn interactive_login_settings() {
    let (mut w, _) = Wizard::login();
    assert_eq!(w.step(Reply::Ack), skippable("Require username on login?"));
    assert_eq!(
        w.step(Reply::Skipped(Some(false))),
        Step::Perform(Operation::SetUsernameLoginRequirement(false))
    );
    assert_eq!(w.step(Reply::Ack), skippable("Ask for password when logging in?"));
    assert_eq!(
        w.step(Reply::Skipped(Some(false))),
        Step::Ask(Prompt::Password {
            message: "Enter your user password:".to_string(),
            help: Some("Autologin would be setup using this password!".to_string()),
        })
    );
    assert_eq!(
        w.step(Reply::Entered("pw".to_string())),
        Step::Perform(Operation::EnableAutologon("pw".to_string()))
    );
    assert_eq!(w.step(Reply::Ack), Step::Done);

    let (mut w, _) = Wizard::login();
    w.step(Reply::Ack);
    w.step(Reply::Skipped(None));
    assert_eq!(w.step(Reply::Skipped(Some(true))), Step::Perform(Operation::DisableAutologon));
    assert_eq!(w.step(Reply::Ack), Step::Done);
}

#[test]
fn subcommands_run_interactively_only_without_settings() {
    match mode_for(Commands::User(User::default())) {
        Mode::Interactive(w, s) => {
            assert_eq!(w.stage, WizardStage::UserFind);
            assert_eq!(s, Step::Perform(Operation::FindSessionUser));
        }
        Mode::Batch(_) => panic!("expected the interactive mode"),
    }
    match mode_for(Commands::Visual(Visual::default())) {
        Mode::Interactive(w, _) => assert_eq!(w.stage, WizardStage::VisualFindUser),
        Mode::Batch(_) => panic!("expected the interactive mode"),
    }
    match mode_for(Commands::Login(Login { require_username: Some(true), ..Login::default() })) {
        Mode::Batch(ops) => assert_eq!(
            ops,
            vec![Operation::FindSessionUser, Operation::SetUsernameLoginRequirement(true)]
        ),
        Mode::Interactive(..) => panic!("expected the given settings to be applied"),
    }
}

/// Answers every question with "yes" (or a typed value / a file) until the
/// interactive mode is over, and counts the steps it took.
fn run_to_end(mut w: Wizard, first: Step) -> usize {
    let mut step = first;
    let mut count = 0;
    while step != Step::Done {
        let reply = match step {
            Step::Perform(_) => Reply::Ack,
            Step::Ask(Prompt::Confirm { .. }) => Reply::Confirmed(true),
            Step::Ask(Prompt::ConfirmSkippable { .. }) => Reply::Skipped(Some(true)),
            Step::Ask(Prompt::Password { .. }) | Step::Ask(Prompt::Text { .. }) => {
                Reply::Entered("x".to_string())
            }
            Step::Ask(Prompt::ImageFile) => Reply::Chosen(PathBuf::from("a.png")),
            Step::Done => unreachable!(),
        };
        assert!(w.accepts(&reply));
        step = w.step(reply);
        count += 1;
        assert!(count < 29);
    }
    assert_eq!(w.stage, WizardStage::Over);
    count
}

#[test]
fn interactive_mode_always_ends() {
    let (w, s) = Wizard::user();
    assert_eq!(run_to_end(w, s), 12);
    let (w, s) = Wizard::visual();
    assert_eq!(run_to_end(w, s), 10);
    let (w, s) = Wizard::login();
    assert_eq!(run_to_end(w, s), 5);
}

use amect::cache::{CacheEmbedded, EmbeddedResources};
use amect::defines::APP_DIR;
use amect::error::AmectError;
use amect::gui::{AMEApp, Switch};
use amect::interact::{
    AutoLoginOptions, LockscreenBlurOptions, LoginOptions, UserElevationOptions, UserOptions,
    UserRequirementOptions, VisualOptions,
};

#[test]
fn menu_labels() {
    assert_eq!(UserOptions::SetUsername.label(), "Set username");
    assert_eq!(UserOptions::SetPassword.label(), "Set user password");
    assert_eq!(UserOptions::SetAdminPassword.label(), "Set admin password");
    assert_eq!(UserOptions::UserElevation.label(), "User elevation");
    assert_eq!(UserElevationOptions::Enable.label(), "Elevate user to admin");
    assert_eq!(UserElevationOptions::Disable.label(), "Revoke user elevations");
    assert_eq!(VisualOptions::SetProfile.label(), "Set profile image");
    assert_eq!(VisualOptions::SetLockscreen.label(), "Set lockscreen image");
    assert_eq!(VisualOptions::LockscreenBlur.label(), "Lockscreen blur");
    assert_eq!(LockscreenBlurOptions::Enable.label(), "Enable lockscreen blur");
    assert_eq!(LockscreenBlurOptions::Disable.label(), "Disable lockscreen blur");
    assert_eq!(LoginOptions::UserRequirement.label(), "Username requirement");
    assert_eq!(LoginOptions::AutoLogin.label(), "Auto-login");
    assert_eq!(UserRequirementOptions::Enable.label(), "Enable username requiement on login");
    assert_eq!(UserRequirementOptions::Disable.label(), "Disable username requiement on login");
    assert_eq!(AutoLoginOptions::Enable.label(), "Enable AutoLogon");
    assert_eq!(AutoLoginOptions::Disable.label(), "Disable AutoLogon");
}

#[test]
fn menu_labels_are_distinct() {
    let labels = [
        UserOptions::SetUsername.label(),
        UserOptions::SetPassword.label(),
        UserOptions::SetAdminPassword.label(),
        UserOptions::UserElevation.label(),
    ];
    for i in 0..labels.len() {
        for j in 0..labels.len() {
            assert_eq!(i == j, labels[i] == labels[j]);
        }
    }
}

#[test]
fn cached_helper_file() {
    let c = CacheEmbedded::AutoLogon;
    assert_eq!(c.file_name(), "autologin.exe");
    assert!(c.is_cached_as("autologin.exe"));
    assert!(!c.is_cached_as("autologon.exe"));
    assert!(!c.is_cached_as("Autologin.exe"));
    let payload = [0x4d, 0x5a, 0x90];
    let res = EmbeddedResources { auto_logon: &payload };
    assert_eq!(c.get_item(&res), &payload);
    assert_eq!(APP_DIR, "com.github.nozwock.amect");
}

#[test]
fn cached_helper_found_first_by_name() {
    let c = CacheEmbedded::AutoLogon;
    let names = vec![
        "other.txt".to_string(),
        "autologin.exe".to_string(),
        "autologin.exe".to_string(),
    ];
    assert_eq!(c.find_cached(&names), Some(1));
    assert_eq!(c.find_cached(&vec!["autologon.exe".to_string()]), None);
    assert_eq!(c.find_cached(&Vec::new()), None);
}

#[test]
fn error_messages() {
    assert_eq!(AmectError::EnableAutologon.message(), "failed to enable autologon");
    assert_eq!(AmectError::DisableAutologon.message(), "failed to disable autologon");
    assert_eq!(AmectError::NotUtf8("bad bytes".to_string()).message(), "bad bytes");
    assert_eq!(AmectError::UsernameUnknown.message(), "failed to retrieve username");
    assert_eq!(
        AmectError::SessionUserUnknown.message(),
        "failed to retrieve username, it's likely that username has been recently modified. Please try again after a relogin."
    );
    assert_eq!(AmectError::Io("disk full".to_string()).message(), "disk full");
    let e = AmectError::ElevationFailed { username: "u".to_string(), status: "s".to_string() };
    assert_eq!(e.duplicate(), e);
}

#[test]
fn window_state_and_switch() {
    let app = AMEApp::new();
    assert!(app.username.is_empty() && app.user_pass.is_empty() && app.admin_pass.is_empty());
    assert!(!app.username_login && !app.autologon);
    let d = AMEApp::default();
    assert!(d.username.is_empty() && !d.autologon);
    let mut flag = false;
    {
        let mut s = Switch::new(&mut flag);
        s.toggle();
    }
    assert!(flag);
    {
        let mut s = Switch::new(&mut flag);
        s.toggle();
    }
    assert!(!flag);
}

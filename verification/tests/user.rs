use amect::error::{AccountField, AmectError};
use amect::user::{
    net_password_command, net_password_outcome, net_user_outcome, parse_session_user,
    parse_user_sid, rename_command, rename_outcome, session_user_command, set_password_request,
    set_username_request, user_name_from_buffer, user_sid_command, NERR_SUCCESS,
    NERR_USER_NOT_FOUND, USER_INFO_NAME_LEVEL, USER_INFO_PASSWORD_LEVEL,
};
use amect::wide::to_wide;

fn args(v: &[&str]) -> Vec<String> {
    v.iter().map(|s| s.to_string()).collect()
}

#[test]
fn session_user_command_line() {
    let c = session_user_command();
    assert_eq!(c.program, "WMIC");
    assert_eq!(c.args, args(&["computersystem", "get", "username"]));
}

#[test]
fn session_user_is_split_at_the_backslash_of_the_last_line() {
    let out = b"UserName            \r\r\nDESKTOP-1234\\alice  \r\r\n\r\r\n";
    assert_eq!(
        parse_session_user(out),
        Some(("DESKTOP-1234".to_string(), "alice".to_string()))
    );
}

#[test]
fn session_user_splits_at_the_first_backslash() {
    assert_eq!(
        parse_session_user(b"UserName\nA\\b\\c"),
        Some(("A".to_string(), "b\\c".to_string()))
    );
}

#[test]
fn session_user_absent_without_backslash_or_output() {
    assert_eq!(parse_session_user(b"UserName\r\r\n\r\r\n"), None);
    assert_eq!(parse_session_user(b""), None);
    assert_eq!(parse_session_user(b"   \r\n"), None);
    assert_eq!(parse_session_user(&[0x55, 0xff, b'\\', b'x']), None);
}

#[test]
fn user_sid_command_line() {
    let c = user_sid_command("bob");
    assert_eq!(c.program, "WMIC");
    assert_eq!(c.args, args(&["useraccount", "where", "name='bob'", "get", "sid"]));
}

#[test]
fn user_sid_is_the_last_line() {
    let out = b"SID                                            \r\r\nS-1-5-21-1-2-3-1001  \r\r\n\r\r\n";
    assert_eq!(parse_user_sid(out), Some("S-1-5-21-1-2-3-1001".to_string()));
    assert_eq!(parse_user_sid(b"S-1-5-18"), Some("S-1-5-18".to_string()));
    assert_eq!(parse_user_sid(b" \r\n "), None);
    assert_eq!(parse_user_sid(&[0xc3]), None);
}

#[test]
fn rename_through_wmic() {
    let c = rename_command("old", "new");
    assert_eq!(c.program, "WMIC");
    assert_eq!(c.args, args(&["useraccount", "where", "name='old'", "rename", "new"]));
    assert_eq!(rename_outcome(true, "exit code: 0"), Ok(()));
    let e = rename_outcome(false, "exit code: 1").unwrap_err();
    assert_eq!(e, AmectError::RenameFailed("exit code: 1".to_string()));
    assert_eq!(e.message(), "failed to set username; exit code: 1");
}

#[test]
fn password_through_net_user() {
    let c = net_password_command("bob", "s3cret");
    assert_eq!(c.program, "NET");
    assert_eq!(c.args, args(&["user", "bob", "s3cret"]));
    assert_eq!(net_password_outcome(true, "bob", "exit code: 0"), Ok(()));
    let e = net_password_outcome(false, "bob", "exit code: 2").unwrap_err();
    assert_eq!(e.message(), "failed to set password for bob; exit code: 2");
}

#[test]
fn wide_strings_are_nul_terminated() {
    assert_eq!(to_wide("ab").unwrap(), vec![0x61, 0x62, 0]);
    assert_eq!(to_wide("").unwrap(), vec![0]);
    assert_eq!(to_wide("😀").unwrap(), vec![0xD83D, 0xDE00, 0]);
    assert_eq!(to_wide("ab\0").unwrap(), vec![0x61, 0x62, 0]);
}

#[test]
fn wide_strings_refuse_interior_nul() {
    let e = to_wide("My\0String").unwrap_err();
    assert_eq!(e, AmectError::ContainsNul(2));
    assert_eq!(e.message(), "invalid nul value found at position 2");
    assert_eq!(to_wide("😀\0x").unwrap_err(), AmectError::ContainsNul(2));
}

#[test]
fn rename_request_converts_both_names() {
    let r = set_username_request("old", "new").unwrap();
    assert_eq!(r.field, AccountField::Username);
    assert_eq!(r.level, USER_INFO_NAME_LEVEL);
    assert_eq!(r.account, vec![0x6f, 0x6c, 0x64, 0]);
    assert_eq!(r.value, vec![0x6e, 0x65, 0x77, 0]);
    assert_eq!(set_username_request("o\0ld", "n\0ew").unwrap_err(), AmectError::ContainsNul(1));
    assert_eq!(set_username_request("old", "ne\0w").unwrap_err(), AmectError::ContainsNul(2));
}

#[test]
fn password_request_uses_level_1003() {
    let r = set_password_request("bob", "pw").unwrap();
    assert_eq!(r.field, AccountField::Password);
    assert_eq!(r.level, USER_INFO_PASSWORD_LEVEL);
    assert_eq!(r.level, 1003);
    assert_eq!(r.value, vec![0x70, 0x77, 0]);
}

#[test]
fn net_user_status_meanings() {
    assert_eq!(net_user_outcome(AccountField::Username, NERR_SUCCESS), Ok(()));
    let e = net_user_outcome(AccountField::Password, NERR_USER_NOT_FOUND).unwrap_err();
    assert_eq!(e, AmectError::UserNotFound);
    assert_eq!(e.message(), "username not found");
    let e = net_user_outcome(AccountField::Username, 5).unwrap_err();
    assert_eq!(e.message(), "failed to set username; 5");
    let e = net_user_outcome(AccountField::Password, 2245).unwrap_err();
    assert_eq!(e.message(), "failed to set password; 2245");
}

#[test]
fn user_name_from_buffer_drops_the_terminator() {
    let buf: Vec<u16> = vec![0x61, 0x64, 0x6d, 0x69, 0x6e, 0, 0, 0];
    assert_eq!(user_name_from_buffer(true, &buf, 6), Some("admin".to_string()));
    assert_eq!(user_name_from_buffer(false, &buf, 6), None);
    assert_eq!(user_name_from_buffer(true, &buf, 0), None);
    assert_eq!(user_name_from_buffer(true, &buf, 1), Some(String::new()));
}

#[test]
fn written_name_reads_back() {
    for name in ["alice", "Jöns Jacob", "用户", "emoji😀"] {
        let w = to_wide(name).unwrap();
        assert_eq!(user_name_from_buffer(true, &w, w.len() as u32), Some(name.to_string()));
    }
}

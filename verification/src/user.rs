//! Account operations: finding the session's user and SID through `WMIC`,
//! renaming accounts and changing passwords.
use vstd::prelude::*;
use vstd::utf8::*;

use crate::command::{owned, texts, CommandLine};
use crate::error::{AccountField, AmectError};
use crate::wide::{c_wide_units, first_nul_unit, nul_only_last, to_wide};
use crate::text::{lemma_find_from, lemma_line_start, line_start, find_from, lemma_utf16_roundtrip, utf16_encode, concat3, string_from_utf16_lossy, utf16_decode_lossy, char_vec, find_char, last_line, last_line_start, split_once, substring, trim, trimmed, utf8_to_str};

verus! {

/// The `(domain, user)` pair that `WMIC computersystem get username` names
/// in its output, if the output is UTF-8 and holds one.
pub open spec fn session_user_of(stdout: Seq<u8>) -> Option<(Seq<char>, Seq<char>)> {
    if !valid_utf8(stdout) {
        None
    } else {
        let t = trim(decode_utf8(stdout));
        if t.len() == 0 {
            None
        } else {
            split_once(last_line(t), '\\')
        }
    }
}

/// The command that lists the user of the interactive session.
pub fn session_user_command() -> (c: CommandLine)
    ensures
        c@ == ("WMIC"@, seq!["computersystem"@, "get"@, "username"@]),
{
    let c = CommandLine {
        program: owned("WMIC"),
        args: vec![owned("computersystem"), owned("get"), owned("username")],
    };
    assert(texts(c.args@) =~= seq!["computersystem"@, "get"@, "username"@]);
    c
}

/// Domain and user name from the output of `session_user_command`: the last
/// line of the trimmed output, split at its first backslash.
pub fn parse_session_user(stdout: &[u8]) -> (r: Option<(String, String)>)
    ensures
        match r {
            Some((d, u)) => session_user_of(stdout@) == Some((d@, u@)),
            None => session_user_of(stdout@) is None,
        },
{
    match utf8_to_str(stdout) {
        Err(_) => None,
        Ok(s) => {
            let t = trimmed(s);
            let tv = char_vec(t.as_str());
            if tv.len() == 0 {
                return None;
            }
            let k = last_line_start(&tv);
            let line = substring(t.as_str(), k, tv.len());
            let lv = char_vec(line.as_str());
            let p = find_char(&lv, '\\');
            if p < lv.len() {
                let d = substring(line.as_str(), 0, p);
                let u = substring(line.as_str(), p + 1, lv.len());
                Some((d, u))
            } else {
                None
            }
        },
    }
}

} // verus!

verus! {

/// The SID that `WMIC useraccount where name='..' get sid` prints: the last
/// line of its trimmed output, if the output is UTF-8 and not blank.
pub open spec fn user_sid_of(stdout: Seq<u8>) -> Option<Seq<char>> {
    if !valid_utf8(stdout) {
        None
    } else {
        let t = trim(decode_utf8(stdout));
        if t.len() == 0 {
            None
        } else {
            Some(last_line(t))
        }
    }
}

/// The `WMIC` filter that selects the account named `username`.
pub open spec fn name_filter(username: Seq<char>) -> Seq<char> {
    "name='"@ + username + "'"@
}

fn name_filter_string(username: &str) -> (r: String)
    ensures
        r@ == name_filter(username@),
{
    concat3("name='", username, "'")
}

/// The command that prints the SID of the account `username`.
pub fn user_sid_command(username: &str) -> (c: CommandLine)
    ensures
        c@ == ("WMIC"@, seq!["useraccount"@, "where"@, name_filter(username@), "get"@, "sid"@]),
{
    let c = CommandLine {
        program: owned("WMIC"),
        args: vec![
            owned("useraccount"),
            owned("where"),
            name_filter_string(username),
            owned("get"),
            owned("sid"),
        ],
    };
    assert(texts(c.args@) =~= seq![
        "useraccount"@,
        "where"@,
        name_filter(username@),
        "get"@,
        "sid"@,
    ]);
    c
}

/// The SID in the output of `user_sid_command`.
pub fn parse_user_sid(stdout: &[u8]) -> (r: Option<String>)
    ensures
        match r {
            Some(sid) => user_sid_of(stdout@) == Some(sid@),
            None => user_sid_of(stdout@) is None,
        },
{
    match utf8_to_str(stdout) {
        Err(_) => None,
        Ok(s) => {
            let t = trimmed(s);
            let tv = char_vec(t.as_str());
            if tv.len() == 0 {
                return None;
            }
            let k = last_line_start(&tv);
            Some(substring(t.as_str(), k, tv.len()))
        },
    }
}

/// The command that renames the account `curr` to `new`.
pub fn rename_command(curr: &str, new: &str) -> (c: CommandLine)
    ensures
        c@ == ("WMIC"@, seq!["useraccount"@, "where"@, name_filter(curr@), "rename"@, new@]),
{
    let c = CommandLine {
        program: owned("WMIC"),
        args: vec![
            owned("useraccount"),
            owned("where"),
            name_filter_string(curr),
            owned("rename"),
            owned(new),
        ],
    };
    assert(texts(c.args@) =~= seq![
        "useraccount"@,
        "where"@,
        name_filter(curr@),
        "rename"@,
        new@,
    ]);
    c
}

/// What a finished rename command means: success, or the error that names
/// its exit status.
pub fn rename_outcome(success: bool, status: &str) -> (r: Result<(), AmectError>)
    ensures
        success ==> r is Ok,
        !success ==> (r matches Err(AmectError::RenameFailed(t)) && t@ == status@),
{
    if success {
        Ok(())
    } else {
        Err(AmectError::RenameFailed(owned(status)))
    }
}

} // verus!

verus! {

/// The command that sets the password of `username` through `NET user`.
pub fn net_password_command(username: &str, password: &str) -> (c: CommandLine)
    ensures
        c@ == ("NET"@, seq!["user"@, username@, password@]),
{
    let c = CommandLine {
        program: owned("NET"),
        args: vec![owned("user"), owned(username), owned(password)],
    };
    assert(texts(c.args@) =~= seq!["user"@, username@, password@]);
    c
}

/// What a finished `NET user` command means for `username`.
pub fn net_password_outcome(success: bool, username: &str, status: &str) -> (r: Result<
    (),
    AmectError,
>)
    ensures
        success ==> r is Ok,
        !success ==> (r matches Err(AmectError::NetPasswordFailed { username: u, status: t })
            && u@ == username@ && t@ == status@),
{
    if success {
        Ok(())
    } else {
        Err(AmectError::NetPasswordFailed { username: owned(username), status: owned(status) })
    }
}

/// `NetUserSetInfo`'s status for success.
pub const NERR_SUCCESS: u32 = 0;

/// `NetUserSetInfo`'s status for an account that does not exist.
pub const NERR_USER_NOT_FOUND: u32 = 2221;

/// Information level of `USER_INFO_0`, which carries a new account name.
pub const USER_INFO_NAME_LEVEL: u32 = 0;

/// Information level of `USER_INFO_1003`, which carries a new password.
pub const USER_INFO_PASSWORD_LEVEL: u32 = 1003;

/// One `NetUserSetInfo` call: change `field` of the account `account` to
/// `value`, both given as nul-terminated UTF-16.
#[derive(Clone, Debug, PartialEq, Eq)]
pub struct NetUserRequest {
    pub field: AccountField,
    pub level: u32,
    pub account: Vec<u16>,
    pub value: Vec<u16>,
}

/// The request's fields for changing `field` of `account` to `value`, or
/// the error of the first of the two (account first) that holds an
/// interior nul.
pub open spec fn net_user_request_ok(
    r: Result<NetUserRequest, AmectError>,
    field: AccountField,
    level: u32,
    account: Seq<char>,
    value: Seq<char>,
) -> bool {
    &&& (r is Ok <==> nul_only_last(account) && nul_only_last(value))
    &&& (r matches Ok(q) ==> q.field == field && q.level == level && q.account@ == c_wide_units(
        account,
    ) && q.value@ == c_wide_units(value))
    &&& (!nul_only_last(account) ==> r == Err::<NetUserRequest, AmectError>(
        AmectError::ContainsNul(first_nul_unit(account) as usize),
    ))
    &&& (nul_only_last(account) && !nul_only_last(value) ==> r == Err::<
        NetUserRequest,
        AmectError,
    >(AmectError::ContainsNul(first_nul_unit(value) as usize)))
}

fn net_user_request(field: AccountField, level: u32, account: &str, value: &str) -> (r: Result<
    NetUserRequest,
    AmectError,
>)
    ensures
        net_user_request_ok(r, field, level, account@, value@),
{
    let account = to_wide(account)?;
    let value = to_wide(value)?;
    Ok(NetUserRequest { field, level, account, value })
}

/// The call that renames the account `curr` to `new` (`USER_INFO_0`).
pub fn set_username_request(curr: &str, new: &str) -> (r: Result<NetUserRequest, AmectError>)
    ensures
        net_user_request_ok(r, AccountField::Username, USER_INFO_NAME_LEVEL, curr@, new@),
{
    net_user_request(AccountField::Username, USER_INFO_NAME_LEVEL, curr, new)
}

/// The call that sets the password of `username` (`USER_INFO_1003`).
pub fn set_password_request(username: &str, password: &str) -> (r: Result<
    NetUserRequest,
    AmectError,
>)
    ensures
        net_user_request_ok(r, AccountField::Password, USER_INFO_PASSWORD_LEVEL, username@, password@),
{
    net_user_request(AccountField::Password, USER_INFO_PASSWORD_LEVEL, username, password)
}

/// The result of a `NetUserSetInfo` call that answered `status`.
pub open spec fn net_user_result(field: AccountField, status: u32) -> Result<(), AmectError> {
    if status == NERR_SUCCESS {
        Ok(())
    } else if status == NERR_USER_NOT_FOUND {
        Err(AmectError::UserNotFound)
    } else {
        Err(AmectError::NetUserFailed { field, status })
    }
}

/// What a `NetUserSetInfo` status means.
pub fn net_user_outcome(field: AccountField, status: u32) -> (r: Result<(), AmectError>)
    ensures
        r == net_user_result(field, status),
{
    if status == NERR_SUCCESS {
        Ok(())
    } else if status == NERR_USER_NOT_FOUND {
        Err(AmectError::UserNotFound)
    } else {
        Err(AmectError::NetUserFailed { field, status })
    }
}

/// The name `GetUserNameW` reported: when the call succeeded and wrote
/// `written` units (its terminating nul included), the units before the
/// nul, decoded with unpaired surrogates replaced.
pub open spec fn user_name_of(succeeded: bool, buffer: Seq<u16>, written: u32) -> Option<
    Seq<char>,
> {
    if succeeded && written > 0 {
        Some(utf16_decode_lossy(buffer.take(written - 1)))
    } else {
        None
    }
}

/// The user name in `GetUserNameW`'s buffer.
pub fn user_name_from_buffer(succeeded: bool, buffer: &[u16], written: u32) -> (r: Option<
    String,
>)
    requires
        succeeded && written > 0 ==> written - 1 <= buffer@.len(),
    ensures
        match r {
            Some(name) => user_name_of(succeeded, buffer@, written) == Some(name@),
            None => user_name_of(succeeded, buffer@, written) is None,
        },
{
    if succeeded && written > 0 {
        let n = (written - 1) as usize;
        let mut units: Vec<u16> = Vec::new();
        let mut i: usize = 0;
        while i < n
            invariant
                n == written - 1,
                n <= buffer@.len(),
                i <= n,
                units@ == buffer@.take(i as int),
            decreases n - i,
        {
            units.push(buffer[i]);
            i = i + 1;
            assert(units@ =~= buffer@.take(i as int));
        }
        Some(string_from_utf16_lossy(units.as_slice()))
    } else {
        None
    }
}

/// A name without nul characters, written out as the C string an account
/// is renamed to, reads back unchanged from a `GetUserNameW` buffer that
/// holds that string: what is written is what is read.
pub proof fn lemma_written_name_reads_back(name: Seq<char>)
    requires
        forall|i: int| 0 <= i < name.len() ==> name[i] != '\0',
        c_wide_units(name).len() <= u32::MAX,
    ensures
        user_name_of(true, c_wide_units(name), c_wide_units(name).len() as u32) == Some(name),
{
    if name.len() > 0 {
        assert(name.last() != '\0');
    }
    let w = c_wide_units(name);
    assert(w == utf16_encode(name).push(0u16));
    assert(w.take(w.len() - 1) =~= utf16_encode(name));
    lemma_utf16_roundtrip(name);
}

/// The session's user, as parsed: the domain holds no backslash, and domain,
/// backslash and user put together give back the last line of the trimmed
/// output, which holds no newline.
pub proof fn lemma_session_user_parts(stdout: Seq<u8>)
    requires
        session_user_of(stdout) is Some,
    ensures
        ({
            let (d, u) = session_user_of(stdout).unwrap();
            let line = last_line(trim(decode_utf8(stdout)));
            &&& !d.contains('\\')
            &&& d + seq!['\\'] + u == line
            &&& !line.contains('\n')
        }),
{
    let t = trim(decode_utf8(stdout));
    let line = last_line(t);
    lemma_line_start(t, t.len() as int);
    lemma_find_from(line, '\\', 0);
    let k = find_from(line, '\\', 0);
    let (d, u) = session_user_of(stdout).unwrap();
    assert(d == line.subrange(0, k));
    assert(u == line.subrange(k + 1, line.len() as int));
    assert(d + seq!['\\'] + u =~= line);
    assert(!d.contains('\\')) by {
        if d.contains('\\') {
            let x = choose|x: int| 0 <= x < d.len() && d[x] == '\\';
            assert(line[x] == '\\');
        }
    }
    assert(!line.contains('\n')) by {
        if line.contains('\n') {
            let x = choose|x: int| 0 <= x < line.len() && line[x] == '\n';
            assert(t[line_start(t, t.len() as int) + x] == '\n');
        }
    }
}

/// The SID, as parsed, is the end of the trimmed output and holds no newline.
pub proof fn lemma_user_sid_is_last_line(stdout: Seq<u8>)
    requires
        user_sid_of(stdout) is Some,
    ensures
        user_sid_of(stdout).unwrap().is_suffix_of(trim(decode_utf8(stdout))),
        !user_sid_of(stdout).unwrap().contains('\n'),
{
    let t = trim(decode_utf8(stdout));
    let sid = user_sid_of(stdout).unwrap();
    lemma_line_start(t, t.len() as int);
    assert(sid =~= t.subrange(t.len() - sid.len(), t.len() as int));
    assert(!sid.contains('\n')) by {
        if sid.contains('\n') {
            let x = choose|x: int| 0 <= x < sid.len() && sid[x] == '\n';
            assert(t[line_start(t, t.len() as int) + x] == '\n');
        }
    }
}

/// A backslash of `t` after which no newline follows.
pub open spec fn backslash_on_last_line(t: Seq<char>, i: int) -> bool {
    0 <= i < t.len() && t[i] == '\\' && forall|j: int| i < j < t.len() ==> t[j] != '\n'
}

/// The session's user is found exactly when the output is UTF-8 and its
/// trimmed text has a backslash with no newline after it. The domain, a
/// backslash and the user then make up the whole end of that text after its
/// last newline (or all of it), and the domain holds no backslash.
pub proof fn lemma_session_user_found(stdout: Seq<u8>)
    ensures
        session_user_of(stdout) is Some <==> (valid_utf8(stdout) && exists|i: int|
            backslash_on_last_line(trim(decode_utf8(stdout)), i)),
        session_user_of(stdout) is Some ==> ({
            let (d, u) = session_user_of(stdout).unwrap();
            let t = trim(decode_utf8(stdout));
            let w = d + seq!['\\'] + u;
            &&& w.len() <= t.len()
            &&& w == t.subrange(t.len() - w.len(), t.len() as int)
            &&& !w.contains('\n')
            &&& (w.len() == t.len() || t[t.len() - w.len() - 1] == '\n')
            &&& !d.contains('\\')
        }),
{
    if valid_utf8(stdout) {
        let t = trim(decode_utf8(stdout));
        let ls = line_start(t, t.len() as int);
        lemma_line_start(t, t.len() as int);
        let line = last_line(t);
        assert(line == t.subrange(ls, t.len() as int));
        lemma_find_from(line, '\\', 0);
        let k = find_from(line, '\\', 0);
        if exists|i: int| backslash_on_last_line(t, i) {
            let i = choose|i: int| backslash_on_last_line(t, i);
            if i < ls {
                assert(t[ls - 1] == '\n');
                assert(ls - 1 != i);
                assert(false);
            }
            assert(line[i - ls] == '\\');
            assert(k <= i - ls);
            assert(t.len() > 0);
        }
        if session_user_of(stdout) is Some {
            assert(k < line.len());
            assert(backslash_on_last_line(t, ls + k)) by {
                assert(t[ls + k] == line[k]);
                assert forall|j: int| ls + k < j < t.len() implies t[j] != '\n' by {
                    assert(t[j] == line[j - ls]);
                }
            }
            lemma_session_user_parts(stdout);
            let (d, u) = session_user_of(stdout).unwrap();
            assert(d + seq!['\\'] + u == line);
        }
    }
}

/// The SID is found exactly when the output is UTF-8 and not blank once
/// trimmed; it is then the end of the trimmed text after its last newline
/// (or all of it), and holds no newline.
pub proof fn lemma_user_sid_found(stdout: Seq<u8>)
    ensures
        user_sid_of(stdout) is Some <==> (valid_utf8(stdout) && trim(decode_utf8(stdout)).len() > 0),
        user_sid_of(stdout) is Some ==> ({
            let sid = user_sid_of(stdout).unwrap();
            let t = trim(decode_utf8(stdout));
            &&& sid.len() <= t.len()
            &&& sid == t.subrange(t.len() - sid.len(), t.len() as int)
            &&& !sid.contains('\n')
            &&& (sid.len() == t.len() || t[t.len() - sid.len() - 1] == '\n')
        }),
{
    if user_sid_of(stdout) is Some {
        let t = trim(decode_utf8(stdout));
        lemma_line_start(t, t.len() as int);
        lemma_user_sid_is_last_line(stdout);
    }
}

/// `NetUserSetInfo` succeeded exactly when it answered 0; status 2221
/// (`NERR_UserNotFound`) means the account does not exist; any other status
/// is reported as a failure of the field being changed, with that status.
pub proof fn lemma_net_user_outcomes(field: AccountField, status: u32)
    ensures
        net_user_result(field, status) is Ok <==> status == 0,
        status == 2221 ==> net_user_result(field, status) == Err::<(), AmectError>(
            AmectError::UserNotFound,
        ),
        status != 0 && status != 2221 ==> net_user_result(field, status) == Err::<(), AmectError>(
            AmectError::NetUserFailed { field, status },
        ),
{
}

} // verus!

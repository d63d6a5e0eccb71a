//! The library's errors and the messages the tool reports for them.
use vstd::prelude::*;

use crate::text::{concat2, decimal, decimal_string};

verus! {

/// Which account attribute a `NetUserSetInfo` call changes.
#[derive(Clone, Copy, Debug, PartialEq, Eq)]
pub enum AccountField {
    Username,
    Password,
}

/// Everything that can go wrong in the tool's operations.
#[derive(Clone, Debug, PartialEq, Eq)]
pub enum AmectError {
    /// `NetUserSetInfo` answered `NERR_UserNotFound`.
    UserNotFound,
    /// `NetUserSetInfo` answered another failure status.
    NetUserFailed { field: AccountField, status: u32 },
    /// A name or password holds a nul value at this UTF-16 position.
    ContainsNul(usize),
    /// A command printed something that is not UTF-8; the description of
    /// the first invalid sequence.
    NotUtf8(String),
    /// `WMIC ... rename` exited unsuccessfully with this status.
    RenameFailed(String),
    /// `NET user` exited unsuccessfully.
    NetPasswordFailed { username: String, status: String },
    /// `NET localgroup administrators` exited unsuccessfully.
    ElevationFailed { username: String, status: String },
    /// `takeown` / `icacls` failed on one of the stock lock screen images.
    ImageOwnership,
    /// `takeown` / `icacls` failed on a directory.
    DirectoryOwnership,
    /// The autologon helper failed while enabling autologon.
    EnableAutologon,
    /// The autologon helper failed while disabling autologon.
    DisableAutologon,
    /// The account of the interactive session could not be determined.
    SessionUserUnknown,
    /// The account running the tool could not be determined.
    UsernameUnknown,
    /// An operation of the system failed with this description.
    Io(String),
    /// The chosen image's file extension names no image format.
    UnknownImageFormat,
    /// The image could not be decoded or encoded; the description.
    Image(String),
}

/// The text reported for a failed `NetUserSetInfo` call.
pub open spec fn net_user_failure_text(field: AccountField, status: u32) -> Seq<char> {
    match field {
        AccountField::Username => "failed to set username; "@ + decimal(status as nat),
        AccountField::Password => "failed to set password; "@ + decimal(status as nat),
    }
}

impl AmectError {
    /// The message the tool prints for this error.
    pub open spec fn text(self) -> Seq<char> {
        match self {
            AmectError::UserNotFound => "username not found"@,
            AmectError::NetUserFailed { field, status } => net_user_failure_text(field, status),
            AmectError::ContainsNul(p) => "invalid nul value found at position "@ + decimal(
                p as nat,
            ),
            AmectError::NotUtf8(m) => m@,
            AmectError::RenameFailed(status) => "failed to set username; "@ + status@,
            AmectError::NetPasswordFailed { username, status } => "failed to set password for "@
                + username@ + "; "@ + status@,
            AmectError::ElevationFailed { username, status } => "failed to set permissions for "@
                + username@ + "; "@ + status@,
            AmectError::ImageOwnership => "failed to take ownership of old images"@,
            AmectError::DirectoryOwnership => "failed to take ownership of directory"@,
            AmectError::EnableAutologon => "failed to enable autologon"@,
            AmectError::DisableAutologon => "failed to disable autologon"@,
            AmectError::SessionUserUnknown =>
                "failed to retrieve username, it's likely that username has been recently modified. Please try again after a relogin."@,
            AmectError::UsernameUnknown => "failed to retrieve username"@,
            AmectError::Io(m) => m@,
            AmectError::UnknownImageFormat => "The image format could not be determined"@,
            AmectError::Image(m) => m@,
        }
    }

    /// A copy of this error.
    pub fn duplicate(&self) -> (r: AmectError)
        ensures
            r == *self,
    {
        match self {
            AmectError::UserNotFound => AmectError::UserNotFound,
            AmectError::NetUserFailed { field, status } => AmectError::NetUserFailed {
                field: *field,
                status: *status,
            },
            AmectError::ContainsNul(p) => AmectError::ContainsNul(*p),
            AmectError::NotUtf8(m) => AmectError::NotUtf8(m.clone()),
            AmectError::RenameFailed(s) => AmectError::RenameFailed(s.clone()),
            AmectError::NetPasswordFailed { username, status } => AmectError::NetPasswordFailed {
                username: username.clone(),
                status: status.clone(),
            },
            AmectError::ElevationFailed { username, status } => AmectError::ElevationFailed {
                username: username.clone(),
                status: status.clone(),
            },
            AmectError::ImageOwnership => AmectError::ImageOwnership,
            AmectError::DirectoryOwnership => AmectError::DirectoryOwnership,
            AmectError::EnableAutologon => AmectError::EnableAutologon,
            AmectError::DisableAutologon => AmectError::DisableAutologon,
            AmectError::SessionUserUnknown => AmectError::SessionUserUnknown,
            AmectError::UsernameUnknown => AmectError::UsernameUnknown,
            AmectError::Io(m) => AmectError::Io(m.clone()),
            AmectError::UnknownImageFormat => AmectError::UnknownImageFormat,
            AmectError::Image(m) => AmectError::Image(m.clone()),
        }
    }

    /// The message the tool prints for this error.
    pub fn message(&self) -> (r: String)
        ensures
            r@ == self.text(),
    {
        match self {
            AmectError::UserNotFound => String::from_str("username not found"),
            AmectError::NetUserFailed { field, status } => {
                let head = match field {
                    AccountField::Username => "failed to set username; ",
                    AccountField::Password => "failed to set password; ",
                };
                let n = decimal_string(*status as u64);
                concat2(head, n.as_str())
            },
            AmectError::ContainsNul(p) => {
                let n = decimal_string(*p as u64);
                concat2("invalid nul value found at position ", n.as_str())
            },
            AmectError::NotUtf8(m) => m.clone(),
            AmectError::RenameFailed(status) => concat2(
                "failed to set username; ",
                status.as_str(),
            ),
            AmectError::NetPasswordFailed { username, status } => {
                let mut s = String::from_str("failed to set password for ");
                s.append(username.as_str());
                s.append("; ");
                s.append(status.as_str());
                s
            },
            AmectError::ElevationFailed { username, status } => {
                let mut s = String::from_str("failed to set permissions for ");
                s.append(username.as_str());
                s.append("; ");
                s.append(status.as_str());
                s
            },
            AmectError::ImageOwnership => String::from_str("failed to take ownership of old images"),
            AmectError::DirectoryOwnership => String::from_str(
                "failed to take ownership of directory",
            ),
            AmectError::EnableAutologon => String::from_str("failed to enable autologon"),
            AmectError::DisableAutologon => String::from_str("failed to disable autologon"),
            AmectError::SessionUserUnknown => String::from_str(
                "failed to retrieve username, it's likely that username has been recently modified. Please try again after a relogin.",
            ),
            AmectError::UsernameUnknown => String::from_str("failed to retrieve username"),
            AmectError::Io(m) => m.clone(),
            AmectError::UnknownImageFormat => String::from_str(
                "The image format could not be determined",
            ),
            AmectError::Image(m) => m.clone(),
        }
    }
}

} // verus!

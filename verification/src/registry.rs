//! Edits of the Windows registry, described as values.
use vstd::prelude::*;

verus! {

/// A predefined registry root.
#[derive(Clone, Copy, Debug, PartialEq, Eq)]
pub enum Hive {
    /// `HKEY_LOCAL_MACHINE`
    LocalMachine,
    /// `HKEY_USERS`
    Users,
}

/// One change of the registry. The first three create `key` (and its
/// parents) when it is missing before they act on its value `name`.
#[derive(Clone, Debug, PartialEq, Eq)]
pub enum RegistryEdit {
    /// Store the `REG_DWORD` `value`.
    SetDword { hive: Hive, key: String, name: String, value: u32 },
    /// Store the `REG_SZ` `value`.
    SetString { hive: Hive, key: String, name: String, value: String },
    /// Delete the value `name`.
    DeleteValue { hive: Hive, key: String, name: String },
    /// Delete `key` with everything below it; a missing key is no failure.
    DeleteTree { hive: Hive, key: String },
}

} // verus!

//! Files the tool carries inside itself and unpacks into its cache directory.
use vstd::prelude::*;

verus! {

/// The payloads embedded in the program.
pub struct EmbeddedResources<'a> {
    /// The autologon helper executable.
    pub auto_logon: &'a [u8],
}

/// A file embedded in the program.
#[derive(Clone, Copy, Debug, PartialEq, Eq)]
pub enum CacheEmbedded {
    /// The autologon helper.
    AutoLogon,
}

impl CacheEmbedded {
    /// The name of the file in the cache directory.
    pub open spec fn name(self) -> Seq<char> {
        match self {
            CacheEmbedded::AutoLogon => "autologin.exe"@,
        }
    }

    /// The name of the file in the cache directory.
    pub fn file_name(&self) -> (r: String)
        ensures
            r@ == self.name(),
    {
        match self {
            CacheEmbedded::AutoLogon => String::from_str("autologin.exe"),
        }
    }

    /// Whether a cache directory entry named `entry_name` (as text) is this file.
    pub fn is_cached_as(&self, entry_name: &str) -> (r: bool)
        ensures
            r == (entry_name@ == self.name()),
    {
        let name = self.file_name();
        String::from_str(entry_name) == name
    }

    /// Index of the first cache directory entry that is this file, given
    /// the entries' names as text in the order they were listed.
    pub fn find_cached(&self, names: &Vec<String>) -> (r: Option<usize>)
        ensures
            match r {
                Some(i) => {
                    &&& i < names@.len()
                    &&& names@[i as int]@ == self.name()
                    &&& forall|j: int| 0 <= j < i ==> names@[j]@ != self.name()
                },
                None => forall|j: int| 0 <= j < names@.len() ==> names@[j]@ != self.name(),
            },
    {
        let mut i: usize = 0;
        while i < names.len()
            invariant
                i <= names@.len(),
                forall|j: int| 0 <= j < i ==> names@[j]@ != self.name(),
            decreases names@.len() - i,
        {
            if self.is_cached_as(names[i].as_str()) {
                return Some(i);
            }
            i = i + 1;
        }
        None
    }

    /// The bytes of the embedded file.
    pub fn get_item<'a>(self, resources: &EmbeddedResources<'a>) -> (r: &'a [u8])
        ensures
            self == CacheEmbedded::AutoLogon ==> r@ == resources.auto_logon@,
    {
        match self {
            CacheEmbedded::AutoLogon => resources.auto_logon,
        }
    }
}

} // verus!

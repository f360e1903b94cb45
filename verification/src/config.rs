//! The profile store: named backend profiles and the optional current
//! one. Loading and persisting the store is the caller's concern; this
//! module holds resolution and mutation with their contracts.

use vstd::prelude::*;

use crate::error::UploadError;
use crate::text::str_eq;

verus! {

/// One named backend configuration: the backend scheme, the public base
/// URL, an optional remote-path template, and backend-specific options,
/// opaque to this core, as key/value pairs.
#[derive(Clone)]
pub struct Profile {
    pub scheme: String,
    pub base_url: String,
    pub filename_format: Option<String>,
    pub options: Vec<(String, String)>,
}

/// The profile store: profiles by name, and the name of the current one,
/// which may be stale (resolution, not loading, rejects it).
pub struct Config {
    pub current_profile: Option<String>,
    pub profiles: Vec<(String, Profile)>,
}

/// First profile entry named `name`, if any.
pub open spec fn spec_lookup(entries: Seq<(String, Profile)>, name: Seq<char>) -> Option<Profile>
    decreases entries.len(),
{
    if entries.len() == 0 {
        None
    } else if entries[0].0@ == name {
        Some(entries[0].1)
    } else {
        spec_lookup(entries.skip(1), name)
    }
}

fn lookup_index(profiles: &Vec<(String, Profile)>, name: &str) -> (r: Option<usize>)
    ensures
        match r {
            Some(i) => i < profiles@.len() && profiles@[i as int].0@ == name@ && spec_lookup(
                profiles@,
                name@,
            ) == Some(profiles@[i as int].1),
            None => spec_lookup(profiles@, name@) is None,
        },
{
    let n = profiles.len();
    let mut i: usize = 0;
    proof {
        assert(profiles@.skip(0) =~= profiles@);
    }
    while i < n
        invariant
            n == profiles@.len(),
            i <= n,
            spec_lookup(profiles@.skip(i as int), name@) == spec_lookup(profiles@, name@),
        decreases n - i,
    {
        proof {
            assert(profiles@.skip(i as int)[0] == profiles@[i as int]);
            assert(profiles@.skip(i as int).skip(1) =~= profiles@.skip(i as int + 1));
        }
        if str_eq(profiles[i].0.as_str(), name) {
            return Some(i);
        }
        i = i + 1;
    }
    proof {
        assert(profiles@.skip(n as int) =~= Seq::<(String, Profile)>::empty());
    }
    None
}

impl Default for Config {
    /// An empty store: no profiles, no current profile.
    fn default() -> (r: Self)
        ensures
            r.current_profile is None,
            r.profiles@.len() == 0,
    {
        Config { current_profile: None, profiles: Vec::new() }
    }
}

impl Config {
    /// Resolves a profile: by the explicit name when one is given,
    /// otherwise by the current profile. Fails with `NoProfileSelected`
    /// when neither is available, and with `ProfileNotFound` when the
    /// resolved name is absent.
    pub fn get_profile<'a>(&'a self, name: Option<&str>) -> (r: Result<&'a Profile, UploadError>)
        ensures
            match name {
                Some(n) => match spec_lookup(self.profiles@, n@) {
                    Some(p) => r matches Ok(q) && *q == p,
                    None => r matches Err(UploadError::ProfileNotFound(m)) && m@ == n@,
                },
                None => match self.current_profile {
                    Some(c) => match spec_lookup(self.profiles@, c@) {
                        Some(p) => r matches Ok(q) && *q == p,
                        None => r matches Err(UploadError::ProfileNotFound(m)) && m@ == c@,
                    },
                    None => r matches Err(UploadError::NoProfileSelected),
                },
            },
    {
        let profile_name: &str = match name {
            Some(n) => n,
            None => match &self.current_profile {
                Some(c) => c.as_str(),
                None => {
                    return Err(UploadError::NoProfileSelected);
                },
            },
        };
        match lookup_index(&self.profiles, profile_name) {
            Some(i) => Ok(&self.profiles[i].1),
            None => Err(UploadError::ProfileNotFound(String::from_str(profile_name))),
        }
    }

    /// Makes `name` the current profile, or fails with `ProfileNotFound`
    /// and leaves the store unchanged when no profile has that name.
    /// Persisting the change is the caller's concern.
    pub fn set_current_profile(&mut self, name: &str) -> (r: Result<(), UploadError>)
        ensures
            spec_lookup(old(self).profiles@, name@) is Some ==> r is Ok
                && final(self).profiles == old(self).profiles
                && (final(self).current_profile matches Some(c) && c@ == name@),
            spec_lookup(old(self).profiles@, name@) is None ==> (r matches Err(
                UploadError::ProfileNotFound(m),
            ) && m@ == name@) && *final(self) == *old(self),
    {
        match lookup_index(&self.profiles, name) {
            Some(_) => {
                self.current_profile = Some(String::from_str(name));
                Ok(())
            },
            None => Err(UploadError::ProfileNotFound(String::from_str(name))),
        }
    }

    /// `name` names the current profile.
    pub open spec fn spec_is_current(&self, name: Seq<char>) -> bool {
        match self.current_profile {
            Some(c) => c@ == name,
            None => false,
        }
    }

    /// Every configured profile name, each marked as current or not.
    /// The order carries no meaning; entries come as stored.
    pub fn list(&self) -> (r: Vec<(String, bool)>)
        ensures
            r@.len() == self.profiles@.len(),
            forall|i: int| 0 <= i < r@.len() ==> r@[i].0@ == self.profiles@[i].0@ && r@[i].1
                == self.spec_is_current(self.profiles@[i].0@),
    {
        let n = self.profiles.len();
        let mut r: Vec<(String, bool)> = Vec::new();
        let mut i: usize = 0;
        while i < n
            invariant
                n == self.profiles@.len(),
                i <= n,
                r@.len() == i,
                forall|j: int| 0 <= j < i ==> r@[j].0@ == self.profiles@[j].0@ && r@[j].1
                    == self.spec_is_current(self.profiles@[j].0@),
            decreases n - i,
        {
            let entry_name = self.profiles[i].0.clone();
            let is_current = match &self.current_profile {
                Some(c) => str_eq(c.as_str(), entry_name.as_str()),
                None => false,
            };
            r.push((entry_name, is_current));
            i = i + 1;
        }
        r
    }
}

} // verus!

use crate::address::{authorized, is_authorized, Address};
use vstd::prelude::*;

verus! {

/// One registered user.
pub struct UserProfile {
    pub username: String,
    pub age: u32,
    pub address: Address,
}

/// What a profile holds, as plain values.
pub struct ProfileView {
    pub username: Seq<char>,
    pub age: u32,
    pub address: Address,
}

impl View for UserProfile {
    type V = ProfileView;

    open spec fn view(&self) -> ProfileView {
        ProfileView { username: self.username@, age: self.age, address: self.address }
    }
}

/// The views of a list of profiles.
pub open spec fn profiles_view(v: Seq<UserProfile>) -> Seq<ProfileView> {
    v.map_values(|p: UserProfile| p@)
}

impl UserProfile {
    pub fn new(username: String, age: u32, address: Address) -> (r: UserProfile)
        ensures
            r.username@ == username@,
            r.age == age,
            r.address == address,
    {
        UserProfile { username, age, address }
    }

    /// A profile with the same fields.
    pub fn duplicate(&self) -> (r: UserProfile)
        ensures
            r@ == self@,
    {
        UserProfile { username: self.username.clone(), age: self.age, address: self.address }
    }
}

/// Why a profile was not registered.
#[derive(Clone, Copy, Debug, PartialEq, Eq, Structural)]
pub enum AccountingError {
    /// The invocation lacks the user's authorization.
    Unauthorized,
}

/// A registry of user profiles, in order of registration, with the latest
/// one kept apart.
pub struct AccountingContract {
    latest: Option<UserProfile>,
    all: Option<Vec<UserProfile>>,
}

impl AccountingContract {
    /// The latest profile, if any.
    pub closed spec fn latest_view(&self) -> Option<ProfileView> {
        match self.latest {
            Some(p) => Some(p@),
            None => None,
        }
    }

    /// All profiles, if any was registered.
    pub closed spec fn all_view(&self) -> Option<Seq<ProfileView>> {
        match self.all {
            Some(v) => Some(profiles_view(v@)),
            None => None,
        }
    }

    pub fn new() -> (r: AccountingContract)
        ensures
            r.latest_view() is None,
            r.all_view() is None,
    {
        AccountingContract { latest: None, all: None }
    }

    /// Registers a profile of `address`, which must have authorized this
    /// invocation (`auths` lists who did). It is appended to the list and
    /// becomes the latest.
    pub fn set_user_profile(
        &mut self,
        auths: &Vec<Address>,
        username: String,
        age: u32,
        address: Address,
    ) -> (r: Result<(), AccountingError>)
        ensures
            r is Ok <==> authorized(auths@, address),
            r is Err ==> final(self).latest_view() == old(self).latest_view(),
            r is Err ==> final(self).all_view() == old(self).all_view(),
            ({
                let p = ProfileView { username: username@, age, address };
                r is Ok ==> final(self).latest_view() == Some(p) && final(self).all_view() == Some(
                    match old(self).all_view() {
                        Some(v) => v.push(p),
                        None => seq![p],
                    },
                )
            }),
    {
        if !is_authorized(auths, address) {
            return Err(AccountingError::Unauthorized);
        }
        let profile = UserProfile { username, age, address };
        let mut profiles = match self.all.take() {
            Some(v) => v,
            None => Vec::new(),
        };
        profiles.push(profile.duplicate());
        self.all = Some(profiles);
        self.latest = Some(profile);
        Ok(())
    }

    /// The latest registered profile.
    pub fn return_latest_user(&self) -> (r: Option<UserProfile>)
        ensures
            match r {
                Some(p) => self.latest_view() == Some(p@),
                None => self.latest_view() is None,
            },
    {
        match &self.latest {
            Some(p) => Some(p.duplicate()),
            None => None,
        }
    }

    /// Every registered profile, in order of registration.
    pub fn return_all_users(&self) -> (r: Option<Vec<UserProfile>>)
        ensures
            match r {
                Some(v) => self.all_view() == Some(profiles_view(v@)),
                None => self.all_view() is None,
            },
    {
        match &self.all {
            Some(v) => {
                let mut out: Vec<UserProfile> = Vec::new();
                let mut i: usize = 0;
                while i < v.len()
                    invariant
                        i <= v@.len(),
                        out@.len() == i,
                        forall|j: int| 0 <= j < i ==> #[trigger] out@[j]@ == v@[j]@,
                    decreases v@.len() - i,
                {
                    out.push(v[i].duplicate());
                    i = i + 1;
                }
                assert(profiles_view(out@) =~= profiles_view(v@));
                Some(out)
            },
            None => None,
        }
    }
}

} // verus!

use crate::domain::data_stores::UserStore;
use crate::domain::data_stores::UserStoreError;
use crate::domain::email::Email;
use crate::domain::password::Password;
use crate::domain::user::User;
use crate::domain::user::UserView;
use vstd::hash_map::StringHashMap;
use vstd::prelude::*;

verus! {

/// A directory in memory: one identity per address, the credential kept as
/// it was handed in and compared by value.
pub struct HashmapUserStore {
    users: StringHashMap<User>,
}

impl HashmapUserStore {
    /// An empty directory.
    pub fn new() -> (store: HashmapUserStore)
        ensures
            store.users() == Map::<Seq<char>, UserView>::empty(),
    {
        let store = HashmapUserStore { users: StringHashMap::new() };
        assert(store.users() =~= Map::<Seq<char>, UserView>::empty());
        store
    }
}

impl Default for HashmapUserStore {
    fn default() -> (store: HashmapUserStore)
        ensures
            store.users() == Map::<Seq<char>, UserView>::empty(),
    {
        HashmapUserStore::new()
    }
}

impl UserStore for HashmapUserStore {
    closed spec fn users(&self) -> Map<Seq<char>, UserView> {
        Map::new(
            |k: Seq<char>| self.users@.contains_key(k),
            |k: Seq<char>|
                UserView {
                    email: k,
                    password: self.users@[k].password@,
                    requires_2fa: self.users@[k].requires_2fa,
                },
        )
    }

    open spec fn admits(stored: Seq<char>, candidate: Seq<char>) -> bool {
        stored == candidate
    }

    open spec fn dependable() -> bool {
        true
    }

    /// Adds the identity unless its address is taken; the stored identity is
    /// the one handed in.
    fn add_user(&mut self, user: User) -> (r: Result<(), UserStoreError>)
        ensures
            r is Ok <==> !old(self).users().contains_key(user@.email),
            r is Ok ==> final(self).users() == old(self).users().insert(user@.email, user@),
            r is Err ==> r == Err::<(), UserStoreError>(UserStoreError::UserAlreadyExists),
    {
        if self.users.contains_key(user.email.as_ref().as_str()) {
            return Err(UserStoreError::UserAlreadyExists);
        }
        let key = user.email.as_ref().clone();
        let ghost view = user@;
        self.users.insert(key, user);
        assert(self.users() =~= old(self).users().insert(view.email, view));
        Ok(())
    }

    fn get_user(&self, email: &Email) -> (r: Result<User, UserStoreError>) {
        match self.users.get(email.as_ref().as_str()) {
            Some(user) => Ok(User::new(email.clone(), user.password.clone(), user.requires_2fa)),
            None => Err(UserStoreError::UserNotFound),
        }
    }

    fn validate_user(&self, email: &Email, password: &Password) -> (r: Result<(), UserStoreError>) {
        match self.users.get(email.as_ref().as_str()) {
            Some(user) => {
                if user.password.eq(password) {
                    Ok(())
                } else {
                    Err(UserStoreError::InvalidCredentials)
                }
            },
            None => Err(UserStoreError::UserNotFound),
        }
    }
}

} // verus!

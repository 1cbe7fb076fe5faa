//! Seeds the user store with its first user.

use crate::password::{hash_matches, hash_parses, prepare_password};
use crate::user::{NewUser, StoreError, UserStore};
use vstd::prelude::*;

verus! {

/// Creates the well-known first user when the store is still empty.
pub struct UserSeeder;

impl UserSeeder {
    /// Inserts the seed user into an empty store; a store that already
    /// holds records is left as it is.
    pub fn execute(store: &mut UserStore) -> (r: Result<(), StoreError>)
        requires
            old(store).wf(),
        ensures
            final(store).wf(),
            old(store)@.len() > 0 ==> r is Ok && *final(store) == *old(store),
            old(store)@.len() == 0 && old(store).at_capacity() ==> r == Err::<
                (),
                StoreError,
            >(StoreError::CapacityExhausted) && *final(store) == *old(store),
            old(store)@.len() == 0 && !old(store).at_capacity() ==> {
                &&& r is Ok
                &&& final(store)@.len() == 1
                &&& final(store).spec_find_by_email("jekyll@example.com"@) == Some(
                    final(store)@[0],
                )
                &&& final(store)@[0].name@ == "Jekyll"@
                &&& final(store)@[0].email@ == "jekyll@example.com"@
                &&& hash_parses(final(store)@[0].password@)
                &&& hash_matches("password"@, final(store)@[0].password@)
            },
    {
        if store.len() > 0 {
            return Ok(());
        }
        proof {
            reveal_strlit("password");
        }
        let hashed = prepare_password("password");
        let inserted = store.insert(
            NewUser { name: "Jekyll", email: "jekyll@example.com", password: hashed.as_str() },
        );
        match inserted {
            Ok(_) => Ok(()),
            Err(e) => Err(e),
        }
    }
}

} // verus!

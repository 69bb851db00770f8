//! The per-connection login state: who the caller is, and whether a
//! password check has succeeded for them.
use vstd::prelude::*;

verus! {

pub struct Login {
    pub email: String,
    pub is_authenticated: bool,
}

impl Login {
    /// A fresh, unauthenticated session.
    pub fn new() -> (r: Login)
        ensures
            !r.is_authenticated,
            r.email@.len() == 0,
    {
        Login { email: String::new(), is_authenticated: false }
    }

    /// Marks the session as authenticated as `email`. Calling it again with
    /// the same identity changes nothing.
    pub fn authenticate(&mut self, email: String)
        ensures
            final(self).is_authenticated,
            final(self).email == email,
    {
        self.email = email;
        self.is_authenticated = true;
    }

    pub fn is_authenticated(&self) -> (r: bool)
        ensures
            r == self.is_authenticated,
    {
        self.is_authenticated
    }
}

} // verus!

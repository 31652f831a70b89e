//! The authorization-relevant state of one live connection: its role list.
//!
//! A connection is created with no roles. A successful authorization step
//! assigns the whole list at once; assigning again replaces the list (last
//! write wins), so the operation is idempotent for a repeated step.

use vstd::prelude::*;

verus! {

/// The role list of one live connection. Roles gate which RPC methods the
/// connection may invoke after authorization.
#[derive(Debug)]
pub struct Connection {
    roles: Option<Vec<u32>>,
}

impl Connection {
    /// The assigned role list, or nothing before any authorization step.
    pub closed spec fn spec_roles(&self) -> Option<Seq<u32>> {
        match self.roles {
            Option::None => Option::None,
            Option::Some(ref r) => Option::Some(r@),
        }
    }

    /// Creates a connection with no roles assigned.
    pub fn new() -> (r: Self)
        ensures
            r.spec_roles() is None,
    {
        Connection { roles: None }
    }

    /// Assigns the connection's role list, replacing any prior list.
    pub fn set_roles(&mut self, roles: Vec<u32>)
        ensures
            final(self).spec_roles() == Some(roles@),
    {
        self.roles = Some(roles);
    }

    /// The assigned role list, or nothing before any authorization step.
    pub fn roles(&self) -> (r: &Option<Vec<u32>>)
        ensures
            match r {
                Option::None => self.spec_roles() is None,
                Option::Some(v) => self.spec_roles() == Some(v@),
            },
    {
        &self.roles
    }
}

} // verus!

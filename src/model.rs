//! Records kept by the persistence collaborator.
use vstd::prelude::*;

verus! {

/// A user account, as far as the bridge and the account routes read it.
#[derive(Debug, Clone, PartialEq, Eq)]
pub struct User {
    pub user_id: [u8; 16],
    pub username: String,
    /// The password hash in PHC string form.
    pub password: String,
    pub email: String,
}

/// A registered camera.
#[derive(Debug, Clone, Copy, PartialEq, Eq)]
pub struct Device {
    pub device_id: [u8; 16],
    pub mac_address: [u8; 6],
    pub auth_key: [u8; 16],
    pub registration_first_stage: bool,
    pub user_id: [u8; 16],
}

} // verus!

//! Network-tunnel credentials and handle. The engine assumes the tunnel is
//! already up before any session work begins; `connect` only reports the
//! local endpoint the tunnel exposes.

use vstd::prelude::*;

verus! {

/// Credentials for the network tunnel, with a preferred exit zone.
pub struct VpnCredentials {
    pub email: String,
    pub password: String,
    pub preferred_zone: String,
}

impl VpnCredentials {
    /// Builds credentials; the preferred zone always starts out as `"FR"`.
    pub fn new(email: String, password: String) -> (c: VpnCredentials)
        ensures
            c.email@ == email@,
            c.password@ == password@,
            c.preferred_zone@ == "FR"@,
    {
        VpnCredentials { email, password, preferred_zone: "FR".to_owned() }
    }
}

/// Handle on the network tunnel.
pub struct Vpn {
    pub credentials: VpnCredentials,
}

impl Vpn {
    /// Wraps the credentials into a tunnel handle; construction cannot fail.
    pub fn new(credentials: VpnCredentials) -> (r: Result<Vpn, String>)
        ensures
            r is Ok,
            r.unwrap().credentials == credentials,
    {
        Ok(Vpn { credentials })
    }

    /// Reports the local endpoint of the tunnel. The tunnel itself is an
    /// external collaborator that is assumed to be up already, so this
    /// always answers with the loopback address.
    pub fn connect(&self) -> (r: Result<String, String>)
        ensures
            r is Ok,
            r.unwrap()@ == "127.0.0.1"@,
    {
        Ok("127.0.0.1".to_owned())
    }
}

} // verus!

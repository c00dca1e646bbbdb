//! Mail, and the server that it is sent through.
use vstd::prelude::*;

verus! {

/// A mail server.
pub struct SmtpServerConfig {
    pub host: String,
    pub port: Option<u16>,
    pub username: String,
    pub password: String,
    pub from_address: String,
    pub use_tls: bool,
}

impl Clone for SmtpServerConfig {
    fn clone(&self) -> (r: SmtpServerConfig)
        ensures
            r == *self,
    {
        SmtpServerConfig {
            host: self.host.clone(),
            port: self.port,
            username: self.username.clone(),
            password: self.password.clone(),
            from_address: self.from_address.clone(),
            use_tls: self.use_tls,
        }
    }
}

pub struct OutgoingEmail {
    pub to: String,
    pub subject: String,
    pub body_text: String,
}

} // verus!

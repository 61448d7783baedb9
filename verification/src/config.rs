//! The client configuration and the decisions made over it.
//!
//! Reading and writing the file is I/O and lives outside the library; what
//! is verified here is when the configuration counts as unconfigured (so
//! that gateway discovery runs) and when it is usable at all.

use vstd::prelude::*;
use vstd::string::*;

use crate::api::DialError;
use crate::text::{str_eq, str_trim, trim_spec};

verus! {

/// Contents of the client's configuration file.
#[derive(Debug, Clone, PartialEq)]
pub struct Config {
    /// Gateway HTTP base URL.
    pub server_url: String,
    /// Bearer token expected by the gateway.
    pub token: String,
    /// Bluetooth MAC to switch to call audio before every call, if set.
    pub bt_mac: Option<String>,
}

/// The factory-default URL written into a fresh configuration; as long as
/// it is still in place, gateway discovery runs instead of a connection.
pub fn placeholder_url() -> (r: &'static str)
    ensures
        r@ == "http://10.61.214.187:3000"@,
{
    "http://10.61.214.187:3000"
}

impl Config {
    /// The URL is blank or still the factory default, so the gateway must
    /// be discovered rather than contacted.
    pub fn is_placeholder(&self) -> (r: bool)
        ensures
            r == (trim_spec(self.server_url@).len() == 0 || self.server_url@
                == "http://10.61.214.187:3000"@),
    {
        str_trim(self.server_url.as_str()).unicode_len() == 0 || str_eq(
            self.server_url.as_str(),
            placeholder_url(),
        )
    }

    /// A usable configuration carries a non-blank token.
    pub fn validate(&self) -> (r: Result<(), DialError>)
        ensures
            r is Ok <==> trim_spec(self.token@).len() != 0,
            r matches Err(e) ==> e == DialError::Unauthorized,
    {
        if str_trim(self.token.as_str()).unicode_len() == 0 {
            Err(DialError::Unauthorized)
        } else {
            Ok(())
        }
    }
}

} // verus!

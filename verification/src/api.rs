//! Gateway API values and the decisions around them.
//!
//! The HTTP transport lives outside the library; what is verified here is
//! the validation of a phone number and the classification of the gateway's
//! responses into results and errors.

use vstd::prelude::*;
use vstd::string::*;

use crate::text::starts_with_seq;

verus! {

/// One device connected to the gateway.
#[derive(Debug, Clone, PartialEq)]
pub struct DeviceInfo {
    pub device_id: String,
    pub connected_at: String,
}

/// The gateway's answer to a device listing.
#[derive(Debug, Clone, PartialEq)]
pub struct DevicesResponse {
    pub count: u32,
    pub devices: Vec<DeviceInfo>,
}

/// The outcome of a successfully dispatched call command.
#[derive(Debug, Clone, PartialEq)]
pub struct CallResult {
    pub device_id: String,
    pub command_id: String,
}

/// Everything that can go wrong between the user and the gateway, as far as
/// the decisions themselves are concerned.  Transport-level failures are the
/// caller's to wrap.
#[derive(Debug, Clone, PartialEq)]
pub enum DialError {
    /// No configuration file exists at this path.
    ConfigNotFound { path: String },
    /// The number is not plausible telephone dialling input.
    InvalidPhoneNumber(String),
    /// The device identifier was empty.
    EmptyDeviceId,
    /// The gateway answered with an unexpected status.
    GatewayError { status: u16, body: String },
    /// The gateway does not know this device.
    DeviceOffline { device_id: String },
    /// The gateway rejected the configured token.
    Unauthorized,
    /// A Bluetooth step failed; carries a rendered description.
    Bluetooth(String),
}

/// The number without its optional leading `+`.
pub open spec fn phone_digits(number: Seq<char>) -> Seq<char> {
    if number.len() > 0 && number[0] == '+' {
        number.subrange(1, number.len() as int)
    } else {
        number
    }
}

/// Plausible dialling input: an optional `+`, then 7 to 15 digits.
pub open spec fn phone_valid(number: Seq<char>) -> bool {
    &&& 7 <= phone_digits(number).len() <= 15
    &&& forall|j: int|
        0 <= j < phone_digits(number).len() ==> crate::parse::is_digit_char(
            #[trigger] phone_digits(number)[j],
        )
}

/// Validate a phone number: an optional `+` followed by 7 to 15 digits.
pub fn validate_phone(number: &str) -> (r: Result<(), DialError>)
    ensures
        r is Ok <==> phone_valid(number@),
        r matches Err(e) ==> (e matches DialError::InvalidPhoneNumber(s) && s@ == number@),
{
    let n = number.unicode_len();
    let digits = if n > 0 && number.get_char(0) == '+' {
        number.substring_char(1, n)
    } else {
        number
    };
    let m = digits.unicode_len();
    if m < 7 || m > 15 {
        return Err(DialError::InvalidPhoneNumber(String::from_str(number)));
    }
    let mut i: usize = 0;
    while i < m
        invariant
            0 <= i <= m,
            m == digits@.len(),
            digits@ == phone_digits(number@),
            forall|j: int| 0 <= j < i ==> crate::parse::is_digit_char(#[trigger] digits@[j]),
        decreases m - i,
    {
        let c = digits.get_char(i);
        if !(c >= '0' && c <= '9') {
            return Err(DialError::InvalidPhoneNumber(String::from_str(number)));
        }
        i += 1;
    }
    Ok(())
}

/// Classify the gateway's answer to a call command.  A 200 yields the call
/// result, echoing the requested device when the gateway names none; 401
/// means the token was rejected; 404 means the device is offline; any other
/// status surfaces as a gateway error with the reported message, or a
/// generic one when the gateway gave none.
pub fn classify_call_response(
    status: u16,
    command_id: Option<String>,
    device_id: Option<String>,
    requested_device: &str,
    error_msg: Option<String>,
) -> (r: Result<CallResult, DialError>)
    ensures
        status == 200 ==> (r matches Ok(c) && c.device_id@ == (match device_id {
            Some(d) => d@,
            None => requested_device@,
        }) && c.command_id@ == (match command_id {
            Some(cm) => cm@,
            None => Seq::<char>::empty(),
        })),
        status == 401 ==> r == Err::<CallResult, DialError>(DialError::Unauthorized),
        status == 404 ==> (r matches Err(e) && e matches DialError::DeviceOffline { device_id: d }
            && d@ == requested_device@),
        !(status == 200 || status == 401 || status == 404) ==> (r matches Err(e) && e
            matches DialError::GatewayError { status: st, body } && st == status && body@ == (
        match error_msg {
            Some(m) => m@,
            None => "Unknown error"@,
        })),
{
    if status == 200 {
        let dev = match device_id {
            Some(d) => d,
            None => String::from_str(requested_device),
        };
        let cmd = match command_id {
            Some(c) => c,
            None => String::new(),
        };
        Ok(CallResult { device_id: dev, command_id: cmd })
    } else if status == 401 {
        Err(DialError::Unauthorized)
    } else if status == 404 {
        Err(DialError::DeviceOffline { device_id: String::from_str(requested_device) })
    } else {
        let body = match error_msg {
            Some(m) => m,
            None => String::from_str("Unknown error"),
        };
        Err(DialError::GatewayError { status, body })
    }
}

/// Classify the gateway's answer to a device listing or health probe: only
/// a 200 carries a usable body; 401 means the token was rejected; anything
/// else surfaces as a gateway error carrying the response text.
pub fn classify_devices_response(status: u16, body: String) -> (r: Result<(), DialError>)
    ensures
        status == 200 <==> r is Ok,
        status == 401 ==> r == Err::<(), DialError>(DialError::Unauthorized),
        !(status == 200 || status == 401) ==> (r matches Err(e)
            && e matches DialError::GatewayError { status: st, body: b } && st == status && b@
            == body@),
{
    if status == 200 {
        Ok(())
    } else if status == 401 {
        Err(DialError::Unauthorized)
    } else {
        Err(DialError::GatewayError { status, body })
    }
}

} // verus!

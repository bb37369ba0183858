//! Fox ESS Cloud API: request signatures and generic responses.

use vstd::prelude::*;
use vstd::string::StringExecFns;
use vstd::utf8::encode_utf8;

use crate::text::{decimal, decimal_text, hex, hex_text, lemma_hex_text_len};

verus! {

/// MD5 digest of the bytes, as `md5::compute` returns it.
pub uninterp spec fn md5_of(bytes: Seq<u8>) -> Seq<u8>;

/// Computes the MD5 digest of the bytes with `md5::compute`.
///
/// Claimed: the digest is a function of the bytes alone, named `md5_of`, 16 bytes long as
/// `md5::Digest` wraps `[u8; 16]`.
#[verifier::external_body]
fn md5_digest(bytes: &[u8]) -> (digest: [u8; 16])
    ensures
        digest@ == md5_of(bytes@),
{
    md5::compute(bytes).0
}

/// Milliseconds since the Unix epoch now, as `chrono::Utc::now().timestamp_millis()` reads
/// the system clock.
///
/// Nothing is claimed about the value: it depends on the clock.
#[verifier::external_body]
fn current_timestamp_millis() -> (timestamp: i64) {
    chrono::Utc::now().timestamp_millis()
}

/// The text that the Fox ESS Cloud signs: `/{path}\r\n{api key}\r\n{timestamp}`, where `\r\n`
/// stands for the four characters backslash, `r`, backslash, `n`.
pub open spec fn signature_message(api_key: Seq<char>, path: Seq<char>, timestamp: i64) -> Seq<
    char,
> {
    seq!['/'] + path + seq!['\\', 'r', '\\', 'n'] + api_key + seq!['\\', 'r', '\\', 'n']
        + decimal_text(timestamp as int)
}

/// Request timestamp and signature: the decimal timestamp in milliseconds and the lower-case
/// hexadecimal MD5 digest of the UTF-8 bytes of the signed text.
pub open spec fn spec_signature(api_key: Seq<char>, path: Seq<char>, timestamp: i64) -> (
    Seq<char>,
    Seq<char>,
) {
    let message: Seq<char> = signature_message(api_key, path, timestamp);
    (decimal_text(timestamp as int), hex_text(md5_of(encode_utf8(message))))
}

/// Build the request timestamp and signature for the path at the given moment.
pub fn build_signature(api_key: &str, path: &str, timestamp_millis: i64) -> (result: (
    String,
    String,
))
    ensures
        (result.0@, result.1@) == spec_signature(api_key@, path@, timestamp_millis),
        result.1@.len() == 32,
{
    let timestamp = decimal(timestamp_millis);
    let separator = "\\r\\n";
    proof {
        reveal_strlit("/");
        reveal_strlit("\\r\\n");
    }
    let mut message = String::from_str("/");
    message.append(path);
    message.append(separator);
    message.append(api_key);
    message.append(separator);
    message.append(timestamp.as_str());
    assert(message@ =~= signature_message(api_key@, path@, timestamp_millis));
    let digest = md5_digest(message.as_str().as_bytes());
    let signature = hex(&digest);
    proof {
        lemma_hex_text_len(digest@);
    }
    (timestamp, signature)
}

/// Build the request timestamp and signature for the path now.
pub fn sign_request(api_key: &str, path: &str) -> (result: (String, String))
    ensures
        exists|timestamp: i64|
            (result.0@, result.1@) == spec_signature(api_key@, path@, timestamp),
        result.1@.len() == 32,
{
    let timestamp = current_timestamp_millis();
    build_signature(api_key, path, timestamp)
}

/// Fox ESS Cloud client credentials.
#[derive(Clone, PartialEq, Eq, Debug)]
pub struct Client {
    pub api_key: String,
    pub serial_number: String,
}

impl Client {
    /// A client for the device with the serial number, authenticated by the API key.
    pub fn new(api_key: String, serial_number: String) -> (client: Client)
        ensures
            client.api_key == api_key,
            client.serial_number == serial_number,
    {
        Client { api_key, serial_number }
    }

    /// Build the request timestamp and signature for the path now.
    pub fn build_signature(&self, path: &str) -> (result: (String, String))
        ensures
            exists|timestamp: i64|
                (result.0@, result.1@) == spec_signature(self.api_key@, path@, timestamp),
            result.1@.len() == 32,
    {
        sign_request(self.api_key.as_str(), path)
    }
}

/// Generic Fox ESS Cloud response.
pub struct Response<R> {
    /// Error code: the request failed unless it is zero.
    pub error_code: i32,
    pub message: Option<String>,
    pub result: R,
}

/// Failed Fox ESS Cloud request.
#[derive(Clone, PartialEq, Eq, Debug)]
pub struct CloudError {
    pub error_code: i32,
    pub message: Option<String>,
}

impl<R> Response<R> {
    /// The result of a successful request, or the error of a failed one.
    pub fn into_result(self) -> (result: Result<R, CloudError>)
        ensures
            (self.error_code == 0) <==> result is Ok,
            result matches Ok(value) ==> value == self.result,
            result matches Err(error) ==> error.error_code == self.error_code && error.message
                == self.message,
    {
        if self.error_code == 0 {
            Ok(self.result)
        } else {
            Err(CloudError { error_code: self.error_code, message: self.message })
        }
    }
}

impl CloudError {
    /// Human-readable description: `FoxESS Cloud error {code} ("{message}")`, or without the
    /// parenthesised message when there is none.
    pub fn describe(&self) -> (text: String)
        ensures
            text@ == match self.message {
                Some(message) => "FoxESS Cloud error "@ + decimal_text(self.error_code as int)
                    + " (\""@ + message@ + "\")"@,
                None => "FoxESS Cloud error "@ + decimal_text(self.error_code as int),
            },
    {
        let mut text = String::from_str("FoxESS Cloud error ");
        let code = decimal(self.error_code as i64);
        text.append(code.as_str());
        match &self.message {
            Some(message) => {
                text.append(" (\"");
                text.append(message.as_str());
                text.append("\")");
            },
            None => {},
        }
        text
    }
}

} // verus!

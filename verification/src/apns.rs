//! The client-facing configuration: TLS credential paths, endpoint
//! selection, and the feedback entry point.
//!
//! Opening sockets, the TLS handshake and every read and write live in
//! the I/O shell around this library; the types here carry the
//! configuration and decode what the shell hands in.
use vstd::prelude::*;

use crate::feedback::{decode_feedback, spec_record_count, spec_record_time, spec_record_token};
use crate::identifier::spec_hex_str;

verus! {

/// The paths of the TLS credentials: client certificate, private key and
/// certificate authority, each a PEM file. The library only carries
/// them; the I/O shell reads the files when it opens a connection.
#[derive(Clone, Debug)]
pub struct Auth {
    /// Path of the client certificate file.
    pub cert: String,
    /// Path of the private key file.
    pub key: String,
    /// Path of the certificate authority file.
    pub ca: String,
}

impl Auth {
    /// Bundles the three credential paths. Whether the files exist and
    /// parse is the I/O shell's to check when it opens a connection.
    pub fn new(cert: String, key: String, ca: String) -> (r: Auth)
        ensures
            r.cert@ == cert@,
            r.key@ == key@,
            r.ca@ == ca@,
    {
        Auth { cert, key, ca }
    }
}

/// The client configuration: which environment to talk to and where the
/// TLS credential files lie.
pub struct APNS {
    /// True for the sandbox environment, false for production.
    pub sandbox: bool,
    /// Path of the client certificate file.
    pub certificate: String,
    /// Path of the private key file.
    pub private_key: String,
    /// Path of the certificate authority file.
    pub ca_certificate: String,
}

impl APNS {
    /// A client configuration from the environment flag and the three
    /// credential paths.
    pub fn new(sandbox: bool, cert_file: String, private_key_file: String, ca_file: String) -> (r:
        APNS)
        ensures
            r.sandbox == sandbox,
            r.certificate@ == cert_file@,
            r.private_key@ == private_key_file@,
            r.ca_certificate@ == ca_file@,
    {
        APNS { sandbox, certificate: cert_file, private_key: private_key_file, ca_certificate: ca_file }
    }

    /// The host and port of the notification gateway for the configured
    /// environment.
    pub fn gateway_endpoint(&self) -> (r: (String, u16))
        ensures
            self.sandbox ==> r.0@ == "gateway.sandbox.push.apple.com"@,
            !self.sandbox ==> r.0@ == "gateway.push.apple.com"@,
            r.1 == 2195,
    {
        if self.sandbox {
            ("gateway.sandbox.push.apple.com".to_owned(), 2195)
        } else {
            ("gateway.push.apple.com".to_owned(), 2195)
        }
    }

    /// The host and port of the feedback service for the configured
    /// environment.
    pub fn feedback_endpoint(&self) -> (r: (String, u16))
        ensures
            self.sandbox ==> r.0@ == "feedback.sandbox.push.apple.com"@,
            !self.sandbox ==> r.0@ == "feedback.push.apple.com"@,
            r.1 == 2196,
    {
        if self.sandbox {
            ("feedback.sandbox.push.apple.com".to_owned(), 2196)
        } else {
            ("feedback.push.apple.com".to_owned(), 2196)
        }
    }

    /// Decodes a feedback stream into its records, each a timestamp and
    /// the hexadecimal text of a stale device identifier, in stream
    /// order.
    ///
    /// The I/O shell connects to the feedback endpoint, reads until the
    /// stream ends and hands the bytes in; bytes short of a whole record
    /// at the end are the expected end-of-stream signal and decode to
    /// nothing.
    pub fn get_feedback(&self, data: &[u8]) -> (r: Vec<(u32, String)>)
        ensures
            r@.len() == spec_record_count(data@),
            forall|i: int|
                0 <= i < r@.len() ==> (#[trigger] r@[i]).0 == spec_record_time(data@, i)
                    && r@[i].1@ == spec_hex_str(spec_record_token(data@, i)),
    {
        decode_feedback(data)
    }
}

} // verus!

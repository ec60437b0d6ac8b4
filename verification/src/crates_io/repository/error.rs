use vstd::prelude::*;

use crate::text::{decimal, owned, push_decimal, push_str};
use crate::upstream::{
    HttpStatus,
    json_error_text, network_error_text, status_display, status_reason,
};

verus! {

/// Failures that can happen at the HTTP boundary against crates.io.
#[derive(Debug)]
pub enum CratesIoRepositoryError {
    /// `reqwest` could not complete the request — DNS, TLS, connection
    /// reset, body read failure, etc.
    Network(reqwest::Error),
    /// crates.io returned 404: the crate (or the version) is unknown.
    NotFound {
        /// URL that returned 404.
        url: String,
    },
    /// crates.io returned a non-2xx, non-404 response.
    UpstreamStatus {
        /// HTTP status code returned by crates.io.
        status: HttpStatus,
        /// URL that triggered the failure.
        url: String,
        /// Raw response body (bounded), kept for diagnostics.
        body: String,
    },
    /// The response body exceeded the configured size cap.
    PayloadTooLarge {
        /// URL whose payload exceeded the cap.
        url: String,
        /// The cap that fired, in bytes.
        limit_bytes: usize,
    },
    /// The body could not be decoded as the expected JSON shape.
    InvalidResponse(serde_json::Error),
}

impl CratesIoRepositoryError {
    /// The human-readable rendering of this error. Exact for the variants
    /// whose text is made of plain values; for those that embed an
    /// outside error, the fixed prefix.
    pub open spec fn message_spec(&self, m: Seq<char>) -> bool {
        match self {
            CratesIoRepositoryError::Network(_) => "HTTP request to crates.io failed: "@.is_prefix_of(m),
            CratesIoRepositoryError::NotFound { url } => m == "crates.io returned 404 for "@ + url@,
            CratesIoRepositoryError::UpstreamStatus { status, body, .. } => m
                == "crates.io returned HTTP "@ + decimal(status.number() as nat) + " "@
                + status_reason(status.number()) + ": "@ + body@,
            CratesIoRepositoryError::PayloadTooLarge { url, limit_bytes } => m
                == "crates.io response from "@ + url@ + " exceeds "@ + decimal(
                *limit_bytes as nat,
            ) + "-byte cap"@,
            CratesIoRepositoryError::InvalidResponse(_) => "failed to decode crates.io response: "@.is_prefix_of(m),
        }
    }

    /// Render this error as text, the way its `Display` reads.
    pub fn message(&self) -> (m: String)
        ensures
            self.message_spec(m@),
    {
        match self {
            CratesIoRepositoryError::Network(e) => {
                let mut m = owned("HTTP request to crates.io failed: ");
                let t = network_error_text(e);
                push_str(&mut m, t.as_str());
                assert("HTTP request to crates.io failed: "@ == m@.subrange(0, "HTTP request to crates.io failed: "@.len() as int));
                m
            },
            CratesIoRepositoryError::NotFound { url } => {
                let mut m = owned("crates.io returned 404 for ");
                push_str(&mut m, url.as_str());
                m
            },
            CratesIoRepositoryError::UpstreamStatus { status, url, body } => {
                let code = status.code();
                let mut m = owned("crates.io returned HTTP ");
                let s = status_display(code);
                push_str(&mut m, s.as_str());
                push_str(&mut m, ": ");
                push_str(&mut m, body.as_str());
                assert(m@ == "crates.io returned HTTP "@ + decimal(code as nat) + " "@ + status_reason(code) + ": "@ + body@);
                m
            },
            CratesIoRepositoryError::PayloadTooLarge { url, limit_bytes } => {
                let mut m = owned("crates.io response from ");
                push_str(&mut m, url.as_str());
                push_str(&mut m, " exceeds ");
                push_decimal(&mut m, *limit_bytes as u64);
                push_str(&mut m, "-byte cap");
                m
            },
            CratesIoRepositoryError::InvalidResponse(e) => {
                let mut m = owned("failed to decode crates.io response: ");
                let t = json_error_text(e);
                push_str(&mut m, t.as_str());
                assert("failed to decode crates.io response: "@ == m@.subrange(0, "failed to decode crates.io response: "@.len() as int));
                m
            },
        }
    }
}

} // verus!

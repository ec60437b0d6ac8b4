use vstd::prelude::*;

use crate::text::{decimal, debug_u32_list, owned, push_decimal, push_str, push_u32_list};
use crate::upstream::{
    HttpStatus,
    io_error_text, json_error_text, network_error_text, status_display,
    status_reason,
};

verus! {

/// Failures that can happen at the HTTP boundary against docs.rs.
///
/// `Network` is infrastructure (we never reached or never read the
/// response). `NotFound` is a 404 specifically — broken out from the
/// generic `UpstreamStatus` because the tool layer maps it to a
/// caller-facing "did you typo the crate name / path?" message rather
/// than a generic upstream failure.
#[derive(Debug)]
pub enum DocsRsRepositoryError {
    /// `reqwest` could not complete the request — DNS, TLS, connection
    /// reset, body read failure, etc.
    Network(reqwest::Error),
    /// docs.rs returned 404. The URL is captured so the caller can
    /// echo it back to the user.
    NotFound {
        /// URL that returned 404.
        url: String,
    },
    /// docs.rs returned a non-2xx, non-404 response. Body kept for
    /// diagnostics (usually an HTML error page).
    UpstreamStatus {
        /// HTTP status code returned by docs.rs.
        status: HttpStatus,
        /// URL that triggered the failure.
        url: String,
        /// Raw response body, kept for diagnostics.
        body: String,
    },
    /// The payload (or its decompressed form) exceeded the configured
    /// size cap.
    PayloadTooLarge {
        /// URL whose payload exceeded the cap.
        url: String,
        /// The cap that fired, in bytes.
        limit_bytes: usize,
    },
    /// zstd decompression of the rustdoc-JSON payload failed.
    Decompression {
        /// URL that produced the unreadable payload.
        url: String,
        /// Wrapped I/O error of the decoder.
        source: std::io::Error,
    },
    /// The decompressed payload couldn't be deserialized.
    InvalidRustdocJson {
        /// URL whose payload failed to parse.
        url: String,
        /// Wrapped serde error.
        source: serde_json::Error,
    },
    /// The payload's `format_version` isn't one this build ships a
    /// deserializer for.
    FormatVersionUnsupported {
        /// URL the JSON was fetched from.
        url: String,
        /// `format_version` reported by the payload.
        actual: u32,
        /// Format versions this build can deserialize, in dispatch
        /// preference order.
        supported: Vec<u32>,
    },
}

impl DocsRsRepositoryError {
    /// The human-readable rendering of this error. Exact for the variants
    /// whose text is made of plain values; for those that embed an
    /// outside error, the fixed prefix.
    pub open spec fn message_spec(&self, m: Seq<char>) -> bool {
        match self {
            DocsRsRepositoryError::Network(_) => "HTTP request to docs.rs failed: "@.is_prefix_of(m),
            DocsRsRepositoryError::NotFound { url } => m == "docs.rs returned 404 for "@ + url@,
            DocsRsRepositoryError::UpstreamStatus { status, url, .. } => m
                == "docs.rs returned HTTP "@ + decimal(status.number() as nat) + " "@
                + status_reason(status.number()) + " for "@ + url@,
            DocsRsRepositoryError::PayloadTooLarge { url, limit_bytes } => m
                == "docs.rs rustdoc JSON for "@ + url@ + " exceeds "@ + decimal(
                *limit_bytes as nat,
            ) + "-byte cap"@,
            DocsRsRepositoryError::Decompression { url, .. } => ("failed to decompress rustdoc JSON from "@ + url@ + ": "@).is_prefix_of(m),
            DocsRsRepositoryError::InvalidRustdocJson { url, .. } => ("failed to parse rustdoc JSON from "@ + url@ + ": "@).is_prefix_of(m),
            DocsRsRepositoryError::FormatVersionUnsupported { url, actual, supported } => m
                == "rustdoc JSON from "@ + url@ + " has format_version "@ + decimal(*actual as nat)
                + ", but this build of mcp-rust-docs only supports "@ + debug_u32_list(supported@),
        }
    }

    /// Render this error as text, the way its `Display` reads.
    pub fn message(&self) -> (m: String)
        ensures
            self.message_spec(m@),
    {
        match self {
            DocsRsRepositoryError::Network(e) => {
                let mut m = owned("HTTP request to docs.rs failed: ");
                let ghost p = m@;
                let t = network_error_text(e);
                push_str(&mut m, t.as_str());
                assert(p == m@.subrange(0, p.len() as int));
                m
            },
            DocsRsRepositoryError::NotFound { url } => {
                let mut m = owned("docs.rs returned 404 for ");
                push_str(&mut m, url.as_str());
                m
            },
            DocsRsRepositoryError::UpstreamStatus { status, url, .. } => {
                let code = status.code();
                let mut m = owned("docs.rs returned HTTP ");
                let s = status_display(code);
                push_str(&mut m, s.as_str());
                push_str(&mut m, " for ");
                push_str(&mut m, url.as_str());
                assert(m@ == "docs.rs returned HTTP "@ + decimal(code as nat) + " "@ + status_reason(code) + " for "@ + url@);
                m
            },
            DocsRsRepositoryError::PayloadTooLarge { url, limit_bytes } => {
                let mut m = owned("docs.rs rustdoc JSON for ");
                push_str(&mut m, url.as_str());
                push_str(&mut m, " exceeds ");
                push_decimal(&mut m, *limit_bytes as u64);
                push_str(&mut m, "-byte cap");
                m
            },
            DocsRsRepositoryError::Decompression { url, source } => {
                let mut m = owned("failed to decompress rustdoc JSON from ");
                push_str(&mut m, url.as_str());
                push_str(&mut m, ": ");
                let ghost p = m@;
                let t = io_error_text(source);
                push_str(&mut m, t.as_str());
                assert(p == m@.subrange(0, p.len() as int));
                m
            },
            DocsRsRepositoryError::InvalidRustdocJson { url, source } => {
                let mut m = owned("failed to parse rustdoc JSON from ");
                push_str(&mut m, url.as_str());
                push_str(&mut m, ": ");
                let ghost p = m@;
                let t = json_error_text(source);
                push_str(&mut m, t.as_str());
                assert(p == m@.subrange(0, p.len() as int));
                m
            },
            DocsRsRepositoryError::FormatVersionUnsupported { url, actual, supported } => {
                let mut m = owned("rustdoc JSON from ");
                push_str(&mut m, url.as_str());
                push_str(&mut m, " has format_version ");
                push_decimal(&mut m, *actual as u64);
                push_str(&mut m, ", but this build of mcp-rust-docs only supports ");
                push_u32_list(&mut m, supported);
                m
            },
        }
    }
}

} // verus!

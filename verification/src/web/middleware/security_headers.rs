//! The security headers set on every response.
use vstd::prelude::*;

verus! {

/// The security headers every response carries, by name and value: no MIME sniffing, no
/// framing, a strict referrer policy, and a content security policy that allows only the
/// vault's own scripts and styles (and inline styles).
pub fn security_headers() -> (h: Vec<(&'static str, &'static str)>)
    ensures
        h@.len() == 4,
        h@[0].0@ == "x-content-type-options"@ && h@[0].1@ == "nosniff"@,
        h@[1].0@ == "x-frame-options"@ && h@[1].1@ == "DENY"@,
        h@[2].0@ == "referrer-policy"@ && h@[2].1@ == "strict-origin-when-cross-origin"@,
        h@[3].0@ == "content-security-policy"@ && h@[3].1@
            == "default-src 'self'; script-src 'self' 'wasm-unsafe-eval'; style-src 'self' 'unsafe-inline'"@,
{
    let mut h: Vec<(&'static str, &'static str)> = Vec::new();
    h.push(("x-content-type-options", "nosniff"));
    h.push(("x-frame-options", "DENY"));
    h.push(("referrer-policy", "strict-origin-when-cross-origin"));
    h.push(
        (
            "content-security-policy",
            "default-src 'self'; script-src 'self' 'wasm-unsafe-eval'; style-src 'self' 'unsafe-inline'",
        ),
    );
    h
}

} // verus!

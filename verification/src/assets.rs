//! The custom-protocol asset resolver.
//!
//! A surface bootstraps from a small fixed set of logical paths served out
//! of embedded payloads: the initial document, and the script it loads. Any
//! path other than the script's falls back to the document. The resolver
//! only decides which payload and MIME type answer a path; the payload bytes
//! themselves live with the shell that registered the protocol.

use vstd::prelude::*;
use vstd::string::StringExecFns;
use crate::controller::str_eq;

verus! {

/// Which embedded payload a logical path resolves to.
#[derive(Clone, Copy, Debug, PartialEq, Eq, Structural)]
pub enum AssetKind {
    /// The initial bootstrap document.
    Document,
    /// The script the document loads.
    Script,
}

/// Resolve one logical path of the custom protocol: the bootstrap script
/// under its one name, and the document for every other path, the document's
/// own spellings and unknown paths alike.
pub fn resolve_asset(path: &str) -> (kind: AssetKind)
    ensures
        kind is Script <==> path@ == "index.html/index.js"@,
{
    if str_eq(path, "index.html/index.js") {
        AssetKind::Script
    } else {
        AssetKind::Document
    }
}

/// The MIME type served with each payload.
pub fn mime_of(kind: &AssetKind) -> (mime: String)
    ensures
        kind is Script ==> mime@ == "text/javascript"@,
        kind is Document ==> mime@ == "text/html"@,
{
    match kind {
        AssetKind::Script => String::from_str("text/javascript"),
        AssetKind::Document => String::from_str("text/html"),
    }
}

} // verus!

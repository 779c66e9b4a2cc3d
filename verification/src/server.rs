//! Routing decisions of the asset server.
//!
//! The server itself — sockets, file reads, responses — lives outside this
//! crate and asks [`route_request`] what a request path means: the reserved
//! bootstrap path, the index document, or a file under the project root.
//! [`content_type_for`] picks the content type that goes with a served
//! file's extension.

use vstd::prelude::*;
use vstd::string::*;
use crate::hmr_inject::spec_is_html;
use crate::text;

verus! {

/// What the asset server should do with a request.
pub enum ServeAction {
    /// Serve the fixed HMR bootstrap script with a JavaScript content type.
    Bootstrap,
    /// Serve the file at this path relative to the project root; when
    /// `is_html` holds, inject the bootstrap first.
    File { rel_path: String, is_html: bool },
}

/// `u` with every leading `/` removed.
pub open spec fn strip_slashes(u: Seq<char>) -> Seq<char>
    decreases u.len(),
{
    if u.len() > 0 && u[0] == '/' {
        strip_slashes(u.skip(1))
    } else {
        u
    }
}

/// Decide what to serve for the request path `url`: the reserved path
/// `/__orbit_hmr_client.js` serves the bootstrap; an empty path (any run of
/// slashes alone, in particular `/`) serves `index.html`; any other path
/// serves the named file under the project root, with HTML detection by
/// extension.
pub fn route_request(url: &str) -> (r: ServeAction)
    ensures
        url@ == "/__orbit_hmr_client.js"@ ==> r is Bootstrap,
        url@ != "/__orbit_hmr_client.js"@ ==> (r matches ServeAction::File { rel_path, is_html }
            && rel_path@ == (if strip_slashes(url@).len() == 0 {
            "index.html"@
        } else {
            strip_slashes(url@)
        }) && is_html == spec_is_html(
            if strip_slashes(url@).len() == 0 {
                "index.html"@
            } else {
                strip_slashes(url@)
            },
        )),
{
    if text::str_eq(url, "/__orbit_hmr_client.js") {
        return ServeAction::Bootstrap;
    }
    let len = url.unicode_len();
    let mut i: usize = 0;
    proof {
        assert(url@.skip(0) =~= url@);
    }
    while i < len && url.get_char(i) == '/'
        invariant
            len == url@.len(),
            i <= len,
            strip_slashes(url@) == strip_slashes(url@.skip(i as int)),
        decreases len - i,
    {
        proof {
            assert(url@.skip(i as int).skip(1) =~= url@.skip(i + 1));
        }
        i += 1;
    }
    proof {
        if i < len {
            assert(url@.skip(i as int)[0] != '/');
        }
        assert(strip_slashes(url@.skip(i as int)) == url@.skip(i as int));
    }
    if i == len {
        proof {
            assert(url@.skip(len as int) =~= Seq::<char>::empty());
        }
        let rel_path = text::to_string("index.html");
        let is_html = crate::hmr_inject::is_html_file(rel_path.as_str());
        ServeAction::File { rel_path, is_html }
    } else {
        let rel_path = text::substring(url, i, len);
        proof {
            assert(rel_path@ =~= url@.skip(i as int));
        }
        let is_html = crate::hmr_inject::is_html_file(rel_path.as_str());
        ServeAction::File { rel_path, is_html }
    }
}

/// The content type served with files whose path is `p`.
pub open spec fn spec_content_type(p: Seq<char>) -> Seq<char> {
    if spec_is_html(p) {
        "text/html"@
    } else if ".js"@.is_suffix_of(p) {
        "application/javascript"@
    } else if ".css"@.is_suffix_of(p) {
        "text/css"@
    } else if ".json"@.is_suffix_of(p) {
        "application/json"@
    } else if ".wasm"@.is_suffix_of(p) {
        "application/wasm"@
    } else if ".svg"@.is_suffix_of(p) {
        "image/svg+xml"@
    } else if ".png"@.is_suffix_of(p) {
        "image/png"@
    } else {
        "application/octet-stream"@
    }
}

/// The content type to serve with the file at `path`, by extension;
/// unrecognized extensions are served as opaque bytes.
pub fn content_type_for(path: &str) -> (r: &'static str)
    ensures
        r@ == spec_content_type(path@),
{
    if crate::hmr_inject::is_html_file(path) {
        "text/html"
    } else if text::ends_with(path, ".js") {
        "application/javascript"
    } else if text::ends_with(path, ".css") {
        "text/css"
    } else if text::ends_with(path, ".json") {
        "application/json"
    } else if text::ends_with(path, ".wasm") {
        "application/wasm"
    } else if text::ends_with(path, ".svg") {
        "image/svg+xml"
    } else if text::ends_with(path, ".png") {
        "image/png"
    } else {
        "application/octet-stream"
    }
}

/// The WebSocket endpoint's port: one above the HTTP port.
pub fn websocket_port(http_port: u16) -> (r: u16)
    requires
        http_port < 65535,
    ensures
        r == http_port + 1,
{
    http_port + 1
}

} // verus!

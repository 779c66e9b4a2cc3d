//! Injection of the HMR client bootstrap into HTML documents.
//!
//! Injection is idempotent by detection: a document counts as already wired
//! in when it holds either the handler marker that the bootstrap script
//! itself defines (`__ORBIT_REGISTER_HMR_HANDLER`, for hand-inlined copies)
//! or the reserved bootstrap path (`/__orbit_hmr_client.js`, which every
//! injected tag references). A second pass over an injected document
//! therefore leaves it unchanged.

use vstd::prelude::*;
use vstd::string::*;
use crate::text;
use crate::text::{occurs_at, occurs_ci_at, dec_of};

verus! {

/// The document already holds the bootstrap: either the handler marker of an
/// inlined client script or a reference to the reserved bootstrap path.
pub open spec fn has_bootstrap(h: Seq<char>) -> bool {
    (exists|i: int| occurs_at(h, "__ORBIT_REGISTER_HMR_HANDLER"@, i)) || (exists|i: int|
        occurs_at(h, "/__orbit_hmr_client.js"@, i))
}

/// `i` is the position of the last `</body>` tag of `h`, compared up to
/// ASCII letter case.
pub open spec fn is_last_body_close(h: Seq<char>, i: int) -> bool {
    occurs_ci_at(h, "</body>"@, i) && forall|j: int| i < j ==> !occurs_ci_at(h, "</body>"@, j)
}

/// The script tag injected for cache-busting time `now_secs`.
pub open spec fn spec_script_tag(now_secs: int) -> Seq<char> {
    "<script type=\"text/javascript\" src=\"/__orbit_hmr_client.js?v="@ + dec_of(now_secs)
        + "\"></script>\n"@
}

/// True iff the path's final component carries the extension `html`,
/// compared up to ASCII letter case.
pub open spec fn spec_is_html(p: Seq<char>) -> bool {
    let n = p.len();
    n >= 6 && p[n - 5] == '.' && text::eq_ascii_ci(p[n - 4], 'h') && text::eq_ascii_ci(
        p[n - 3],
        't',
    ) && text::eq_ascii_ci(p[n - 2], 'm') && text::eq_ascii_ci(p[n - 1], 'l') && p[n - 6] != '/'
        && p[n - 6] != '\\'
}

/// True iff `path` names an HTML file: its final component has something
/// before the dot and ends in `.html`, compared up to ASCII letter case.
pub fn is_html_file(path: &str) -> (r: bool)
    ensures
        r == spec_is_html(path@),
{
    let n = path.unicode_len();
    if n < 6 {
        return false;
    }
    path.get_char(n - 5) == '.' && text::chars_eq_ci(path.get_char(n - 4), 'h')
        && text::chars_eq_ci(path.get_char(n - 3), 't') && text::chars_eq_ci(
        path.get_char(n - 2),
        'm',
    ) && text::chars_eq_ci(path.get_char(n - 1), 'l') && path.get_char(n - 6) != '/'
        && path.get_char(n - 6) != '\\'
}

/// The bootstrap script tag referencing the reserved path, with a
/// cache-busting query parameter for `now_secs`.
fn script_tag(now_secs: u64) -> (r: String)
    ensures
        r@ == spec_script_tag(now_secs as int),
{
    let head = text::to_string(
        "<script type=\"text/javascript\" src=\"/__orbit_hmr_client.js?v=",
    );
    let stamp = text::u64_to_string(now_secs);
    let r = head.concat(stamp.as_str()).concat("\"></script>\n");
    r
}

/// Inject the HMR client bootstrap into `html_content`, with `now_secs` (a
/// Unix timestamp in seconds) as the cache-busting parameter.
///
/// A document that already holds the bootstrap is returned unchanged.
/// Otherwise the script tag goes immediately before the last
/// case-insensitive `</body>`; a document without one gets the tag appended
/// at the end. The `port` is accepted for interface stability and does not
/// influence the result.
pub fn inject_hmr_client(html_content: &str, port: u16, now_secs: u64) -> (r: String)
    ensures
        has_bootstrap(html_content@) ==> r@ == html_content@,
        !has_bootstrap(html_content@) ==> if exists|i: int|
            is_last_body_close(html_content@, i) {
            exists|i: int|
                is_last_body_close(html_content@, i) && r@ == html_content@.subrange(0, i)
                    + spec_script_tag(now_secs as int) + html_content@.subrange(
                    i,
                    html_content@.len() as int,
                )
        } else {
            r@ == html_content@ + spec_script_tag(now_secs as int)
        },
{
    let _ = port;
    if text::contains_sub(html_content, "__ORBIT_REGISTER_HMR_HANDLER") || text::contains_sub(
        html_content,
        "/__orbit_hmr_client.js",
    ) {
        return text::to_string(html_content);
    }
    let tag = script_tag(now_secs);
    let n = html_content.unicode_len();
    match text::rfind_sub_ci(html_content, "</body>") {
        Some(i) => {
            assert(is_last_body_close(html_content@, i as int));
            let before = text::substring(html_content, 0, i);
            let after = text::substring(html_content, i, n);
            let r = before.concat(tag.as_str()).concat(after.as_str());
            assert(exists|j: int|
                is_last_body_close(html_content@, j) && r@ == html_content@.subrange(0, j)
                    + spec_script_tag(now_secs as int) + html_content@.subrange(
                    j,
                    html_content@.len() as int,
                ));
            r
        },
        None => {
            let r = text::to_string(html_content).concat(tag.as_str());
            r
        },
    }
}

/// The client bootstrap script served at the reserved path. It defines the
/// handler marker `__ORBIT_REGISTER_HMR_HANDLER` that injection checks for.
pub fn get_hmr_client_js() -> (r: &'static str)
    ensures
        exists|i: int| occurs_at(r@, "__ORBIT_REGISTER_HMR_HANDLER"@, i),
{
    let r = "// __ORBIT_REGISTER_HMR_HANDLER bootstrap\n(function () {\n  var proto = location.protocol === 'https:' ? 'wss' : 'ws';\n  var port = Number(location.port || 80) + 1;\n  var url = proto + '://' + location.hostname + ':' + port + '/';\n  function connect() {\n    var ws = new WebSocket(url);\n    ws.onopen = function () {\n      ws.send(JSON.stringify({ type: 'register', url: location.pathname }));\n      ws.send(JSON.stringify({ type: 'hmr_ready' }));\n    };\n    ws.onmessage = function (ev) {\n      var msg;\n      try { msg = JSON.parse(ev.data); } catch (e) { return; }\n      if (msg.type === 'reload') { location.reload(); }\n      if (msg.type === 'rebuild' && msg.status === 'failed') { console.warn('rebuild failed'); }\n      if (msg.type === 'hmr') { console.info('hmr update', msg.modules); }\n    };\n    ws.onclose = function () { setTimeout(connect, 1000); };\n  }\n  connect();\n})();\n";
    proof {
        reveal_strlit(
            "// __ORBIT_REGISTER_HMR_HANDLER bootstrap\n(function () {\n  var proto = location.protocol === 'https:' ? 'wss' : 'ws';\n  var port = Number(location.port || 80) + 1;\n  var url = proto + '://' + location.hostname + ':' + port + '/';\n  function connect() {\n    var ws = new WebSocket(url);\n    ws.onopen = function () {\n      ws.send(JSON.stringify({ type: 'register', url: location.pathname }));\n      ws.send(JSON.stringify({ type: 'hmr_ready' }));\n    };\n    ws.onmessage = function (ev) {\n      var msg;\n      try { msg = JSON.parse(ev.data); } catch (e) { return; }\n      if (msg.type === 'reload') { location.reload(); }\n      if (msg.type === 'rebuild' && msg.status === 'failed') { console.warn('rebuild failed'); }\n      if (msg.type === 'hmr') { console.info('hmr update', msg.modules); }\n    };\n    ws.onclose = function () { setTimeout(connect, 1000); };\n  }\n  connect();\n})();\n",
        );
        reveal_strlit("__ORBIT_REGISTER_HMR_HANDLER");
        assert(occurs_at(r@, "__ORBIT_REGISTER_HMR_HANDLER"@, 3)) by {
            assert("__ORBIT_REGISTER_HMR_HANDLER"@ =~= r@.subrange(3, 31));
        }
    }
    r
}

} // verus!

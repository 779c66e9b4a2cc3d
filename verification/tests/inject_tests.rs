use orbiton::args::normalize_renderer;
use orbiton::hmr_inject::{get_hmr_client_js, inject_hmr_client, is_html_file};
use orbiton::server::{ServeAction, content_type_for, route_request, websocket_port};
use orbiton::text::{i32_to_string, u64_to_hex_string, u64_to_string};
use orbiton::util::random_id;

#[test]
fn injection_before_closing_body() {
    let out = inject_hmr_client("<html><body>Hi</body></html>", 3000, 12345);
    let expected = "<html><body>Hi<script type=\"text/javascript\" src=\"/__orbit_hmr_client.js?v=12345\"></script>\n</body></html>";
    assert_eq!(out, expected);
}

#[test]
fn injection_appends_without_body_tag() {
    let out = inject_hmr_client("<p>plain</p>", 3000, 7);
    let expected = "<p>plain</p><script type=\"text/javascript\" src=\"/__orbit_hmr_client.js?v=7\"></script>\n";
    assert_eq!(out, expected);
}

#[test]
fn injection_uses_last_body_tag_case_insensitively() {
    let out = inject_hmr_client("<BODY>a</BODY><body>b</Body>x", 3000, 1);
    let expected = "<BODY>a</BODY><body>b<script type=\"text/javascript\" src=\"/__orbit_hmr_client.js?v=1\"></script>\n</Body>x";
    assert_eq!(out, expected);
}

#[test]
fn injection_is_idempotent() {
    let once = inject_hmr_client("<html><body>Hi</body></html>", 3000, 12345);
    let twice = inject_hmr_client(&once, 3000, 99999);
    assert_eq!(once, twice);
    // A hand-inlined client script is also detected.
    let marked = "<html><body>__ORBIT_REGISTER_HMR_HANDLER</body></html>";
    assert_eq!(inject_hmr_client(marked, 3000, 5), marked);
}

#[test]
fn client_script_defines_the_marker() {
    assert!(get_hmr_client_js().contains("__ORBIT_REGISTER_HMR_HANDLER"));
}

#[test]
fn html_file_detection() {
    assert!(is_html_file("index.html"));
    assert!(is_html_file("a/b/Page.HTML"));
    assert!(!is_html_file("script.js"));
    assert!(!is_html_file("html"));
    assert!(!is_html_file(".html"));
    assert!(!is_html_file("dir/.html"));
}

#[test]
fn routing_requests() {
    assert!(matches!(route_request("/__orbit_hmr_client.js"), ServeAction::Bootstrap));
    match route_request("/") {
        ServeAction::File { rel_path, is_html } => {
            assert_eq!(rel_path, "index.html");
            assert!(is_html);
        }
        _ => panic!("expected a file action"),
    }
    match route_request("/assets/logo.png") {
        ServeAction::File { rel_path, is_html } => {
            assert_eq!(rel_path, "assets/logo.png");
            assert!(!is_html);
        }
        _ => panic!("expected a file action"),
    }
}

#[test]
fn content_types_by_extension() {
    assert_eq!(content_type_for("index.html"), "text/html");
    assert_eq!(content_type_for("app.js"), "application/javascript");
    assert_eq!(content_type_for("style.css"), "text/css");
    assert_eq!(content_type_for("data.json"), "application/json");
    assert_eq!(content_type_for("mod.wasm"), "application/wasm");
    assert_eq!(content_type_for("pic.svg"), "image/svg+xml");
    assert_eq!(content_type_for("pic.png"), "image/png");
    assert_eq!(content_type_for("archive.bin"), "application/octet-stream");
}

#[test]
fn websocket_port_is_one_above_http() {
    assert_eq!(websocket_port(8000), 8001);
}

#[test]
fn renderer_names_normalize() {
    assert_eq!(normalize_renderer("skia"), Some("skia"));
    assert_eq!(normalize_renderer("WGPU"), Some("wgpu"));
    assert_eq!(normalize_renderer("Auto"), Some("auto"));
    assert_eq!(normalize_renderer("metal"), None);
}

#[test]
fn number_formatting() {
    assert_eq!(u64_to_string(0), "0");
    assert_eq!(u64_to_string(12345), "12345");
    assert_eq!(i32_to_string(-10), "-10");
    assert_eq!(i32_to_string(i32::MIN), "-2147483648");
    assert_eq!(u64_to_hex_string(255), "ff");
    assert_eq!(u64_to_hex_string(0), "0");
}

#[test]
fn random_id_is_hex() {
    let id = random_id();
    assert!(!id.is_empty());
    assert!(id.chars().all(|c| c.is_ascii_hexdigit()));
}

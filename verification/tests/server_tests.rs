use bench_agent::server::{
    asset_key, choose_asset, fixed_reply, handle_rerun, mime_for, result_status, route,
    AssetChoice, HttpMethod, Route, NOT_FOUND_BODY, OK_BODY, RERUN_BUSY_BODY,
};
use bench_agent::state::AppState;

#[test]
fn routing_table() {
    assert_eq!(route(HttpMethod::Options, "/anything"), Route::Preflight);
    assert_eq!(route(HttpMethod::Get, "/health"), Route::Health);
    assert_eq!(route(HttpMethod::Get, "/status"), Route::Status);
    assert_eq!(route(HttpMethod::Get, "/result"), Route::Result);
    assert_eq!(route(HttpMethod::Post, "/rerun"), Route::Rerun);
    assert_eq!(route(HttpMethod::Get, "/rerun"), Route::Asset);
    assert_eq!(route(HttpMethod::Get, "/assets/app.js"), Route::Asset);
    assert_eq!(route(HttpMethod::Post, "/status"), Route::NotFound);
    assert_eq!(route(HttpMethod::Other, "/health"), Route::NotFound);
}

#[test]
fn mime_types_by_extension() {
    assert_eq!(mime_for("index.html"), "text/html; charset=utf-8");
    assert_eq!(mime_for("assets/app.js"), "text/javascript; charset=utf-8");
    assert_eq!(mime_for("m.mjs"), "text/javascript; charset=utf-8");
    assert_eq!(mime_for("a.b.css"), "text/css; charset=utf-8");
    assert_eq!(mime_for("data.json"), "application/json; charset=utf-8");
    assert_eq!(mime_for("logo.svg"), "image/svg+xml");
    assert_eq!(mime_for("p.png"), "image/png");
    assert_eq!(mime_for("p.jpg"), "image/jpeg");
    assert_eq!(mime_for("p.jpeg"), "image/jpeg");
    assert_eq!(mime_for("p.gif"), "image/gif");
    assert_eq!(mime_for("favicon.ico"), "image/x-icon");
    assert_eq!(mime_for("p.webp"), "image/webp");
    assert_eq!(mime_for("f.woff2"), "font/woff2");
    assert_eq!(mime_for("f.woff"), "font/woff");
    assert_eq!(mime_for("f.ttf"), "font/ttf");
    assert_eq!(mime_for("m.wasm"), "application/wasm");
    assert_eq!(mime_for("app.js.map"), "application/json");
}

#[test]
fn unknown_extensions_are_octet_stream() {
    assert_eq!(mime_for("archive.tar.gz"), "application/octet-stream");
    assert_eq!(mime_for("README"), "application/octet-stream");
    assert_eq!(mime_for("INDEX.HTML"), "application/octet-stream");
    assert_eq!(mime_for(""), "application/octet-stream");
    assert_eq!(mime_for("html"), "text/html; charset=utf-8");
}

#[test]
fn asset_keys() {
    assert_eq!(asset_key("/"), "index.html");
    assert_eq!(asset_key(""), "index.html");
    assert_eq!(asset_key("///"), "index.html");
    assert_eq!(asset_key("/assets/app.js"), "assets/app.js");
    assert_eq!(asset_key("//a/b.css"), "a/b.css");
    assert_eq!(asset_key("plain"), "plain");
}

#[test]
fn asset_choice() {
    assert_eq!(choose_asset(true, true), AssetChoice::Requested);
    assert_eq!(choose_asset(true, false), AssetChoice::Requested);
    assert_eq!(choose_asset(false, true), AssetChoice::IndexFallback);
    assert_eq!(choose_asset(false, false), AssetChoice::Missing);
}

#[test]
fn fixed_replies() {
    assert_eq!(fixed_reply(Route::Preflight), Some((204, "")));
    assert_eq!(fixed_reply(Route::Health), Some((200, OK_BODY)));
    assert_eq!(fixed_reply(Route::NotFound), Some((404, NOT_FOUND_BODY)));
    assert_eq!(fixed_reply(Route::Status), None);
    assert_eq!(fixed_reply(Route::Asset), None);
    assert_eq!(OK_BODY, r#"{"ok":true}"#);
    assert_eq!(NOT_FOUND_BODY, r#"{"error":"not found"}"#);
}

#[test]
fn result_endpoint_status() {
    let mut s: AppState<u32> = AppState::default();
    assert_eq!(result_status(&s), 202);
    s.begin_run();
    s.finish_run(5);
    assert_eq!(result_status(&s), 200);
}

#[test]
fn rerun_endpoint() {
    let mut s: AppState<u32> = AppState::default();
    s.begin_run();
    assert_eq!(handle_rerun(&mut s), (409, RERUN_BUSY_BODY, false));
    assert_eq!(RERUN_BUSY_BODY, r#"{"error":"benchmark already running"}"#);
    s.finish_run(1);
    assert_eq!(handle_rerun(&mut s), (202, OK_BODY, true));
    assert!(s.result.is_none());
    assert_eq!(handle_rerun(&mut s), (409, RERUN_BUSY_BODY, false));
}

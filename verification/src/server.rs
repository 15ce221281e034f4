use vstd::prelude::*;
use crate::state::{AppState, request_rerun, rerun_answered};
use crate::text::{
    after_last, last_index_of, lemma_skip_run_stops, skip_run, strip_leading, text_eq,
    trim_leading,
};

verus! {

/// The request methods the local server distinguishes.
#[derive(Debug, Clone, Copy, PartialEq, Eq, Structural)]
pub enum HttpMethod {
    Get,
    Post,
    Options,
    Other,
}

/// What a request asks for.
#[derive(Debug, Clone, Copy, PartialEq, Eq, Structural)]
pub enum Route {
    /// CORS preflight: answered 204 with an empty body.
    Preflight,
    /// `GET /health`
    Health,
    /// `GET /status`: the live progress.
    Status,
    /// `GET /result`: the finished result, if any.
    Result,
    /// `POST /rerun`: start a fresh benchmark.
    Rerun,
    /// Any other `GET`: a file of the embedded web UI.
    Asset,
    /// Anything else: 404.
    NotFound,
}

/// Routing table of the local server.
pub open spec fn route_of(method: HttpMethod, url: Seq<char>) -> Route {
    if method == HttpMethod::Options {
        Route::Preflight
    } else if method == HttpMethod::Get && url == "/health"@ {
        Route::Health
    } else if method == HttpMethod::Get && url == "/status"@ {
        Route::Status
    } else if method == HttpMethod::Get && url == "/result"@ {
        Route::Result
    } else if method == HttpMethod::Post && url == "/rerun"@ {
        Route::Rerun
    } else if method == HttpMethod::Get {
        Route::Asset
    } else {
        Route::NotFound
    }
}

/// Decide which endpoint serves a request.
pub fn route(method: HttpMethod, url: &str) -> (r: Route)
    ensures
        r == route_of(method, url@),
{
    match method {
        HttpMethod::Options => Route::Preflight,
        HttpMethod::Get => {
            if text_eq(url, "/health") {
                Route::Health
            } else if text_eq(url, "/status") {
                Route::Status
            } else if text_eq(url, "/result") {
                Route::Result
            } else {
                Route::Asset
            }
        },
        HttpMethod::Post => {
            if text_eq(url, "/rerun") {
                Route::Rerun
            } else {
                Route::NotFound
            }
        },
        HttpMethod::Other => Route::NotFound,
    }
}

/// The file extension of a path: what follows its last `.`, or the whole
/// path when it has none.
pub open spec fn extension_of(path: Seq<char>) -> Seq<char> {
    path.subrange(last_index_of(path, '.') + 1, path.len() as int)
}

/// Content type served for a file extension.
pub open spec fn mime_of_extension(ext: Seq<char>) -> Seq<char> {
    if ext == "html"@ {
        "text/html; charset=utf-8"@
    } else if ext == "js"@ || ext == "mjs"@ {
        "text/javascript; charset=utf-8"@
    } else if ext == "css"@ {
        "text/css; charset=utf-8"@
    } else if ext == "json"@ {
        "application/json; charset=utf-8"@
    } else if ext == "svg"@ {
        "image/svg+xml"@
    } else if ext == "png"@ {
        "image/png"@
    } else if ext == "jpg"@ || ext == "jpeg"@ {
        "image/jpeg"@
    } else if ext == "gif"@ {
        "image/gif"@
    } else if ext == "ico"@ {
        "image/x-icon"@
    } else if ext == "webp"@ {
        "image/webp"@
    } else if ext == "woff2"@ {
        "font/woff2"@
    } else if ext == "woff"@ {
        "font/woff"@
    } else if ext == "ttf"@ {
        "font/ttf"@
    } else if ext == "wasm"@ {
        "application/wasm"@
    } else if ext == "map"@ {
        "application/json"@
    } else {
        "application/octet-stream"@
    }
}

/// Content type of a file of the embedded UI, chosen by its extension.
pub fn mime_for(path: &str) -> (mime: &'static str)
    ensures
        mime@ == mime_of_extension(extension_of(path@)),
{
    let ext = after_last(path, '.');
    if text_eq(ext, "html") {
        "text/html; charset=utf-8"
    } else if text_eq(ext, "js") || text_eq(ext, "mjs") {
        "text/javascript; charset=utf-8"
    } else if text_eq(ext, "css") {
        "text/css; charset=utf-8"
    } else if text_eq(ext, "json") {
        "application/json; charset=utf-8"
    } else if text_eq(ext, "svg") {
        "image/svg+xml"
    } else if text_eq(ext, "png") {
        "image/png"
    } else if text_eq(ext, "jpg") || text_eq(ext, "jpeg") {
        "image/jpeg"
    } else if text_eq(ext, "gif") {
        "image/gif"
    } else if text_eq(ext, "ico") {
        "image/x-icon"
    } else if text_eq(ext, "webp") {
        "image/webp"
    } else if text_eq(ext, "woff2") {
        "font/woff2"
    } else if text_eq(ext, "woff") {
        "font/woff"
    } else if text_eq(ext, "ttf") {
        "font/ttf"
    } else if text_eq(ext, "wasm") {
        "application/wasm"
    } else if text_eq(ext, "map") {
        "application/json"
    } else {
        "application/octet-stream"
    }
}

/// Name of the embedded file a request path refers to: the path without its
/// leading slashes, and `index.html` for the site root.
pub open spec fn asset_key_of(path: Seq<char>) -> Seq<char> {
    let clean = strip_leading(path, '/');
    if clean.len() == 0 {
        "index.html"@
    } else {
        clean
    }
}

/// The embedded file a request path refers to.
pub fn asset_key<'a>(path: &'a str) -> (key: &'a str)
    ensures
        key@ == asset_key_of(path@),
{
    let clean = trim_leading(path, '/');
    if clean.unicode_len() == 0 {
        "index.html"
    } else {
        clean
    }
}

/// How an asset request is answered.
#[derive(Debug, Clone, Copy, PartialEq, Eq, Structural)]
pub enum AssetChoice {
    /// The requested file, with the content type of its extension.
    Requested,
    /// The UI's `index.html` (client-side routes), as HTML.
    IndexFallback,
    /// No UI is embedded: 404 with an explanatory text.
    Missing,
}

/// Pick the answer to an asset request from what the embedded UI holds.
pub fn choose_asset(requested_found: bool, index_found: bool) -> (c: AssetChoice)
    ensures
        requested_found ==> c == AssetChoice::Requested,
        !requested_found && index_found ==> c == AssetChoice::IndexFallback,
        !requested_found && !index_found ==> c == AssetChoice::Missing,
{
    if requested_found {
        AssetChoice::Requested
    } else if index_found {
        AssetChoice::IndexFallback
    } else {
        AssetChoice::Missing
    }
}

/// Body of a successful acknowledgement.
pub const OK_BODY: &'static str = "{\"ok\":true}";
/// Body of `GET /result` while no result is available.
pub const RESULT_PENDING_BODY: &'static str = "{\"error\":\"benchmark still running\"}";
/// Body of a refused rerun request.
pub const RERUN_BUSY_BODY: &'static str = "{\"error\":\"benchmark already running\"}";
/// Body of an unknown endpoint.
pub const NOT_FOUND_BODY: &'static str = "{\"error\":\"not found\"}";
/// Text served when the build embedded no web UI.
pub const NO_UI_TEXT: &'static str = "未找到内嵌界面（构建时缺少 web/dist）。API 仍可用：/status /result /rerun";

/// Replies that do not depend on the state: the preflight (204, empty), the
/// health check (200) and unknown endpoints (404).
pub fn fixed_reply(r: Route) -> (reply: Option<(u16, &'static str)>)
    ensures
        r == Route::Preflight ==> (reply matches Some(x) && x.0 == 204 && x.1@ == ""@),
        r == Route::Health ==> (reply matches Some(x) && x.0 == 200 && x.1@ == OK_BODY@),
        r == Route::NotFound ==> (reply matches Some(x) && x.0 == 404 && x.1@ == NOT_FOUND_BODY@),
        r != Route::Preflight && r != Route::Health && r != Route::NotFound ==> reply is None,
{
    match r {
        Route::Preflight => Some((204, "")),
        Route::Health => Some((200, OK_BODY)),
        Route::NotFound => Some((404, NOT_FOUND_BODY)),
        _ => None,
    }
}

/// Status code of `GET /result`: 200 with the result once there is one,
/// 202 while the benchmark is still running.
pub fn result_status<R>(state: &AppState<R>) -> (code: u16)
    ensures
        state.result is Some ==> code == 200,
        state.result is None ==> code == 202,
{
    match &state.result {
        Some(_) => 200,
        None => 202,
    }
}

/// Answer a rerun request: schedule a run unless one is active. Returns the
/// status code, the body, and whether the caller must start the run.
pub fn handle_rerun<R>(state: &mut AppState<R>) -> (reply: (u16, &'static str, bool))
    ensures
        rerun_answered(*old(state), *final(state), reply.2),
        reply.2 ==> reply.0 == 202 && reply.1@ == OK_BODY@,
        !reply.2 ==> reply.0 == 409 && reply.1@ == RERUN_BUSY_BODY@,
{
    let scheduled = request_rerun(state);
    if scheduled {
        (202, OK_BODY, true)
    } else {
        (409, RERUN_BUSY_BODY, false)
    }
}

/// Requests that are not `GET`, `POST /rerun` or a preflight are never
/// served a file or an endpoint.
pub proof fn lemma_only_get_reads(method: HttpMethod, url: Seq<char>)
    requires
        method != HttpMethod::Get,
        method != HttpMethod::Options,
        !(method == HttpMethod::Post && url == "/rerun"@),
    ensures
        route_of(method, url) == Route::NotFound,
{
}

/// Every request path names a file: the key is never empty and never starts
/// with a slash.
pub proof fn lemma_asset_key_shape(path: Seq<char>)
    ensures
        asset_key_of(path).len() > 0,
        asset_key_of(path)[0] != '/',
{
    reveal_strlit("index.html");
    lemma_skip_run_stops(path, '/', 0);
    let k = skip_run(path, '/', 0);
    if k < path.len() {
        assert(strip_leading(path, '/')[0] == path[k]);
    }
}

proof fn lemma_texts_differ(a: Seq<char>, b: Seq<char>, k: int)
    requires
        0 <= k < a.len(),
        k < b.len(),
        a[k] != b[k],
    ensures
        a != b,
{
}

/// Every `GET` that is not one of the three API endpoints loads the embedded
/// UI (the site root `/` included); the API endpoints answer their own
/// route, and only `POST /rerun` starts a run.
pub proof fn lemma_get_routes(url: Seq<char>)
    ensures
        url != "/health"@ && url != "/status"@ && url != "/result"@ ==> route_of(
            HttpMethod::Get,
            url,
        ) == Route::Asset,
        route_of(HttpMethod::Get, "/health"@) == Route::Health,
        route_of(HttpMethod::Get, "/status"@) == Route::Status,
        route_of(HttpMethod::Get, "/result"@) == Route::Result,
        route_of(HttpMethod::Post, "/rerun"@) == Route::Rerun,
        route_of(HttpMethod::Options, url) == Route::Preflight,
        route_of(HttpMethod::Post, url) == Route::Rerun ==> url == "/rerun"@,
{
    reveal_strlit("/health");
    reveal_strlit("/status");
    reveal_strlit("/result");
    assert("/status"@[1] == 's');
    assert("/health"@[1] == 'h');
    assert("/result"@[1] == 'r');
    lemma_texts_differ("/status"@, "/health"@, 1);
    lemma_texts_differ("/result"@, "/health"@, 1);
    lemma_texts_differ("/result"@, "/status"@, 1);
}

/// The site root is served by the UI.
pub proof fn lemma_root_is_ui()
    ensures
        route_of(HttpMethod::Get, "/"@) == Route::Asset,
        asset_key_of("/"@) == "index.html"@,
{
    reveal_strlit("/");
    reveal_strlit("/health");
    reveal_strlit("/status");
    reveal_strlit("/result");
    assert("/"@.len() != "/health"@.len());
    assert("/"@.len() != "/status"@.len());
    assert("/"@.len() != "/result"@.len());
    assert(skip_run("/"@, '/', 1) == 1);
    assert(strip_leading("/"@, '/').len() == 0);
}

/// Content types by extension: pages are HTML, scripts JavaScript, style
/// sheets CSS, and so on; anything unknown is a byte stream.
pub proof fn lemma_mime_table(path: Seq<char>)
    ensures
        extension_of(path) == "html"@ ==> mime_of_extension(extension_of(path))
            == "text/html; charset=utf-8"@,
        extension_of(path) == "js"@ || extension_of(path) == "mjs"@ ==> mime_of_extension(
            extension_of(path),
        ) == "text/javascript; charset=utf-8"@,
        extension_of(path) == "css"@ ==> mime_of_extension(extension_of(path))
            == "text/css; charset=utf-8"@,
        extension_of(path) == "json"@ ==> mime_of_extension(extension_of(path))
            == "application/json; charset=utf-8"@,
        extension_of(path) == "svg"@ ==> mime_of_extension(extension_of(path)) == "image/svg+xml"@,
        extension_of(path) == "png"@ ==> mime_of_extension(extension_of(path)) == "image/png"@,
        extension_of(path) == "wasm"@ ==> mime_of_extension(extension_of(path))
            == "application/wasm"@,
{
    reveal_strlit("html");
    reveal_strlit("js");
    reveal_strlit("mjs");
    reveal_strlit("css");
    reveal_strlit("json");
    reveal_strlit("svg");
    reveal_strlit("png");
    reveal_strlit("jpg");
    reveal_strlit("jpeg");
    reveal_strlit("gif");
    reveal_strlit("ico");
    reveal_strlit("webp");
    reveal_strlit("woff2");
    reveal_strlit("woff");
    reveal_strlit("ttf");
    reveal_strlit("wasm");
    reveal_strlit("map");
    assert("html"@.len() == 4);
    assert("js"@.len() == 2);
    assert("mjs"@.len() == 3);
    assert("css"@.len() == 3);
    assert("json"@.len() == 4);
    assert("svg"@.len() == 3);
    assert("png"@.len() == 3);
    assert("jpg"@.len() == 3);
    assert("jpeg"@.len() == 4);
    assert("gif"@.len() == 3);
    assert("ico"@.len() == 3);
    assert("webp"@.len() == 4);
    assert("woff2"@.len() == 5);
    assert("woff"@.len() == 4);
    assert("ttf"@.len() == 3);
    assert("wasm"@.len() == 4);
    assert("map"@.len() == 3);
    assert("css"@[0] == 'c');
    assert("mjs"@[0] == 'm');
    lemma_texts_differ("css"@, "mjs"@, 0);
    assert("json"@[0] == 'j');
    assert("html"@[0] == 'h');
    lemma_texts_differ("json"@, "html"@, 0);
    assert("svg"@[0] == 's');
    assert("mjs"@[0] == 'm');
    lemma_texts_differ("svg"@, "mjs"@, 0);
    assert("svg"@[0] == 's');
    assert("css"@[0] == 'c');
    lemma_texts_differ("svg"@, "css"@, 0);
    assert("png"@[0] == 'p');
    assert("mjs"@[0] == 'm');
    lemma_texts_differ("png"@, "mjs"@, 0);
    assert("png"@[0] == 'p');
    assert("css"@[0] == 'c');
    lemma_texts_differ("png"@, "css"@, 0);
    assert("png"@[0] == 'p');
    assert("svg"@[0] == 's');
    lemma_texts_differ("png"@, "svg"@, 0);
    assert("wasm"@[0] == 'w');
    assert("html"@[0] == 'h');
    lemma_texts_differ("wasm"@, "html"@, 0);
    assert("wasm"@[0] == 'w');
    assert("json"@[0] == 'j');
    lemma_texts_differ("wasm"@, "json"@, 0);
    assert("wasm"@[0] == 'w');
    assert("jpeg"@[0] == 'j');
    lemma_texts_differ("wasm"@, "jpeg"@, 0);
    assert("wasm"@[1] == 'a');
    assert("webp"@[1] == 'e');
    lemma_texts_differ("wasm"@, "webp"@, 1);
    assert("wasm"@[1] == 'a');
    assert("woff"@[1] == 'o');
    lemma_texts_differ("wasm"@, "woff"@, 1);
}

} // verus!

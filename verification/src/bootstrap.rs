//! The bootstrap responder: computes the upgrade-endpoint path of a route
//! and renders the initial HTML document whose embedded script establishes
//! the upgraded channel.

use vstd::prelude::*;
use vstd::string::StringExecFns;

verus! {

/// The process-wide application title embedded in every bootstrap document.
pub open spec fn spec_app_title() -> Seq<char> {
    "Dioxus LiveView"@
}

/// Returns the process-wide application title.
pub fn app_title() -> (r: String)
    ensures
        r@ == spec_app_title(),
{
    "Dioxus LiveView".to_owned()
}

/// The upgrade-endpoint path for a route: `/ws` when the route is the root
/// path, `{route}/ws` otherwise.
pub open spec fn spec_upgrade_path(p: Seq<char>) -> Seq<char> {
    if p == "/"@ {
        "/ws"@
    } else {
        p + "/ws"@
    }
}

/// Computes the upgrade-endpoint path for a route path.
pub fn upgrade_path(path: &str) -> (r: String)
    ensures
        r@ == spec_upgrade_path(path@),
{
    let owned = path.to_owned();
    if owned.eq(&"/".to_owned()) {
        "/ws".to_owned()
    } else {
        owned.concat("/ws")
    }
}

/// The client bootstrap script, parameterized by the upgrade path: it opens
/// the duplex connection at that path and hands patches and events to the
/// client-side interpreter.
pub open spec fn spec_interpreter_glue(p: Seq<char>) -> Seq<char> {
    "\n<script>\n    const socketPath = \""@ + p
        + "\";\n    const socketUrl = (location.protocol === \"https:\" ? \"wss://\" : \"ws://\") + location.host + socketPath;\n    const socket = new WebSocket(socketUrl);\n    socket.binaryType = \"arraybuffer\";\n</script>\n"@
}

/// Renders the client bootstrap script for the given upgrade path.
pub fn interpreter_glue(ws_path: &str) -> (r: String)
    ensures
        r@ == spec_interpreter_glue(ws_path@),
{
    let mut glue = "\n<script>\n    const socketPath = \"".to_owned();
    glue.append(ws_path);
    glue.append(
        "\";\n    const socketUrl = (location.protocol === \"https:\" ? \"wss://\" : \"ws://\") + location.host + socketPath;\n    const socket = new WebSocket(socketUrl);\n    socket.binaryType = \"arraybuffer\";\n</script>\n",
    );
    proof {
        assert(glue@ =~= spec_interpreter_glue(ws_path@));
    }
    glue
}

/// The complete bootstrap HTML document for a request path: a head with the
/// application title, a body with the well-known mount element, and the
/// bootstrap script configured with the upgrade path computed from the
/// request path.
pub open spec fn spec_index_document(p: Seq<char>) -> Seq<char> {
    "\n        <!DOCTYPE html>\n        <html>\n            <head> <title>"@ + spec_app_title()
        + "</title>  </head>\n            <body> <div id=\"main\"></div> </body>\n            "@
        + spec_interpreter_glue(spec_upgrade_path(p)) + "\n        </html>\n        "@
}

/// Renders the bootstrap HTML document for a request path.  This path always
/// succeeds: there is no failure mode and no side effect.
pub fn index_document(path: &str) -> (r: String)
    ensures
        r@ == spec_index_document(path@),
{
    let mut doc = "\n        <!DOCTYPE html>\n        <html>\n            <head> <title>".to_owned();
    let title = app_title();
    doc.append(title.as_str());
    doc.append("</title>  </head>\n            <body> <div id=\"main\"></div> </body>\n            ");
    let up = upgrade_path(path);
    let glue = interpreter_glue(up.as_str());
    doc.append(glue.as_str());
    doc.append("\n        </html>\n        ");
    proof {
        assert(doc@ =~= spec_index_document(path@));
    }
    doc
}

} // verus!

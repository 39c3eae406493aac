use inkscape_mcp::launch::LaunchSpec;
use inkscape_mcp::resolver::{resolve, ResolveError, SERVER_ID};

fn expect_launch(id: &str) -> LaunchSpec {
    match resolve(id) {
        Ok(spec) => spec,
        Err(e) => panic!("{} did not resolve: {}", id, e.message()),
    }
}

fn expect_unknown(id: &str) -> String {
    match resolve(id) {
        Ok(_) => panic!("{} resolved", id),
        Err(ResolveError::UnknownServer { id: kept }) => {
            assert_eq!(kept, id);
            ResolveError::UnknownServer { id: kept }.message()
        }
    }
}

#[test]
fn known_id_launches_uv_run() {
    let spec = expect_launch("inkscape-mcp");
    assert_eq!(spec.command, "uv");
    assert_eq!(spec.args, vec!["run".to_string(), "inkscape-mcp".to_string()]);
    assert!(spec.env.is_empty());
}

#[test]
fn server_id_constant_resolves() {
    let spec = expect_launch(SERVER_ID);
    assert_eq!(spec.command, "uv");
    assert_eq!(spec.args, vec!["run".to_string(), "inkscape-mcp".to_string()]);
}

#[test]
fn other_server_is_unknown() {
    assert_eq!(expect_unknown("other-server"), "Unknown server: other-server");
}

#[test]
fn empty_id_is_unknown() {
    assert_eq!(expect_unknown(""), "Unknown server: ");
}

#[test]
fn case_and_whitespace_variants_are_unknown() {
    for id in ["Inkscape-MCP", " inkscape-mcp", "inkscape-mcp ", "inkscape-mcp\n", "inkscape_mcp", "inkscape"] {
        let message = expect_unknown(id);
        assert!(message.contains(id));
        assert_eq!(message, format!("Unknown server: {}", id));
    }
}

#[test]
fn non_ascii_id_is_kept_verbatim() {
    let id = "inkscape-mcp\u{e9}";
    assert_eq!(expect_unknown(id), "Unknown server: inkscape-mcp\u{e9}");
}

#[test]
fn resolving_twice_gives_equal_results() {
    let a = expect_launch("inkscape-mcp");
    let b = expect_launch("inkscape-mcp");
    assert_eq!(a.command, b.command);
    assert_eq!(a.args, b.args);
    assert_eq!(a.env, b.env);
    assert_eq!(expect_unknown("other-server"), expect_unknown("other-server"));
}

use rimap_server::json::{parse_json, render_json, Json};
use rimap_server::mcp::response::{envelope_schema, ToolResponse};

#[test]
fn a_response_keeps_its_parts() {
    let r: ToolResponse<u32, &str, &str> = ToolResponse::meta_only(1);
    assert!(r.untrusted.is_none());
    assert!(r.security_warnings.is_empty());
    let r = r.with_untrusted("mail").with_warning("a").with_warning("b");
    assert_eq!(r.meta, 1);
    assert_eq!(r.untrusted, Some("mail"));
    assert_eq!(r.security_warnings, ["a", "b"]);
    let r = r.with_warnings(vec!["c"]);
    assert_eq!(r.security_warnings, ["c"]);
    assert_eq!(r.untrusted, Some("mail"));
}

#[test]
fn a_published_schema_has_no_title() {
    let schema = parse_json(r#"{"title":"ToolResponse","type":"object","properties":{"title":{}}}"#);
    let published = Json::Object(envelope_schema(schema.unwrap()));
    assert_eq!(
        render_json(&published),
        r#"{"properties":{"title":{}},"type":"object"}"#
    );
    assert!(envelope_schema(Json::Bool(true)).is_empty());
}

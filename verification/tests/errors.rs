use webpulse::error::{escape_html, AppError, WebError};

#[test]
fn escape_html_replaces_markup_characters() {
    assert_eq!(escape_html("<b>Tom & Jerry</b>"), "&lt;b&gt;Tom &amp; Jerry&lt;/b&gt;");
    assert_eq!(escape_html("plain text"), "plain text");
    assert_eq!(escape_html("&lt;"), "&amp;lt;");
    assert_eq!(escape_html(""), "");
}

#[test]
fn escaped_text_has_no_angle_brackets() {
    let escaped = escape_html("<<script>>alert('x')</script>");
    assert!(!escaped.contains('<'));
    assert!(!escaped.contains('>'));
}

#[test]
fn error_status_codes() {
    assert_eq!(AppError::Database("x".into()).status(), 500);
    assert_eq!(AppError::Template("x".into()).status(), 500);
    assert_eq!(AppError::NotFound("x".into()).status(), 404);
    assert_eq!(AppError::BadRequest("x".into()).status(), 400);
    assert_eq!(AppError::Request("x".into()).status(), 502);
}

#[test]
fn error_messages() {
    assert_eq!(AppError::Database("locked".into()).to_string(), "Database error: locked");
    assert_eq!(AppError::Template("bad".into()).to_string(), "Template error: bad");
    assert_eq!(AppError::NotFound("Monitor 3 not found".into()).to_string(), "Not found: Monitor 3 not found");
    assert_eq!(AppError::BadRequest("no".into()).to_string(), "Bad request: no");
    assert_eq!(AppError::Request("timeout".into()).to_string(), "Request error: timeout");
}

#[test]
fn json_body_quotes_the_message() {
    assert_eq!(
        AppError::NotFound("Monitor 3 not found".into()).json_body(),
        r#"{"error":"Not found: Monitor 3 not found"}"#
    );
    assert_eq!(
        AppError::BadRequest("URL 'a\"b' is odd".into()).json_body(),
        r#"{"error":"Bad request: URL 'a\"b' is odd"}"#
    );
}

#[test]
fn web_error_renders_escaped_fragment() {
    let error = WebError::from(AppError::BadRequest("<script>".into()));
    assert_eq!(error.status(), 400);
    assert_eq!(
        error.body(),
        r#"<div class="border border-red-700 text-red-400 rounded p-4 text-sm">Bad request: &lt;script&gt;</div>"#
    );
}

//! Errors of the library, the HTTP status each maps to, and the bodies that
//! the JSON API and the web pages answer them with.
use vstd::prelude::*;

use crate::text::{owned, push_char};

verus! {

/// Everything that can go wrong while serving a request. The payload of the
/// database, template and request variants is the message of the underlying error.
#[derive(Clone, Debug, PartialEq, Eq)]
pub enum AppError {
    Database(String),
    Template(String),
    NotFound(String),
    BadRequest(String),
    Request(String),
}

/// The result of a fallible operation of the library.
pub type AppResult<T> = Result<T, AppError>;

impl AppError {
    /// The HTTP status code answered for the error.
    pub open spec fn status_code(self) -> u16 {
        match self {
            AppError::Database(_) | AppError::Template(_) => 500,
            AppError::NotFound(_) => 404,
            AppError::BadRequest(_) => 400,
            AppError::Request(_) => 502,
        }
    }

    /// The error's message, as its `Display` rendering gives it.
    pub open spec fn text(self) -> Seq<char> {
        match self {
            AppError::Database(m) => "Database error: "@ + m@,
            AppError::Template(m) => "Template error: "@ + m@,
            AppError::NotFound(m) => "Not found: "@ + m@,
            AppError::BadRequest(m) => "Bad request: "@ + m@,
            AppError::Request(m) => "Request error: "@ + m@,
        }
    }

    /// The HTTP status code answered for the error.
    pub fn status(&self) -> (r: u16)
        ensures
            r == self.status_code(),
    {
        match self {
            AppError::Database(_) | AppError::Template(_) => 500,
            AppError::NotFound(_) => 404,
            AppError::BadRequest(_) => 400,
            AppError::Request(_) => 502,
        }
    }

    /// The error's message.
    pub fn to_string(&self) -> (r: String)
        ensures
            r@ == self.text(),
    {
        let (prefix, detail) = match self {
            AppError::Database(m) => ("Database error: ", m),
            AppError::Template(m) => ("Template error: ", m),
            AppError::NotFound(m) => ("Not found: ", m),
            AppError::BadRequest(m) => ("Bad request: ", m),
            AppError::Request(m) => ("Request error: ", m),
        };
        let mut out = owned(prefix);
        out.append(detail.as_str());
        out
    }

    /// The JSON body the API answers the error with: an object whose `error`
    /// member holds the message.
    pub fn json_body(&self) -> (r: String)
        ensures
            r@ == "{\"error\":"@ + json_string_literal(self.text()) + "}"@,
    {
        let message = self.to_string();
        let mut out = owned("{\"error\":");
        out.append(json_string(message.as_str()).as_str());
        out.append("}");
        out
    }
}

/// The JSON text of a string value, quoted and escaped as `serde_json` writes it.
pub uninterp spec fn json_string_literal(s: Seq<char>) -> Seq<char>;

/// Serialises a string with `serde_json::to_string`. Serialising a `str` writes
/// into an in-memory buffer and cannot fail, which the source of `serde_json` shows.
#[verifier::external_body]
fn json_string(s: &str) -> (r: String)
    ensures
        r@ == json_string_literal(s@),
{
    serde_json::to_string(s).expect("serialising a str into memory cannot fail")
}

/// The HTML-escaped form of a character.
pub open spec fn escape_char(c: char) -> Seq<char> {
    if c == '&' {
        "&amp;"@
    } else if c == '<' {
        "&lt;"@
    } else if c == '>' {
        "&gt;"@
    } else {
        seq![c]
    }
}

/// `s` with `&`, `<` and `>` replaced by their HTML entities.
pub open spec fn escaped(s: Seq<char>) -> Seq<char>
    decreases s.len(),
{
    if s.len() == 0 {
        Seq::empty()
    } else {
        escaped(s.drop_last()) + escape_char(s.last())
    }
}

/// Replaces `&`, `<` and `>` by their HTML entities, so the text can be placed
/// inside an HTML element.
pub fn escape_html(input: &str) -> (r: String)
    ensures
        r@ == escaped(input@),
{
    let mut out = String::new();
    for c in it: input.chars()
        invariant
            it.seq() == input@,
            out@ == escaped(it.seq().take(it.index())),
    {
        let ghost before = it.seq().take(it.index());
        if c == '&' {
            out.append("&amp;");
        } else if c == '<' {
            out.append("&lt;");
        } else if c == '>' {
            out.append("&gt;");
        } else {
            push_char(&mut out, c);
        }
        assert(it.seq().take(it.index() + 1) =~= before.push(c));
        assert(before.push(c).drop_last() =~= before);
        assert(out@ =~= escaped(before.push(c)));
    }
    assert(input@.take(input@.len() as int) =~= input@);
    out
}

/// The characters that end HTML tags or start one never survive escaping.
pub proof fn law_escaped_has_no_angle_brackets(s: Seq<char>)
    ensures
        forall|i: int| 0 <= i < escaped(s).len() ==> #[trigger] escaped(s)[i] != '<' && escaped(s)[i] != '>',
    decreases s.len(),
{
    reveal_strlit("&amp;");
    reveal_strlit("&lt;");
    reveal_strlit("&gt;");
    if s.len() > 0 {
        law_escaped_has_no_angle_brackets(s.drop_last());
        let prefix = escaped(s.drop_last());
        let tail = escape_char(s.last());
        assert forall|i: int| 0 <= i < escaped(s).len() implies #[trigger] escaped(s)[i] != '<' && escaped(s)[i] != '>' by {
            if i < prefix.len() {
                assert(escaped(s)[i] == prefix[i]);
            } else {
                assert(escaped(s)[i] == tail[i - prefix.len()]);
            }
        }
    }
}

/// Escaping text without `&`, `<` and `>` leaves it unchanged.
pub proof fn law_escape_keeps_plain_text(s: Seq<char>)
    requires
        forall|i: int| 0 <= i < s.len() ==> #[trigger] s[i] != '&' && s[i] != '<' && s[i] != '>',
    ensures
        escaped(s) == s,
    decreases s.len(),
{
    if s.len() > 0 {
        law_escape_keeps_plain_text(s.drop_last());
        assert(s.drop_last().push(s.last()) =~= s);
    }
}

/// An error as the web pages show it: an HTML fragment in place of the JSON body.
#[derive(Clone, Debug, PartialEq, Eq)]
pub struct WebError(pub AppError);

impl WebError {
    /// The HTTP status code answered for the error.
    pub fn status(&self) -> (r: u16)
        ensures
            r == self.0.status_code(),
    {
        self.0.status()
    }

    /// The HTML fragment the page shows for the error, with the message escaped.
    pub fn body(&self) -> (r: String)
        ensures
            r@ == "<div class=\"border border-red-700 text-red-400 rounded p-4 text-sm\">"@
                + escaped(self.0.text()) + "</div>"@,
    {
        let message = escape_html(self.0.to_string().as_str());
        let mut out = owned("<div class=\"border border-red-700 text-red-400 rounded p-4 text-sm\">");
        out.append(message.as_str());
        out.append("</div>");
        out
    }
}

impl From<AppError> for WebError {
    fn from(error: AppError) -> (r: WebError)
        ensures
            r == WebError(error),
    {
        WebError(error)
    }
}

impl vstd::std_specs::convert::FromSpecImpl<AppError> for WebError {
    open spec fn obeys_from_spec() -> bool {
        true
    }

    open spec fn from_spec(error: AppError) -> WebError {
        WebError(error)
    }
}

} // verus!

use crate::error::{AcmeError, AcmeErrorKind, AcmeErrorView, Error};
use crate::json::{json_document, parse_json};
use vstd::prelude::*;
use vstd::string::*;

verus! {

/// The media type of a problem document.
pub const PROBLEM_JSON: &'static str = "application/problem+json";

/// A response as the network layer hands it over: the status code, the
/// headers in the order in which they came, and the body as text.
#[derive(Debug, Clone)]
pub struct ReqResult {
    pub body: String,
    pub status: u16,
    pub headers: Vec<(String, String)>,
}

/// The code of a character, with the letters `A` to `Z` taken as `a` to `z`.
pub open spec fn ascii_lower_code(c: char) -> int {
    if 65 <= c as u32 <= 90 {
        c as u32 + 32
    } else {
        c as u32 as int
    }
}

/// Whether two texts are equal but for the case of their ASCII letters.
pub open spec fn eq_ignore_ascii_case(a: Seq<char>, b: Seq<char>) -> bool {
    a.len() == b.len() && forall|i: int|
        0 <= i < a.len() ==> ascii_lower_code(#[trigger] a[i]) == ascii_lower_code(b[i])
}

/// The value of the first header whose name is `name`, whatever the case of
/// its letters.
pub open spec fn header_value(headers: Seq<(String, String)>, name: Seq<char>) -> Option<Seq<char>>
    decreases headers.len(),
{
    if headers.len() == 0 {
        None
    } else if eq_ignore_ascii_case(headers[0].0@, name) {
        Some(headers[0].1@)
    } else {
        header_value(headers.skip(1), name)
    }
}

/// Whether a character is visible ASCII as a header value may hold it: a
/// character from the space to the tilde, or a tab.
pub open spec fn is_visible_ascii_char(c: char) -> bool {
    (32 <= c as u32 && (c as u32) < 127) || c as u32 == 9
}

/// Whether a header value is text: every character of it is visible ASCII.
pub open spec fn visible_ascii(value: Seq<char>) -> bool {
    forall|i: int| 0 <= i < value.len() ==> is_visible_ascii_char(#[trigger] value[i])
}

/// The value of the first header of that name where it is text; a header
/// whose value is no text counts for nothing.
pub open spec fn header_text(headers: Seq<(String, String)>, name: Seq<char>) -> Option<Seq<char>> {
    match header_value(headers, name) {
        Some(value) => if visible_ascii(value) {
            Some(value)
        } else {
            None
        },
        None => None,
    }
}

/// Whether a `Content-Type` value names the media type `media`: it starts
/// with that type, whatever the case of its letters, and either ends there
/// or goes on with a space or a semicolon.
pub open spec fn spec_names_media_type(value: Seq<char>, media: Seq<char>) -> bool {
    value.len() >= media.len() && eq_ignore_ascii_case(value.take(media.len() as int), media) && (
    value.len() == media.len() || value[media.len() as int] == ' ' || value[media.len() as int]
        == ';')
}

/// A natural number in decimal digits.
pub open spec fn decimal_text(n: nat) -> Seq<char>
    decreases n,
{
    if n < 10 {
        seq![(48 + n) as u8 as char]
    } else {
        decimal_text(n / 10).push((48 + n % 10) as u8 as char)
    }
}

/// The problem that stands for a response which claims to be a problem
/// document and is none.
pub open spec fn undecodable_problem(body: Seq<char>) -> AcmeErrorView {
    AcmeErrorView {
        kind: AcmeErrorKind::Unrecognized,
        detail: "Failed to deserialize application/problem+json body: "@ + body,
        subproblems: None,
    }
}

/// The problem that stands for a failed response of any other media type.
pub open spec fn opaque_problem(status: u16, body: Seq<char>) -> AcmeErrorView {
    AcmeErrorView {
        kind: AcmeErrorKind::Unrecognized,
        detail: decimal_text(status as nat) + " body: "@ + body,
        subproblems: None,
    }
}

/// Whether a response declares its body to be a problem document.
pub open spec fn declares_problem_document(res: ReqResult) -> bool {
    match header_value(res.headers@, "content-type"@) {
        Some(value) => spec_names_media_type(value, PROBLEM_JSON@),
        None => false,
    }
}

/// The problem that a failed response reports.
pub open spec fn problem_of(res: ReqResult) -> AcmeErrorView {
    if declares_problem_document(res) {
        match json_document(res.body@) {
            Some(doc) => match AcmeErrorView::from_json(doc) {
                Some(problem) => problem,
                None => undecodable_problem(res.body@),
            },
            None => undecodable_problem(res.body@),
        }
    } else {
        opaque_problem(res.status, res.body@)
    }
}

fn lower_code(c: char) -> (code: u32)
    ensures
        code == ascii_lower_code(c),
{
    let code = c as u32;
    if 65 <= code && code <= 90 {
        code + 32
    } else {
        code
    }
}

/// Compares two texts, taking the letters `A` to `Z` as `a` to `z`.
pub fn same_ignoring_ascii_case(a: &str, b: &str) -> (same: bool)
    ensures
        same == eq_ignore_ascii_case(a@, b@),
{
    let n = a.unicode_len();
    if n != b.unicode_len() {
        return false;
    }
    let mut i: usize = 0;
    while i < n
        invariant
            i <= n,
            n == a@.len(),
            n == b@.len(),
            forall|j: int| 0 <= j < i ==> ascii_lower_code(#[trigger] a@[j]) == ascii_lower_code(b@[j]),
        decreases n - i,
    {
        if lower_code(a.get_char(i)) != lower_code(b.get_char(i)) {
            return false;
        }
        i += 1;
    }
    true
}

/// Writes a status code in decimal digits.
pub fn status_text(status: u16) -> (text: String)
    ensures
        text@ == decimal_text(status as nat),
{
    let mut out = String::new();
    let d4 = (status / 10000) as u8;
    let d3 = ((status / 1000) % 10) as u8;
    let d2 = ((status / 100) % 10) as u8;
    let d1 = ((status / 10) % 10) as u8;
    let d0 = (status % 10) as u8;
    if status >= 10000 {
        out.append(digit_text(d4));
    }
    if status >= 1000 {
        out.append(digit_text(d3));
    }
    if status >= 100 {
        out.append(digit_text(d2));
    }
    if status >= 10 {
        out.append(digit_text(d1));
    }
    out.append(digit_text(d0));
    proof {
        let n = status as nat;
        reveal_with_fuel(decimal_text, 6);
        assert(out@ =~= decimal_text(n));
    }
    out
}

fn digit_text(d: u8) -> (text: &'static str)
    requires
        d < 10,
    ensures
        text@ == seq![(48 + d) as u8 as char],
{
    proof {
        reveal_strlit("0");
        reveal_strlit("1");
        reveal_strlit("2");
        reveal_strlit("3");
        reveal_strlit("4");
        reveal_strlit("5");
        reveal_strlit("6");
        reveal_strlit("7");
        reveal_strlit("8");
        reveal_strlit("9");
    }
    let text = if d == 0 {
        "0"
    } else if d == 1 {
        "1"
    } else if d == 2 {
        "2"
    } else if d == 3 {
        "3"
    } else if d == 4 {
        "4"
    } else if d == 5 {
        "5"
    } else if d == 6 {
        "6"
    } else if d == 7 {
        "7"
    } else if d == 8 {
        "8"
    } else {
        "9"
    };
    assert(text@ =~= seq![(48 + d) as u8 as char]);
    text
}

impl ReqResult {
    /// The value of the first header of that name, whatever the case of its
    /// letters, as it came: `req_expect_header` asks for text.
    pub fn header(&self, name: &str) -> (r: Option<String>)
        ensures
            match r {
                Some(value) => header_value(self.headers@, name@) == Some(value@),
                None => header_value(self.headers@, name@).is_none(),
            },
    {
        let mut i: usize = 0;
        proof {
            assert(self.headers@.skip(0) =~= self.headers@);
        }
        while i < self.headers.len()
            invariant
                i <= self.headers.len(),
                header_value(self.headers@, name@) == header_value(
                    self.headers@.skip(i as int),
                    name@,
                ),
            decreases self.headers.len() - i,
        {
            proof {
                assert(self.headers@.skip(i as int).skip(1) =~= self.headers@.skip(i as int + 1));
                assert(self.headers@.skip(i as int)[0] == self.headers@[i as int]);
            }
            if same_ignoring_ascii_case(self.headers[i].0.as_str(), name) {
                return Some(self.headers[i].1.clone());
            }
            i += 1;
        }
        None
    }

    /// Whether the response declares its body to be a problem document.
    pub fn is_problem_document(&self) -> (r: bool)
        ensures
            r == declares_problem_document(*self),
    {
        match self.header("content-type") {
            Some(value) => names_media_type(value.as_str(), PROBLEM_JSON),
            None => false,
        }
    }
}

/// Whether a `Content-Type` value names the media type `media`.
pub fn names_media_type(value: &str, media: &str) -> (r: bool)
    ensures
        r == spec_names_media_type(value@, media@),
{
    let n = media.unicode_len();
    let m = value.unicode_len();
    if m < n {
        return false;
    }
    let mut i: usize = 0;
    while i < n
        invariant
            i <= n,
            n == media@.len(),
            m == value@.len(),
            n <= m,
            forall|j: int|
                0 <= j < i ==> ascii_lower_code(#[trigger] value@[j]) == ascii_lower_code(media@[j]),
        decreases n - i,
    {
        if lower_code(value.get_char(i)) != lower_code(media.get_char(i)) {
            proof {
                assert(value@.take(n as int)[i as int] == value@[i as int]);
            }
            return false;
        }
        i += 1;
    }
    proof {
        assert forall|j: int| 0 <= j < n implies ascii_lower_code(
            #[trigger] value@.take(n as int)[j],
        ) == ascii_lower_code(media@[j]) by {
            assert(value@.take(n as int)[j] == value@[j]);
        }
    }
    if m == n {
        return true;
    }
    let next = value.get_char(n);
    next == ' ' || next == ';'
}

/// Whether a header value is text: every character of it is visible ASCII.
pub fn is_visible_ascii(value: &str) -> (r: bool)
    ensures
        r == visible_ascii(value@),
{
    let n = value.unicode_len();
    let mut i: usize = 0;
    while i < n
        invariant
            i <= n,
            n == value@.len(),
            forall|j: int| 0 <= j < i ==> is_visible_ascii_char(#[trigger] value@[j]),
        decreases n - i,
    {
        let code = value.get_char(i) as u32;
        if !((32 <= code && code < 127) || code == 9) {
            return false;
        }
        i += 1;
    }
    true
}

/// Reads the named header of a response, which must be there and hold
/// text.
pub fn req_expect_header(res: &ReqResult, name: &str) -> (r: Result<String, Error>)
    ensures
        match header_value(res.headers@, name@) {
            Some(value) => if visible_ascii(value) {
                r matches Ok(found) && found@ == value
            } else {
                r matches Err(Error::MalformedHeader(malformed)) && malformed@ == name@
            },
            None => r matches Err(Error::MissingHeader(missing)) && missing@ == name@,
        },
{
    match res.header(name) {
        Some(value) => if is_visible_ascii(value.as_str()) {
            Ok(value)
        } else {
            Err(Error::MalformedHeader(String::from_str(name)))
        },
        None => Err(Error::MissingHeader(String::from_str(name))),
    }
}

/// The problem that a response reports: none for status 200, and for any
/// other status the one that its body denotes where it declares a problem
/// document and the body is one, and a stand-in that quotes the body in
/// every other case.
pub fn problem_report(res: &ReqResult) -> (r: Option<AcmeError>)
    ensures
        res.status == 200 ==> r.is_none(),
        res.status != 200 ==> (r matches Some(problem) && problem@ == problem_of(*res)),
{
    if res.status == 200 {
        return None;
    }
    if res.is_problem_document() {
        let decoded = match parse_json(res.body.as_str()) {
            Ok(doc) => AcmeError::from_json(&doc),
            Err(_) => None,
        };
        match decoded {
            Some(problem) => Some(problem),
            None => {
                let mut detail = String::from_str(
                    "Failed to deserialize application/problem+json body: ",
                );
                detail.append(res.body.as_str());
                Some(AcmeError::new(AcmeErrorKind::Unrecognized, detail, None))
            },
        }
    } else {
        let mut detail = status_text(res.status);
        detail.append(" body: ");
        detail.append(res.body.as_str());
        Some(AcmeError::new(AcmeErrorKind::Unrecognized, detail, None))
    }
}

/// Tells a successful response from a failed one: a response with status
/// 200 passes through unchanged, any other gives the problem that it
/// reports.
pub fn req_handle_error(res: ReqResult) -> (r: Result<ReqResult, AcmeError>)
    ensures
        res.status == 200 ==> r == Ok::<ReqResult, AcmeError>(res),
        res.status != 200 ==> (r matches Err(problem) && problem@ == problem_of(res)),
{
    match problem_report(&res) {
        None => Ok(res),
        Some(problem) => Err(problem),
    }
}

} // verus!

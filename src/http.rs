//! Requests as the router sees them and responses as they go on the wire.
use vstd::prelude::*;
use crate::form::{form_pairs, form_pairs_of, pairs_view};
use crate::text::{decimal_spec, push_decimal};

verus! {

/// The request methods that the protocol recognizer tells apart.
#[derive(PartialEq, Eq, Structural, Debug, Clone, Copy)]
pub enum Method {
    CONNECT,
    DELETE,
    GET,
    HEAD,
    OPTIONS,
    POST,
    PUT,
    PATCH,
    TRACE,
}

/// A response: status code, headers in the order they were added, and an
/// optional body of JSON text.
pub struct Response {
    pub status: u16,
    pub headers: Vec<(String, String)>,
    pub body: Option<String>,
}

/// The header that names the origin allowed to read a response.
pub open spec fn cors_header() -> Seq<char> {
    "Access-Control-Allow-Origin"@
}

/// The header that names the media type of a body.
pub open spec fn content_type_header() -> Seq<char> {
    "Content-Type"@
}

/// The media type of every body this server sends.
pub open spec fn json_media_type() -> Seq<char> {
    "application/json"@
}

/// The headers of a response as pairs of character sequences.
pub open spec fn header_view(h: Seq<(String, String)>) -> Seq<(Seq<char>, Seq<char>)> {
    h.map_values(|p: (String, String)| (p.0@, p.1@))
}

/// Whether the response carries header `name` with `value`.
pub open spec fn has_header(r: Response, name: Seq<char>, value: Seq<char>) -> bool {
    exists|i: int| 0 <= i < r.headers@.len() && #[trigger] header_view(r.headers@)[i] == (name, value)
}

/// Whether the response names `origin` as the origin allowed to read it.
pub open spec fn carries_cors(r: Response, origin: Seq<char>) -> bool {
    has_header(r, cors_header(), origin)
}

/// `r` is an empty answer with `status` that names only `origin`.
pub open spec fn is_bare(r: Response, status: u16, origin: Seq<char>) -> bool {
    &&& r.status == status
    &&& r.body is None
    &&& header_view(r.headers@) == seq![(cors_header(), origin)]
}

/// `r` is a success carrying the JSON text `body`, readable by `origin`.
pub open spec fn is_json(r: Response, body: Seq<char>, origin: Seq<char>) -> bool {
    &&& r.status == 200
    &&& r.body matches Some(b) && b@ == body
    &&& header_view(r.headers@) == seq![
        (content_type_header(), json_media_type()),
        (cors_header(), origin),
    ]
}

/// The reason phrase of a status code.
pub open spec fn reason_spec(status: u16) -> Seq<char> {
    if status == 200 {
        "OK"@
    } else if status == 302 {
        "Found"@
    } else if status == 400 {
        "Bad Request"@
    } else if status == 404 {
        "Not Found"@
    } else if status == 413 {
        "Payload Too Large"@
    } else if status == 500 {
        "Internal Server Error"@
    } else {
        "Unknown"@
    }
}

/// The header lines of a response, each ended by CRLF.
pub open spec fn header_lines(h: Seq<(Seq<char>, Seq<char>)>) -> Seq<char>
    decreases h.len(),
{
    if h.len() == 0 {
        Seq::empty()
    } else {
        header_lines(h.drop_last()) + h.last().0 + ": "@ + h.last().1 + "\r\n"@
    }
}

/// The body text of a response, empty when it has none.
pub open spec fn body_text(r: Response) -> Seq<char> {
    match r.body {
        Some(b) => b@,
        None => Seq::empty(),
    }
}

/// The length in bytes of the UTF-8 encoding of `s`, as a machine size.
pub open spec fn byte_len(s: Seq<char>) -> usize {
    vstd::utf8::encode_utf8(s).len() as usize
}

/// The HTTP/1.1 framing of a response: the status line, the headers, the
/// length of the body in bytes, a blank line and the body.
pub open spec fn wire_spec(r: Response) -> Seq<char> {
    "HTTP/1.1 "@ + decimal_spec(r.status as nat) + " "@ + reason_spec(r.status) + "\r\n"@
        + header_lines(header_view(r.headers@)) + "Content-Length: "@
        + decimal_spec(byte_len(body_text(r)) as nat) + "\r\n\r\n"@ + body_text(r)
}

/// `k` is the position of the first `c` in `s`.
pub open spec fn first_at(s: Seq<char>, c: char, k: int) -> bool {
    0 <= k < s.len() && s[k] == c && forall|j: int| 0 <= j < k ==> s[j] != c
}

/// Whether `c` occurs in `s`.
pub open spec fn occurs(s: Seq<char>, c: char) -> bool {
    exists|k: int| 0 <= k < s.len() && s[k] == c
}

/// The position of the first `c` in `s`, where it occurs.
pub open spec fn first_index(s: Seq<char>, c: char) -> int {
    choose|k: int| first_at(s, c, k)
}

proof fn lemma_first_index(s: Seq<char>, c: char)
    requires
        occurs(s, c),
    ensures
        first_at(s, c, first_index(s, c)),
        forall|k: int| first_at(s, c, k) ==> k == first_index(s, c),
    decreases s.len(),
{
    let w = choose|k: int| 0 <= k < s.len() && s[k] == c;
    if s[0] == c {
        assert(first_at(s, c, 0));
    } else {
        let t = s.drop_first();
        assert(t[w - 1] == c);
        lemma_first_index(t, c);
        let k = first_index(t, c);
        assert forall|j: int| 0 <= j < k + 1 implies s[j] != c by {
            if j > 0 {
                assert(s[j] == t[j - 1]);
            }
        }
        assert(first_at(s, c, k + 1));
    }
}

/// The text before the first `sep`, or all of `s`.
pub open spec fn before_spec(s: Seq<char>, sep: char) -> Seq<char> {
    if occurs(s, sep) {
        s.subrange(0, first_index(s, sep))
    } else {
        s
    }
}

/// The text after the first `sep`, if `s` holds one.
pub open spec fn after_spec(s: Seq<char>, sep: char) -> Option<Seq<char>> {
    if occurs(s, sep) {
        Some(s.subrange(first_index(s, sep) + 1, s.len() as int))
    } else {
        None
    }
}

/// The position of the first `c` in `s`, if any.
pub fn find_char(s: &str, c: char) -> (r: Option<usize>)
    ensures
        r is Some <==> occurs(s@, c),
        r matches Some(k) ==> k == first_index(s@, c),
{
    let n = s.unicode_len();
    let mut i: usize = 0;
    while i < n
        invariant
            n == s@.len(),
            i <= n,
            forall|j: int| 0 <= j < i ==> s@[j] != c,
        decreases n - i,
    {
        if s.get_char(i) == c {
            proof {
                assert(first_at(s@, c, i as int));
                lemma_first_index(s@, c);
            }
            return Some(i);
        }
        i = i + 1;
    }
    None
}

/// The values that `pairs` give to `key`, in order.
pub open spec fn values_spec(pairs: Seq<(Seq<char>, Seq<char>)>, key: Seq<char>) -> Seq<Seq<char>>
    decreases pairs.len(),
{
    if pairs.len() == 0 {
        Seq::empty()
    } else {
        let rest = values_spec(pairs.drop_last(), key);
        if pairs.last().0 == key {
            rest.push(pairs.last().1)
        } else {
            rest
        }
    }
}

/// A request target split into its path and its query string.
pub struct Uri {
    pub path: String,
    pub query: Option<String>,
}

/// The query string of a target as characters, if it has one.
pub open spec fn query_view(q: Option<String>) -> Option<Seq<char>> {
    match q {
        Some(s) => Some(s@),
        None => None,
    }
}

/// The decoded values that `uri`'s query gives to the decoded name `key`,
/// in order.
pub open spec fn uri_values_spec(uri: Uri, key: Seq<char>) -> Seq<Seq<char>> {
    match uri.query {
        Some(q) => values_spec(form_pairs_of(q@), key),
        None => Seq::empty(),
    }
}

impl Uri {
    /// Splits a request target at its first `?` into path and query.
    pub fn parse(target: &str) -> (r: Uri)
        ensures
            r.path@ == before_spec(target@, '?'),
            query_view(r.query) == after_spec(target@, '?'),
    {
        match find_char(target, '?') {
            Some(k) => {
                proof {
                    lemma_first_index(target@, '?');
                }
                let n = target.unicode_len();
                let path = target.substring_char(0, k).to_owned();
                let query = target.substring_char(k + 1, n).to_owned();
                Uri { path, query: Some(query) }
            },
            None => Uri { path: target.to_owned(), query: None },
        }
    }
}

/// The values that the query of `uri` gives to `key`, in the order they
/// appear, names and values form-decoded: `ids[]=a&ids%5B%5D=b` gives `a`
/// and `b` to `ids[]`.
pub fn query_values(uri: &Uri, key: &str) -> (r: Vec<String>)
    ensures
        r@.map_values(|v: String| v@) == uri_values_spec(*uri, key@),
{
    let mut r: Vec<String> = Vec::new();
    match &uri.query {
        None => {
            assert(r@.map_values(|v: String| v@) =~= Seq::<Seq<char>>::empty());
            r
        },
        Some(q) => {
            let pairs = form_pairs(q.as_str());
            let ghost pv = pairs_view(pairs@);
            let wanted = key.to_owned();
            let mut i: usize = 0;
            while i < pairs.len()
                invariant
                    i <= pairs@.len(),
                    pv == pairs_view(pairs@),
                    wanted@ == key@,
                    r@.map_values(|v: String| v@) == values_spec(pv.subrange(0, i as int), key@),
                decreases pairs@.len() - i,
            {
                let (name, value) = &pairs[i];
                let ghost prefix = pv.subrange(0, i as int + 1);
                proof {
                    assert(prefix.drop_last() =~= pv.subrange(0, i as int));
                    assert(prefix.last() == (name@, value@));
                }
                if *name == wanted {
                    let ghost before = r@;
                    r.push(value.clone());
                    assert(r@.map_values(|v: String| v@) =~= before.map_values(|v: String| v@).push(value@));
                }
                i = i + 1;
            }
            assert(pv.subrange(0, i as int) =~= pv);
            r
        },
    }
}

fn literal(s: &str) -> (r: String)
    ensures
        r@ == s@,
{
    s.to_owned()
}

fn reason(status: u16) -> (r: &'static str)
    ensures
        r@ == reason_spec(status),
{
    if status == 200 {
        "OK"
    } else if status == 302 {
        "Found"
    } else if status == 400 {
        "Bad Request"
    } else if status == 404 {
        "Not Found"
    } else if status == 413 {
        "Payload Too Large"
    } else if status == 500 {
        "Internal Server Error"
    } else {
        "Unknown"
    }
}

impl Default for Response {
    /// An empty success: status 200, no headers, no body.
    fn default() -> (r: Response)
        ensures
            r.status == 200,
            r.headers@.len() == 0,
            r.body is None,
    {
        Response { status: 200, headers: Vec::new(), body: None }
    }
}

impl Response {
    /// An empty response with the given status.
    pub fn empty(status: u16) -> (r: Response)
        ensures
            r.status == status,
            r.headers@.len() == 0,
            r.body is None,
    {
        Response { status, headers: Vec::new(), body: None }
    }

    /// The answer for a missing resource, an unregistered route, or a
    /// protected route reached without an authenticated user.
    pub fn not_found() -> (r: Response)
        ensures
            r.status == 404,
            r.headers@.len() == 0,
            r.body is None,
    {
        Response::empty(404)
    }

    /// The generic answer for a handler failure; it tells nothing of the cause.
    pub fn failed() -> (r: Response)
        ensures
            r.status == 500,
            r.headers@.len() == 0,
            r.body is None,
    {
        Response::empty(500)
    }

    /// A success carrying the JSON text `body`.
    pub fn ok_json(body: String) -> (r: Response)
        ensures
            r.status == 200,
            header_view(r.headers@) == seq![(content_type_header(), json_media_type())],
            r.body == Some(body),
    {
        let mut headers: Vec<(String, String)> = Vec::new();
        headers.push((literal("Content-Type"), literal("application/json")));
        let r = Response { status: 200, headers, body: Some(body) };
        assert(header_view(r.headers@) =~= seq![(content_type_header(), json_media_type())]);
        r
    }

    /// The same response, also naming `origin` as allowed to read it.
    pub fn cors(self, origin: &String) -> (r: Response)
        ensures
            r.status == self.status,
            r.body == self.body,
            header_view(r.headers@) == header_view(self.headers@).push((cors_header(), origin@)),
            carries_cors(r, origin@),
    {
        let Response { status, mut headers, body } = self;
        let ghost before = headers@;
        headers.push((literal("Access-Control-Allow-Origin"), origin.clone()));
        let r = Response { status, headers, body };
        assert(header_view(r.headers@) =~= header_view(before).push((cors_header(), origin@)));
        assert(header_view(r.headers@)[before.len() as int] == (cors_header(), origin@));
        r
    }

    /// A success carrying the JSON text `body`, readable by `origin`.
    pub fn json_for(body: String, origin: &String) -> (r: Response)
        ensures
            is_json(r, body@, origin@),
            carries_cors(r, origin@),
    {
        let r = Response::ok_json(body).cors(origin);
        assert(header_view(r.headers@) =~= seq![
            (content_type_header(), json_media_type()),
            (cors_header(), origin@),
        ]);
        r
    }

    /// An empty answer with `status`, readable by `origin`.
    pub fn bare_for(status: u16, origin: &String) -> (r: Response)
        ensures
            is_bare(r, status, origin@),
            carries_cors(r, origin@),
    {
        let r = Response::empty(status).cors(origin);
        assert(header_view(r.headers@) =~= seq![(cors_header(), origin@)]);
        r
    }

    /// The response framed as HTTP/1.1 text, ready to be written once.
    pub fn to_wire(&self) -> (r: String)
        ensures
            r@ == wire_spec(*self),
    {
        let mut out = literal("HTTP/1.1 ");
        push_decimal(&mut out, self.status as u64);
        out.append(" ");
        out.append(reason(self.status));
        out.append("\r\n");
        let ghost start = out@;
        let mut i: usize = 0;
        while i < self.headers.len()
            invariant
                i <= self.headers@.len(),
                out@ == start + header_lines(header_view(self.headers@.subrange(0, i as int))),
            decreases self.headers@.len() - i,
        {
            let (name, value) = &self.headers[i];
            out.append(name.as_str());
            out.append(": ");
            out.append(value.as_str());
            out.append("\r\n");
            proof {
                let h = header_view(self.headers@.subrange(0, i as int + 1));
                assert(h.drop_last() =~= header_view(self.headers@.subrange(0, i as int)));
            }
            i = i + 1;
        }
        assert(self.headers@.subrange(0, i as int) =~= self.headers@);
        let body: &str = match &self.body {
            Some(b) => b.as_str(),
            None => "",
        };
        proof {
            reveal_strlit("");
            assert(body@ == body_text(*self));
        }
        out.append("Content-Length: ");
        push_decimal(&mut out, body.len() as u64);
        out.append("\r\n\r\n");
        out.append(body);
        proof {
            assert(out@ =~= wire_spec(*self));
        }
        out
    }
}

} // verus!

use vstd::prelude::*;
use vstd::string::*;

verus! {

/// The HTTP methods the gateway accepts.
#[derive(Clone, Copy, Debug, PartialEq, Eq, Structural)]
pub enum HttpMethod {
    GET,
    POST,
    PUT,
    DELETE,
    PATCH,
}

impl HttpMethod {
    /// The method's name as it is written on the wire and in the signed text.
    pub open spec fn text(self) -> Seq<char> {
        match self {
            HttpMethod::GET => "GET"@,
            HttpMethod::POST => "POST"@,
            HttpMethod::PUT => "PUT"@,
            HttpMethod::DELETE => "DELETE"@,
            HttpMethod::PATCH => "PATCH"@,
        }
    }

    pub fn as_str(&self) -> (res: &'static str)
        ensures
            res@ == self.text(),
    {
        match self {
            HttpMethod::GET => "GET",
            HttpMethod::POST => "POST",
            HttpMethod::PUT => "PUT",
            HttpMethod::DELETE => "DELETE",
            HttpMethod::PATCH => "PATCH",
        }
    }

    pub fn to_string(&self) -> (res: String)
        ensures
            res@ == self.text(),
    {
        self.as_str().to_owned()
    }
}

/// One header of an outbound call.
#[derive(Clone, Debug)]
pub struct Header {
    pub name: String,
    pub value: String,
}

/// An outbound call, signed and ready to be sent. It lives for one call and
/// is never stored.
#[derive(Clone, Debug)]
pub struct SignedRequest {
    pub method: HttpMethod,
    pub url: String,
    pub headers: Vec<Header>,
    pub body: String,
}

/// A field of a signed text: the field itself, closed by a line feed.
pub open spec fn line(field: Seq<char>) -> Seq<char> {
    field + seq!['\n']
}

/// The text an outbound call is signed over: method, path (with its query),
/// timestamp, nonce and body, in that order, each closed by a line feed.
pub open spec fn request_signing_text(
    method: Seq<char>,
    path: Seq<char>,
    timestamp: Seq<char>,
    nonce: Seq<char>,
    body: Seq<char>,
) -> Seq<char> {
    line(method) + line(path) + line(timestamp) + line(nonce) + line(body)
}

/// The text the gateway signs an inbound notification over: timestamp, nonce
/// and body, each closed by a line feed.
pub open spec fn notification_signing_text(
    timestamp: Seq<char>,
    nonce: Seq<char>,
    body: Seq<char>,
) -> Seq<char> {
    line(timestamp) + line(nonce) + line(body)
}

/// The text a client SDK invocation is signed over: app id, timestamp, nonce
/// and package string, each closed by a line feed.
pub open spec fn invocation_signing_text(
    app_id: Seq<char>,
    timestamp: Seq<char>,
    nonce: Seq<char>,
    package: Seq<char>,
) -> Seq<char> {
    line(app_id) + line(timestamp) + line(nonce) + line(package)
}

/// The value of the `Authorization` header: the scheme's name, then the five
/// quoted parameters in their fixed order.
pub open spec fn authorization_text(
    mchid: Seq<char>,
    nonce: Seq<char>,
    timestamp: Seq<char>,
    serial_no: Seq<char>,
    signature: Seq<char>,
) -> Seq<char> {
    "WECHATPAY2-SHA256-RSA2048 mchid=\""@ + mchid + "\",nonce_str=\""@ + nonce
        + "\",timestamp=\""@ + timestamp + "\",serial_no=\""@ + serial_no + "\",signature=\""@
        + signature + "\""@
}

pub fn build_request_signing_text(
    method: HttpMethod,
    path: &str,
    timestamp: &str,
    nonce: &str,
    body: &str,
) -> (res: String)
    ensures
        res@ == request_signing_text(method.text(), path@, timestamp@, nonce@, body@),
{
    proof {
        reveal_strlit("\n");
    }
    let mut text = String::new();
    text.append(method.as_str());
    text.append("\n");
    text.append(path);
    text.append("\n");
    text.append(timestamp);
    text.append("\n");
    text.append(nonce);
    text.append("\n");
    text.append(body);
    text.append("\n");
    assert(text@ =~= request_signing_text(method.text(), path@, timestamp@, nonce@, body@));
    text
}

pub fn build_notification_signing_text(timestamp: &str, nonce: &str, body: &str) -> (res: String)
    ensures
        res@ == notification_signing_text(timestamp@, nonce@, body@),
{
    proof {
        reveal_strlit("\n");
    }
    let mut text = String::new();
    text.append(timestamp);
    text.append("\n");
    text.append(nonce);
    text.append("\n");
    text.append(body);
    text.append("\n");
    assert(text@ =~= notification_signing_text(timestamp@, nonce@, body@));
    text
}

pub fn build_invocation_signing_text(
    app_id: &str,
    timestamp: &str,
    nonce: &str,
    package: &str,
) -> (res: String)
    ensures
        res@ == invocation_signing_text(app_id@, timestamp@, nonce@, package@),
{
    proof {
        reveal_strlit("\n");
    }
    let mut text = String::new();
    text.append(app_id);
    text.append("\n");
    text.append(timestamp);
    text.append("\n");
    text.append(nonce);
    text.append("\n");
    text.append(package);
    text.append("\n");
    assert(text@ =~= invocation_signing_text(app_id@, timestamp@, nonce@, package@));
    text
}

pub fn build_authorization(
    mchid: &str,
    nonce: &str,
    timestamp: &str,
    serial_no: &str,
    signature: &str,
) -> (res: String)
    ensures
        res@ == authorization_text(mchid@, nonce@, timestamp@, serial_no@, signature@),
{
    let mut text = String::new();
    text.append("WECHATPAY2-SHA256-RSA2048 mchid=\"");
    text.append(mchid);
    text.append("\",nonce_str=\"");
    text.append(nonce);
    text.append("\",timestamp=\"");
    text.append(timestamp);
    text.append("\",serial_no=\"");
    text.append(serial_no);
    text.append("\",signature=\"");
    text.append(signature);
    text.append("\"");
    assert(text@ =~= authorization_text(mchid@, nonce@, timestamp@, serial_no@, signature@));
    text
}

/// A field that sits between the same two pieces of text is told by the
/// whole.
pub proof fn lemma_between_cancels(
    before: Seq<char>,
    a: Seq<char>,
    b: Seq<char>,
    after: Seq<char>,
)
    requires
        before + a + after == before + b + after,
    ensures
        a == b,
{
    let left = before + a + after;
    let right = before + b + after;
    assert(left.len() == right.len());
    assert(a.len() == b.len());
    assert(a =~= left.subrange(before.len() as int, (before.len() + a.len()) as int));
    assert(b =~= right.subrange(before.len() as int, (before.len() + b.len()) as int));
}

/// Changing the body, the path or the timestamp of a call, by one byte or by
/// more, and nothing else, changes the text that is signed: a signature made
/// for the one text is then a signature for another text than the one the
/// receiver rebuilds.
pub proof fn lemma_signing_text_tells_change(
    method: Seq<char>,
    path: Seq<char>,
    timestamp: Seq<char>,
    nonce: Seq<char>,
    body: Seq<char>,
    other: Seq<char>,
)
    ensures
        other != body ==> request_signing_text(method, path, timestamp, nonce, other)
            != request_signing_text(method, path, timestamp, nonce, body),
        other != path ==> request_signing_text(method, other, timestamp, nonce, body)
            != request_signing_text(method, path, timestamp, nonce, body),
        other != timestamp ==> request_signing_text(method, path, other, nonce, body)
            != request_signing_text(method, path, timestamp, nonce, body),
{
    let nl = seq!['\n'];
    if request_signing_text(method, path, timestamp, nonce, other) == request_signing_text(
        method,
        path,
        timestamp,
        nonce,
        body,
    ) {
        let before = line(method) + line(path) + line(timestamp) + line(nonce);
        assert(before + other + nl =~= request_signing_text(
            method,
            path,
            timestamp,
            nonce,
            other,
        ));
        assert(before + body + nl =~= request_signing_text(method, path, timestamp, nonce, body));
        lemma_between_cancels(before, other, body, nl);
    }
    if request_signing_text(method, other, timestamp, nonce, body) == request_signing_text(
        method,
        path,
        timestamp,
        nonce,
        body,
    ) {
        let before = line(method);
        let after = nl + line(timestamp) + line(nonce) + line(body);
        assert(before + other + after =~= request_signing_text(
            method,
            other,
            timestamp,
            nonce,
            body,
        ));
        assert(before + path + after =~= request_signing_text(
            method,
            path,
            timestamp,
            nonce,
            body,
        ));
        lemma_between_cancels(before, other, path, after);
    }
    if request_signing_text(method, path, other, nonce, body) == request_signing_text(
        method,
        path,
        timestamp,
        nonce,
        body,
    ) {
        let before = line(method) + line(path);
        let after = nl + line(nonce) + line(body);
        assert(before + other + after =~= request_signing_text(
            method,
            path,
            other,
            nonce,
            body,
        ));
        assert(before + timestamp + after =~= request_signing_text(
            method,
            path,
            timestamp,
            nonce,
            body,
        ));
        lemma_between_cancels(before, other, timestamp, after);
    }
}

/// A text that starts with a field free of line feeds, closed by a line
/// feed, tells both the field and what follows it.
pub proof fn lemma_first_line_is_told(
    a: Seq<char>,
    rest_a: Seq<char>,
    b: Seq<char>,
    rest_b: Seq<char>,
)
    requires
        !a.contains('\n'),
        !b.contains('\n'),
        line(a) + rest_a == line(b) + rest_b,
    ensures
        a == b,
        rest_a == rest_b,
{
    let left = line(a) + rest_a;
    let right = line(b) + rest_b;
    if a.len() < b.len() {
        assert(left[a.len() as int] == '\n');
        assert(right[a.len() as int] == b[a.len() as int]);
        assert(b.contains(b[a.len() as int]));
    }
    if b.len() < a.len() {
        assert(right[b.len() as int] == '\n');
        assert(left[b.len() as int] == a[b.len() as int]);
        assert(a.contains(a[b.len() as int]));
    }
    assert(a =~= left.subrange(0, a.len() as int));
    assert(b =~= right.subrange(0, b.len() as int));
    assert(rest_a =~= left.subrange((a.len() + 1) as int, left.len() as int));
    assert(rest_b =~= right.subrange((b.len() + 1) as int, right.len() as int));
}

/// Where method, path, timestamp and nonce hold no line feed, the signed
/// text tells all five fields: two calls with the same signed text are the
/// same call.
pub proof fn lemma_signing_text_is_injective(
    method: Seq<char>,
    path: Seq<char>,
    timestamp: Seq<char>,
    nonce: Seq<char>,
    body: Seq<char>,
    method2: Seq<char>,
    path2: Seq<char>,
    timestamp2: Seq<char>,
    nonce2: Seq<char>,
    body2: Seq<char>,
)
    requires
        !method.contains('\n') && !path.contains('\n') && !timestamp.contains('\n')
            && !nonce.contains('\n'),
        !method2.contains('\n') && !path2.contains('\n') && !timestamp2.contains('\n')
            && !nonce2.contains('\n'),
        request_signing_text(method, path, timestamp, nonce, body) == request_signing_text(
            method2,
            path2,
            timestamp2,
            nonce2,
            body2,
        ),
    ensures
        method == method2,
        path == path2,
        timestamp == timestamp2,
        nonce == nonce2,
        body == body2,
{
    let r1 = line(path) + line(timestamp) + line(nonce) + line(body);
    let r2 = line(path2) + line(timestamp2) + line(nonce2) + line(body2);
    assert(line(method) + r1 =~= request_signing_text(method, path, timestamp, nonce, body));
    assert(line(method2) + r2 =~= request_signing_text(method2, path2, timestamp2, nonce2, body2));
    lemma_first_line_is_told(method, r1, method2, r2);
    let s1 = line(timestamp) + line(nonce) + line(body);
    let s2 = line(timestamp2) + line(nonce2) + line(body2);
    assert(line(path) + s1 =~= r1);
    assert(line(path2) + s2 =~= r2);
    lemma_first_line_is_told(path, s1, path2, s2);
    let t1 = line(nonce) + line(body);
    let t2 = line(nonce2) + line(body2);
    assert(line(timestamp) + t1 =~= s1);
    assert(line(timestamp2) + t2 =~= s2);
    lemma_first_line_is_told(timestamp, t1, timestamp2, t2);
    lemma_first_line_is_told(nonce, line(body), nonce2, line(body2));
    assert(body =~= line(body).subrange(0, body.len() as int));
    assert(body2 =~= line(body2).subrange(0, body2.len() as int));
}

} // verus!

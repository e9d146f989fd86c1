//! Requests to the robot's control service and its answers, as they stand on the wire.

use vstd::prelude::*;
use vstd::string::*;
use vstd::utf8::*;

use crate::json::{json_parse, opt_str, parse_json, Json, JsonView};
use crate::status::text_value;
use crate::text::{
    chars_of, clip_text, clipped, decimal, decimal_text, decode_lossy, is_digit, is_white,
    law_clipped, law_numbers_are_read_back, lemma_decimal_digits, lossy, parse_u16, text_between,
    u16_of,
};

verus! {

/// Where the robot's control service is.
#[derive(Clone, Debug, PartialEq, Eq)]
pub struct ControlEndpoint {
    pub host: String,
    pub port: u16,
}

pub struct EndpointView {
    pub host: Seq<char>,
    pub port: u16,
}

impl View for ControlEndpoint {
    type V = EndpointView;

    open spec fn view(&self) -> EndpointView {
        EndpointView { host: self.host@, port: self.port }
    }
}

/// A host and a port with a colon between them.
pub open spec fn host_and_port(host: Seq<char>, port: u16) -> Seq<char> {
    host + ":"@ + decimal(port as nat)
}

/// Writes a host and a port with a colon between them.
pub fn address_text(host: &str, port: u16) -> (r: String)
    ensures
        r@ == host_and_port(host@, port),
{
    let number = decimal_text(port as u64);
    host.to_owned().concat(":").concat(number.as_str())
}

/// The service's address as the operator sees it.
pub open spec fn service_url(endpoint: EndpointView) -> Seq<char> {
    "http://"@ + host_and_port(endpoint.host, endpoint.port)
}

impl ControlEndpoint {
    /// The service's address as the operator sees it.
    pub fn display_url(&self) -> (r: String)
        ensures
            r@ == service_url(self@),
    {
        let address = address_text(self.host.as_str(), self.port);
        "http://".to_owned().concat(address.as_str())
    }

    /// A copy of the endpoint.
    pub fn duplicate(&self) -> (r: ControlEndpoint)
        ensures
            r@ == self@,
    {
        ControlEndpoint { host: self.host.clone(), port: self.port }
    }
}

/// How many bytes a text takes in UTF-8, as `str::len` counts them.
pub open spec fn byte_count(s: Seq<char>) -> nat {
    (encode_utf8(s).len() as usize) as nat
}

/// A request: the head, whose length field counts the body's bytes, and the body.
pub open spec fn request_of(
    endpoint: EndpointView,
    method: Seq<char>,
    path: Seq<char>,
    body: Seq<char>,
) -> Seq<char> {
    method + " "@ + path + " HTTP/1.1\r\nHost: "@ + host_and_port(endpoint.host, endpoint.port)
        + "\r\nAccept: application/json\r\nContent-Type: application/json\r\nContent-Length: "@
        + decimal(byte_count(body)) + "\r\nConnection: close\r\n\r\n"@ + body
}

/// The body of a request: without one it is empty.
pub open spec fn body_of(body: Option<Seq<char>>) -> Seq<char> {
    match body {
        Some(b) => b,
        None => Seq::empty(),
    }
}

/// Writes a request. A request without a body has an empty one.
pub fn request_text(
    endpoint: &ControlEndpoint,
    method: &str,
    path: &str,
    body: Option<&str>,
) -> (r: String)
    ensures
        r@ == request_of(endpoint@, method@, path@, body_of(opt_str(body))),
{
    let empty = String::new();
    let body = match body {
        Some(b) => b,
        None => empty.as_str(),
    };
    let address = address_text(endpoint.host.as_str(), endpoint.port);
    let length = decimal_text(body.len() as u64);
    method.to_owned().concat(" ").concat(path).concat(" HTTP/1.1\r\nHost: ").concat(
        address.as_str(),
    ).concat(
        "\r\nAccept: application/json\r\nContent-Type: application/json\r\nContent-Length: ",
    ).concat(length.as_str()).concat("\r\nConnection: close\r\n\r\n").concat(body)
}

/// Whether the empty line that ends a head starts at `i`.
pub open spec fn head_ends_at(s: Seq<char>, i: int) -> bool {
    0 <= i && i + 4 <= s.len() && s[i] == '\r' && s[i + 1] == '\n' && s[i + 2] == '\r' && s[i + 3]
        == '\n'
}

/// Where the head of an answer ends: at the first empty line from `from` on.
pub open spec fn head_end(s: Seq<char>, from: int) -> Option<int>
    decreases s.len() - from,
{
    if from + 4 > s.len() {
        None
    } else if head_ends_at(s, from) {
        Some(from)
    } else {
        head_end(s, from + 1)
    }
}

/// The first place from `from` on where the line is over.
pub open spec fn line_end(s: Seq<char>, from: int) -> int
    decreases s.len() - from,
{
    if from >= s.len() || s[from] == '\n' {
        from
    } else {
        line_end(s, from + 1)
    }
}

/// The first place from `from` on, before `to`, that holds no white space.
pub open spec fn word_start(s: Seq<char>, from: int, to: int) -> int
    decreases to - from,
{
    if from >= to || !is_white(s[from]) {
        from
    } else {
        word_start(s, from + 1, to)
    }
}

/// The first place from `from` on, before `to`, that holds white space.
pub open spec fn word_end(s: Seq<char>, from: int, to: int) -> int
    decreases to - from,
{
    if from >= to || is_white(s[from]) {
        from
    } else {
        word_end(s, from + 1, to)
    }
}

/// The second word of the first line.
pub open spec fn second_word(s: Seq<char>) -> Seq<char> {
    let to = line_end(s, 0);
    let after_first = word_end(s, word_start(s, 0, to), to);
    let from = word_start(s, after_first, to);
    s.subrange(from, word_end(s, from, to))
}

/// The status code in the head of an answer, 0 where there is none.
pub open spec fn status_code_of(head: Seq<char>) -> u16 {
    match u16_of(second_word(head)) {
        Some(code) => code,
        None => 0,
    }
}

/// What is shown of a robot's answer: its message, its detail or its status, whichever
/// comes first, and otherwise the answer's first 180 characters.
pub open spec fn summary_of(body: Seq<char>, document: Option<JsonView>) -> Seq<char> {
    match document {
        Some(d) => match (d.text_at("message"@), d.text_at("detail"@), d.text_at("status"@)) {
            (Some(message), _, _) => message,
            (None, Some(detail), _) => detail,
            (None, None, Some(status)) => status,
            (None, None, None) => clipped(body, 180),
        },
        None => clipped(body, 180),
    }
}

/// The document that an answer is, if it is one.
pub open spec fn document_in(body: Seq<char>) -> Option<JsonView> {
    match json_parse(body) {
        Ok(document) => Some(document),
        Err(_) => None,
    }
}

/// What an operator is told of an answer that is no success.
pub open spec fn failure_of(code: u16, detail: Seq<char>) -> Seq<char> {
    if code == 502 {
        "机器人服务不可用："@ + detail
    } else {
        "请求失败（HTTP "@ + decimal(code as nat) + "）："@ + detail
    }
}

/// What an answer comes to: its body, or what the operator is told.
pub open spec fn response_of(s: Seq<char>) -> Result<Seq<char>, Seq<char>> {
    match head_end(s, 0) {
        None => Err("控制服务返回了无效 HTTP 响应"@),
        Some(end) => {
            let code = status_code_of(s.take(end));
            let body = s.skip(end + 4);
            if 200 <= code < 300 {
                Ok(body)
            } else {
                Err(failure_of(code, summary_of(body, document_in(body))))
            }
        },
    }
}

pub open spec fn text_result(r: Result<String, String>) -> Result<Seq<char>, Seq<char>> {
    match r {
        Ok(s) => Ok(s@),
        Err(s) => Err(s@),
    }
}

/// Says what is shown of a robot's answer.
pub fn summarize_json(body: &str) -> (r: String)
    ensures
        r@ == summary_of(body@, document_in(body@)),
{
    match parse_json(body) {
        Ok(document) => summarize_document(body, Some(&document)),
        Err(_) => summarize_document(body, None),
    }
}

/// Says what is shown of a robot's answer, given the document that it is.
pub fn summarize_document(body: &str, document: Option<&Json>) -> (r: String)
    ensures
        r@ == summary_of(
            body@,
            match document {
                Some(d) => Some(d.view()),
                None => None,
            },
        ),
{
    match document {
        Some(d) => {
            match text_value(d.get("message")) {
                Some(message) => {
                    return message;
                },
                None => {},
            }
            match text_value(d.get("detail")) {
                Some(detail) => {
                    return detail;
                },
                None => {},
            }
            match text_value(d.get("status")) {
                Some(status) => status,
                None => clip_text(body, 180),
            }
        },
        None => clip_text(body, 180),
    }
}

/// Says what an operator is told of an answer that is no success.
pub fn failure_text(code: u16, detail: &str) -> (r: String)
    ensures
        r@ == failure_of(code, detail@),
{
    if code == 502 {
        "机器人服务不可用：".to_owned().concat(detail)
    } else {
        let number = decimal_text(code as u64);
        "请求失败（HTTP ".to_owned().concat(number.as_str()).concat("）：").concat(detail)
    }
}

fn find_head_end(v: &Vec<char>) -> (r: Option<usize>)
    ensures
        match r {
            Some(i) => head_end(v@, 0) == Some(i as int) && i + 4 <= v@.len(),
            None => head_end(v@, 0) is None,
        },
{
    let mut i: usize = 0;
    while v.len() >= 4 && i <= v.len() - 4
        invariant
            i <= v@.len(),
            head_end(v@, 0) == head_end(v@, i as int),
        decreases v.len() - i,
    {
        if v[i] == '\r' && v[i + 1] == '\n' && v[i + 2] == '\r' && v[i + 3] == '\n' {
            return Some(i);
        }
        i = i + 1;
    }
    None
}

fn skip_white(v: &Vec<char>, from: usize, to: usize) -> (r: usize)
    requires
        from <= to <= v@.len(),
    ensures
        r == word_start(v@, from as int, to as int),
        from <= r <= to,
{
    let mut i = from;
    while i < to && v[i].is_whitespace()
        invariant
            from <= i <= to <= v@.len(),
            word_start(v@, from as int, to as int) == word_start(v@, i as int, to as int),
        decreases to - i,
    {
        i = i + 1;
    }
    i
}

fn skip_word(v: &Vec<char>, from: usize, to: usize) -> (r: usize)
    requires
        from <= to <= v@.len(),
    ensures
        r == word_end(v@, from as int, to as int),
        from <= r <= to,
{
    let mut i = from;
    while i < to && !v[i].is_whitespace()
        invariant
            from <= i <= to <= v@.len(),
            word_end(v@, from as int, to as int) == word_end(v@, i as int, to as int),
        decreases to - i,
    {
        i = i + 1;
    }
    i
}

/// Reads the status code in the head of an answer.
pub fn status_code(head: &str) -> (r: u16)
    ensures
        r == status_code_of(head@),
{
    let v = chars_of(head);
    let mut to: usize = 0;
    while to < v.len() && v[to] != '\n'
        invariant
            to <= v@.len(),
            line_end(v@, 0) == line_end(v@, to as int),
        decreases v.len() - to,
    {
        to = to + 1;
    }
    let first = skip_white(&v, 0, to);
    let after_first = skip_word(&v, first, to);
    let from = skip_white(&v, after_first, to);
    let end = skip_word(&v, from, to);
    let word = text_between(&v, from, end);
    match parse_u16(word.as_str()) {
        Some(code) => code,
        None => 0,
    }
}

/// Reads an answer.
pub fn read_response(text: &str) -> (r: Result<String, String>)
    ensures
        text_result(r) == response_of(text@),
{
    let v = chars_of(text);
    let total = v.len();
    match find_head_end(&v) {
        None => Err("控制服务返回了无效 HTTP 响应".to_owned()),
        Some(end) => {
            let head = text_between(&v, 0, end);
            let body = text_between(&v, end + 4, total);
            assert(head@ == text@.take(end as int));
            assert(body@ == text@.skip(end + 4));
            let code = status_code(head.as_str());
            if 200 <= code && code < 300 {
                Ok(body)
            } else {
                let detail = summarize_json(body.as_str());
                Err(failure_text(code, detail.as_str()))
            }
        },
    }
}

/// Reads an answer from the bytes that came in.
pub fn parse_response(bytes: &Vec<u8>) -> (r: Result<String, String>)
    ensures
        text_result(r) == response_of(lossy(bytes@)),
        valid_utf8(bytes@) ==> text_result(r) == response_of(decode_utf8(bytes@)),
{
    let text = decode_lossy(bytes.as_slice());
    read_response(text.as_str())
}

/// The ways in which no answer comes about.
#[derive(Debug)]
pub enum RequestFailure {
    /// The address has no meaning to the network.
    Unresolved { address: String, detail: Option<String> },
    /// The robot refused the connection.
    Refused,
    /// The connection was not made in time.
    TimedOut,
    /// The connection was not made for another reason.
    Unreachable(String),
    /// The request could not be sent.
    NotSent(String),
    /// The answer could not be read.
    NotRead(String),
}

pub open spec fn request_failure_of(failure: RequestFailure) -> Seq<char> {
    match failure {
        RequestFailure::Unresolved { address, detail } => match detail {
            Some(d) => "无法解析 "@ + address@ + "："@ + d@,
            None => "无法解析 "@ + address@,
        },
        RequestFailure::Refused => "机器人控制服务拒绝连接，请检查地址和服务状态"@,
        RequestFailure::TimedOut => "连接机器人控制服务超时，请检查网络"@,
        RequestFailure::Unreachable(d) => "无法连接机器人控制服务："@ + d@,
        RequestFailure::NotSent(d) => "发送控制请求失败："@ + d@,
        RequestFailure::NotRead(d) => "读取控制响应失败："@ + d@,
    }
}

/// Says what an operator is told where no answer came about.
pub fn request_failure_text(failure: RequestFailure) -> (r: String)
    ensures
        r@ == request_failure_of(failure),
{
    match failure {
        RequestFailure::Unresolved { address, detail } => {
            let head = "无法解析 ".to_owned().concat(address.as_str());
            match detail {
                Some(d) => head.concat("：").concat(d.as_str()),
                None => head,
            }
        },
        RequestFailure::Refused => "机器人控制服务拒绝连接，请检查地址和服务状态".to_owned(),
        RequestFailure::TimedOut => "连接机器人控制服务超时，请检查网络".to_owned(),
        RequestFailure::Unreachable(d) => "无法连接机器人控制服务：".to_owned().concat(d.as_str()),
        RequestFailure::NotSent(d) => "发送控制请求失败：".to_owned().concat(d.as_str()),
        RequestFailure::NotRead(d) => "读取控制响应失败：".to_owned().concat(d.as_str()),
    }
}

proof fn lemma_head_end_found(s: Seq<char>, from: int, end: int)
    requires
        0 <= from <= end,
        head_ends_at(s, end),
        forall|i: int| from <= i < end ==> !head_ends_at(s, i),
    ensures
        head_end(s, from) == Some(end),
    decreases end - from,
{
    if from < end {
        lemma_head_end_found(s, from + 1, end);
    }
}

/// The body of an answer that is a success is handed on unchanged, and of one that is
/// none never: a head, an empty line and a body are read as what they are.
pub proof fn law_body_is_handed_on(head: Seq<char>, body: Seq<char>)
    requires
        forall|i: int| 0 <= i < head.len() ==> !head_ends_at(head + "\r\n\r\n"@ + body, i),
    ensures
        200 <= status_code_of(head) < 300 ==> response_of(head + "\r\n\r\n"@ + body) == Ok::<
            Seq<char>,
            Seq<char>,
        >(body),
        !(200 <= status_code_of(head) < 300) ==> response_of(head + "\r\n\r\n"@ + body) is Err,
{
    reveal_strlit("\r\n\r\n");
    let s = head + "\r\n\r\n"@ + body;
    let end = head.len() as int;
    assert(s[end] == "\r\n\r\n"@[0]);
    assert(s[end + 1] == "\r\n\r\n"@[1]);
    assert(s[end + 2] == "\r\n\r\n"@[2]);
    assert(s[end + 3] == "\r\n\r\n"@[3]);
    lemma_head_end_found(s, 0, end);
    assert(s.take(end) == head);
    assert(s.skip(end + 4) == body);
}

proof fn lemma_word_start(s: Seq<char>, from: int, to: int, at: int)
    requires
        0 <= from <= at <= to <= s.len(),
        forall|i: int| from <= i < at ==> is_white(#[trigger] s[i]),
        at < to ==> !is_white(s[at]),
    ensures
        word_start(s, from, to) == at,
    decreases at - from,
{
    if from < at {
        lemma_word_start(s, from + 1, to, at);
    }
}

proof fn lemma_word_end(s: Seq<char>, from: int, to: int, at: int)
    requires
        0 <= from <= at <= to <= s.len(),
        forall|i: int| from <= i < at ==> !is_white(#[trigger] s[i]),
        at < to ==> is_white(s[at]),
    ensures
        word_end(s, from, to) == at,
    decreases at - from,
{
    if from < at {
        lemma_word_end(s, from + 1, to, at);
    }
}

proof fn lemma_line_end(s: Seq<char>, from: int, least: int)
    requires
        0 <= from <= least <= s.len(),
        forall|i: int| from <= i < least ==> #[trigger] s[i] != '\n',
    ensures
        least <= line_end(s, from) <= s.len(),
    decreases s.len() - from,
{
    if from < s.len() && s[from] != '\n' {
        lemma_line_end(
            s,
            from + 1,
            if least > from {
                least
            } else {
                from + 1
            },
        );
    }
}

/// The status code of an answer is the number behind the first word of its head: of a
/// head that begins with a version, a space and a number in decimal notation it is that
/// number, whatever comes after white space behind it.
pub proof fn law_status_code_is_read(version: Seq<char>, code: u16, rest: Seq<char>)
    requires
        version.len() > 0,
        forall|i: int| 0 <= i < version.len() ==> !is_white(#[trigger] version[i]),
        rest.len() > 0 ==> is_white(rest[0]),
    ensures
        status_code_of(version + seq![' '] + decimal(code as nat) + rest) == code,
{
    let digits = decimal(code as nat);
    let head = version + seq![' '] + digits + rest;
    let a = version.len() as int;
    let b = a + 1 + digits.len();
    lemma_decimal_digits(code as nat);
    law_numbers_are_read_back(code as nat, digits, 0);
    assert forall|i: int| 0 <= i < a implies !is_white(#[trigger] head[i]) by {
        assert(head[i] == version[i]);
    }
    assert(head[a] == ' ');
    assert forall|i: int| a + 1 <= i < b implies is_digit(#[trigger] head[i]) by {
        assert(head[i] == digits[i - a - 1]);
    }
    if rest.len() > 0 {
        assert(head[b] == rest[0]);
    }
    assert forall|i: int| 0 <= i < b implies #[trigger] head[i] != '\n' by {
        if i < a {
            assert(!is_white(head[i]));
        } else if i > a {
            assert(is_digit(head[i]));
        }
    }
    lemma_line_end(head, 0, b);
    let to = line_end(head, 0);
    lemma_word_start(head, 0, to, 0);
    lemma_word_end(head, 0, to, a);
    assert(!is_white(head[a + 1])) by {
        assert(is_digit(head[a + 1]));
    }
    lemma_word_start(head, a, to, a + 1);
    assert forall|i: int| a + 1 <= i < b implies !is_white(#[trigger] head[i]) by {
        assert(is_digit(head[i]));
    }
    lemma_word_end(head, a + 1, to, b);
    assert(head.subrange(a + 1, b) == digits);
}

/// A text without an empty line is no answer.
pub proof fn law_answers_have_a_head(s: Seq<char>)
    requires
        forall|i: int| 0 <= i ==> !#[trigger] head_ends_at(s, i),
    ensures
        response_of(s) == Err::<Seq<char>, Seq<char>>("控制服务返回了无效 HTTP 响应"@),
{
    lemma_no_head_end(s, 0);
}

proof fn lemma_no_head_end(s: Seq<char>, from: int)
    requires
        0 <= from,
        forall|i: int| 0 <= i ==> !#[trigger] head_ends_at(s, i),
    ensures
        head_end(s, from) is None,
    decreases s.len() - from,
{
    if from + 4 <= s.len() {
        assert(!head_ends_at(s, from));
        lemma_no_head_end(s, from + 1);
    }
}

/// An answer with a version, a status code and a body is read as what it is: the body of
/// a success, or for another code what the operator is told, which names the code, or
/// that the service is not available, and what the robot says about it.
pub proof fn law_answers_are_read(
    version: Seq<char>,
    code: u16,
    rest: Seq<char>,
    body: Seq<char>,
)
    requires
        version.len() > 0,
        forall|i: int| 0 <= i < version.len() ==> !is_white(#[trigger] version[i]),
        rest.len() > 0 ==> is_white(rest[0]),
        ({
            let head = version + seq![' '] + decimal(code as nat) + rest;
            forall|i: int| 0 <= i < head.len() ==> !head_ends_at(head + "\r\n\r\n"@ + body, i)
        }),
    ensures
        ({
            let answer = version + seq![' '] + decimal(code as nat) + rest + "\r\n\r\n"@ + body;
            &&& 200 <= code <= 299 ==> response_of(answer) == Ok::<Seq<char>, Seq<char>>(body)
            &&& code == 502 ==> response_of(answer) == Err::<Seq<char>, Seq<char>>(
                "机器人服务不可用："@ + summary_of(body, document_in(body)),
            )
            &&& !(200 <= code <= 299) && code != 502 ==> response_of(answer) == Err::<
                Seq<char>,
                Seq<char>,
            >(
                "请求失败（HTTP "@ + decimal(code as nat) + "）："@ + summary_of(
                    body,
                    document_in(body),
                ),
            )
        }),
{
    let head = version + seq![' '] + decimal(code as nat) + rest;
    law_status_code_is_read(version, code, rest);
    law_body_is_handed_on(head, body);
    reveal_strlit("\r\n\r\n");
    let s = head + "\r\n\r\n"@ + body;
    let end = head.len() as int;
    assert(s[end] == "\r\n\r\n"@[0]);
    assert(s[end + 1] == "\r\n\r\n"@[1]);
    assert(s[end + 2] == "\r\n\r\n"@[2]);
    assert(s[end + 3] == "\r\n\r\n"@[3]);
    lemma_head_end_found(s, 0, end);
    assert(s.take(end) == head);
    assert(s.skip(end + 4) == body);
}

/// What is shown of an answer: its text `message`, without one its text `detail`, without
/// that its text `status`, and of any other answer the first 180 characters.
pub proof fn law_summaries(body: Seq<char>, d: JsonView)
    ensures
        d.get("message"@) matches Some(JsonView::Text(message)) ==> summary_of(body, Some(d))
            == message,
        !(d.get("message"@) matches Some(JsonView::Text(_))) ==> {
            &&& d.get("detail"@) matches Some(JsonView::Text(detail)) ==> summary_of(body, Some(d))
                == detail
            &&& !(d.get("detail"@) matches Some(JsonView::Text(_))) ==> {
                &&& d.get("status"@) matches Some(JsonView::Text(status)) ==> summary_of(
                    body,
                    Some(d),
                ) == status
                &&& !(d.get("status"@) matches Some(JsonView::Text(_))) ==> summary_of(
                    body,
                    Some(d),
                ) == summary_of(body, None)
            }
        },
        summary_of(body, None).is_prefix_of(body),
        summary_of(body, None).len() == if body.len() < 180 {
            body.len()
        } else {
            180
        },
        json_parse(body) == Ok::<JsonView, Seq<char>>(d) ==> document_in(body) == Some(d),
        json_parse(body) is Err ==> document_in(body) is None,
{
    law_clipped(body, 180);
}

/// A request is made of lines: the method, the path and the version, then the fields,
/// then an empty line, and behind it the body, whose bytes one of the fields counts.
pub proof fn law_requests_are_lines(
    endpoint: EndpointView,
    method: Seq<char>,
    path: Seq<char>,
    body: Seq<char>,
)
    ensures
        request_of(endpoint, method, path, body) == (method + " "@ + path + " HTTP/1.1\r\n"@) + (
        "Host: "@ + endpoint.host + ":"@ + decimal(endpoint.port as nat) + "\r\n"@)
            + "Accept: application/json\r\n"@ + "Content-Type: application/json\r\n"@ + (
        "Content-Length: "@ + decimal(byte_count(body)) + "\r\n"@) + "Connection: close\r\n"@
            + "\r\n"@ + body,
{
    reveal_strlit(" HTTP/1.1\r\nHost: ");
    reveal_strlit(" HTTP/1.1\r\n");
    reveal_strlit("Host: ");
    reveal_strlit("\r\n");
    reveal_strlit(
        "\r\nAccept: application/json\r\nContent-Type: application/json\r\nContent-Length: ",
    );
    reveal_strlit("Accept: application/json\r\n");
    reveal_strlit("Content-Type: application/json\r\n");
    reveal_strlit("Content-Length: ");
    reveal_strlit("\r\nConnection: close\r\n\r\n");
    reveal_strlit("Connection: close\r\n");
    let one = " HTTP/1.1\r\nHost: "@;
    assert(one == " HTTP/1.1\r\n"@ + "Host: "@);
    let two = "\r\nAccept: application/json\r\nContent-Type: application/json\r\nContent-Length: "@;
    assert(two == "\r\n"@ + "Accept: application/json\r\n"@
        + "Content-Type: application/json\r\n"@ + "Content-Length: "@);
    let three = "\r\nConnection: close\r\n\r\n"@;
    assert(three == "\r\n"@ + "Connection: close\r\n"@ + "\r\n"@);
}

/// Why no answer came about is told in words, each way in its own, with what the system
/// said about it.
pub proof fn law_failures_are_told(failure: RequestFailure)
    ensures
        ({
            let told = request_failure_of(failure);
            match failure {
                RequestFailure::Unresolved { address, detail: Some(detail) } => told
                    == "无法解析 "@ + address@ + "："@ + detail@,
                RequestFailure::Unresolved { address, detail: None } => told == "无法解析 "@
                    + address@,
                RequestFailure::Refused => told
                    == "机器人控制服务拒绝连接，请检查地址和服务状态"@,
                RequestFailure::TimedOut => told == "连接机器人控制服务超时，请检查网络"@,
                RequestFailure::Unreachable(detail) => told == "无法连接机器人控制服务："@
                    + detail@,
                RequestFailure::NotSent(detail) => told == "发送控制请求失败："@ + detail@,
                RequestFailure::NotRead(detail) => told == "读取控制响应失败："@ + detail@,
            }
        }),
{
}

/// A host and a port are written with a colon between them.
pub proof fn law_addresses_are_written(host: Seq<char>, port: u16)
    ensures
        host_and_port(host, port) == host + seq![':'] + decimal(port as nat),
{
    reveal_strlit(":");
    assert(":"@ == seq![':']);
}

/// The length of a body is counted in bytes of UTF-8.
pub proof fn law_lengths_are_in_bytes(body: Seq<char>)
    requires
        encode_utf8(body).len() <= usize::MAX,
    ensures
        byte_count(body) == encode_utf8(body).len(),
{
}

/// The operator sees the service at its host and port, and a request without a body has
/// an empty one.
pub proof fn law_services_are_shown(endpoint: EndpointView, body: Seq<char>)
    ensures
        service_url(endpoint) == "http://"@ + endpoint.host + ":"@ + decimal(
            endpoint.port as nat,
        ),
        body_of(Some(body)) == body,
        body_of(None).len() == 0,
{
    assert("http://"@ + (endpoint.host + ":"@ + decimal(endpoint.port as nat)) == "http://"@
        + endpoint.host + ":"@ + decimal(endpoint.port as nat));
}

/// A head without a second word has the status code zero, and so has one whose second
/// word is no number.
pub proof fn law_heads_without_a_code(version: Seq<char>, word: Seq<char>, rest: Seq<char>)
    requires
        version.len() > 0,
        forall|i: int| 0 <= i < version.len() ==> !is_white(#[trigger] version[i]),
        word.len() > 0,
        forall|i: int| 0 <= i < word.len() ==> !is_white(#[trigger] word[i]),
        rest.len() > 0 ==> is_white(rest[0]),
    ensures
        status_code_of(version) == 0,
        u16_of(word) is None ==> status_code_of(version + seq![' '] + word + rest) == 0,
        u16_of(word) matches Some(code) ==> status_code_of(version + seq![' '] + word + rest)
            == code,
{
    let a = version.len() as int;
    lemma_line_end(version, 0, a);
    lemma_word_start(version, 0, a, 0);
    lemma_word_end(version, 0, a, a);
    lemma_word_start(version, a, a, a);
    lemma_word_end(version, a, a, a);
    assert(version.subrange(a, a) == Seq::<char>::empty());
    law_numbers_are_read_back(0, version, 0);

    let head = version + seq![' '] + word + rest;
    let b = a + 1 + word.len();
    assert forall|i: int| 0 <= i < a implies !is_white(#[trigger] head[i]) by {
        assert(head[i] == version[i]);
    }
    assert(head[a] == ' ');
    assert forall|i: int| a + 1 <= i < b implies !is_white(#[trigger] head[i]) by {
        assert(head[i] == word[i - a - 1]);
    }
    if rest.len() > 0 {
        assert(head[b] == rest[0]);
    }
    assert forall|i: int| 0 <= i < b implies #[trigger] head[i] != '\n' by {
        if i != a {
            assert(!is_white(head[i]));
        }
    }
    lemma_line_end(head, 0, b);
    let to = line_end(head, 0);
    lemma_word_start(head, 0, to, 0);
    lemma_word_end(head, 0, to, a);
    lemma_word_start(head, a, to, a + 1);
    lemma_word_end(head, a + 1, to, b);
    assert(head.subrange(a + 1, b) == word);
}

} // verus!

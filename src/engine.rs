//! The container engine adapter: requests to the engine's HTTP API over its
//! local socket, the reading of its answers, and the discovery of a
//! container's init process from what `/proc` shows.
use vstd::prelude::*;
use vstd::string::*;
use vstd::utf8::encode_utf8;
use crate::error::Error;
use crate::text::{
    chars_of, contains, extend, includes, keep_non_empty, non_empty, parse_at_most,
    parse_decimal, slice, split, split_on, split_once, split_once_at, string_of, trim,
    trimmed, views,
};

verus! {

/// What `form_urlencoded` writes for one byte.
pub open spec fn form_byte(b: u8) -> Seq<char> {
    if b == 42 || b == 45 || b == 46 || (48 <= b <= 57) || (65 <= b <= 90) || b == 95 || (97 <= b
        <= 122) {
        seq![b as char]
    } else if b == 32 {
        seq!['+']
    } else {
        seq!['%', hex_upper(b / 16), hex_upper(b % 16)]
    }
}

pub open spec fn hex_upper(d: u8) -> char {
    if d < 10 {
        (48 + d) as char
    } else {
        (55 + d) as char
    }
}

/// The `application/x-www-form-urlencoded` form of `bytes`.
pub open spec fn form_encoded(bytes: Seq<u8>) -> Seq<char>
    decreases bytes.len(),
{
    if bytes.len() == 0 {
        Seq::empty()
    } else {
        form_encoded(bytes.drop_last()) + form_byte(bytes.last())
    }
}

/// Relies on form_urlencoded::byte_serialize: each byte of the UTF-8 form of `s`
/// is kept when alphanumeric or one of `*-._`, a space becomes `+`, any other
/// byte becomes `%` and two upper-case hex digits.
#[verifier::external_body]
fn form_encode(s: &str) -> (r: String)
    ensures
        r@ == form_encoded(s.spec_bytes()),
{
    form_urlencoded::byte_serialize(s.as_bytes()).collect()
}

/// The status code that httparse reads from a response head.
pub uninterp spec fn http_status_of(head: Seq<char>) -> Option<u16>;

/// Relies on httparse::Response::parse: the status code of the response head
/// `head` (up to 100 headers), or `None` where it cannot be parsed.
#[verifier::external_body]
fn http_status(head: &str) -> (r: Option<u16>)
    ensures
        r == http_status_of(head@),
{
    let mut headers = [httparse::EMPTY_HEADER; 100];
    let mut res = httparse::Response::new(&mut headers[..]);
    match res.parse(head.as_bytes()) {
        Ok(_) => res.code,
        Err(_) => None,
    }
}

/// The string member `message` of the JSON object that `text` holds.
pub uninterp spec fn json_message_of(text: Seq<char>) -> Option<Seq<char>>;

/// Relies on serde_json::from_str, Value::get and Value::as_str: the string
/// member `message` of the JSON document `text`, if it has one.
#[verifier::external_body]
fn json_message(text: &str) -> (r: Option<String>)
    ensures
        match r {
            Some(m) => json_message_of(text@) == Some(m@),
            None => json_message_of(text@).is_none(),
        },
{
    match serde_json::from_str::<serde_json::Value>(text) {
        Ok(v) => v.get("message").and_then(|m| m.as_str()).map(|m| m.to_string()),
        Err(_) => None,
    }
}

/// The encoded form `k=v` of one query parameter, if it has an `=`.
pub open spec fn encoded_pair(p: Seq<char>) -> Option<Seq<char>> {
    match split_once(p, seq!['=']) {
        Some((k, v)) => Some(form_encoded(encode_utf8(k)) + seq!['='] + form_encoded(
            encode_utf8(v),
        )),
        None => None,
    }
}

/// The encoded parameters `ps`, joined by `&`.
pub open spec fn encoded_pairs(ps: Seq<Seq<char>>) -> Option<Seq<char>>
    decreases ps.len(),
{
    if ps.len() == 0 {
        Some(Seq::empty())
    } else if ps.len() == 1 {
        encoded_pair(ps[0])
    } else {
        match (encoded_pairs(ps.drop_last()), encoded_pair(ps.last())) {
            (Some(a), Some(b)) => Some(a + seq!['&'] + b),
            _ => None,
        }
    }
}

/// The request path `path?query` for the parameters `params` (`k=v&k=v`).
pub open spec fn request_path_spec(path: Seq<char>, params: Seq<char>) -> Option<Seq<char>> {
    if !contains(params, seq!['=']) {
        None
    } else {
        match encoded_pairs(split(params, '&')) {
            Some(q) => Some(path + seq!['?'] + q),
            None => None,
        }
    }
}

/// The request path for `path` with the parameters `params` form-encoded;
/// `InvalidParameter` where a parameter has no `=`.
pub fn encode_request_path(path: &str, params: &str) -> (r: Result<String, Error>)
    ensures
        match r {
            Ok(s) => request_path_spec(path@, params@) == Some(s@),
            Err(e) => request_path_spec(path@, params@).is_none() && e == Error::InvalidParameter,
        },
{
    let pc = chars_of(params);
    let eq = chars_of("=");
    proof {
        reveal_strlit("=");
    }
    assert(eq@ =~= seq!['=']);
    if !includes(&pc, &eq) {
        return Err(Error::InvalidParameter);
    }
    let pieces = split_on(&pc, '&');
    let ghost ps = split(params@, '&');
    let mut q: Vec<char> = Vec::new();
    let mut i: usize = 0;
    while i < pieces.len()
        invariant
            i <= pieces@.len(),
            views(pieces@) == ps,
            ps == split(params@, '&'),
            contains(params@, seq!['=']),
            eq@ == seq!['='],
            encoded_pairs(ps.subrange(0, i as int)) == Some(q@),
        decreases pieces@.len() - i,
    {
        let ghost pre = ps.subrange(0, i as int);
        let ghost next = ps.subrange(0, i + 1);
        assert(next.drop_last() =~= pre);
        assert(next.last() == pieces@[i as int]@);
        match split_once_at(&pieces[i], &eq) {
            Some((k, v)) => {
                let ks = string_of(&k);
                let vs = string_of(&v);
                let ke = chars_of(form_encode(ks.as_str()).as_str());
                let ve = chars_of(form_encode(vs.as_str()).as_str());
                let ghost old_q = q@;
                if i > 0 {
                    q.push('&');
                }
                extend(&mut q, &ke);
                q.push('=');
                extend(&mut q, &ve);
                proof {
                    if i == 0 {
                        assert(next =~= seq![next.last()]);
                        assert(q@ =~= form_encoded(encode_utf8(k@)) + seq!['='] + form_encoded(
                            encode_utf8(v@),
                        ));
                    } else {
                        assert(q@ =~= old_q + seq!['&'] + (form_encoded(encode_utf8(k@)) + seq![
                            '=',
                        ] + form_encoded(encode_utf8(v@))));
                    }
                }
            },
            None => {
                proof {
                    assert(ps[i as int] == pieces@[i as int]@);
                    assert(encoded_pair(ps[i as int]).is_none());
                    lemma_no_pair_no_query(ps, i as int);
                }
                return Err(Error::InvalidParameter);
            },
        }
        i = i + 1;
    }
    assert(ps.subrange(0, pieces@.len() as int) =~= ps);
    let mut r = chars_of(path);
    r.push('?');
    extend(&mut r, &q);
    Ok(string_of(&r))
}

proof fn lemma_no_pair_no_query(ps: Seq<Seq<char>>, i: int)
    requires
        0 <= i < ps.len(),
        encoded_pair(ps[i]).is_none(),
    ensures
        encoded_pairs(ps).is_none(),
    decreases ps.len(),
{
    if ps.len() == 1 {
    } else if i == ps.len() - 1 {
    } else {
        lemma_no_pair_no_query(ps.drop_last(), i);
    }
}

/// The text of an HTTP/1.1 request to the engine.
pub open spec fn request_text(method: Seq<char>, path: Seq<char>) -> Seq<char> {
    method + seq![' '] + path + " HTTP/1.1\r\nHost: localhost\r\nConnection: close\r\n\r\n"@
}

/// The request `method path[?params] HTTP/1.1` to the engine, with
/// `Host: localhost` and `Connection: close`.
pub fn build_request(method: &str, path: &str, params: Option<&str>) -> (r: Result<String, Error>)
    ensures
        match params {
            None => r is Ok && r->Ok_0@ == request_text(method@, path@),
            Some(p) => match request_path_spec(path@, p@) {
                Some(rp) => r is Ok && r->Ok_0@ == request_text(method@, rp),
                None => r == Err::<String, Error>(Error::InvalidParameter),
            },
        },
{
    let request_path = match params {
        Some(p) => encode_request_path(path, p)?,
        None => string_of(&chars_of(path)),
    };
    let mut r = chars_of(method);
    r.push(' ');
    extend(&mut r, &chars_of(request_path.as_str()));
    extend(&mut r, &chars_of(" HTTP/1.1\r\nHost: localhost\r\nConnection: close\r\n\r\n"));
    Ok(string_of(&r))
}

/// How the engine answered, by status code.
#[derive(Copy, Clone, Debug, PartialEq, Eq)]
pub enum DockerdResponse {
    /// 200 or 204
    NoError,
    /// 404
    NoSuchContainer,
    /// 500
    ServerError,
    /// any other code
    NotFound,
}

pub open spec fn response_kind(code: u16) -> DockerdResponse {
    if code == 200 || code == 204 {
        DockerdResponse::NoError
    } else if code == 404 {
        DockerdResponse::NoSuchContainer
    } else if code == 500 {
        DockerdResponse::ServerError
    } else {
        DockerdResponse::NotFound
    }
}

impl DockerdResponse {
    pub fn new(code: u16) -> (r: DockerdResponse)
        ensures
            r == response_kind(code),
    {
        match code {
            200 => DockerdResponse::NoError,
            204 => DockerdResponse::NoError,
            404 => DockerdResponse::NoSuchContainer,
            500 => DockerdResponse::ServerError,
            _ => DockerdResponse::NotFound,
        }
    }
}

/// The error that an answer with status `code` and body `body` stands for,
/// or `None` where the engine accepted the request.
pub open spec fn status_error(code: u16, body: Seq<char>) -> Option<Error> {
    match response_kind(code) {
        DockerdResponse::NoError => None,
        DockerdResponse::NoSuchContainer => Some(Error::ContainerNotFound),
        DockerdResponse::ServerError => Some(Error::ApiServerError),
        DockerdResponse::NotFound => match json_message_of(body) {
            Some(m) => Some(Error::ApiResponseError(m_string(m))),
            None => Some(Error::InvalidResponse),
        },
    }
}

/// Some string whose characters are `m`.
pub open spec fn m_string(m: Seq<char>) -> String {
    choose|s: String| s@ == m
}

/// The error, if any, that the status `code` and body `body` of an answer stand for.
pub fn check_status(code: u16, body: &str) -> (r: Result<(), Error>)
    ensures
        match status_error(code, body@) {
            None => r is Ok,
            Some(Error::ApiResponseError(m)) => r matches Err(Error::ApiResponseError(n)) && n@
                == m@,
            Some(e) => r == Err::<(), Error>(e),
        },
{
    match DockerdResponse::new(code) {
        DockerdResponse::NoError => Ok(()),
        DockerdResponse::NoSuchContainer => Err(Error::ContainerNotFound),
        DockerdResponse::ServerError => Err(Error::ApiServerError),
        DockerdResponse::NotFound => match json_message(body) {
            Some(m) => Err(Error::ApiResponseError(m)),
            None => Err(Error::InvalidResponse),
        },
    }
}

/// The body of an answer without the framing lines of chunked transfer
/// encoding: where it spans more than two lines, its second line.
pub open spec fn unframed(body: Seq<char>) -> Seq<char> {
    let lines = split(body, '\n');
    if lines.len() > 2 {
        trim(lines[1])
    } else {
        body
    }
}

/// The head and the body of an answer, each trimmed.
pub open spec fn head_and_body(response: Seq<char>) -> Option<(Seq<char>, Seq<char>)> {
    match split_once(response, "\r\n\r\n"@) {
        Some((h, b)) => Some((trim(h), trim(b))),
        None => None,
    }
}

/// What reading an answer of the engine gives: its body wrapped as the
/// member `containers` of a JSON object, or the error that it reports.
pub open spec fn response_spec(response: Seq<char>) -> Result<Seq<char>, Error> {
    match head_and_body(response) {
        None => Err(Error::InvalidResponse),
        Some((h, b)) => match http_status_of(h) {
            None => Err(Error::InvalidResponse),
            Some(code) => match status_error(code, unframed(b)) {
                Some(e) => Err(e),
                None => Ok("{\"containers\":"@ + unframed(b) + "}"@),
            },
        },
    }
}

/// Reads an answer of the engine: checks its status and returns its body as
/// the member `containers` of a JSON object.
pub fn parse_response(response: &str) -> (r: Result<String, Error>)
    ensures
        match response_spec(response@) {
            Ok(s) => r is Ok && r->Ok_0@ == s,
            Err(Error::ApiResponseError(m)) => r matches Err(Error::ApiResponseError(n)) && n@
                == m@,
            Err(e) => r == Err::<String, Error>(e),
        },
{
    let rc = chars_of(response);
    let sep = chars_of("\r\n\r\n");
    let (h, b) = match split_once_at(&rc, &sep) {
        Some(p) => p,
        None => return Err(Error::InvalidResponse),
    };
    let head = string_of(&trimmed(&h));
    let body = trimmed(&b);
    let code = match http_status(head.as_str()) {
        Some(c) => c,
        None => return Err(Error::InvalidResponse),
    };
    let lines = split_on(&body, '\n');
    let body = if lines.len() > 2 {
        assert(views(lines@)[1] == lines@[1]@);
        trimmed(&lines[1])
    } else {
        body
    };
    let body_s = string_of(&body);
    check_status(code, body_s.as_str())?;
    let mut r = chars_of("{\"containers\":");
    extend(&mut r, &body);
    r.push('}');
    proof {
        reveal_strlit("}");
    }
    assert(r@ =~= "{\"containers\":"@ + body@ + "}"@);
    Ok(string_of(&r))
}

pub open spec fn is_lower_hex(c: char) -> bool {
    ('0' <= c && c <= '9') || ('a' <= c && c <= 'f')
}

/// A short container id: twelve lower-case hex digits.
pub open spec fn is_short_id(s: Seq<char>) -> bool {
    s.len() == 12 && forall|i: int| 0 <= i < 12 ==> is_lower_hex(#[trigger] s[i])
}

/// The short form of a container id: its first twelve characters, where
/// they are lower-case hex digits.
pub open spec fn short_id_spec(id: Seq<char>) -> Option<Seq<char>> {
    if id.len() >= 12 && is_short_id(id.subrange(0, 12)) {
        Some(id.subrange(0, 12))
    } else {
        None
    }
}

/// The short form of a container id; `ContainerNotFound` where `id` does not
/// start with twelve lower-case hex digits.
pub fn short_id(id: &str) -> (r: Result<String, Error>)
    ensures
        match r {
            Ok(s) => short_id_spec(id@) == Some(s@) && is_short_id(s@),
            Err(e) => short_id_spec(id@).is_none() && e == Error::ContainerNotFound,
        },
{
    let c = chars_of(id);
    if c.len() < 12 {
        return Err(Error::ContainerNotFound);
    }
    let mut i: usize = 0;
    while i < 12
        invariant
            i <= 12,
            c@ == id@,
            c@.len() >= 12,
            forall|j: int| 0 <= j < i ==> is_lower_hex(#[trigger] c@[j]),
        decreases 12 - i,
    {
        let d = c[i];
        if !(('0' <= d && d <= '9') || ('a' <= d && d <= 'f')) {
            assert(!is_short_id(id@.subrange(0, 12))) by {
                assert(id@.subrange(0, 12)[i as int] == d);
            }
            return Err(Error::ContainerNotFound);
        }
        i = i + 1;
    }
    let s = slice(&c, 0, 12);
    assert(is_short_id(s@));
    Ok(string_of(&s))
}

/// The overlay2 directories of a container, as the engine's inspect answer gives them.
#[derive(Debug)]
pub struct DockerGraphDriverData {
    pub lower_dir: String,
    pub upper_dir: String,
    pub merged_dir: String,
    pub work_dir: String,
}

/// What the library knows of a target container.
pub ghost struct ContainerView {
    pub id: Seq<char>,
    pub pid: u32,
    pub lowerdir: Seq<char>,
    pub upperdir: Seq<char>,
    pub mergeddir: Seq<char>,
    pub workdir: Seq<char>,
}

/// A target container: its short id, its init process, and its overlay2 directories.
#[derive(Debug)]
pub struct Container {
    container_id: String,
    pid: u32,
    lowerdir: String,
    upperdir: String,
    mergeddir: String,
    workdir: String,
}

impl View for Container {
    type V = ContainerView;

    closed spec fn view(&self) -> ContainerView {
        ContainerView {
            id: self.container_id@,
            pid: self.pid,
            lowerdir: self.lowerdir@,
            upperdir: self.upperdir@,
            mergeddir: self.mergeddir@,
            workdir: self.workdir@,
        }
    }
}

/// The path of a container's resource in the engine's API.
pub open spec fn container_path(id: Seq<char>, what: Seq<char>) -> Seq<char> {
    "/containers/"@ + id + what
}

fn container_path_of(id: &str, what: &str) -> (r: String)
    ensures
        r@ == container_path(id@, what@),
{
    let mut v = chars_of("/containers/");
    extend(&mut v, &chars_of(id));
    extend(&mut v, &chars_of(what));
    string_of(&v)
}

impl Container {
    /// The target whose id is `id`, whose init process is `pid`, and which the
    /// engine's inspect answer describes with the graph driver `driver_name`
    /// and the directories `data`. Only overlay2 targets are accepted.
    pub fn new(id: &str, pid: u32, driver_name: &str, data: &DockerGraphDriverData) -> (r: Result<
        Container,
        Error,
    >)
        ensures
            driver_name@ != "overlay2"@ ==> r == Err::<Container, Error>(Error::GraphDriverNotOverlay2),
            driver_name@ == "overlay2"@ ==> match short_id_spec(id@) {
                None => r == Err::<Container, Error>(Error::ContainerNotFound),
                Some(s) => r is Ok && r->Ok_0@ == (ContainerView {
                    id: s,
                    pid,
                    lowerdir: data.lower_dir@,
                    upperdir: data.upper_dir@,
                    mergeddir: data.merged_dir@,
                    workdir: data.work_dir@,
                }),
            },
            r is Ok ==> is_short_id(r->Ok_0@.id),
    {
        if !crate::text::str_eq(driver_name, "overlay2") {
            return Err(Error::GraphDriverNotOverlay2);
        }
        let container_id = short_id(id)?;
        Ok(Container {
            container_id,
            pid,
            lowerdir: string_of(&chars_of(data.lower_dir.as_str())),
            upperdir: string_of(&chars_of(data.upper_dir.as_str())),
            mergeddir: string_of(&chars_of(data.merged_dir.as_str())),
            workdir: string_of(&chars_of(data.work_dir.as_str())),
        })
    }

    pub fn pid(&self) -> (r: u32)
        ensures
            r == self@.pid,
    {
        self.pid
    }

    /// Records the init process found after a restart.
    pub fn update_pid(&mut self, pid: u32) -> (r: u32)
        ensures
            r == pid,
            final(self)@ == (ContainerView { pid, ..old(self)@ }),
    {
        self.pid = pid;
        pid
    }

    pub fn lowerdir(&self) -> (r: &str)
        ensures
            r@ == self@.lowerdir,
    {
        self.lowerdir.as_str()
    }

    pub fn mergeddir(&self) -> (r: &str)
        ensures
            r@ == self@.mergeddir,
    {
        self.mergeddir.as_str()
    }

    pub fn upperdir(&self) -> (r: &str)
        ensures
            r@ == self@.upperdir,
    {
        self.upperdir.as_str()
    }

    pub fn workdir(&self) -> (r: &str)
        ensures
            r@ == self@.workdir,
    {
        self.workdir.as_str()
    }

    pub fn container_id(&self) -> (r: &str)
        ensures
            r@ == self@.id,
    {
        self.container_id.as_str()
    }

    /// The request that restarts the container.
    pub fn restart(&self) -> (r: String)
        ensures
            r@ == request_text("POST"@, container_path(self@.id, "/restart"@)),
    {
        let path = container_path_of(self.container_id.as_str(), "/restart");
        match build_request("POST", path.as_str(), None) {
            Ok(r) => r,
            Err(_) => String::new(),
        }
    }

    /// What the engine's answer `response` to the restart request means:
    /// `Ok` for 200 or 204, `ContainerNotFound` for 404, `ApiServerError`
    /// for 500, and for any other status the error that its body reports.
    pub fn restart_outcome(&self, response: &str) -> (r: Result<(), Error>)
        ensures
            match response_spec(response@) {
                Ok(_) => r is Ok,
                Err(Error::ApiResponseError(m)) => r matches Err(Error::ApiResponseError(n)) && n@
                    == m@,
                Err(e) => r == Err::<(), Error>(e),
            },
            head_and_body(response@) matches Some((h, b)) && http_status_of(h) == Some(404u16)
                ==> r == Err::<(), Error>(Error::ContainerNotFound),
            head_and_body(response@) matches Some((h, b)) && http_status_of(h) == Some(500u16)
                ==> r == Err::<(), Error>(Error::ApiServerError),
            head_and_body(response@) matches Some((h, b)) && (http_status_of(h) == Some(200u16)
                || http_status_of(h) == Some(204u16)) ==> r is Ok,
    {
        match parse_response(response) {
            Ok(_) => Ok(()),
            Err(e) => Err(e),
        }
    }

    /// The id of the one container that a list-by-name answer holds;
    /// `ContainerNotFound` where it holds none or more than one.
    pub fn convert_name_to_id(ids: &Vec<String>) -> (r: Result<String, Error>)
        ensures
            match r {
                Ok(s) => ids@.len() == 1 && short_id_spec(ids@[0]@) == Some(s@),
                Err(e) => e == Error::ContainerNotFound && (ids@.len() != 1 || short_id_spec(
                    ids@[0]@,
                ).is_none()),
            },
    {
        if ids.len() != 1 {
            return Err(Error::ContainerNotFound);
        }
        short_id(ids[0].as_str())
    }

    /// The request that restarts the one container that a list-by-name
    /// answer holds; `ContainerNotFound` where it holds none or more than one.
    pub fn restart_from_name(ids: &Vec<String>) -> (r: Result<String, Error>)
        ensures
            match r {
                Ok(s) => ids@.len() == 1 && short_id_spec(ids@[0]@) is Some && s@ == request_text(
                    "POST"@,
                    container_path(short_id_spec(ids@[0]@)->Some_0, "/restart"@),
                ),
                Err(e) => e == Error::ContainerNotFound && (ids@.len() != 1 || short_id_spec(
                    ids@[0]@,
                ).is_none()),
            },
    {
        let id = Self::convert_name_to_id(ids)?;
        let path = container_path_of(id.as_str(), "/restart");
        match build_request("POST", path.as_str(), None) {
            Ok(r) => Ok(r),
            Err(_) => Err(Error::InvalidParameter),
        }
    }
}

/// The request that inspects the container `id`.
pub fn inspect_request(id: &str) -> (r: String)
    ensures
        r@ == request_text("GET"@, container_path(id@, "/json"@)),
{
    let path = container_path_of(id, "/json");
    match build_request("GET", path.as_str(), None) {
        Ok(r) => r,
        Err(_) => String::new(),
    }
}

/// The parameters that list every container named `name`.
pub open spec fn name_filter(name: Seq<char>) -> Seq<char> {
    "all=true&filters={\"name\": [\""@ + name + "\"]}"@
}

/// The request that lists the containers named `name`.
pub fn list_request(name: &str) -> (r: Result<String, Error>)
    ensures
        match request_path_spec("/containers/json"@, name_filter(name@)) {
            Some(p) => r is Ok && r->Ok_0@ == request_text("GET"@, p),
            None => r == Err::<String, Error>(Error::InvalidParameter),
        },
{
    let mut q = chars_of("all=true&filters={\"name\": [\"");
    extend(&mut q, &chars_of(name));
    extend(&mut q, &chars_of("\"]}"));
    let qs = string_of(&q);
    build_request("GET", "/containers/json", Some(qs.as_str()))
}

/// The process ids among the entry names of `/proc`.
pub open spec fn numeric_pids_spec(names: Seq<Seq<char>>) -> Seq<u32>
    decreases names.len(),
{
    if names.len() == 0 {
        seq![]
    } else {
        let prev = numeric_pids_spec(names.drop_last());
        match parse_at_most(names.last(), u32::MAX as nat) {
            Some(v) => prev.push(v as u32),
            None => prev,
        }
    }
}

/// The process ids among the entry names of `/proc`, in order.
pub fn numeric_pids(names: &Vec<String>) -> (r: Vec<u32>)
    ensures
        r@ == numeric_pids_spec(crate::text::str_views(names@)),
{
    let ghost all = crate::text::str_views(names@);
    let mut r: Vec<u32> = Vec::new();
    let mut i: usize = 0;
    while i < names.len()
        invariant
            i <= names@.len(),
            all == crate::text::str_views(names@),
            r@ == numeric_pids_spec(all.subrange(0, i as int)),
        decreases names@.len() - i,
    {
        let ghost next = all.subrange(0, i + 1);
        assert(next.drop_last() =~= all.subrange(0, i as int));
        assert(next.last() == names@[i as int]@);
        match parse_decimal(&chars_of(names[i].as_str()), 0xffff_ffff) {
            Some(v) => r.push(v as u32),
            None => {},
        }
        i = i + 1;
    }
    assert(all.subrange(0, names@.len() as int) =~= all);
    r
}

/// The argument pair by which the engine's per-container supervisor names its container.
pub open spec fn supervisor_token(id: Seq<char>) -> Seq<char> {
    "-id\0"@ + id
}

pub open spec fn is_supervisor(cmdline: Seq<char>, id: Seq<char>) -> bool {
    contains(cmdline, supervisor_token(id))
}

/// The supervisor of container `id` among the processes `procs` (pid and
/// command line): the one with the largest pid whose command line holds
/// `-id\0<id>`; `ContainerProcessNotFound` where there is none.
pub fn find_supervisor(procs: &Vec<(u32, String)>, id: &str) -> (r: Result<u32, Error>)
    ensures
        match r {
            Ok(p) => {
                &&& exists|i: int|
                    0 <= i < procs@.len() && procs@[i].0 == p && is_supervisor(
                        #[trigger] procs@[i].1@,
                        id@,
                    )
                &&& forall|j: int|
                    0 <= j < procs@.len() && is_supervisor(#[trigger] procs@[j].1@, id@)
                        ==> procs@[j].0 <= p
            },
            Err(e) => e == Error::ContainerProcessNotFound && forall|j: int|
                0 <= j < procs@.len() ==> !is_supervisor(#[trigger] procs@[j].1@, id@),
        },
{
    let mut token = chars_of("-id\0");
    extend(&mut token, &chars_of(id));
    let mut best: Option<u32> = None;
    let mut i: usize = 0;
    while i < procs.len()
        invariant
            i <= procs@.len(),
            token@ == supervisor_token(id@),
            match best {
                Some(p) => {
                    &&& exists|k: int|
                        0 <= k < i && procs@[k].0 == p && is_supervisor(
                            #[trigger] procs@[k].1@,
                            id@,
                        )
                    &&& forall|j: int|
                        0 <= j < i && is_supervisor(#[trigger] procs@[j].1@, id@) ==> procs@[j].0
                            <= p
                },
                None => forall|j: int| 0 <= j < i ==> !is_supervisor(#[trigger] procs@[j].1@, id@),
            },
        decreases procs@.len() - i,
    {
        let cmd = chars_of(procs[i].1.as_str());
        if includes(&cmd, &token) {
            let p = procs[i].0;
            match best {
                Some(b) => {
                    if p >= b {
                        best = Some(p);
                    }
                },
                None => {
                    best = Some(p);
                },
            }
        }
        i = i + 1;
    }
    match best {
        Some(p) => Ok(p),
        None => Err(Error::ContainerProcessNotFound),
    }
}

/// The first child of a process, from its `task/<pid>/children` file
/// (space-separated, with a trailing space).
pub open spec fn first_child_spec(children: Seq<char>) -> Result<u32, Error> {
    match split_once(children, seq![' ']) {
        None => Err(Error::ContainerProcessNotFound),
        Some((first, _)) => match parse_at_most(first, u32::MAX as nat) {
            Some(v) => Ok(v as u32),
            None => Err(Error::InvalidPid),
        },
    }
}

/// The first child pid in the contents of a `children` file.
pub fn first_child_pid(children: &str) -> (r: Result<u32, Error>)
    ensures
        r == first_child_spec(children@),
{
    let sp = chars_of(" ");
    proof {
        reveal_strlit(" ");
    }
    assert(sp@ =~= seq![' ']);
    match split_once_at(&chars_of(children), &sp) {
        None => Err(Error::ContainerProcessNotFound),
        Some((first, _)) => match parse_decimal(&first, 0xffff_ffff) {
            Some(v) => Ok(v as u32),
            None => Err(Error::InvalidPid),
        },
    }
}

/// The parent pid that a `/proc/<pid>/stat` line gives: its fourth field.
pub open spec fn parent_pid_spec(stat: Seq<char>) -> Result<u32, Error> {
    let f = non_empty(split(trim(stat), ' '));
    if f.len() >= 4 {
        match parse_at_most(f[3], u32::MAX as nat) {
            Some(v) => Ok(v as u32),
            None => Err(Error::InvalidPid),
        }
    } else {
        Err(Error::InvalidPid)
    }
}

/// The parent pid in the contents of a `stat` file.
pub fn parent_pid(stat: &str) -> (r: Result<u32, Error>)
    ensures
        r == parent_pid_spec(stat@),
{
    let t = trimmed(&chars_of(stat));
    let f = keep_non_empty(&split_on(&t, ' '));
    if f.len() >= 4 {
        assert(views(f@)[3] == f@[3]@);
        match parse_decimal(&f[3], 0xffff_ffff) {
            Some(v) => Ok(v as u32),
            None => Err(Error::InvalidPid),
        }
    } else {
        Err(Error::InvalidPid)
    }
}

/// Checks that a process's parent belongs to the engine: its command line holds `moby`.
pub fn check_engine_parent(cmdline: &str) -> (r: Result<(), Error>)
    ensures
        r == if contains(cmdline@, "moby"@) {
            Ok::<(), Error>(())
        } else {
            Err(Error::InvalidPid)
        },
{
    if includes(&chars_of(cmdline), &chars_of("moby")) {
        Ok(())
    } else {
        Err(Error::InvalidPid)
    }
}

/// How a token given for a target is looked up.
#[derive(Debug)]
pub enum Resolution {
    /// The token is the id of a container whose init process is the pid.
    ById(String, u32),
    /// The token is taken as a name, to be looked up by the engine.
    ByName(String),
}

/// The lookup of `token`, given what probing `/proc` for a container with
/// that id gave: an id where the probe found an init process, else a name.
pub fn resolve_token(token: &str, probe: Result<u32, Error>) -> (r: Resolution)
    ensures
        match probe {
            Ok(pid) => r matches Resolution::ById(id, p) && id@ == token@ && p == pid,
            Err(_) => r matches Resolution::ByName(n) && n@ == token@,
        },
{
    match probe {
        Ok(pid) => Resolution::ById(string_of(&chars_of(token)), pid),
        Err(_) => Resolution::ByName(string_of(&chars_of(token))),
    }
}

} // verus!

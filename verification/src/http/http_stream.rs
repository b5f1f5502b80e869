//! One HTTP connection as the JavaScript side sees it: the parsed request line
//! and the state of the response that the script fills in.
use vstd::prelude::*;
use vstd::pervasive::unreached;
use vstd::string::StrSliceExecFns;

use super::whitespace::{
    chars_of, is_word, lemma_words_after_space, lemma_words_of_word_then, lemma_words_unfold,
    scan_word, white_space, words,
};

verus! {

/// The parts of an HTTP request line.
#[derive(Debug)]
pub struct HttpParts {
    pub method: String,
    pub uri: String,
    pub version: String,
}

/// Why a request line could not be read.
#[derive(Debug, Clone, Copy, PartialEq, Eq, Structural)]
pub enum RequestLineError {
    /// The connection ended before a request line arrived.
    MissingInfo,
    /// The request line holds no word.
    MissingMethod,
    /// The request line holds one word only.
    MissingUri,
    /// The request line holds two words only.
    MissingVersion,
}

impl RequestLineError {
    /// The text with which the server gives up on such a request.
    pub fn message(&self) -> (m: &'static str)
        ensures
            m@ == match *self {
                RequestLineError::MissingInfo => "missing http info"@,
                RequestLineError::MissingMethod => "missing http method"@,
                RequestLineError::MissingUri => "missing http uri"@,
                RequestLineError::MissingVersion => "missing http version"@,
            },
    {
        match *self {
            RequestLineError::MissingInfo => "missing http info",
            RequestLineError::MissingMethod => "missing http method",
            RequestLineError::MissingUri => "missing http uri",
            RequestLineError::MissingVersion => "missing http version",
        }
    }
}

/// What a request line says: its first three words are the method, the URI
/// and the version; further words are ignored.
pub open spec fn parsed_request_line(line: Seq<char>) -> Result<
    (Seq<char>, Seq<char>, Seq<char>),
    RequestLineError,
> {
    let w = words(line);
    if w.len() == 0 {
        Err(RequestLineError::MissingMethod)
    } else if w.len() == 1 {
        Err(RequestLineError::MissingUri)
    } else if w.len() == 2 {
        Err(RequestLineError::MissingVersion)
    } else {
        Ok((w[0], w[1], w[2]))
    }
}

/// The request line as text, `None` where the connection gave no line.
pub open spec fn line_view(first_line: Option<&str>) -> Option<Seq<char>> {
    match first_line {
        Some(line) => Some(line@),
        None => None,
    }
}

/// Why the first line of a request cannot be read into its parts, `None`
/// where it can.
pub open spec fn request_line_fault(first_line: Option<Seq<char>>) -> Option<RequestLineError> {
    match first_line {
        None => Some(RequestLineError::MissingInfo),
        Some(line) => match parsed_request_line(line) {
            Ok(_) => None,
            Err(e) => Some(e),
        },
    }
}

/// Where the first three words of `line` stand, by character index, or what
/// is missing where the line has fewer.
fn scan_request_line(line: &str) -> (r: Result<((usize, usize), (usize, usize), (usize, usize)), RequestLineError>)
    ensures
        match r {
            Ok(((a0, b0), (a1, b1), (a2, b2))) => {
                &&& a0 <= b0 <= line@.len() && a1 <= b1 <= line@.len() && a2 <= b2 <= line@.len()
                &&& parsed_request_line(line@) == Ok::<(Seq<char>, Seq<char>, Seq<char>), RequestLineError>((
                    line@.subrange(a0 as int, b0 as int),
                    line@.subrange(a1 as int, b1 as int),
                    line@.subrange(a2 as int, b2 as int),
                ))
            },
            Err(e) => parsed_request_line(line@) == Err::<(Seq<char>, Seq<char>, Seq<char>), RequestLineError>(e),
        },
{
    let chars = chars_of(line);
    let ghost s = chars@;
    proof {
        assert(s.skip(0) =~= s);
        lemma_words_unfold(s, 0);
    }
    let (a0, b0): (usize, usize) = scan_word(&chars, 0);
    if a0 == chars.len() {
        return Err(RequestLineError::MissingMethod);
    }
    proof {
        lemma_words_unfold(s, b0 as int);
    }
    let (a1, b1): (usize, usize) = scan_word(&chars, b0);
    if a1 == chars.len() {
        return Err(RequestLineError::MissingUri);
    }
    proof {
        lemma_words_unfold(s, b1 as int);
    }
    let (a2, b2): (usize, usize) = scan_word(&chars, b1);
    if a2 == chars.len() {
        return Err(RequestLineError::MissingVersion);
    }
    Ok(((a0, b0), (a1, b1), (a2, b2)))
}

/// Tells what is missing from the first line of a request (given as `None`
/// where the connection gave no line); `None` where nothing is.
pub fn check_request_line(first_line: Option<&str>) -> (r: Option<RequestLineError>)
    ensures
        r == request_line_fault(line_view(first_line)),
{
    match first_line {
        None => Some(RequestLineError::MissingInfo),
        Some(line) => match scan_request_line(line) {
            Ok(_) => None,
            Err(e) => Some(e),
        },
    }
}

/// Reads the request parts from the first line of a request: its first three
/// words are the method, the URI and the version.
pub fn extract_request_parts(first_line: Option<&str>) -> (p: HttpParts)
    requires
        request_line_fault(line_view(first_line)) is None,
    ensures
        first_line matches Some(line) && parsed_request_line(line@) == Ok::<
            (Seq<char>, Seq<char>, Seq<char>),
            RequestLineError,
        >((p.method@, p.uri@, p.version@)),
{
    let line = first_line.unwrap();
    match scan_request_line(line) {
        Ok(((a0, b0), (a1, b1), (a2, b2))) => {
            let method = line.substring_char(a0, b0).to_owned();
            let uri = line.substring_char(a1, b1).to_owned();
            let version = line.substring_char(a2, b2).to_owned();
            HttpParts { method, uri, version }
        },
        Err(_) => unreached(),
    }
}

/// What the script has said so far of the response to one request, with the
/// request line it answers; `W` is the handle that wakes the task waiting for
/// the response.
pub struct HttpStreamState<W> {
    pub method: Seq<char>,
    pub uri: Seq<char>,
    pub version: Seq<char>,
    pub response_body: Option<Seq<char>>,
    pub is_ready: bool,
    pub res_status: Option<u16>,
    pub response_waker: Option<W>,
}

impl<W> HttpStreamState<W> {
    /// A response is never both complete and waited for.
    pub open spec fn wf(self) -> bool {
        self.is_ready ==> self.response_waker is None
    }

    /// The state of a connection whose request line has just been read.
    pub open spec fn fresh(method: Seq<char>, uri: Seq<char>, version: Seq<char>) -> Self {
        HttpStreamState {
            method,
            uri,
            version,
            response_body: None,
            is_ready: false,
            res_status: None,
            response_waker: None,
        }
    }

    pub open spec fn with_body(self, body: Seq<char>) -> Self {
        HttpStreamState { response_body: Some(body), ..self }
    }

    pub open spec fn with_status(self, status: u16) -> Self {
        HttpStreamState { res_status: Some(status), ..self }
    }

    /// The response is complete; a task that waited for it has been handed out
    /// to be woken.
    pub open spec fn completed(self) -> Self {
        HttpStreamState { is_ready: true, response_waker: None, ..self }
    }

    /// The script's completion of the response with `status`: the status is
    /// recorded only where it is valid.
    pub open spec fn promise_completed(self, status: u16) -> Self {
        (if valid_status(status) {
            self.with_status(status)
        } else {
            self
        }).completed()
    }

    /// One operation on the response.
    pub open spec fn apply(self, op: StreamOp<W>) -> Self {
        match op {
            StreamOp::SetBody(body) => self.with_body(body),
            StreamOp::SetStatus(status) => self.with_status(status),
            StreamOp::Complete => self.completed(),
            StreamOp::Poll(waker) => self.polled(waker),
            StreamOp::PromiseComplete(status) => self.promise_completed(status),
        }
    }

    /// The operations `ops`, in order.
    pub open spec fn apply_all(self, ops: Seq<StreamOp<W>>) -> Self
        decreases ops.len(),
    {
        if ops.len() == 0 {
            self
        } else {
            self.apply(ops[0]).apply_all(ops.drop_first())
        }
    }

    /// A poll of the readiness future with `waker`: a pending poll leaves its
    /// waker behind, a ready one changes nothing.
    pub open spec fn polled(self, waker: W) -> Self {
        if self.is_ready {
            self
        } else {
            HttpStreamState { response_waker: Some(waker), ..self }
        }
    }
}

/// A status that HTTP accepts: three digits.
pub open spec fn valid_status(status: u16) -> bool {
    100 <= status <= 999
}

/// The operations on a response that change its state.
pub enum StreamOp<W> {
    SetBody(Seq<char>),
    SetStatus(u16),
    Complete,
    Poll(W),
    PromiseComplete(u16),
}

/// The response side of one HTTP connection.
#[derive(Debug)]
pub struct HttpStream<W> {
    request_parts: HttpParts,
    response_body: Option<String>,
    is_ready: bool,
    res_status: Option<u16>,
    response_waker: Option<W>,
}

pub open spec fn opt_string_view(s: Option<String>) -> Option<Seq<char>> {
    match s {
        Some(b) => Some(b@),
        None => None,
    }
}

impl<W> View for HttpStream<W> {
    type V = HttpStreamState<W>;

    closed spec fn view(&self) -> HttpStreamState<W> {
        HttpStreamState {
            method: self.request_parts.method@,
            uri: self.request_parts.uri@,
            version: self.request_parts.version@,
            response_body: opt_string_view(self.response_body),
            is_ready: self.is_ready,
            res_status: self.res_status,
            response_waker: self.response_waker,
        }
    }
}

impl<W> HttpStream<W> {
    /// A connection whose request line gave `request_parts`, with nothing said
    /// of the response yet.
    pub fn new(request_parts: HttpParts) -> (s: Self)
        ensures
            s@ == HttpStreamState::<W>::fresh(
                request_parts.method@,
                request_parts.uri@,
                request_parts.version@,
            ),
            s@.wf(),
    {
        HttpStream {
            request_parts,
            response_body: None,
            is_ready: false,
            res_status: None,
            response_waker: None,
        }
    }

    pub fn set_response_body(&mut self, body: String)
        ensures
            final(self)@ == old(self)@.with_body(body@),
            old(self)@.wf() ==> final(self)@.wf(),
    {
        self.response_body = Some(body);
    }

    pub fn set_status(&mut self, status: u16)
        ensures
            final(self)@ == old(self)@.with_status(status),
            old(self)@.wf() ==> final(self)@.wf(),
    {
        self.res_status = Some(status);
    }

    /// Marks the response complete and hands back the waker of the task that
    /// waits for it, if one does; the caller wakes it.
    pub fn complete(&mut self) -> (woken: Option<W>)
        ensures
            final(self)@ == old(self)@.completed(),
            old(self)@.wf() ==> final(self)@.wf(),
            woken == old(self)@.response_waker,
    {
        self.is_ready = true;
        self.response_waker.take()
    }

    /// The method of the request.
    pub fn get_method(&self) -> (m: String)
        ensures
            m@ == self@.method,
    {
        self.request_parts.method.clone()
    }

    /// One poll of the wait for the response: `true` once the response is
    /// complete; otherwise `waker` is kept, to be handed back by `complete`.
    pub fn poll_response_ready(&mut self, waker: W) -> (ready: bool)
        ensures
            ready == old(self)@.is_ready,
            final(self)@ == old(self)@.polled(waker),
            old(self)@.wf() ==> final(self)@.wf(),
    {
        if self.is_ready {
            true
        } else {
            self.response_waker = Some(waker);
            false
        }
    }

    pub fn is_ready(&self) -> (r: bool)
        ensures
            r == self@.is_ready,
    {
        self.is_ready
    }

    pub fn status(&self) -> (r: Option<u16>)
        ensures
            r == self@.res_status,
    {
        self.res_status
    }

    pub fn response_body(&self) -> (r: Option<&String>)
        ensures
            opt_string_view(match r { Some(b) => Some(*b), None => None }) == self@.response_body,
    {
        match &self.response_body {
            Some(b) => Some(b),
            None => None,
        }
    }

    pub fn request_parts(&self) -> (r: &HttpParts)
        ensures
            r.method@ == self@.method,
            r.uri@ == self@.uri,
            r.version@ == self@.version,
    {
        &self.request_parts
    }
}

/// Records the status that the script gave, where it is a valid HTTP status,
/// and completes the response; an invalid status is quietly ignored. Hands
/// back the waker of the task that waits for the response, if one does.
pub fn set_promise_complete<W>(http: &mut HttpStream<W>, status: u16) -> (woken: Option<W>)
    ensures
        final(http)@ == old(http)@.promise_completed(status),
        final(http)@.wf(),
        woken == old(http)@.response_waker,
{
    if 100 <= status && status <= 999 {
        http.set_status(status);
    }
    http.complete()
}

/// The bytes written back on every connection once its response is complete.
pub fn response_head() -> (r: &'static str)
    ensures
        r@ == "HTTP/1.1 200 OK\r\n\r\n"@,
{
    "HTTP/1.1 200 OK\r\n\r\n"
}

/// A request line written as method, space, URI, space, version reads back as
/// those three parts.
pub proof fn lemma_request_line_round_trip(method: Seq<char>, uri: Seq<char>, version: Seq<char>)
    requires
        is_word(method),
        is_word(uri),
        is_word(version),
    ensures
        parsed_request_line(method + seq![' '] + uri + seq![' '] + version) == Ok::<
            (Seq<char>, Seq<char>, Seq<char>),
            RequestLineError,
        >((method, uri, version)),
{
    let sp = seq![' '];
    assert(white_space(' '));
    let tail2 = sp + version;
    let tail1 = sp + uri + tail2;
    let line = method + seq![' '] + uri + seq![' '] + version;
    assert(line =~= method + tail1);
    assert(tail1 =~= seq![' '] + (uri + tail2));
    assert(tail2 =~= seq![' '] + version);
    lemma_words_of_word_then(method, tail1);
    lemma_words_after_space(' ', uri + tail2);
    lemma_words_of_word_then(uri, tail2);
    lemma_words_after_space(' ', version);
    assert(version =~= version + Seq::<char>::empty());
    lemma_words_of_word_then(version, Seq::<char>::empty());
    let e = Seq::<char>::empty();
    assert(e.skip(0) =~= e);
    lemma_words_unfold(e, 0);
    assert(words(line) =~= seq![method, uri, version]);
}

/// A first line is faulty exactly when it has fewer than three words: no line
/// is read where there is none, one word means no URI, two mean no version,
/// and any line of three or more words, however long, is accepted.
pub proof fn lemma_request_line_fault_by_word_count(line: Seq<char>)
    ensures
        request_line_fault(None) == Some(RequestLineError::MissingInfo),
        request_line_fault(Some(line)) is None <==> words(line).len() >= 3,
        request_line_fault(Some(line)) == Some(RequestLineError::MissingMethod) <==> words(
            line,
        ).len() == 0,
        request_line_fault(Some(line)) == Some(RequestLineError::MissingUri) <==> words(line).len()
            == 1,
        request_line_fault(Some(line)) == Some(RequestLineError::MissingVersion) <==> words(
            line,
        ).len() == 2,
        request_line_fault(Some(line)) != Some(RequestLineError::MissingInfo),
        words(line).len() >= 3 ==> parsed_request_line(line) == Ok::<
            (Seq<char>, Seq<char>, Seq<char>),
            RequestLineError,
        >((words(line)[0], words(line)[1], words(line)[2])),
{
}

/// A fresh response has no body, no status, is not complete and has no task
/// waiting, and answers the request line it was made from.
pub proof fn lemma_fresh_fields<W>(method: Seq<char>, uri: Seq<char>, version: Seq<char>)
    ensures
        HttpStreamState::<W>::fresh(method, uri, version).method == method,
        HttpStreamState::<W>::fresh(method, uri, version).uri == uri,
        HttpStreamState::<W>::fresh(method, uri, version).version == version,
        HttpStreamState::<W>::fresh(method, uri, version).response_body is None,
        HttpStreamState::<W>::fresh(method, uri, version).res_status is None,
        !HttpStreamState::<W>::fresh(method, uri, version).is_ready,
        HttpStreamState::<W>::fresh(method, uri, version).response_waker is None,
{
}

/// Setting the body replaces whatever body was set before, and changes nothing
/// else.
pub proof fn lemma_set_body_replaces<W>(s: HttpStreamState<W>, body: Seq<char>)
    ensures
        s.with_body(body).response_body == Some(body),
        s.with_body(body).res_status == s.res_status,
        s.with_body(body).is_ready == s.is_ready,
        s.with_body(body).response_waker == s.response_waker,
        s.with_body(body).method == s.method,
        s.with_body(body).uri == s.uri,
        s.with_body(body).version == s.version,
{
}

/// Setting the status replaces whatever status was set before, whatever its
/// value, and changes nothing else.
pub proof fn lemma_set_status_replaces<W>(s: HttpStreamState<W>, status: u16)
    ensures
        s.with_status(status).res_status == Some(status),
        s.with_status(status).response_body == s.response_body,
        s.with_status(status).is_ready == s.is_ready,
        s.with_status(status).response_waker == s.response_waker,
        s.with_status(status).method == s.method,
        s.with_status(status).uri == s.uri,
        s.with_status(status).version == s.version,
{
}

/// Completing always makes the response ready, whether or not a task waits or
/// a status is set, leaves no waker behind, and keeps body and status.
pub proof fn lemma_complete_makes_ready<W>(s: HttpStreamState<W>)
    ensures
        s.completed().is_ready,
        s.completed().response_waker is None,
        s.completed().response_body == s.response_body,
        s.completed().res_status == s.res_status,
        s.completed().method == s.method,
        s.completed().uri == s.uri,
        s.completed().version == s.version,
{
}

/// The script's completion always makes the response ready and leaves no
/// waker behind; it records the status exactly when it lies in 100..=999 and
/// otherwise keeps the status there was; the body is kept.
pub proof fn lemma_promise_complete_fields<W>(s: HttpStreamState<W>, status: u16)
    ensures
        s.promise_completed(status).is_ready,
        s.promise_completed(status).response_waker is None,
        100 <= status <= 999 ==> s.promise_completed(status).res_status == Some(status),
        !(100 <= status <= 999) ==> s.promise_completed(status).res_status == s.res_status,
        s.promise_completed(status).response_body == s.response_body,
        s.promise_completed(status).method == s.method,
        s.promise_completed(status).uri == s.uri,
        s.promise_completed(status).version == s.version,
{
}

/// A poll of a complete response changes nothing; a poll of a pending one
/// keeps its waker, replacing any earlier one, and changes nothing else.
pub proof fn lemma_poll_fields<W>(s: HttpStreamState<W>, waker: W)
    ensures
        s.is_ready ==> s.polled(waker) == s,
        !s.is_ready ==> s.polled(waker).response_waker == Some(waker),
        s.polled(waker).is_ready == s.is_ready,
        s.polled(waker).response_body == s.response_body,
        s.polled(waker).res_status == s.res_status,
        s.polled(waker).method == s.method,
        s.polled(waker).uri == s.uri,
        s.polled(waker).version == s.version,
{
}

/// Every operation keeps a response from being complete and waited for at once.
pub proof fn lemma_operations_keep_wf<W>(
    s: HttpStreamState<W>,
    body: Seq<char>,
    status: u16,
    waker: W,
)
    requires
        s.wf(),
    ensures
        s.with_body(body).wf(),
        s.with_status(status).wf(),
        s.completed().wf(),
        s.polled(waker).wf(),
        s.promise_completed(status).wf(),
{
}

/// Once complete, a response stays complete, and polling it answers ready and
/// changes nothing.
pub proof fn lemma_ready_is_sticky<W>(s: HttpStreamState<W>, body: Seq<char>, status: u16, waker: W)
    requires
        s.is_ready,
    ensures
        s.with_body(body).is_ready,
        s.with_status(status).is_ready,
        s.completed().is_ready,
        s.promise_completed(status).is_ready,
        s.polled(waker) == s,
{
}

/// The waker that a pending poll leaves is the one that the next completion
/// hands back, whatever body or status is set in between; a later pending poll
/// replaces it.
pub proof fn lemma_pending_poll_is_woken<W>(
    s: HttpStreamState<W>,
    waker: W,
    later: W,
    body: Seq<char>,
    status: u16,
)
    requires
        !s.is_ready,
    ensures
        s.polled(waker).with_body(body).with_status(status).response_waker == Some(waker),
        s.polled(waker).polled(later).response_waker == Some(later),
        !s.polled(waker).is_ready,
{
}

/// Every sequence of operations keeps a response well formed and leaves the
/// request line that it answers as it was.
pub proof fn lemma_sequence_keeps_wf<W>(s: HttpStreamState<W>, ops: Seq<StreamOp<W>>)
    requires
        s.wf(),
    ensures
        s.apply_all(ops).wf(),
        s.apply_all(ops).method == s.method,
        s.apply_all(ops).uri == s.uri,
        s.apply_all(ops).version == s.version,
    decreases ops.len(),
{
    if ops.len() > 0 {
        lemma_sequence_keeps_wf(s.apply(ops[0]), ops.drop_first());
    }
}

/// Once complete, a response stays complete through any sequence of
/// operations: it is complete before every step, so every poll in the
/// sequence answers ready (a poll answers the readiness it finds) and leaves
/// the state as it was.
pub proof fn lemma_ready_is_sticky_over<W>(s: HttpStreamState<W>, ops: Seq<StreamOp<W>>)
    requires
        s.is_ready,
    ensures
        s.apply_all(ops).is_ready,
        forall|i: int| 0 <= i <= ops.len() ==> (#[trigger] s.apply_all(ops.take(i))).is_ready,
        forall|i: int, w: W|
            0 <= i <= ops.len() ==> #[trigger] s.apply_all(ops.take(i)).polled(w) == s.apply_all(
                ops.take(i),
            ),
    decreases ops.len(),
{
    if ops.len() > 0 {
        let t = s.apply(ops[0]);
        lemma_ready_is_sticky_over(t, ops.drop_first());
        assert forall|i: int| 0 <= i <= ops.len() implies (#[trigger] s.apply_all(
            ops.take(i),
        )).is_ready by {
            if i == 0 {
                assert(ops.take(0) =~= Seq::<StreamOp<W>>::empty());
            } else {
                assert(ops.take(i)[0] == ops[0]);
                assert(ops.take(i).drop_first() =~= ops.drop_first().take(i - 1));
                assert(t.apply_all(ops.drop_first().take(i - 1)).is_ready);
                assert(s.apply_all(ops.take(i)) == t.apply_all(ops.drop_first().take(i - 1)));
            }
        }
    } else {
        assert(ops.take(0) =~= ops);
    }
}

/// Completing a second time hands back no waker and changes nothing.
pub proof fn lemma_complete_once<W>(s: HttpStreamState<W>)
    ensures
        s.completed().completed() == s.completed(),
        s.completed().response_waker is None,
{
}

/// No operation changes the request line that the response answers.
pub proof fn lemma_request_unchanged<W>(s: HttpStreamState<W>, body: Seq<char>, status: u16, waker: W)
    ensures
        s.with_body(body).method == s.method && s.with_body(body).uri == s.uri
            && s.with_body(body).version == s.version,
        s.with_status(status).method == s.method && s.with_status(status).uri == s.uri
            && s.with_status(status).version == s.version,
        s.completed().method == s.method && s.completed().uri == s.uri && s.completed().version
            == s.version,
        s.polled(waker).method == s.method && s.polled(waker).uri == s.uri && s.polled(
            waker,
        ).version == s.version,
{
}

} // verus!

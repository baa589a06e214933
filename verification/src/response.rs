//! The worker's side of one connection: which file a request names, what is
//! answered for what the lookup gave, and how the answer looks on the wire.

use crate::environment::Environment;
use crate::errors::{RequestParseError, RequestParseErrorView};
use crate::request::{
    header_lines, lemma_empty_payload_is_empty_request, parse_header, parse_payload, payload_lines,
    HeaderBlock, Request, RequestView,
};
use crate::text::{
    byte_len, decimal, decimal_string, lemma_decimal_reads_back, text_eq, unsigned_literal,
    utf8_text,
};
use vstd::utf8::{decode_utf8, encode_utf8, valid_utf8};
use vstd::prelude::*;
use vstd::string::*;

verus! {

/// The two answers the server knows.
#[derive(Debug, Clone, Copy, PartialEq, Eq, Structural)]
pub enum Status {
    /// The document was found and read.
    Success,
    /// The document is missing, unreadable or no text.
    NotFound,
}

impl Status {
    /// The status line on the wire.
    pub open spec fn line(self) -> Seq<char> {
        match self {
            Status::Success => "HTTP/1.1 200 OK"@,
            Status::NotFound => "HTTP/1.1 404 NOT FOUND"@,
        }
    }

    /// The numeric status code.
    pub open spec fn number(self) -> nat {
        match self {
            Status::Success => 200,
            Status::NotFound => 404,
        }
    }

    /// The status line on the wire.
    pub fn status_line(self) -> (line: &'static str)
        ensures
            line@ == self.line(),
    {
        match self {
            Status::Success => "HTTP/1.1 200 OK",
            Status::NotFound => "HTTP/1.1 404 NOT FOUND",
        }
    }

    /// The numeric status code.
    pub fn code(self) -> (code: u16)
        ensures
            code == self.number(),
    {
        match self {
            Status::Success => 200,
            Status::NotFound => 404,
        }
    }
}

/// The name of the document that the target `/` stands for.
pub const INDEX_DOCUMENT: &'static str = "index.html";

/// The body that is sent where no document can be.
pub const NOT_FOUND_DOCUMENT: &'static str = r#"<!DOCTYPE html>
                <html lang="en">
                    <head>
                        <meta charset="utf-8">
                        <title>Not found</title>
                    </head>
                    <body>
                        <h1>Oops!</h1>
                        <p>Sorry, I don't know what you're asking for.</p>
                    </body>
                </html>"#;

/// The name of the document that the target `/` stands for.
pub open spec fn index_document() -> Seq<char> {
    INDEX_DOCUMENT@
}

/// The body that is sent where no document can be.
pub open spec fn not_found_document() -> Seq<char> {
    NOT_FOUND_DOCUMENT@
}

/// The file that a target names under a content root: the index document for
/// `/`, else the target itself, appended to the root as it was sent.
pub open spec fn resolved_path(root: Seq<char>, target: Seq<char>) -> Seq<char> {
    root + "/"@ + if target == "/"@ {
        index_document()
    } else {
        target
    }
}

/// What is answered for what the lookup gave: the text with 200 where there
/// is one, the fixed document with 404 where there is none.
pub open spec fn answer(found: Option<Seq<char>>) -> ResponseView {
    match found {
        Some(text) => ResponseView { status: Status::Success, body: text },
        None => ResponseView { status: Status::NotFound, body: not_found_document() },
    }
}

/// The text of a file, given what reading it gave: the decoded bytes where
/// they are valid UTF-8, nothing where they are not or where nothing was read.
pub open spec fn file_text(read: Option<Seq<u8>>) -> Option<Seq<char>> {
    match read {
        Some(bytes) => if valid_utf8(bytes) {
            Some(decode_utf8(bytes))
        } else {
            None
        },
        None => None,
    }
}

/// The file that `target` names under `root`.
pub fn resolve_path(root: &str, target: &str) -> (path: String)
    ensures
        path@ == resolved_path(root@, target@),
{
    let mut path = root.to_owned();
    path.append("/");
    if text_eq(target, "/") {
        path.append(INDEX_DOCUMENT);
    } else {
        path.append(target);
    }
    path
}

/// The mathematical content of a [`ResponseOutcome`].
pub struct ResponseView {
    pub status: Status,
    pub body: Seq<char>,
}

impl ResponseView {
    /// The number that `Content-Length` announces: the bytes of the body.
    pub open spec fn length(self) -> nat {
        byte_len(self.body)
    }

    /// Everything before the body: status line, `Content-Length` and the
    /// blank line.
    pub open spec fn head(self) -> Seq<char> {
        self.status.line() + "\r\nContent-Length: "@ + decimal(self.length()) + "\r\n\r\n"@
    }

    /// The response as it is written to the connection.
    pub open spec fn wire_text(self) -> Seq<char> {
        self.head() + self.body
    }
}

/// One response: a status, a body and the body's length in bytes.
#[derive(Debug, PartialEq, Eq)]
pub struct ResponseOutcome {
    status: Status,
    body: String,
    length: usize,
}

impl View for ResponseOutcome {
    type V = ResponseView;

    closed spec fn view(&self) -> ResponseView {
        ResponseView { status: self.status, body: self.body@ }
    }
}

impl ResponseOutcome {
    #[verifier::type_invariant]
    spec fn length_counts_body(&self) -> bool {
        self.length as nat == byte_len(self.body@)
    }

    fn new(status: Status, body: String) -> (out: ResponseOutcome)
        ensures
            out@ == (ResponseView { status, body: body@ }),
    {
        let length = body.as_str().as_bytes().len();
        ResponseOutcome { status, body, length }
    }

    /// The response for a document that was read.
    pub fn found(body: String) -> (out: ResponseOutcome)
        ensures
            out@ == answer(Some(body@)),
    {
        Self::new(Status::Success, body)
    }

    /// The response for a document that could not be read.
    pub fn not_found() -> (out: ResponseOutcome)
        ensures
            out@ == answer(None),
    {
        Self::new(Status::NotFound, NOT_FOUND_DOCUMENT.to_owned())
    }

    /// The response for what the lookup gave: `Some` with the document's text,
    /// `None` where it is missing, unreadable or no text.
    pub fn from_lookup(found: Option<String>) -> (out: ResponseOutcome)
        ensures
            out@ == answer(
                match found {
                    Some(text) => Some(text@),
                    None => None,
                },
            ),
    {
        match found {
            Some(text) => Self::found(text),
            None => Self::not_found(),
        }
    }

    /// The response for what reading the file gave: its bytes, or `None`
    /// where it is missing or unreadable. Bytes that are no valid UTF-8 are no
    /// text, and are answered like a missing file.
    pub fn from_read(read: Option<&[u8]>) -> (out: ResponseOutcome)
        ensures
            out@ == answer(
                file_text(
                    match read {
                        Some(bytes) => Some(bytes@),
                        None => None,
                    },
                ),
            ),
    {
        match read {
            Some(bytes) => match utf8_text(bytes) {
                Some(text) => Self::found(text.to_owned()),
                None => Self::not_found(),
            },
            None => Self::not_found(),
        }
    }

    /// The status of the response.
    pub fn status(&self) -> (status: Status)
        ensures
            status == self@.status,
    {
        self.status
    }

    /// The body of the response.
    pub fn body(&self) -> (body: &str)
        ensures
            body@ == self@.body,
    {
        self.body.as_str()
    }

    /// The length of the body in bytes, as `Content-Length` announces it.
    pub fn length(&self) -> (length: usize)
        ensures
            length as nat == self@.length(),
    {
        proof {
            use_type_invariant(self);
        }
        self.length
    }

    /// The response as text, ready for the wire.
    pub fn to_text(&self) -> (text: String)
        ensures
            text@ == self@.wire_text(),
    {
        proof {
            use_type_invariant(self);
        }
        let mut text = self.status.status_line().to_owned();
        text.append("\r\nContent-Length: ");
        text.append(decimal_string(self.length as u64).as_str());
        text.append("\r\n\r\n");
        text.append(self.body.as_str());
        text
    }

    /// The response as the bytes of one write.
    pub fn to_bytes(&self) -> (bytes: Vec<u8>)
        ensures
            bytes@ == encode_utf8(self@.wire_text()),
    {
        self.to_text().as_str().as_bytes_vec()
    }
}

/// What the worker of one connection does once the header block is read.
#[derive(Debug, Clone, PartialEq, Eq)]
pub enum WorkerStep {
    /// The bytes gave no request: the connection is closed and nothing is
    /// written to it.
    Close { reason: RequestParseError },
    /// Read the file at `path` as text, then answer with what
    /// [`ResponseOutcome::from_lookup`] makes of it.
    Lookup { request: Request, path: String },
}

/// The mathematical content of a [`WorkerStep`].
pub enum WorkerStepView {
    Close { reason: RequestParseErrorView },
    Lookup { request: RequestView, path: Seq<char> },
}

impl View for WorkerStep {
    type V = WorkerStepView;

    open spec fn view(&self) -> WorkerStepView {
        match self {
            WorkerStep::Close { reason } => WorkerStepView::Close { reason: reason@ },
            WorkerStep::Lookup { request, path } => WorkerStepView::Lookup {
                request: request@,
                path: path@,
            },
        }
    }
}

/// The worker's step for a header block under a content root: a parse failure
/// ends the connection, a request leads to the file that its target names.
pub open spec fn worker_step(root: Seq<char>, header: Seq<Seq<char>>) -> WorkerStepView {
    match parse_header(header) {
        Err(reason) => WorkerStepView::Close { reason },
        Ok(request) => WorkerStepView::Lookup {
            request,
            path: resolved_path(root, request.content),
        },
    }
}

/// Decides what to do for one connection whose header block is `block`.
pub fn handle_client(env: &Environment, block: &HeaderBlock) -> (step: WorkerStep)
    ensures
        step@ == worker_step(env@.source_dir, block.lines()),
{
    match Request::try_from(block) {
        Err(reason) => WorkerStep::Close { reason },
        Ok(request) => {
            let path = resolve_path(env.source_dir.as_str(), request.content.as_str());
            WorkerStep::Lookup { request, path }
        },
    }
}

/// What reading a path in a content root gives: the bytes of the file there,
/// or nothing where no readable file is. `files` maps each path with a
/// readable file to the file's bytes.
pub open spec fn read_at(files: Map<Seq<char>, Seq<u8>>, path: Seq<char>) -> Option<Seq<u8>> {
    if files.dom().contains(path) {
        Some(files[path])
    } else {
        None
    }
}

/// The response that a step leads to against a content root; none for a
/// connection that is closed.
pub open spec fn step_response(step: WorkerStepView, files: Map<Seq<char>, Seq<u8>>) -> Option<
    ResponseView,
> {
    match step {
        WorkerStepView::Close { .. } => None,
        WorkerStepView::Lookup { path, .. } => Some(answer(file_text(read_at(files, path)))),
    }
}

/// Every byte that is written to one connection: nothing where its payload
/// gave no request, else the one response for what the content root holds at
/// the resolved path.
pub open spec fn served(root: Seq<char>, payload: Seq<u8>, files: Map<Seq<char>, Seq<u8>>) -> Option<
    Seq<u8>,
> {
    match step_response(worker_step(root, header_lines(payload_lines(payload))), files) {
        None => None,
        Some(response) => Some(encode_utf8(response.wire_text())),
    }
}

/// Encoding a text is encoding its parts, one after the other.
pub proof fn lemma_encoding_concatenates(a: Seq<char>, b: Seq<char>)
    ensures
        encode_utf8(a + b) == encode_utf8(a) + encode_utf8(b),
    decreases a.len(),
{
    if a.len() > 0 {
        lemma_encoding_concatenates(a.drop_first(), b);
        assert((a + b).drop_first() =~= a.drop_first() + b);
    }
}

/// On the wire a response ends with exactly the bytes of its body, and the
/// number after `Content-Length` reads back as the count of those bytes.
pub proof fn lemma_body_bytes_close_the_response(response: ResponseView)
    ensures
        encode_utf8(response.wire_text()) == encode_utf8(response.head()) + encode_utf8(
            response.body,
        ),
        unsigned_literal(decimal(response.length())) == Some(
            encode_utf8(response.body).len(),
        ),
{
    lemma_encoding_concatenates(response.head(), response.body);
    lemma_decimal_reads_back(response.length());
}

/// A request for `/` is answered with status 200, a `Content-Length` equal to
/// the number of bytes of the index document, and then those bytes exactly as
/// the file holds them, whenever the content root holds an index document
/// that is text.
pub proof fn lemma_root_target_serves_index(
    root: Seq<char>,
    payload: Seq<u8>,
    files: Map<Seq<char>, Seq<u8>>,
)
    requires
        parse_payload(payload) matches Ok(request) && request.content == "/"@,
        files.dom().contains(root + "/"@ + INDEX_DOCUMENT@),
        valid_utf8(files[root + "/"@ + INDEX_DOCUMENT@]),
    ensures
        served(root, payload, files) == Some(
            encode_utf8(
                "HTTP/1.1 200 OK"@ + "\r\nContent-Length: "@ + decimal(
                    files[root + "/"@ + INDEX_DOCUMENT@].len(),
                ) + "\r\n\r\n"@,
            ) + files[root + "/"@ + INDEX_DOCUMENT@],
        ),
{
    let bytes = files[root + "/"@ + INDEX_DOCUMENT@];
    let response = answer(file_text(Some(bytes)));
    vstd::utf8::decode_utf8_encode_utf8(bytes);
    lemma_encoding_concatenates(response.head(), response.body);
}

/// A request whose resolved file the content root does not hold, or holds as
/// something that is no text, is answered with status 404, a `Content-Length`
/// equal to the number of bytes of the fixed document, and then the fixed
/// document.
pub proof fn lemma_missing_file_serves_not_found(
    root: Seq<char>,
    payload: Seq<u8>,
    files: Map<Seq<char>, Seq<u8>>,
)
    requires
        parse_payload(payload) matches Ok(request) && file_text(
            read_at(files, resolved_path(root, request.content)),
        ) is None,
    ensures
        served(root, payload, files) == Some(
            encode_utf8(
                "HTTP/1.1 404 NOT FOUND"@ + "\r\nContent-Length: "@ + decimal(
                    encode_utf8(NOT_FOUND_DOCUMENT@).len(),
                ) + "\r\n\r\n"@,
            ) + encode_utf8(NOT_FOUND_DOCUMENT@),
        ),
{
    let response = answer(None);
    lemma_encoding_concatenates(response.head(), response.body);
}

/// The same payload against the same content root is answered with the same
/// bytes, every time.
pub proof fn lemma_same_request_same_response(
    root: Seq<char>,
    first: Seq<u8>,
    second: Seq<u8>,
    files: Map<Seq<char>, Seq<u8>>,
)
    requires
        first == second,
    ensures
        served(root, first, files) == served(root, second, files),
{
}

/// However many connections ask for `/` against one content root, each gets
/// the same bytes: status 200 with the index document. What one connection is
/// sent depends on its own payload and on the content root, and on nothing
/// that another connection does.
pub proof fn lemma_every_root_request_gets_the_index(
    root: Seq<char>,
    payloads: Seq<Seq<u8>>,
    files: Map<Seq<char>, Seq<u8>>,
)
    requires
        forall|i: int|
            0 <= i < payloads.len() ==> (#[trigger] parse_payload(payloads[i]) matches Ok(request)
                && request.content == "/"@),
        files.dom().contains(root + "/"@ + INDEX_DOCUMENT@),
        valid_utf8(files[root + "/"@ + INDEX_DOCUMENT@]),
    ensures
        forall|i: int, j: int|
            0 <= i < payloads.len() && 0 <= j < payloads.len() ==> #[trigger] served(
                root,
                payloads[i],
                files,
            ) == #[trigger] served(root, payloads[j], files),
        forall|i: int|
            0 <= i < payloads.len() ==> (#[trigger] served(root, payloads[i], files)) is Some,
{
    assert forall|i: int| 0 <= i < payloads.len() implies #[trigger] served(
        root,
        payloads[i],
        files,
    ) == Some(
        encode_utf8(
            "HTTP/1.1 200 OK"@ + "\r\nContent-Length: "@ + decimal(
                files[root + "/"@ + INDEX_DOCUMENT@].len(),
            ) + "\r\n\r\n"@,
        ) + files[root + "/"@ + INDEX_DOCUMENT@],
    ) by {
        lemma_root_target_serves_index(root, payloads[i], files);
    }
}

/// A connection that sent nothing is an empty request, and nothing is written
/// to it.
pub proof fn lemma_empty_payload_gets_no_response(root: Seq<char>, files: Map<Seq<char>, Seq<u8>>)
    ensures
        parse_payload(Seq::empty()) == Err::<RequestView, RequestParseErrorView>(
            RequestParseErrorView::EmptyRequestError,
        ),
        served(root, Seq::empty(), files) is None,
{
    lemma_empty_payload_is_empty_request();
}

/// No connection whose payload fails to parse is written to, whatever the
/// content root holds.
pub proof fn lemma_parse_failure_gets_no_response(
    root: Seq<char>,
    payload: Seq<u8>,
    files: Map<Seq<char>, Seq<u8>>,
)
    ensures
        parse_payload(payload) is Err <==> served(root, payload, files) is None,
{
}

} // verus!

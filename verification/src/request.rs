//! The request line parser: from the lines of one connection to a method and
//! a target, or to the reason why there is none.

use crate::errors::{RequestParseError, RequestParseErrorView};
use crate::text::{
    chars_of, free_of, lemma_split_around, lemma_split_single, split, split_text, text_eq,
    utf8_text, views, without_return,
};
use vstd::prelude::*;
use vstd::string::*;
use vstd::utf8::{decode_utf8, valid_utf8};

verus! {

/// The nine request methods that the server knows.
#[derive(Debug, Clone, Copy, PartialEq, Eq, Structural)]
pub enum HttpMethod {
    POST,
    GET,
    HEAD,
    PUT,
    DELETE,
    CONNECT,
    OPTIONS,
    TRACE,
    PATCH,
}

impl HttpMethod {
    /// The token that names the method on the wire.
    pub open spec fn token(self) -> Seq<char> {
        match self {
            HttpMethod::POST => "POST"@,
            HttpMethod::GET => "GET"@,
            HttpMethod::HEAD => "HEAD"@,
            HttpMethod::PUT => "PUT"@,
            HttpMethod::DELETE => "DELETE"@,
            HttpMethod::CONNECT => "CONNECT"@,
            HttpMethod::OPTIONS => "OPTIONS"@,
            HttpMethod::TRACE => "TRACE"@,
            HttpMethod::PATCH => "PATCH"@,
        }
    }

    /// The method that a token names, if it names one. Tokens are matched
    /// exactly: case counts.
    pub open spec fn of_token(token: Seq<char>) -> Option<HttpMethod> {
        if token == "POST"@ {
            Some(HttpMethod::POST)
        } else if token == "GET"@ {
            Some(HttpMethod::GET)
        } else if token == "HEAD"@ {
            Some(HttpMethod::HEAD)
        } else if token == "PUT"@ {
            Some(HttpMethod::PUT)
        } else if token == "DELETE"@ {
            Some(HttpMethod::DELETE)
        } else if token == "CONNECT"@ {
            Some(HttpMethod::CONNECT)
        } else if token == "OPTIONS"@ {
            Some(HttpMethod::OPTIONS)
        } else if token == "TRACE"@ {
            Some(HttpMethod::TRACE)
        } else if token == "PATCH"@ {
            Some(HttpMethod::PATCH)
        } else {
            None
        }
    }

    /// The method that `token` names, if it names one.
    pub fn from_token(token: &str) -> (method: Option<HttpMethod>)
        ensures
            method == Self::of_token(token@),
    {
        if text_eq(token, "POST") {
            Some(HttpMethod::POST)
        } else if text_eq(token, "GET") {
            Some(HttpMethod::GET)
        } else if text_eq(token, "HEAD") {
            Some(HttpMethod::HEAD)
        } else if text_eq(token, "PUT") {
            Some(HttpMethod::PUT)
        } else if text_eq(token, "DELETE") {
            Some(HttpMethod::DELETE)
        } else if text_eq(token, "CONNECT") {
            Some(HttpMethod::CONNECT)
        } else if text_eq(token, "OPTIONS") {
            Some(HttpMethod::OPTIONS)
        } else if text_eq(token, "TRACE") {
            Some(HttpMethod::TRACE)
        } else if text_eq(token, "PATCH") {
            Some(HttpMethod::PATCH)
        } else {
            None
        }
    }

    /// Every method is found again from its own token, and no token holds a
    /// space.
    pub proof fn lemma_token_names_method(self)
        ensures
            Self::of_token(self.token()) == Some(self),
            free_of(self.token(), ' '),
    {
        reveal_strlit("POST");
        reveal_strlit("GET");
        reveal_strlit("HEAD");
        reveal_strlit("PUT");
        reveal_strlit("DELETE");
        reveal_strlit("CONNECT");
        reveal_strlit("OPTIONS");
        reveal_strlit("TRACE");
        reveal_strlit("PATCH");
        let t = self.token();
        assert(t[0] != ' ' && t[1] != ' ' && t[2] != ' ');
    }
}

/// A parsed request: what was asked for, and how.
#[derive(Debug, Clone, PartialEq, Eq)]
pub struct Request {
    /// The method of the request line.
    pub method: HttpMethod,
    /// The target of the request line, as it was sent.
    pub content: String,
}

/// The mathematical content of a [`Request`].
pub struct RequestView {
    pub method: HttpMethod,
    pub content: Seq<char>,
}

impl View for Request {
    type V = RequestView;

    open spec fn view(&self) -> RequestView {
        RequestView { method: self.method, content: self.content@ }
    }
}

/// The header block of a stream of lines: the lines before the first empty
/// one, or all of them where none is empty.
pub open spec fn header_lines(lines: Seq<Seq<char>>) -> Seq<Seq<char>>
    decreases lines.len(),
{
    if lines.len() == 0 || lines[0].len() == 0 {
        Seq::empty()
    } else {
        seq![lines[0]] + header_lines(lines.drop_first())
    }
}

/// What a request line says: exactly three tokens between single spaces, a
/// known method first, the target second; the third is not looked at.
pub open spec fn parse_request_line(line: Seq<char>) -> Result<RequestView, RequestParseErrorView> {
    let tokens = split(line, ' ');
    if tokens.len() != 3 {
        Err(RequestParseErrorView::InvalidRequestHeader)
    } else {
        match HttpMethod::of_token(tokens[0]) {
            Some(method) => Ok(RequestView { method, content: tokens[1] }),
            None => Err(RequestParseErrorView::InvalidMethodError(tokens[0])),
        }
    }
}

/// What a header block says: its first line is the request line, and a block
/// without lines is an empty request.
pub open spec fn parse_header(header: Seq<Seq<char>>) -> Result<RequestView, RequestParseErrorView> {
    if header.len() == 0 {
        Err(RequestParseErrorView::EmptyRequestError)
    } else {
        parse_request_line(header[0])
    }
}

/// The views of a parse result.
pub open spec fn outcome_view(outcome: Result<Request, RequestParseError>) -> Result<
    RequestView,
    RequestParseErrorView,
> {
    match outcome {
        Ok(request) => Ok(request@),
        Err(error) => Err(error@),
    }
}

/// The line that a raw line of the stream stands for. A raw line is what was
/// read up to and with a line feed, or up to the end of the stream. Its text
/// is what the bytes encode, without the line feed at the end and without a
/// carriage return just before that line feed. Bytes that are no valid UTF-8
/// stand for the empty line.
pub open spec fn line_text(raw: Seq<u8>) -> Seq<char> {
    if !valid_utf8(raw) {
        Seq::empty()
    } else {
        let text = decode_utf8(raw);
        if text.len() > 0 && text.last() == '\n' {
            without_return(text.drop_last())
        } else {
            text
        }
    }
}

/// The raw lines of a payload: every line feed ends one and belongs to it, and
/// what follows the last line feed is one more where it is not empty.
pub open spec fn raw_lines(payload: Seq<u8>) -> Seq<Seq<u8>>
    decreases payload.len(),
{
    if payload.len() == 0 {
        Seq::empty()
    } else {
        let before = raw_lines(payload.drop_last());
        if before.len() > 0 && before.last().len() > 0 && before.last().last() != 10u8 {
            before.drop_last().push(before.last().push(payload.last()))
        } else {
            before.push(seq![payload.last()])
        }
    }
}

/// The lines that the raw lines of a payload stand for.
pub open spec fn payload_lines(payload: Seq<u8>) -> Seq<Seq<char>> {
    Seq::new(raw_lines(payload).len(), |i: int| line_text(raw_lines(payload)[i]))
}

/// The line that the raw line `raw` stands for.
pub fn line_of(raw: &[u8]) -> (line: String)
    ensures
        line@ == line_text(raw@),
{
    let text = match utf8_text(raw) {
        None => {
            return String::new();
        },
        Some(text) => text,
    };
    let chars = chars_of(text);
    let mut end: usize = chars.len();
    if end > 0 && chars[end - 1] == '\n' {
        end -= 1;
        if end > 0 && chars[end - 1] == '\r' {
            end -= 1;
        }
    }
    let mut line = String::new();
    let mut i: usize = 0;
    while i < end
        invariant
            i <= end <= chars.len(),
            line@ == chars@.take(i as int),
        decreases end - i,
    {
        line.push(chars[i]);
        i += 1;
    }
    line
}

/// Collects the header block of one connection, line by line, and says when
/// to stop reading. No line of a block is empty.
#[derive(Debug, PartialEq, Eq)]
pub struct HeaderBlock {
    lines: Vec<String>,
    complete: bool,
}

impl HeaderBlock {
    #[verifier::type_invariant]
    spec fn holds_no_empty_line(&self) -> bool {
        forall|i: int| 0 <= i < self.lines@.len() ==> (#[trigger] self.lines@[i])@.len() > 0
    }

    /// The lines collected so far.
    pub closed spec fn lines(&self) -> Seq<Seq<char>> {
        views(self.lines@)
    }

    /// Whether an empty line has closed the block.
    pub closed spec fn complete(&self) -> bool {
        self.complete
    }

    /// A block before its first line.
    pub fn new() -> (block: HeaderBlock)
        ensures
            block.lines() == Seq::<Seq<char>>::empty(),
            !block.complete(),
    {
        HeaderBlock { lines: Vec::new(), complete: false }
    }

    /// Takes the next line of the stream and says whether another one is
    /// wanted. An empty line closes the block; a closed block takes no more.
    pub fn offer(&mut self, line: String) -> (more: bool)
        ensures
            more == (!old(self).complete() && line@.len() > 0),
            more ==> final(self).lines() == old(self).lines().push(line@),
            more ==> !final(self).complete(),
            !more ==> final(self).lines() == old(self).lines() && final(self).complete(),
    {
        proof {
            use_type_invariant(&*self);
        }
        if self.complete || line.as_str().is_empty() {
            self.complete = true;
            false
        } else {
            let mut lines: Vec<String> = Vec::new();
            core::mem::swap(&mut self.lines, &mut lines);
            lines.push(line);
            core::mem::swap(&mut self.lines, &mut lines);
            true
        }
    }

    /// The header block of a whole stream of lines.
    pub fn from_lines(lines: Vec<String>) -> (block: HeaderBlock)
        ensures
            block.lines() == header_lines(views(lines@)),
    {
        let mut block = HeaderBlock::new();
        let ghost all = views(lines@);
        let mut i: usize = 0;
        assert(all.skip(0) =~= all);
        while i < lines.len()
            invariant
                i <= lines.len(),
                all == views(lines@),
                !block.complete(),
                block.lines() + header_lines(all.skip(i as int)) == header_lines(all),
            decreases lines.len() - i,
        {
            let ghost rest = all.skip(i as int);
            let ghost before = block.lines();
            assert(rest.drop_first() =~= all.skip(i + 1));
            let more = block.offer(lines[i].clone());
            if !more {
                return block;
            }
            assert(before.push(rest[0]) + header_lines(rest.drop_first()) =~= before + (seq![
                rest[0],
            ] + header_lines(rest.drop_first())));
            i += 1;
        }
        block
    }

    /// Takes the next raw line of the stream, as it was read up to and with
    /// its line feed or up to the end of the stream, and says whether another
    /// one is wanted.
    pub fn offer_bytes(&mut self, raw: &[u8]) -> (more: bool)
        ensures
            more == (!old(self).complete() && line_text(raw@).len() > 0),
            more ==> final(self).lines() == old(self).lines().push(line_text(raw@)),
            more ==> !final(self).complete(),
            !more ==> final(self).lines() == old(self).lines() && final(self).complete(),
    {
        self.offer(line_of(raw))
    }

    /// The header block of a whole payload.
    pub fn from_bytes(payload: &[u8]) -> (block: HeaderBlock)
        ensures
            block.lines() == header_lines(payload_lines(payload@)),
    {
        let mut raws: Vec<Vec<u8>> = Vec::new();
        let mut current: Vec<u8> = Vec::new();
        let mut i: usize = 0;
        while i < payload.len()
            invariant
                i <= payload.len(),
                forall|k: int|
                    0 <= k < raws@.len() ==> (#[trigger] raws@[k])@.len() > 0 && raws@[k]@.last()
                        == 10u8,
                forall|k: int| 0 <= k < current@.len() ==> current@[k] != 10u8,
                raw_lines(payload@.take(i as int)) == Seq::new(raws@.len(), |k: int| raws@[k]@)
                    + if current@.len() > 0 {
                    seq![current@]
                } else {
                    Seq::empty()
                },
            decreases payload.len() - i,
        {
            let byte = payload[i];
            proof {
                assert(payload@.take(i + 1).drop_last() =~= payload@.take(i as int));
                if current@.len() == 0 {
                    assert(current@.push(byte) =~= seq![byte]);
                }
            }
            current.push(byte);
            if byte == 10 {
                raws.push(current);
                current = Vec::new();
            }
            i += 1;
        }
        assert(payload@.take(i as int) =~= payload@);
        if current.len() > 0 {
            let ghost closed = Seq::new(raws@.len(), |k: int| raws@[k]@);
            raws.push(current);
            assert(Seq::new(raws@.len(), |k: int| raws@[k]@) =~= closed.push(
                raws@[raws@.len() - 1]@,
            ));
        }
        let mut lines: Vec<String> = Vec::new();
        let mut j: usize = 0;
        while j < raws.len()
            invariant
                j <= raws.len(),
                views(lines@) == Seq::new(j as nat, |k: int| line_text(raws@[k]@)),
            decreases raws.len() - j,
        {
            let ghost before = views(lines@);
            lines.push(line_of(raws[j].as_slice()));
            assert(views(lines@) =~= before.push(line_text(raws@[j as int]@)));
            j += 1;
        }
        assert(views(lines@) =~= payload_lines(payload@));
        HeaderBlock::from_lines(lines)
    }

    /// How many lines the block holds.
    pub fn len(&self) -> (n: usize)
        ensures
            n == self.lines().len(),
    {
        self.lines.len()
    }

    /// The `i`-th line of the block.
    pub fn line(&self, i: usize) -> (line: &str)
        requires
            i < self.lines().len(),
        ensures
            line@ == self.lines()[i as int],
            line@.len() > 0,
    {
        proof {
            use_type_invariant(self);
        }
        self.lines[i].as_str()
    }
}

impl Request {
    /// Reads the request out of `line`, the first line of a header block.
    pub fn from_request_line(line: &str) -> (outcome: Result<Request, RequestParseError>)
        ensures
            outcome_view(outcome) == parse_request_line(line@),
    {
        let tokens = split_text(line, ' ');
        if tokens.len() != 3 {
            return Err(RequestParseError::InvalidRequestHeader);
        }
        match HttpMethod::from_token(tokens[0].as_str()) {
            Some(method) => Ok(Request { method, content: tokens[1].clone() }),
            None => Err(RequestParseError::InvalidMethodError(tokens[0].clone())),
        }
    }

    /// Reads the request out of the bytes that one connection sent.
    pub fn from_bytes(payload: &[u8]) -> (outcome: Result<Request, RequestParseError>)
        ensures
            outcome_view(outcome) == parse_payload(payload@),
    {
        Self::try_from(&HeaderBlock::from_bytes(payload))
    }

    /// Reads the request out of the header block of one connection. Headers
    /// beyond the request line are not interpreted.
    pub fn try_from(block: &HeaderBlock) -> (outcome: Result<Request, RequestParseError>)
        ensures
            outcome_view(outcome) == parse_header(block.lines()),
    {
        if block.len() == 0 {
            Err(RequestParseError::EmptyRequestError)
        } else {
            Self::from_request_line(block.line(0))
        }
    }
}

/// What the bytes of one connection say: the request of their header block.
pub open spec fn parse_payload(payload: Seq<u8>) -> Result<RequestView, RequestParseErrorView> {
    parse_header(header_lines(payload_lines(payload)))
}

/// A connection that sent no byte at all is an empty request.
pub proof fn lemma_empty_payload_is_empty_request()
    ensures
        parse_payload(Seq::empty()) == Err::<RequestView, RequestParseErrorView>(
            RequestParseErrorView::EmptyRequestError,
        ),
{
}

/// A line of three tokens between single spaces, the first a known method,
/// parses to that method with the second token as the target.
pub proof fn lemma_three_tokens_parse(method: HttpMethod, target: Seq<char>, version: Seq<char>)
    requires
        free_of(target, ' '),
        free_of(version, ' '),
    ensures
        parse_request_line(method.token().push(' ') + (target.push(' ') + version)) == Ok::<
            RequestView,
            RequestParseErrorView,
        >(RequestView { method, content: target }),
{
    let tail = target.push(' ') + version;
    method.lemma_token_names_method();
    lemma_split_around(method.token(), tail, ' ');
    lemma_split_around(target, version, ' ');
    lemma_split_single(method.token(), ' ');
    lemma_split_single(target, ' ');
    lemma_split_single(version, ' ');
    let tokens = split(method.token().push(' ') + tail, ' ');
}

/// For each of the nine methods and every target without a space, the request
/// line `<method> <target> HTTP/1.1` parses to exactly that method and that
/// target.
pub proof fn lemma_well_formed_line_parses(method: HttpMethod, target: Seq<char>)
    requires
        free_of(target, ' '),
    ensures
        parse_request_line(method.token() + " "@ + target + " "@ + "HTTP/1.1"@) == Ok::<
            RequestView,
            RequestParseErrorView,
        >(RequestView { method, content: target }),
{
    reveal_strlit(" ");
    reveal_strlit("HTTP/1.1");
    lemma_three_tokens_parse(method, target, "HTTP/1.1"@);
    assert(method.token() + " "@ + target + " "@ + "HTTP/1.1"@ =~= method.token().push(' ') + (
    target.push(' ') + "HTTP/1.1"@));
}

/// Whatever the line, the parser answers in exactly one of three ways, each
/// decided by the tokens alone: the wrong number of tokens is a malformed
/// header, an unknown first token is an invalid method that carries the token,
/// and anything else is a request with the second token as its target.
pub proof fn lemma_parse_is_total(line: Seq<char>)
    ensures
        split(line, ' ').len() != 3 <==> parse_request_line(line) == Err::<
            RequestView,
            RequestParseErrorView,
        >(RequestParseErrorView::InvalidRequestHeader),
        split(line, ' ').len() == 3 && HttpMethod::of_token(split(line, ' ')[0]) is None
            <==> parse_request_line(line) == Err::<RequestView, RequestParseErrorView>(
            RequestParseErrorView::InvalidMethodError(split(line, ' ')[0]),
        ),
        split(line, ' ').len() == 3 && HttpMethod::of_token(split(line, ' ')[0]) is Some
            <==> parse_request_line(line) is Ok,
        parse_request_line(line) matches Ok(request) ==> request.content == split(line, ' ')[1]
            && HttpMethod::of_token(split(line, ' ')[0]) == Some(request.method),
{
}

} // verus!

//! The replies of a reference emulator, as far as they are decided without
//! the transport: the reply to one command arrives as a stream of markup
//! events, and the events in turn decide what the reply is.

use vstd::prelude::*;
use vstd::string::StrSliceExecFns;
use crate::utils::push_text;

verus! {

/// The reply to a command: the data, and whether the command succeeded.
#[derive(Debug)]
pub enum Response {
    /// The command succeeded, with this data.
    Success(String),
    /// The command failed, with this data.
    Failure(String),
}

/// One event of the markup stream, reduced to what the reply depends on.
#[derive(Debug)]
pub enum ReplyEvent {
    /// An element opens: its name and the value of its `result` attribute,
    /// if it has one.
    Start { name: String, result: Option<String> },
    /// Character data.
    Characters(String),
    /// An element closes.
    End { name: String },
    /// Anything else.
    Other,
}

/// Why a reply could not be read.
#[derive(Clone, Copy, Debug, PartialEq, Eq, Structural)]
pub enum ReplyError {
    /// The `reply` element has no `result` attribute.
    ResultUndefined,
}

/// How far the reading of a reply has come.
#[derive(Debug)]
pub enum ReplyReader {
    /// The `reply` element has not opened yet.
    Waiting,
    /// The element has opened with this result; this much data has come.
    Reading { result: String, data: String },
    /// The reply is complete.
    Done(Response),
    /// The reply cannot be read.
    Failed(ReplyError),
}

/// The mathematical value of a reply.
pub enum ResponseView {
    Success(Seq<char>),
    Failure(Seq<char>),
}

/// The mathematical value of an event.
pub enum ReplyEventView {
    Start { name: Seq<char>, result: Option<Seq<char>> },
    Characters(Seq<char>),
    End { name: Seq<char> },
    Other,
}

/// The mathematical value of a reader.
pub enum ReplyReaderView {
    Waiting,
    Reading { result: Seq<char>, data: Seq<char> },
    Done(ResponseView),
    Failed(ReplyError),
}

/// The name of the element that carries a reply.
pub open spec fn reply_name() -> Seq<char> {
    seq!['r', 'e', 'p', 'l', 'y']
}

/// The result that stands for success.
pub open spec fn ok_result() -> Seq<char> {
    seq!['o', 'k']
}

/// The reply with `data`, by the `result` attribute of its element: a
/// success where the attribute is `ok`, a failure otherwise.
pub open spec fn response_for(result: Seq<char>, data: Seq<char>) -> ResponseView {
    if result == ok_result() {
        ResponseView::Success(data)
    } else {
        ResponseView::Failure(data)
    }
}

impl ReplyReaderView {
    /// The reader after `event`. While it waits, the opening of the `reply`
    /// element starts the reading, or fails it where the element has no
    /// result; every other event is passed over. While it reads, character
    /// data is appended, the closing of the `reply` element completes the
    /// reply, and every other event is passed over. A reader that is done or
    /// has failed stays as it is.
    pub open spec fn after(self, event: ReplyEventView) -> ReplyReaderView {
        match self {
            ReplyReaderView::Waiting => match event {
                ReplyEventView::Start { name, result } => if name == reply_name() {
                    match result {
                        Some(result) => ReplyReaderView::Reading { result, data: Seq::empty() },
                        None => ReplyReaderView::Failed(ReplyError::ResultUndefined),
                    }
                } else {
                    self
                },
                _ => self,
            },
            ReplyReaderView::Reading { result, data } => match event {
                ReplyEventView::Characters(chunk) => ReplyReaderView::Reading {
                    result,
                    data: data + chunk,
                },
                ReplyEventView::End { name } => if name == reply_name() {
                    ReplyReaderView::Done(response_for(result, data))
                } else {
                    self
                },
                _ => self,
            },
            _ => self,
        }
    }

    /// Whether the reader needs no further event.
    pub open spec fn finished(self) -> bool {
        self is Done || self is Failed
    }
}

impl View for Response {
    type V = ResponseView;

    open spec fn view(&self) -> ResponseView {
        match self {
            Response::Success(data) => ResponseView::Success(data@),
            Response::Failure(data) => ResponseView::Failure(data@),
        }
    }
}

impl View for ReplyEvent {
    type V = ReplyEventView;

    open spec fn view(&self) -> ReplyEventView {
        match self {
            ReplyEvent::Start { name, result } => ReplyEventView::Start {
                name: name@,
                result: match result {
                    Some(result) => Some(result@),
                    None => None,
                },
            },
            ReplyEvent::Characters(chunk) => ReplyEventView::Characters(chunk@),
            ReplyEvent::End { name } => ReplyEventView::End { name: name@ },
            ReplyEvent::Other => ReplyEventView::Other,
        }
    }
}

impl View for ReplyReader {
    type V = ReplyReaderView;

    open spec fn view(&self) -> ReplyReaderView {
        match self {
            ReplyReader::Waiting => ReplyReaderView::Waiting,
            ReplyReader::Reading { result, data } => ReplyReaderView::Reading {
                result: result@,
                data: data@,
            },
            ReplyReader::Done(response) => ReplyReaderView::Done(response@),
            ReplyReader::Failed(error) => ReplyReaderView::Failed(*error),
        }
    }
}

/// Whether `text` is the name of the element that carries a reply.
pub fn is_reply_name(text: &str) -> (same: bool)
    ensures
        same == (text@ == reply_name()),
{
    if text.unicode_len() != 5 {
        return false;
    }
    let same = text.get_char(0) == 'r' && text.get_char(1) == 'e' && text.get_char(2) == 'p'
        && text.get_char(3) == 'l' && text.get_char(4) == 'y';
    assert(same ==> text@ =~= reply_name());
    same
}

/// Whether `text` is the result that stands for success.
pub fn is_ok_result(text: &str) -> (same: bool)
    ensures
        same == (text@ == ok_result()),
{
    if text.unicode_len() != 2 {
        return false;
    }
    let same = text.get_char(0) == 'o' && text.get_char(1) == 'k';
    assert(same ==> text@ =~= ok_result());
    same
}

impl Response {
    /// The reply with `data`, by the `result` attribute of its element.
    pub fn from_reply(result: &str, data: String) -> (response: Response)
        ensures
            response@ == response_for(result@, data@),
    {
        if is_ok_result(result) {
            Response::Success(data)
        } else {
            Response::Failure(data)
        }
    }

    /// The data of a success, or the data of a failure as the error.
    pub fn into_result(self) -> (result: Result<String, String>)
        ensures
            match self {
                Response::Success(data) => result == Ok::<String, String>(data),
                Response::Failure(data) => result == Err::<String, String>(data),
            },
    {
        match self {
            Response::Success(data) => Ok(data),
            Response::Failure(data) => Err(data),
        }
    }
}

impl ReplyReader {
    /// A reader that waits for the reply to a command.
    pub fn new() -> (reader: ReplyReader)
        ensures
            reader@ == ReplyReaderView::Waiting,
    {
        ReplyReader::Waiting
    }

    /// Whether the reader needs no further event.
    pub fn is_finished(&self) -> (finished: bool)
        ensures
            finished == self@.finished(),
    {
        match self {
            ReplyReader::Done(_) => true,
            ReplyReader::Failed(_) => true,
            _ => false,
        }
    }

    /// The reader after `event`.
    pub fn feed(self, event: ReplyEvent) -> (reader: ReplyReader)
        ensures
            reader@ == self@.after(event@),
    {
        match self {
            ReplyReader::Waiting => match event {
                ReplyEvent::Start { name, result } => {
                    if is_reply_name(name.as_str()) {
                        match result {
                            Some(result) => ReplyReader::Reading { result, data: String::new() },
                            None => ReplyReader::Failed(ReplyError::ResultUndefined),
                        }
                    } else {
                        ReplyReader::Waiting
                    }
                },
                _ => ReplyReader::Waiting,
            },
            ReplyReader::Reading { result, data } => match event {
                ReplyEvent::Characters(chunk) => {
                    let mut data = data;
                    push_text(&mut data, chunk.as_str());
                    ReplyReader::Reading { result, data }
                },
                ReplyEvent::End { name } => {
                    if is_reply_name(name.as_str()) {
                        ReplyReader::Done(Response::from_reply(result.as_str(), data))
                    } else {
                        ReplyReader::Reading { result, data }
                    }
                },
                _ => ReplyReader::Reading { result, data },
            },
            ReplyReader::Done(response) => ReplyReader::Done(response),
            ReplyReader::Failed(error) => ReplyReader::Failed(error),
        }
    }
}

} // verus!

//! The two directions of a connection to a server, as channel endpoints.
//!
//! A connection is served by a reader, which decodes lines from the socket
//! into `Response`s, and a writer, which encodes `Request`s onto it. The
//! `Client` holds the caller's ends of the two channels.
use vstd::prelude::*;
use crate::message::{Message, MessageView};

verus! {

/// `std::io::Error`, carried unopened in responses and errors.
#[verifier::external_type_specification]
#[verifier::external_body]
pub struct ExIoError(std::io::Error);

/// `std::sync::mpsc::Sender`, held unopened as the request end of a `Client`.
#[verifier::external_type_specification]
#[verifier::external_body]
#[verifier::reject_recursive_types(T)]
pub struct ExSender<T>(std::sync::mpsc::Sender<T>);

/// `std::sync::mpsc::Receiver`, held unopened as the response end of a `Client`.
#[verifier::external_type_specification]
#[verifier::external_body]
#[verifier::reject_recursive_types(T)]
pub struct ExReceiver<T>(std::sync::mpsc::Receiver<T>);

/// A request to the writer of a connection.
#[derive(Debug)]
pub enum Request {
    /// Send a message to the server.
    SendMessage(Message),
    /// Close the connection.
    Quit,
}

/// What a request asks for.
pub enum RequestView {
    Send(MessageView),
    Quit,
}

impl View for Request {
    type V = RequestView;

    open spec fn view(&self) -> RequestView {
        match self {
            Request::SendMessage(m) => RequestView::Send(m@),
            Request::Quit => RequestView::Quit,
        }
    }
}

/// The views of a sequence of requests.
pub open spec fn requests_view(rs: Seq<Request>) -> Seq<RequestView> {
    rs.map_values(|r: Request| r@)
}

/// An event from the reader of a connection.
#[derive(Debug)]
pub enum Response {
    /// The server has sent a message.
    Message(Message),
    /// The server closed the connection.
    Gone,
    /// The connection failed.
    ClientError(std::io::Error),
}

/// The caller's ends of a connection: requests go out on `request_tx`,
/// responses come in on `response_rx`.
pub struct Client {
    /// The channel on which requests are handed to the writer.
    pub request_tx: std::sync::mpsc::Sender<Request>,
    /// The channel on which the reader delivers responses.
    pub response_rx: std::sync::mpsc::Receiver<Response>,
}

} // verus!

//! The worker's events and what is published for each of them.

use vstd::prelude::*;

verus! {

/// One event of the worker's process transport.
pub enum SidecarEvent {
    /// One line that the worker wrote to its standard output.
    StandardOutputLine(Vec<u8>),
    /// One line that the worker wrote to its standard error.
    ErrorOutputLine(Vec<u8>),
    /// The transport failed; the text is the transport's own.
    SpawnError(String),
    /// The worker exited. A missing exit code or signal is `None`, never 0.
    Terminated { code: Option<i32>, signal: Option<i32> },
}

/// The topics of the outbound event bus.
#[derive(Clone, Copy, PartialEq, Eq, Debug, Structural)]
pub enum Topic {
    StandardOutput,
    StandardError,
    Terminated,
}

impl Topic {
    /// The name under which the topic goes out on the bus.
    pub open spec fn name_text(self) -> Seq<char> {
        match self {
            Topic::StandardOutput => "sidecar-stdout"@,
            Topic::StandardError => "sidecar-stderr"@,
            Topic::Terminated => "sidecar-terminated"@,
        }
    }

    /// The topic's name, for the call that publishes.
    pub fn name(&self) -> (name: &'static str)
        ensures
            name@ == self.name_text(),
    {
        match self {
            Topic::StandardOutput => "sidecar-stdout",
            Topic::StandardError => "sidecar-stderr",
            Topic::Terminated => "sidecar-terminated",
        }
    }
}

/// What one outbound event carries.
#[derive(Clone, PartialEq, Eq, Debug)]
pub enum Payload {
    /// One line of text, as decoded: nothing is trimmed.
    Line(String),
    /// How the worker ended.
    Exit { code: Option<i32>, signal: Option<i32> },
}

/// One event for the outbound bus.
#[derive(Clone, PartialEq, Eq, Debug)]
pub struct Publication {
    pub topic: Topic,
    pub payload: Payload,
}

/// A payload as a plain value.
pub enum PayloadView {
    Line(Seq<char>),
    Exit { code: Option<i32>, signal: Option<i32> },
}

/// An outbound event as a plain value.
pub struct PublicationView {
    pub topic: Topic,
    pub payload: PayloadView,
}

impl View for Payload {
    type V = PayloadView;

    open spec fn view(&self) -> PayloadView {
        match *self {
            Payload::Line(text) => PayloadView::Line(text@),
            Payload::Exit { code, signal } => PayloadView::Exit { code, signal },
        }
    }
}

impl View for Publication {
    type V = PublicationView;

    open spec fn view(&self) -> PublicationView {
        PublicationView { topic: self.topic, payload: self.payload@ }
    }
}

/// The text that best-effort decoding makes of `bytes`: the result of
/// `String::from_utf8_lossy`, in which each invalid byte sequence is
/// replaced and nothing is fatal.
pub uninterp spec fn utf8_lossy(bytes: Seq<u8>) -> Seq<char>;

/// Calls `String::from_utf8_lossy` and takes the result as an owned string.
/// The contract only names the result: the same bytes decode to the same
/// text.
#[verifier::external_body]
fn decode_lossy(bytes: &[u8]) -> (text: String)
    ensures
        text@ == utf8_lossy(bytes@),
{
    String::from_utf8_lossy(bytes).into_owned()
}

/// What is published for `event`. The mapping is total: every kind of event
/// goes out under one topic.
pub open spec fn publication_of(event: SidecarEvent) -> PublicationView {
    match event {
        SidecarEvent::StandardOutputLine(line) => PublicationView {
            topic: Topic::StandardOutput,
            payload: PayloadView::Line(utf8_lossy(line@)),
        },
        SidecarEvent::ErrorOutputLine(line) => PublicationView {
            topic: Topic::StandardError,
            payload: PayloadView::Line(utf8_lossy(line@)),
        },
        SidecarEvent::SpawnError(message) => PublicationView {
            topic: Topic::StandardError,
            payload: PayloadView::Line(message@),
        },
        SidecarEvent::Terminated { code, signal } => PublicationView {
            topic: Topic::Terminated,
            payload: PayloadView::Exit { code, signal },
        },
    }
}

/// Maps one worker event to the event that goes out on the bus.
pub fn publish(event: SidecarEvent) -> (publication: Publication)
    ensures
        publication@ == publication_of(event),
{
    match event {
        SidecarEvent::StandardOutputLine(line) => Publication {
            topic: Topic::StandardOutput,
            payload: Payload::Line(decode_lossy(line.as_slice())),
        },
        SidecarEvent::ErrorOutputLine(line) => Publication {
            topic: Topic::StandardError,
            payload: Payload::Line(decode_lossy(line.as_slice())),
        },
        SidecarEvent::SpawnError(message) => Publication {
            topic: Topic::StandardError,
            payload: Payload::Line(message),
        },
        SidecarEvent::Terminated { code, signal } => Publication {
            topic: Topic::Terminated,
            payload: Payload::Exit { code, signal },
        },
    }
}

} // verus!

//! What each handler answers, and how a store lookup becomes a reply.

use vstd::prelude::*;

use crate::router::{Handler, HandlerModel};

verus! {

/// Why a store lookup gave no value.
#[derive(PartialEq, Eq, Structural, Clone, Copy, Debug)]
pub enum StoreError {
    /// The store holds no value under the key.
    NotFound,
    /// The store could not be reached, or failed while answering.
    Unavailable,
}

/// What the transport sends back: a status code and a body.
#[derive(Debug)]
pub struct Reply {
    pub status: u16,
    pub body: String,
}

/// The abstract view of a [`Reply`].
pub struct ReplyModel {
    pub status: u16,
    pub body: Seq<char>,
}

impl View for Reply {
    type V = ReplyModel;

    open spec fn view(&self) -> ReplyModel {
        ReplyModel { status: self.status, body: self.body@ }
    }
}

/// What a request handler does next: reply at once, or look a key up in the
/// store and then reply with [`category_reply`].
#[derive(Debug)]
pub enum Step {
    Reply(Reply),
    Lookup(String),
}

/// The abstract view of a [`Step`].
pub enum StepModel {
    Reply(ReplyModel),
    Lookup(Seq<char>),
}

impl View for Step {
    type V = StepModel;

    open spec fn view(&self) -> StepModel {
        match self {
            Step::Reply(r) => StepModel::Reply(r@),
            Step::Lookup(k) => StepModel::Lookup(k@),
        }
    }
}

/// The abstract view of a store lookup's outcome.
pub open spec fn lookup_view(lookup: Result<String, StoreError>) -> Result<Seq<char>, StoreError> {
    match lookup {
        Ok(v) => Ok(v@),
        Err(e) => Err(e),
    }
}

/// The body of a category reply: the value and a newline, or a bare newline
/// when the lookup failed, whatever the failure.
pub open spec fn segments_of(lookup: Result<Seq<char>, StoreError>) -> Seq<char> {
    match lookup {
        Ok(v) => v + "\n"@,
        Err(_) => "\n"@,
    }
}

/// The reply to a category lookup with the given outcome.
pub open spec fn category_model(lookup: Result<Seq<char>, StoreError>) -> ReplyModel {
    ReplyModel { status: 200, body: segments_of(lookup) }
}

/// What a handler does: every handler but `Category` replies at once.
pub open spec fn step_of(h: HandlerModel) -> StepModel {
    match h {
        HandlerModel::Ready => StepModel::Reply(ReplyModel { status: 200, body: "1\n"@ }),
        HandlerModel::Category(k) => StepModel::Lookup(k),
        HandlerModel::MissingParam => StepModel::Reply(ReplyModel { status: 200, body: "\n"@ }),
        HandlerModel::NotFound => StepModel::Reply(ReplyModel { status: 404, body: "\n"@ }),
    }
}

/// The body of a category reply for the outcome of a store lookup.
pub fn get_segments(lookup: Result<String, StoreError>) -> (r: String)
    ensures
        r@ == segments_of(lookup_view(lookup)),
{
    match lookup {
        Ok(v) => v.concat("\n"),
        Err(_) => "\n".to_owned(),
    }
}

/// The reply to `GET /category` with a key, once the store has answered.
pub fn category_reply(lookup: Result<String, StoreError>) -> (r: Reply)
    ensures
        r@ == category_model(lookup_view(lookup)),
{
    Reply { status: 200, body: get_segments(lookup) }
}

/// What the handler does: `Ready` answers `1`, `MissingParam` an empty
/// line, `NotFound` a 404 with an empty line, and `Category` asks the store.
pub fn handle(h: Handler) -> (r: Step)
    ensures
        r@ == step_of(h@),
{
    match h {
        Handler::Ready => Step::Reply(Reply { status: 200, body: "1\n".to_owned() }),
        Handler::Category(k) => Step::Lookup(k),
        Handler::MissingParam => Step::Reply(Reply { status: 200, body: "\n".to_owned() }),
        Handler::NotFound => Step::Reply(Reply { status: 404, body: "\n".to_owned() }),
    }
}

} // verus!

//! Responses shown in the client's response log.
use vstd::prelude::*;

verus! {

/// `time::OffsetDateTime` is carried through the library unchanged: the
/// response log never looks inside a timestamp, it only stores it.
#[verifier::external_type_specification]
#[verifier::external_body]
pub struct ExOffsetDateTime(time::OffsetDateTime);

/// The kind of a response, which decides how it is shown and whether it
/// may be hidden.
#[derive(Debug, Clone, Copy, PartialEq, Eq, Structural)]
pub enum ResponseType {
    Success,
    Error,
    Info,
    GameTickeNotification,
}

/// One entry of the response log.
#[derive(Debug)]
pub struct DomainResponse {
    pub response_type: ResponseType,
    pub code: String,
    pub message: String,
    pub timestamp: time::OffsetDateTime,
}

/// Whether a response is a game tick notification (the kind that can be
/// hidden and that is dropped first when the log is full).
pub open spec fn is_game_tick(r: DomainResponse) -> bool {
    r.response_type == ResponseType::GameTickeNotification
}

impl DomainResponse {
    /// Whether this response is a game tick notification.
    pub fn is_game_tick_notification(&self) -> (b: bool)
        ensures
            b == is_game_tick(*self),
    {
        self.response_type == ResponseType::GameTickeNotification
    }
}


/// The kinds of game updates the server streams, as far as the client
/// tells them apart.
#[derive(Debug, Clone, Copy, PartialEq, Eq, Structural)]
pub enum GameUpdateKind {
    TickNotification,
    ActionFailed,
    Other,
}

/// How a game update is logged: its response type and code.
pub open spec fn update_classification(kind: GameUpdateKind) -> (ResponseType, Seq<char>) {
    match kind {
        GameUpdateKind::TickNotification => (ResponseType::GameTickeNotification, "OK"@),
        GameUpdateKind::ActionFailed => (ResponseType::Error, "ERR"@),
        GameUpdateKind::Other => (ResponseType::Info, "OK"@),
    }
}

/// The response type and code under which a game update is logged: tick
/// notifications as such, failed actions as errors, everything else as
/// information.
pub fn classify_game_update(kind: GameUpdateKind) -> (r: (ResponseType, &'static str))
    ensures
        (r.0, r.1@) == update_classification(kind),
{
    match kind {
        GameUpdateKind::TickNotification => (ResponseType::GameTickeNotification, "OK"),
        GameUpdateKind::ActionFailed => (ResponseType::Error, "ERR"),
        GameUpdateKind::Other => (ResponseType::Info, "OK"),
    }
}

} // verus!

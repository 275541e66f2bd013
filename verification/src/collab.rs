//! Session collaboration: what to tell a new session, what to report about
//! one, and what to pass on of the frames that participants send.
//!
//! Sockets and channels are the caller's part. The functions here decide
//! and keep the table of sessions; the caller carries out.

use vstd::prelude::*;
use crate::ident::{fresh_identifier, is_identifier};
use crate::sessions::{Session, SessionTable};

verus! {

/// How many messages the channel of a session holds for a slow receiver.
pub const CHANNEL_CAPACITY: usize = 256;

/// Status of an answer about a session that does not exist.
pub const STATUS_NOT_FOUND: u16 = 404;

/// The answer to the creation of a session.
pub struct CreateSessionResponse {
    pub session_id: String,
    pub project_id: String,
}

/// What is reported about a session.
pub struct SessionInfo {
    pub session_id: String,
    pub project_id: String,
    pub participants: usize,
}

/// A frame received from a participant.
pub enum Frame {
    /// A text frame: the text as it came and, where the text is a
    /// well-formed message, the message written out again.
    Text { raw: String, normalized: Option<String> },
    /// A frame that holds no text.
    Other,
    /// The participant is gone: the stream ended or failed.
    Closed,
}

/// What to do about a received frame.
pub enum Relay {
    /// Send the text to every participant of the session.
    Broadcast(String),
    /// Pass nothing on and wait for the next frame.
    Skip,
    /// Stop receiving.
    Stop,
}

/// Opens a session for `project_id` under a fresh identifier, with no
/// participants, and answers with the identifier and the project.
///
/// The identifier is drawn anew on every call, so two calls on the same
/// arguments differ in it. Whatever it is, it has the shape of an
/// identifier, and the table holds the session under it afterwards.
pub fn create_session(table: &mut SessionTable, project_id: String) -> (resp: CreateSessionResponse)
    ensures
        is_identifier(resp.session_id@),
        resp.project_id@ == project_id@,
        final(table)@ == old(table)@.insert(resp.session_id@, (project_id@, 0usize)),
        old(table).wf() ==> final(table).wf(),
{
    open_session(table, fresh_identifier(), project_id)
}

/// Opens the session `session_id` for `project_id`, with no participants,
/// and answers with the identifier and the project. A session that was
/// open under the same identifier is replaced.
pub fn open_session(table: &mut SessionTable, session_id: String, project_id: String) -> (resp:
    CreateSessionResponse)
    ensures
        resp.session_id@ == session_id@,
        resp.project_id@ == project_id@,
        final(table)@ == old(table)@.insert(session_id@, (project_id@, 0usize)),
        old(table).wf() ==> final(table).wf(),
{
    table.open(session_id.clone(), project_id.clone());
    CreateSessionResponse { session_id, project_id }
}

/// The report on the session `session_id`, given what the table holds for
/// it: its project and the number of its participants. A session that the
/// table does not hold is answered with `STATUS_NOT_FOUND`.
pub fn session_info(session_id: String, entry: Option<Session>) -> (r: Result<SessionInfo, u16>)
    ensures
        match entry {
            Some((project_id, participants)) => r matches Ok(info) && info.session_id@
                == session_id@ && info.project_id@ == project_id@ && info.participants
                == participants,
            None => r == Err::<SessionInfo, u16>(STATUS_NOT_FOUND),
        },
{
    match entry {
        Some((project_id, participants)) => Ok(SessionInfo { session_id, project_id, participants }),
        None => Err(STATUS_NOT_FOUND),
    }
}

/// Reports on the session `session_id`: its project and the number of its
/// participants where the table holds it, `STATUS_NOT_FOUND` where it does
/// not.
pub fn get_session_info(table: &SessionTable, session_id: String) -> (r: Result<SessionInfo, u16>)
    ensures
        match r {
            Ok(info) => table@.contains_key(session_id@) && info.session_id@ == session_id@ && (
                info.project_id@,
                info.participants,
            ) == table@[session_id@],
            Err(code) => !table@.contains_key(session_id@) && code == STATUS_NOT_FOUND,
        },
{
    let entry = table.info(session_id.as_str());
    session_info(session_id, entry)
}

/// The text that a text frame is passed on as: the message written out
/// again where the text is a well-formed message, the text itself where it
/// is not.
pub open spec fn relayed_text(raw: Seq<char>, normalized: Option<Seq<char>>) -> Seq<char> {
    match normalized {
        Some(n) => n,
        None => raw,
    }
}

/// Decides what to do about a received frame: a text frame is passed on to
/// every participant, well-formed or not; any other frame is dropped; the
/// end of the stream ends receiving.
pub fn relay(frame: Frame) -> (action: Relay)
    ensures
        match frame {
            Frame::Text { raw, normalized } => action matches Relay::Broadcast(text) && text@
                == relayed_text(
                raw@,
                match normalized {
                    Some(n) => Some(n@),
                    None => None,
                },
            ),
            Frame::Other => action is Skip,
            Frame::Closed => action is Stop,
        },
{
    match frame {
        Frame::Text { raw, normalized } => match normalized {
            Some(n) => Relay::Broadcast(n),
            None => Relay::Broadcast(raw),
        },
        Frame::Other => Relay::Skip,
        Frame::Closed => Relay::Stop,
    }
}

/// The health report of the collaboration service.
pub struct HealthResponse {
    pub status: String,
    pub version: String,
    pub uptime_secs: u64,
    pub active_sessions: usize,
}

/// The health report of a service of the given version that has been up for
/// `uptime_secs` seconds and holds `active_sessions` open sessions.
pub fn health(version: &str, uptime_secs: u64, active_sessions: usize) -> (h: HealthResponse)
    ensures
        h.status@ == "ok"@,
        h.version@ == version@,
        h.uptime_secs == uptime_secs,
        h.active_sessions == active_sessions,
{
    HealthResponse {
        status: String::from_str("ok"),
        version: String::from_str(version),
        uptime_secs,
        active_sessions,
    }
}

} // verus!

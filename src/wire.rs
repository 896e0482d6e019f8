//! The line protocol spoken with the daemon: one request line out, one
//! response line back. Payloads are opaque text; the only framing is a single
//! line terminator after each.

use vstd::prelude::*;

verus! {

pub const LINE_TERMINATOR: char = '\n';

/// Bound on each read and each write of an exchange.
pub const IO_TIMEOUT_SECS: u64 = 10;

/// A payload as sent: followed by exactly one line terminator.
pub open spec fn framed(payload: Seq<char>) -> Seq<char> {
    payload.push(LINE_TERMINATOR)
}

/// The payload of a received line: present only when the line ends with
/// its terminator, which is removed; nothing else is changed.
pub open spec fn unframed(line: Seq<char>) -> Option<Seq<char>> {
    if line.len() > 0 && line.last() == LINE_TERMINATOR {
        Some(line.drop_last())
    } else {
        None
    }
}

/// Why an exchange with the daemon failed.
#[derive(Debug)]
pub enum RequestError {
    /// Nothing listens at the endpoint: the daemon is not running.
    ConnectionFailed(String),
    /// The daemon accepted the connection but sent no full line in time.
    Timeout,
    /// Any other failure while talking to the daemon.
    Io(String),
}

/// How far one exchange got, as observed by the caller that performed it.
#[derive(Debug)]
pub enum Exchange {
    /// The endpoint could not be connected to.
    ConnectFailed(String),
    /// The connection could not be configured or the request not written.
    SendFailed(String),
    /// Reading the response failed; `timed_out` when the read bound ran out.
    ReadFailed { timed_out: bool, detail: String },
    /// What was read up to and including the first line terminator, or up
    /// to the end of the stream if none came.
    Received(String),
}

/// The request line for `payload`.
pub fn frame_request(payload: &str) -> (r: String)
    ensures
        r@ == framed(payload@),
{
    let r = String::from_str(payload).concat("\n");
    proof {
        reveal_strlit("\n");
    }
    assert(r@ =~= framed(payload@));
    r
}

/// The payload carried by a response line.
pub fn decode_response(line: &str) -> (r: Result<String, RequestError>)
    ensures
        unframed(line@) matches Some(p) ==> (r matches Ok(s) && s@ == p),
        unframed(line@) is None ==> (r matches Err(e) && e is Io),
{
    let n = line.unicode_len();
    if n > 0 && line.get_char(n - 1) == LINE_TERMINATOR {
        let body = line.substring_char(0, n - 1);
        assert(body@ =~= line@.drop_last());
        Ok(String::from_str(body))
    } else {
        Err(RequestError::Io(String::from_str("Connection closed before a full response line arrived")))
    }
}

/// The result of one exchange, from how far it got.
pub fn finish_exchange(outcome: Exchange) -> (r: Result<String, RequestError>)
    ensures
        outcome matches Exchange::ConnectFailed(d) ==> r == Err::<String, RequestError>(
            RequestError::ConnectionFailed(d)),
        outcome matches Exchange::SendFailed(d) ==> r == Err::<String, RequestError>(RequestError::Io(d)),
        outcome matches Exchange::ReadFailed { timed_out, detail } ==> r == (if timed_out {
            Err::<String, RequestError>(RequestError::Timeout)
        } else {
            Err::<String, RequestError>(RequestError::Io(detail))
        }),
        outcome matches Exchange::Received(line) ==> (match unframed(line@) {
            Some(p) => r matches Ok(s) && s@ == p,
            None => r matches Err(e) && e is Io,
        }),
{
    match outcome {
        Exchange::ConnectFailed(d) => Err(RequestError::ConnectionFailed(d)),
        Exchange::SendFailed(d) => Err(RequestError::Io(d)),
        Exchange::ReadFailed { timed_out, detail } => {
            if timed_out {
                Err(RequestError::Timeout)
            } else {
                Err(RequestError::Io(detail))
            }
        },
        Exchange::Received(line) => decode_response(line.as_str()),
    }
}

impl RequestError {
    /// A sentence describing the error for the user.
    pub fn message(&self) -> (r: String)
        ensures
            self matches RequestError::ConnectionFailed(d) ==> r@ == "Failed to connect to KeySigner daemon: "@
                + d@ + ". Is the daemon running?"@,
            self is Timeout ==> r@ == "Request timed out - daemon may have crashed or is unresponsive"@,
            self matches RequestError::Io(d) ==> r@ == d@,
    {
        match self {
            RequestError::ConnectionFailed(d) => String::from_str("Failed to connect to KeySigner daemon: ")
                .concat(d.as_str()).concat(". Is the daemon running?"),
            RequestError::Timeout => String::from_str(
                "Request timed out - daemon may have crashed or is unresponsive",
            ),
            RequestError::Io(d) => d.clone(),
        }
    }
}

/// A payload framed for sending and read back whole is returned exactly,
/// with the terminator removed and nothing else changed.
pub proof fn law_round_trip(payload: Seq<char>)
    ensures
        unframed(framed(payload)) == Some(payload),
{
    assert(framed(payload).drop_last() =~= payload);
}

} // verus!

//! The reader facade: tabulates one hub's raw report bytes and decodes
//! them into canonical records. The caller obtains the bytes from the
//! admin tool; everything after that point happens here.

use vstd::prelude::*;

use crate::error::DecodeError;
use crate::session::{decode_session_rows, spec_decode_sessions, HubSession, HubSessionView};
use crate::status::{decode_status_rows, spec_decode_status, HubStatus, HubStatusView};
use crate::table::{csv_table, read_csv_table};

verus! {

/// Decodes raw admin-tool reports.
pub struct SoftEtherReader;

/// What one hub's status report bytes amount to: a record when the bytes
/// tabulate and every recognized numeric field normalizes, else nothing.
pub open spec fn spec_status_outcome(src: Seq<u8>) -> Option<HubStatusView> {
    match csv_table(src) {
        None => None,
        Some(rows) => spec_decode_status(rows),
    }
}

/// What one hub's session-list report bytes amount to.
pub open spec fn spec_sessions_outcome(src: Seq<u8>) -> Option<Seq<HubSessionView>> {
    match csv_table(src) {
        None => None,
        Some(rows) => spec_decode_sessions(rows),
    }
}

impl SoftEtherReader {
    /// Decode one hub's raw status report.
    pub fn decode_hub_status(src: &[u8]) -> (r: Result<HubStatus, DecodeError>)
        ensures
            match csv_table(src@) {
                None => r == Err::<HubStatus, DecodeError>(DecodeError::Io),
                Some(rows) => match spec_decode_status(rows) {
                    Some(v) => r matches Ok(st) && st@ == v,
                    None => r == Err::<HubStatus, DecodeError>(DecodeError::Numeric),
                },
            },
            r matches Ok(st) ==> spec_status_outcome(src@) == Some(st@),
            r is Err ==> spec_status_outcome(src@) is None,
    {
        match read_csv_table(src) {
            Err(_) => Err(DecodeError::Io),
            Ok(rows) => decode_status_rows(&rows),
        }
    }

    /// Decode one hub's raw session-list report.
    pub fn decode_hub_sessions(src: &[u8]) -> (r: Result<Vec<HubSession>, DecodeError>)
        ensures
            match csv_table(src@) {
                None => r == Err::<Vec<HubSession>, DecodeError>(DecodeError::Io),
                Some(rows) => match spec_decode_sessions(rows) {
                    Some(ss) => r matches Ok(v) && v.deep_view() == ss,
                    None => r == Err::<Vec<HubSession>, DecodeError>(DecodeError::Numeric),
                },
            },
            r matches Ok(v) ==> spec_sessions_outcome(src@) == Some(v.deep_view()),
            r is Err ==> spec_sessions_outcome(src@) is None,
    {
        match read_csv_table(src) {
            Err(_) => Err(DecodeError::Io),
            Ok(rows) => decode_session_rows(&rows),
        }
    }
}

} // verus!

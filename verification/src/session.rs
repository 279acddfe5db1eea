//! The session decoder: consumes one hub's raw session-list table, whose
//! eight columns are positional, and produces the sessions in row order.
//! A malformed numeric column fails the whole call: a corrupt session row
//! has no safe partial reading.

use vstd::prelude::*;

use crate::error::DecodeError;
use crate::numeric::{
    parse_byte_count, parse_connection_pair, parse_packet_count, spec_parse_byte_count,
    spec_parse_connection_pair, spec_parse_packet_count,
};

verus! {

/// One active session on a hub at scrape time.
#[derive(PartialEq, Debug)]
pub struct HubSession {
    pub name: String,
    pub vlan_id: String,
    pub location: String,
    pub user: String,
    pub source: String,
    /// Established and maximum TCP connection counts, `(0, 0)` when the
    /// session reports none.
    pub connections: (u64, u64),
    pub transfer_bytes: u64,
    pub transfer_packets: u64,
}

/// The mathematical model of a session record.
pub ghost struct HubSessionView {
    pub name: Seq<char>,
    pub vlan_id: Seq<char>,
    pub location: Seq<char>,
    pub user: Seq<char>,
    pub source: Seq<char>,
    pub connections: (u64, u64),
    pub transfer_bytes: u64,
    pub transfer_packets: u64,
}

impl View for HubSession {
    type V = HubSessionView;

    open spec fn view(&self) -> HubSessionView {
        HubSessionView {
            name: self.name@,
            vlan_id: self.vlan_id@,
            location: self.location@,
            user: self.user@,
            source: self.source@,
            connections: self.connections,
            transfer_bytes: self.transfer_bytes,
            transfer_packets: self.transfer_packets,
        }
    }
}

impl DeepView for HubSession {
    type V = HubSessionView;

    open spec fn deep_view(&self) -> HubSessionView {
        self.view()
    }
}

/// The `i`-th cell of a row; rows too short read as empty cells.
pub open spec fn cell(row: Seq<Seq<char>>, i: int) -> Seq<char> {
    if 0 <= i < row.len() {
        row[i]
    } else {
        Seq::empty()
    }
}

/// What decoding one session row yields: the five text columns verbatim,
/// the connection pair and the two transfer counters normalized, or
/// nothing when a numeric column is malformed.
pub open spec fn spec_decode_session_row(row: Seq<Seq<char>>) -> Option<HubSessionView> {
    match (
        spec_parse_connection_pair(cell(row, 5)),
        spec_parse_byte_count(cell(row, 6)),
        spec_parse_packet_count(cell(row, 7)),
    ) {
        (Some(c), Some(b), Some(p)) => Some(
            HubSessionView {
                name: cell(row, 0),
                vlan_id: cell(row, 1),
                location: cell(row, 2),
                user: cell(row, 3),
                source: cell(row, 4),
                connections: c,
                transfer_bytes: b,
                transfer_packets: p,
            },
        ),
        _ => None,
    }
}

/// What decoding a session table yields: every row decoded, in table
/// order, or nothing when any row fails.
pub open spec fn spec_decode_sessions(rows: Seq<Seq<Seq<char>>>) -> Option<Seq<HubSessionView>>
    decreases rows.len(),
{
    if rows.len() == 0 {
        Some(Seq::empty())
    } else {
        match (spec_decode_sessions(rows.drop_last()), spec_decode_session_row(rows.last())) {
            (Some(front), Some(s)) => Some(front.push(s)),
            _ => None,
        }
    }
}

/// A decodable table has decodable prefixes.
proof fn lemma_sessions_prefix(rows: Seq<Seq<Seq<char>>>, i: int)
    requires
        0 <= i <= rows.len(),
        spec_decode_sessions(rows) is Some,
    ensures
        spec_decode_sessions(rows.take(i)) is Some,
    decreases rows.len(),
{
    if i < rows.len() {
        assert(rows.take(i) =~= rows.drop_last().take(i));
        lemma_sessions_prefix(rows.drop_last(), i);
    } else {
        assert(rows.take(i) =~= rows);
    }
}

fn cell_str<'a>(row: &'a Vec<String>, k: usize) -> (r: &'a str)
    ensures
        r@ == cell(row.deep_view(), k as int),
{
    if k < row.len() {
        row[k].as_str()
    } else {
        proof {
            reveal_strlit("");
            assert(""@ =~= Seq::<char>::empty());
        }
        ""
    }
}

/// Decode the data rows of a session-list table, in table order.
pub fn decode_session_rows(rows: &Vec<Vec<String>>) -> (r: Result<Vec<HubSession>, DecodeError>)
    ensures
        match spec_decode_sessions(rows.deep_view()) {
            Some(ss) => r matches Ok(v) && v.deep_view() == ss,
            None => r == Err::<Vec<HubSession>, DecodeError>(DecodeError::Numeric),
        },
{
    let ghost rowsv = rows.deep_view();
    let mut out: Vec<HubSession> = Vec::new();
    let mut i: usize = 0;
    proof {
        assert(rowsv.take(0) =~= Seq::<Seq<Seq<char>>>::empty());
        assert(out.deep_view() =~= Seq::<HubSessionView>::empty());
    }
    while i < rows.len()
        invariant
            i <= rows@.len(),
            rowsv == rows.deep_view(),
            rowsv.len() == rows@.len(),
            spec_decode_sessions(rowsv.take(i as int)) == Some(out.deep_view()),
        decreases rows@.len() - i,
    {
        let row = &rows[i];
        proof {
            assert(rowsv[i as int] == row.deep_view());
            assert(rowsv.take(i + 1).drop_last() =~= rowsv.take(i as int));
            assert(rowsv.take(i + 1).last() == rowsv[i as int]);
        }
        let connections = match parse_connection_pair(cell_str(row, 5)) {
            Ok(c) => c,
            Err(_) => {
                proof {
                    if spec_decode_sessions(rowsv) is Some {
                        lemma_sessions_prefix(rowsv, i + 1);
                    }
                }
                return Err(DecodeError::Numeric);
            },
        };
        let transfer_bytes = match parse_byte_count(cell_str(row, 6)) {
            Ok(b) => b,
            Err(_) => {
                proof {
                    if spec_decode_sessions(rowsv) is Some {
                        lemma_sessions_prefix(rowsv, i + 1);
                    }
                }
                return Err(DecodeError::Numeric);
            },
        };
        let transfer_packets = match parse_packet_count(cell_str(row, 7)) {
            Ok(p) => p,
            Err(_) => {
                proof {
                    if spec_decode_sessions(rowsv) is Some {
                        lemma_sessions_prefix(rowsv, i + 1);
                    }
                }
                return Err(DecodeError::Numeric);
            },
        };
        let session = HubSession {
            name: cell_str(row, 0).to_owned(),
            vlan_id: cell_str(row, 1).to_owned(),
            location: cell_str(row, 2).to_owned(),
            user: cell_str(row, 3).to_owned(),
            source: cell_str(row, 4).to_owned(),
            connections,
            transfer_bytes,
            transfer_packets,
        };
        out.push(session);
        i = i + 1;
        proof {
            assert(out.deep_view() =~= spec_decode_sessions(rowsv.take(i as int)).unwrap());
        }
    }
    proof {
        assert(rowsv.take(rowsv.len() as int) =~= rowsv);
    }
    Ok(out)
}

} // verus!

//! The status decoder: consumes one hub's raw status table, drives each
//! row through the field translator and the numeric normalizer, and builds
//! a canonical hub status record. Rows the translator does not know are
//! ignored; a recognized numeric field that fails normalization fails the
//! whole decode.

use vstd::prelude::*;

use crate::error::DecodeError;
use crate::fields::{canonical_key, spec_canonical_key, FieldId};
use crate::numeric::{
    parse_byte_count, parse_count, parse_packet_count, spec_parse_byte_count, spec_parse_count,
    spec_parse_packet_count,
};
use crate::strutil::str_eq;

verus! {

/// One hub's instantaneous administrative snapshot.
#[derive(PartialEq, Debug)]
pub struct HubStatus {
    pub name: String,
    pub online: bool,
    pub secure_nat: bool,
    pub sessions: u64,
    pub sessions_client: u64,
    pub sessions_bridge: u64,
    pub access_lists: u64,
    pub users: u64,
    pub groups: u64,
    pub mac_tables: u64,
    pub ip_tables: u64,
    pub logins: u64,
    pub outgoing_unicast_packets: u64,
    pub outgoing_unicast_bytes: u64,
    pub outgoing_broadcast_packets: u64,
    pub outgoing_broadcast_bytes: u64,
    pub incoming_unicast_packets: u64,
    pub incoming_unicast_bytes: u64,
    pub incoming_broadcast_packets: u64,
    pub incoming_broadcast_bytes: u64,
}

/// The mathematical model of a hub status record.
pub ghost struct HubStatusView {
    pub name: Seq<char>,
    pub online: bool,
    pub secure_nat: bool,
    pub sessions: u64,
    pub sessions_client: u64,
    pub sessions_bridge: u64,
    pub access_lists: u64,
    pub users: u64,
    pub groups: u64,
    pub mac_tables: u64,
    pub ip_tables: u64,
    pub logins: u64,
    pub outgoing_unicast_packets: u64,
    pub outgoing_unicast_bytes: u64,
    pub outgoing_broadcast_packets: u64,
    pub outgoing_broadcast_bytes: u64,
    pub incoming_unicast_packets: u64,
    pub incoming_unicast_bytes: u64,
    pub incoming_broadcast_packets: u64,
    pub incoming_broadcast_bytes: u64,
}

impl View for HubStatus {
    type V = HubStatusView;

    open spec fn view(&self) -> HubStatusView {
        HubStatusView {
            name: self.name@,
            online: self.online,
            secure_nat: self.secure_nat,
            sessions: self.sessions,
            sessions_client: self.sessions_client,
            sessions_bridge: self.sessions_bridge,
            access_lists: self.access_lists,
            users: self.users,
            groups: self.groups,
            mac_tables: self.mac_tables,
            ip_tables: self.ip_tables,
            logins: self.logins,
            outgoing_unicast_packets: self.outgoing_unicast_packets,
            outgoing_unicast_bytes: self.outgoing_unicast_bytes,
            outgoing_broadcast_packets: self.outgoing_broadcast_packets,
            outgoing_broadcast_bytes: self.outgoing_broadcast_bytes,
            incoming_unicast_packets: self.incoming_unicast_packets,
            incoming_unicast_bytes: self.incoming_unicast_bytes,
            incoming_broadcast_packets: self.incoming_broadcast_packets,
            incoming_broadcast_bytes: self.incoming_broadcast_bytes,
        }
    }
}

/// The record every decode starts from: empty name, everything false or
/// zero.
pub open spec fn default_status() -> HubStatusView {
    HubStatusView {
        name: Seq::empty(),
        online: false,
        secure_nat: false,
        sessions: 0,
        sessions_client: 0,
        sessions_bridge: 0,
        access_lists: 0,
        users: 0,
        groups: 0,
        mac_tables: 0,
        ip_tables: 0,
        logins: 0,
        outgoing_unicast_packets: 0,
        outgoing_unicast_bytes: 0,
        outgoing_broadcast_packets: 0,
        outgoing_broadcast_bytes: 0,
        incoming_unicast_packets: 0,
        incoming_unicast_bytes: 0,
        incoming_broadcast_packets: 0,
        incoming_broadcast_bytes: 0,
    }
}

impl HubStatus {
    /// A fresh record with every field at its default.
    pub fn new() -> (r: HubStatus)
        ensures
            r@ == default_status(),
    {
        HubStatus {
            name: String::new(),
            online: false,
            secure_nat: false,
            sessions: 0,
            sessions_client: 0,
            sessions_bridge: 0,
            access_lists: 0,
            users: 0,
            groups: 0,
            mac_tables: 0,
            ip_tables: 0,
            logins: 0,
            outgoing_unicast_packets: 0,
            outgoing_unicast_bytes: 0,
            outgoing_broadcast_packets: 0,
            outgoing_broadcast_bytes: 0,
            incoming_unicast_packets: 0,
            incoming_unicast_bytes: 0,
            incoming_broadcast_packets: 0,
            incoming_broadcast_bytes: 0,
        }
    }
}

/// A value that marks a hub as online, in any supported locale.
pub open spec fn spec_online_token(val: Seq<char>) -> bool {
    val == "オンライン"@ || val == "Online"@ || val == "在线"@
}

/// A value that marks the SecureNAT function as disabled, in any supported
/// locale; every other value means enabled.
pub open spec fn spec_secure_nat_disabled(val: Seq<char>) -> bool {
    val == "無効"@ || val == "Disabled"@ || val == "无效"@
}

fn online_token(val: &str) -> (r: bool)
    ensures
        r == spec_online_token(val@),
{
    str_eq(val, "オンライン") || str_eq(val, "Online") || str_eq(val, "在线")
}

fn secure_nat_disabled(val: &str) -> (r: bool)
    ensures
        r == spec_secure_nat_disabled(val@),
{
    str_eq(val, "無効") || str_eq(val, "Disabled") || str_eq(val, "无效")
}

/// The key cell of a row; rows too short read as empty cells.
pub open spec fn row_key(row: Seq<Seq<char>>) -> Seq<char> {
    if row.len() > 0 {
        row[0]
    } else {
        Seq::empty()
    }
}

/// The value cell of a row.
pub open spec fn row_val(row: Seq<Seq<char>>) -> Seq<char> {
    if row.len() > 1 {
        row[1]
    } else {
        Seq::empty()
    }
}

/// What one translated row does to the record under construction.
pub ghost enum RowEffect {
    /// The label is not in the translation table; the row is ignored.
    Ignored,
    /// The row sets a text field to the given value.
    SetText(FieldId, Seq<char>),
    /// The row sets a boolean field to the given value.
    SetFlag(FieldId, bool),
    /// The row sets a numeric field to the normalizer's outcome; a `None`
    /// outcome fails the decode.
    SetCount(FieldId, Option<u64>),
}

/// Translate one row into its effect on the record.
pub open spec fn row_effect(row: Seq<Seq<char>>) -> RowEffect {
    let val = row_val(row);
    match spec_canonical_key(row_key(row)) {
        None => RowEffect::Ignored,
        Some(f) => match f {
            FieldId::Name => RowEffect::SetText(f, val),
            FieldId::Online => RowEffect::SetFlag(f, spec_online_token(val)),
            FieldId::SecureNat => RowEffect::SetFlag(f, !spec_secure_nat_disabled(val)),
            FieldId::Sessions => RowEffect::SetCount(f, spec_parse_count(val)),
            FieldId::SessionsClient => RowEffect::SetCount(f, spec_parse_count(val)),
            FieldId::SessionsBridge => RowEffect::SetCount(f, spec_parse_count(val)),
            FieldId::AccessLists => RowEffect::SetCount(f, spec_parse_count(val)),
            FieldId::Users => RowEffect::SetCount(f, spec_parse_count(val)),
            FieldId::Groups => RowEffect::SetCount(f, spec_parse_count(val)),
            FieldId::MacTables => RowEffect::SetCount(f, spec_parse_count(val)),
            FieldId::IpTables => RowEffect::SetCount(f, spec_parse_count(val)),
            FieldId::Logins => RowEffect::SetCount(f, spec_parse_count(val)),
            FieldId::OutgoingUnicastPackets => RowEffect::SetCount(
                f,
                spec_parse_packet_count(val),
            ),
            FieldId::OutgoingUnicastBytes => RowEffect::SetCount(f, spec_parse_byte_count(val)),
            FieldId::OutgoingBroadcastPackets => RowEffect::SetCount(
                f,
                spec_parse_packet_count(val),
            ),
            FieldId::OutgoingBroadcastBytes => RowEffect::SetCount(f, spec_parse_byte_count(val)),
            FieldId::IncomingUnicastPackets => RowEffect::SetCount(
                f,
                spec_parse_packet_count(val),
            ),
            FieldId::IncomingUnicastBytes => RowEffect::SetCount(f, spec_parse_byte_count(val)),
            FieldId::IncomingBroadcastPackets => RowEffect::SetCount(
                f,
                spec_parse_packet_count(val),
            ),
            FieldId::IncomingBroadcastBytes => RowEffect::SetCount(f, spec_parse_byte_count(val)),
        },
    }
}

/// Set one boolean field.
pub open spec fn set_flag(s: HubStatusView, f: FieldId, b: bool) -> HubStatusView {
    match f {
        FieldId::Online => HubStatusView { online: b, ..s },
        FieldId::SecureNat => HubStatusView { secure_nat: b, ..s },
        _ => s,
    }
}

/// Set one numeric field.
pub open spec fn set_count(s: HubStatusView, f: FieldId, n: u64) -> HubStatusView {
    match f {
        FieldId::Sessions => HubStatusView { sessions: n, ..s },
        FieldId::SessionsClient => HubStatusView { sessions_client: n, ..s },
        FieldId::SessionsBridge => HubStatusView { sessions_bridge: n, ..s },
        FieldId::AccessLists => HubStatusView { access_lists: n, ..s },
        FieldId::Users => HubStatusView { users: n, ..s },
        FieldId::Groups => HubStatusView { groups: n, ..s },
        FieldId::MacTables => HubStatusView { mac_tables: n, ..s },
        FieldId::IpTables => HubStatusView { ip_tables: n, ..s },
        FieldId::Logins => HubStatusView { logins: n, ..s },
        FieldId::OutgoingUnicastPackets => HubStatusView { outgoing_unicast_packets: n, ..s },
        FieldId::OutgoingUnicastBytes => HubStatusView { outgoing_unicast_bytes: n, ..s },
        FieldId::OutgoingBroadcastPackets => HubStatusView { outgoing_broadcast_packets: n, ..s },
        FieldId::OutgoingBroadcastBytes => HubStatusView { outgoing_broadcast_bytes: n, ..s },
        FieldId::IncomingUnicastPackets => HubStatusView { incoming_unicast_packets: n, ..s },
        FieldId::IncomingUnicastBytes => HubStatusView { incoming_unicast_bytes: n, ..s },
        FieldId::IncomingBroadcastPackets => HubStatusView { incoming_broadcast_packets: n, ..s },
        FieldId::IncomingBroadcastBytes => HubStatusView { incoming_broadcast_bytes: n, ..s },
        _ => s,
    }
}

/// Apply one row's effect to the record under construction.
pub open spec fn apply_effect(s: HubStatusView, e: RowEffect) -> Option<HubStatusView> {
    match e {
        RowEffect::Ignored => Some(s),
        RowEffect::SetText(_, v) => Some(HubStatusView { name: v, ..s }),
        RowEffect::SetFlag(f, b) => Some(set_flag(s, f, b)),
        RowEffect::SetCount(f, on) => match on {
            Some(n) => Some(set_count(s, f, n)),
            None => None,
        },
    }
}

/// Apply one row.
pub open spec fn apply_row(s: HubStatusView, row: Seq<Seq<char>>) -> Option<HubStatusView> {
    apply_effect(s, row_effect(row))
}

/// Fold a table's rows over a record, later rows winning where two name
/// the same field.
pub open spec fn decode_status_from(s: HubStatusView, rows: Seq<Seq<Seq<char>>>) -> Option<
    HubStatusView,
>
    decreases rows.len(),
{
    if rows.len() == 0 {
        Some(s)
    } else {
        match apply_row(s, rows.first()) {
            None => None,
            Some(s2) => decode_status_from(s2, rows.drop_first()),
        }
    }
}

/// What decoding a status table yields: the fold of its rows over the
/// default record, or nothing when a recognized numeric field fails
/// normalization.
pub open spec fn spec_decode_status(rows: Seq<Seq<Seq<char>>>) -> Option<HubStatusView> {
    decode_status_from(default_status(), rows)
}

/// Decode the data rows of a status table into a hub status record.
pub fn decode_status_rows(rows: &Vec<Vec<String>>) -> (r: Result<HubStatus, DecodeError>)
    ensures
        match spec_decode_status(rows.deep_view()) {
            Some(v) => r matches Ok(st) && st@ == v,
            None => r == Err::<HubStatus, DecodeError>(DecodeError::Numeric),
        },
{
    let ghost rowsv = rows.deep_view();
    let mut st = HubStatus::new();
    let mut i: usize = 0;
    proof {
        assert(rowsv.skip(0) =~= rowsv);
    }
    while i < rows.len()
        invariant
            i <= rows@.len(),
            rowsv == rows.deep_view(),
            rowsv.len() == rows@.len(),
            decode_status_from(default_status(), rowsv) == decode_status_from(
                st@,
                rowsv.skip(i as int),
            ),
        decreases rows@.len() - i,
    {
        let row = &rows[i];
        proof {
            assert(rowsv.skip(i as int).first() == rowsv[i as int]);
            assert(rowsv[i as int] == row.deep_view());
            assert(rowsv.skip(i as int).drop_first() =~= rowsv.skip(i + 1));
        }
        let key: &str = if row.len() > 0 {
            row[0].as_str()
        } else {
            ""
        };
        let val: &str = if row.len() > 1 {
            row[1].as_str()
        } else {
            ""
        };
        proof {
            reveal_strlit("");
            assert(""@ =~= Seq::<char>::empty());
            assert(key@ == row_key(rowsv[i as int]));
            assert(val@ == row_val(rowsv[i as int]));
        }
        match canonical_key(key) {
            None => {},
            Some(f) => match f {
                FieldId::Name => {
                    st.name = val.to_owned();
                },
                FieldId::Online => {
                    st.online = online_token(val);
                },
                FieldId::SecureNat => {
                    st.secure_nat = !secure_nat_disabled(val);
                },
                FieldId::Sessions => match parse_count(val) {
                    Ok(n) => st.sessions = n,
                    Err(_) => {
                        return Err(DecodeError::Numeric);
                    },
                },
                FieldId::SessionsClient => match parse_count(val) {
                    Ok(n) => st.sessions_client = n,
                    Err(_) => {
                        return Err(DecodeError::Numeric);
                    },
                },
                FieldId::SessionsBridge => match parse_count(val) {
                    Ok(n) => st.sessions_bridge = n,
                    Err(_) => {
                        return Err(DecodeError::Numeric);
                    },
                },
                FieldId::AccessLists => match parse_count(val) {
                    Ok(n) => st.access_lists = n,
                    Err(_) => {
                        return Err(DecodeError::Numeric);
                    },
                },
                FieldId::Users => match parse_count(val) {
                    Ok(n) => st.users = n,
                    Err(_) => {
                        return Err(DecodeError::Numeric);
                    },
                },
                FieldId::Groups => match parse_count(val) {
                    Ok(n) => st.groups = n,
                    Err(_) => {
                        return Err(DecodeError::Numeric);
                    },
                },
                FieldId::MacTables => match parse_count(val) {
                    Ok(n) => st.mac_tables = n,
                    Err(_) => {
                        return Err(DecodeError::Numeric);
                    },
                },
                FieldId::IpTables => match parse_count(val) {
                    Ok(n) => st.ip_tables = n,
                    Err(_) => {
                        return Err(DecodeError::Numeric);
                    },
                },
                FieldId::Logins => match parse_count(val) {
                    Ok(n) => st.logins = n,
                    Err(_) => {
                        return Err(DecodeError::Numeric);
                    },
                },
                FieldId::OutgoingUnicastPackets => match parse_packet_count(val) {
                    Ok(n) => st.outgoing_unicast_packets = n,
                    Err(_) => {
                        return Err(DecodeError::Numeric);
                    },
                },
                FieldId::OutgoingUnicastBytes => match parse_byte_count(val) {
                    Ok(n) => st.outgoing_unicast_bytes = n,
                    Err(_) => {
                        return Err(DecodeError::Numeric);
                    },
                },
                FieldId::OutgoingBroadcastPackets => match parse_packet_count(val) {
                    Ok(n) => st.outgoing_broadcast_packets = n,
                    Err(_) => {
                        return Err(DecodeError::Numeric);
                    },
                },
                FieldId::OutgoingBroadcastBytes => match parse_byte_count(val) {
                    Ok(n) => st.outgoing_broadcast_bytes = n,
                    Err(_) => {
                        return Err(DecodeError::Numeric);
                    },
                },
                FieldId::IncomingUnicastPackets => match parse_packet_count(val) {
                    Ok(n) => st.incoming_unicast_packets = n,
                    Err(_) => {
                        return Err(DecodeError::Numeric);
                    },
                },
                FieldId::IncomingUnicastBytes => match parse_byte_count(val) {
                    Ok(n) => st.incoming_unicast_bytes = n,
                    Err(_) => {
                        return Err(DecodeError::Numeric);
                    },
                },
                FieldId::IncomingBroadcastPackets => match parse_packet_count(val) {
                    Ok(n) => st.incoming_broadcast_packets = n,
                    Err(_) => {
                        return Err(DecodeError::Numeric);
                    },
                },
                FieldId::IncomingBroadcastBytes => match parse_byte_count(val) {
                    Ok(n) => st.incoming_broadcast_bytes = n,
                    Err(_) => {
                        return Err(DecodeError::Numeric);
                    },
                },
            },
        }
        i = i + 1;
    }
    proof {
        assert(rowsv.skip(rowsv.len() as int) =~= Seq::<Seq<Seq<char>>>::empty());
    }
    Ok(st)
}

/// The typed value a record holds for one canonical field.
pub ghost enum FieldValue {
    Text(Seq<char>),
    Flag(bool),
    Count(u64),
}

/// Read one canonical field out of a record.
pub open spec fn status_field(s: HubStatusView, f: FieldId) -> FieldValue {
    match f {
        FieldId::Name => FieldValue::Text(s.name),
        FieldId::Online => FieldValue::Flag(s.online),
        FieldId::SecureNat => FieldValue::Flag(s.secure_nat),
        FieldId::Sessions => FieldValue::Count(s.sessions),
        FieldId::SessionsClient => FieldValue::Count(s.sessions_client),
        FieldId::SessionsBridge => FieldValue::Count(s.sessions_bridge),
        FieldId::AccessLists => FieldValue::Count(s.access_lists),
        FieldId::Users => FieldValue::Count(s.users),
        FieldId::Groups => FieldValue::Count(s.groups),
        FieldId::MacTables => FieldValue::Count(s.mac_tables),
        FieldId::IpTables => FieldValue::Count(s.ip_tables),
        FieldId::Logins => FieldValue::Count(s.logins),
        FieldId::OutgoingUnicastPackets => FieldValue::Count(s.outgoing_unicast_packets),
        FieldId::OutgoingUnicastBytes => FieldValue::Count(s.outgoing_unicast_bytes),
        FieldId::OutgoingBroadcastPackets => FieldValue::Count(s.outgoing_broadcast_packets),
        FieldId::OutgoingBroadcastBytes => FieldValue::Count(s.outgoing_broadcast_bytes),
        FieldId::IncomingUnicastPackets => FieldValue::Count(s.incoming_unicast_packets),
        FieldId::IncomingUnicastBytes => FieldValue::Count(s.incoming_unicast_bytes),
        FieldId::IncomingBroadcastPackets => FieldValue::Count(s.incoming_broadcast_packets),
        FieldId::IncomingBroadcastBytes => FieldValue::Count(s.incoming_broadcast_bytes),
    }
}

/// Locale invariance of one row: a row acts on the record only through its
/// translated effect, so two rows with the same effect — the same canonical
/// field carrying the same canonical value, in any locale's spelling — act
/// identically.
pub proof fn lemma_row_effect_determines(s: HubStatusView, r1: Seq<Seq<char>>, r2: Seq<Seq<char>>)
    requires
        row_effect(r1) == row_effect(r2),
    ensures
        apply_row(s, r1) == apply_row(s, r2),
{
}

proof fn lemma_decode_effect_equiv_from(
    s: HubStatusView,
    rows1: Seq<Seq<Seq<char>>>,
    rows2: Seq<Seq<Seq<char>>>,
)
    requires
        rows1.len() == rows2.len(),
        forall|i: int|
            0 <= i < rows1.len() ==> row_effect(#[trigger] rows1[i]) == row_effect(rows2[i]),
    ensures
        decode_status_from(s, rows1) == decode_status_from(s, rows2),
    decreases rows1.len(),
{
    if rows1.len() > 0 {
        assert(row_effect(rows1[0]) == row_effect(rows2[0]));
        match apply_row(s, rows1.first()) {
            None => {},
            Some(s2) => {
                assert(forall|i: int|
                    0 <= i < rows1.drop_first().len() ==> row_effect(
                        #[trigger] rows1.drop_first()[i],
                    ) == row_effect(rows2.drop_first()[i]));
                lemma_decode_effect_equiv_from(s2, rows1.drop_first(), rows2.drop_first());
            },
        }
    }
}

/// Locale invariance of the status decoder: two tables whose rows carry,
/// row for row, the same canonical field and the same canonical value —
/// each spelled in its own locale — decode to the same record.
pub proof fn lemma_locale_invariant(rows1: Seq<Seq<Seq<char>>>, rows2: Seq<Seq<Seq<char>>>)
    requires
        rows1.len() == rows2.len(),
        forall|i: int|
            0 <= i < rows1.len() ==> row_effect(#[trigger] rows1[i]) == row_effect(rows2[i]),
    ensures
        spec_decode_status(rows1) == spec_decode_status(rows2),
{
    lemma_decode_effect_equiv_from(default_status(), rows1, rows2);
}

/// An empty status table decodes to the default record: no row is required
/// to appear.
pub proof fn lemma_empty_table_decodes()
    ensures
        spec_decode_status(Seq::empty()) == Some(default_status()),
{
}

/// A row that does not name `g` leaves field `g` unchanged.
proof fn lemma_apply_row_frame(s: HubStatusView, row: Seq<Seq<char>>, g: FieldId)
    requires
        spec_canonical_key(row_key(row)) != Some(g),
        apply_row(s, row) is Some,
    ensures
        status_field(apply_row(s, row).unwrap(), g) == status_field(s, g),
{
}

proof fn lemma_absent_field_from(s: HubStatusView, rows: Seq<Seq<Seq<char>>>, f: FieldId)
    requires
        decode_status_from(s, rows) is Some,
        forall|i: int|
            0 <= i < rows.len() ==> spec_canonical_key(row_key(#[trigger] rows[i])) != Some(f),
    ensures
        status_field(decode_status_from(s, rows).unwrap(), f) == status_field(s, f),
    decreases rows.len(),
{
    if rows.len() > 0 {
        match apply_row(s, rows.first()) {
            None => {},
            Some(s2) => {
                lemma_apply_row_frame(s, rows.first(), f);
                assert(forall|i: int|
                    0 <= i < rows.drop_first().len() ==> spec_canonical_key(
                        row_key(#[trigger] rows.drop_first()[i]),
                    ) != Some(f));
                lemma_absent_field_from(s2, rows.drop_first(), f);
            },
        }
    }
}

/// A field no row of the table names keeps its zero/false/empty default in
/// the decoded record.
pub proof fn lemma_absent_field_keeps_default(rows: Seq<Seq<Seq<char>>>, f: FieldId)
    requires
        spec_decode_status(rows) is Some,
        forall|i: int|
            0 <= i < rows.len() ==> spec_canonical_key(row_key(#[trigger] rows[i])) != Some(f),
    ensures
        status_field(spec_decode_status(rows).unwrap(), f) == status_field(default_status(), f),
{
    lemma_absent_field_from(default_status(), rows, f);
}

proof fn lemma_ignored_row_from(
    s: HubStatusView,
    rows1: Seq<Seq<Seq<char>>>,
    row: Seq<Seq<char>>,
    rows2: Seq<Seq<Seq<char>>>,
)
    requires
        spec_canonical_key(row_key(row)) is None,
    ensures
        decode_status_from(s, rows1 + seq![row] + rows2) == decode_status_from(s, rows1 + rows2),
    decreases rows1.len(),
{
    if rows1.len() == 0 {
        assert((rows1 + seq![row] + rows2).first() == row);
        assert(apply_row(s, row) == Some(s));
        assert((rows1 + seq![row] + rows2).drop_first() =~= rows2);
        assert(rows1 + rows2 =~= rows2);
    } else {
        let a = rows1.first();
        assert((rows1 + seq![row] + rows2).first() == a);
        assert((rows1 + rows2).first() == a);
        assert((rows1 + seq![row] + rows2).len() > 0);
        assert((rows1 + rows2).len() > 0);
        match apply_row(s, a) {
            None => {},
            Some(s2) => {
                assert((rows1 + seq![row] + rows2).drop_first() =~= rows1.drop_first() + seq![row]
                    + rows2);
                assert((rows1 + rows2).drop_first() =~= rows1.drop_first() + rows2);
                lemma_ignored_row_from(s2, rows1.drop_first(), row, rows2);
            },
        }
    }
}

/// A row whose label the translation table does not know changes nothing:
/// decoding with it gives the same outcome as decoding without it.
pub proof fn lemma_unrecognized_row_ignored(
    rows1: Seq<Seq<Seq<char>>>,
    row: Seq<Seq<char>>,
    rows2: Seq<Seq<Seq<char>>>,
)
    requires
        spec_canonical_key(row_key(row)) is None,
    ensures
        spec_decode_status(rows1 + seq![row] + rows2) == spec_decode_status(rows1 + rows2),
{
    lemma_ignored_row_from(default_status(), rows1, row, rows2);
}

} // verus!

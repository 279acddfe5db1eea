//! Field translation: maps the localized labels of the status report onto
//! canonical field identifiers. Three locales are supported; labels the
//! table does not know map to nothing and are ignored by the decoders.

use vstd::prelude::*;

use crate::strutil::str_eq;

verus! {

/// The canonical, locale-independent identifier of a status field.
#[derive(Clone, Copy, PartialEq, Eq, Structural, Debug)]
pub enum FieldId {
    Name,
    Online,
    SecureNat,
    Sessions,
    SessionsClient,
    SessionsBridge,
    AccessLists,
    Users,
    Groups,
    MacTables,
    IpTables,
    Logins,
    OutgoingUnicastPackets,
    OutgoingUnicastBytes,
    OutgoingBroadcastPackets,
    OutgoingBroadcastBytes,
    IncomingUnicastPackets,
    IncomingUnicastBytes,
    IncomingBroadcastPackets,
    IncomingBroadcastBytes,
}

/// The canonical field a localized status label names, if the table knows
/// the label.
pub open spec fn spec_canonical_key(label: Seq<char>) -> Option<FieldId> {
    if label == "仮想 HUB 名"@ {
        Some(FieldId::Name)
    } else if label == "状態"@ {
        Some(FieldId::Online)
    } else if label == "SecureNAT 機能"@ {
        Some(FieldId::SecureNat)
    } else if label == "セッション数"@ {
        Some(FieldId::Sessions)
    } else if label == "セッション数 (クライアント)"@ {
        Some(FieldId::SessionsClient)
    } else if label == "セッション数 (ブリッジ)"@ {
        Some(FieldId::SessionsBridge)
    } else if label == "アクセスリスト数"@ {
        Some(FieldId::AccessLists)
    } else if label == "ユーザー数"@ {
        Some(FieldId::Users)
    } else if label == "グループ数"@ {
        Some(FieldId::Groups)
    } else if label == "MAC テーブル数"@ {
        Some(FieldId::MacTables)
    } else if label == "IP テーブル数"@ {
        Some(FieldId::IpTables)
    } else if label == "ログイン回数"@ {
        Some(FieldId::Logins)
    } else if label == "送信ユニキャストパケット数"@ {
        Some(FieldId::OutgoingUnicastPackets)
    } else if label == "送信ユニキャスト合計サイズ"@ {
        Some(FieldId::OutgoingUnicastBytes)
    } else if label == "送信ブロードキャストパケット数"@ {
        Some(FieldId::OutgoingBroadcastPackets)
    } else if label == "送信ブロードキャスト合計サイズ"@ {
        Some(FieldId::OutgoingBroadcastBytes)
    } else if label == "受信ユニキャストパケット数"@ {
        Some(FieldId::IncomingUnicastPackets)
    } else if label == "受信ユニキャスト合計サイズ"@ {
        Some(FieldId::IncomingUnicastBytes)
    } else if label == "受信ブロードキャストパケット数"@ {
        Some(FieldId::IncomingBroadcastPackets)
    } else if label == "受信ブロードキャスト合計サイズ"@ {
        Some(FieldId::IncomingBroadcastBytes)
    } else if label == "Virtual Hub Name"@ {
        Some(FieldId::Name)
    } else if label == "Status"@ {
        Some(FieldId::Online)
    } else if label == "SecureNAT"@ {
        Some(FieldId::SecureNat)
    } else if label == "Sessions"@ {
        Some(FieldId::Sessions)
    } else if label == "Sessions (Client)"@ {
        Some(FieldId::SessionsClient)
    } else if label == "Sessions (Bridge)"@ {
        Some(FieldId::SessionsBridge)
    } else if label == "Access Lists"@ {
        Some(FieldId::AccessLists)
    } else if label == "Users"@ {
        Some(FieldId::Users)
    } else if label == "Groups"@ {
        Some(FieldId::Groups)
    } else if label == "MAC Tables"@ {
        Some(FieldId::MacTables)
    } else if label == "IP Tables"@ {
        Some(FieldId::IpTables)
    } else if label == "Num Logins"@ {
        Some(FieldId::Logins)
    } else if label == "Outgoing Unicast Packets"@ {
        Some(FieldId::OutgoingUnicastPackets)
    } else if label == "Outgoing Unicast Total Size"@ {
        Some(FieldId::OutgoingUnicastBytes)
    } else if label == "Outgoing Broadcast Packets"@ {
        Some(FieldId::OutgoingBroadcastPackets)
    } else if label == "Outgoing Broadcast Total Size"@ {
        Some(FieldId::OutgoingBroadcastBytes)
    } else if label == "Incoming Unicast Packets"@ {
        Some(FieldId::IncomingUnicastPackets)
    } else if label == "Incoming Unicast Total Size"@ {
        Some(FieldId::IncomingUnicastBytes)
    } else if label == "Incoming Broadcast Packets"@ {
        Some(FieldId::IncomingBroadcastPackets)
    } else if label == "Incoming Broadcast Total Size"@ {
        Some(FieldId::IncomingBroadcastBytes)
    } else if label == "虚拟 HUB 名称"@ {
        Some(FieldId::Name)
    } else if label == "状态"@ {
        Some(FieldId::Online)
    } else if label == "SecureNAT 机能"@ {
        Some(FieldId::SecureNat)
    } else if label == "会话数"@ {
        Some(FieldId::Sessions)
    } else if label == "会话数 (客户端)"@ {
        Some(FieldId::SessionsClient)
    } else if label == "会话数 (网桥)"@ {
        Some(FieldId::SessionsBridge)
    } else if label == "访问列表"@ {
        Some(FieldId::AccessLists)
    } else if label == "用户数"@ {
        Some(FieldId::Users)
    } else if label == "组数"@ {
        Some(FieldId::Groups)
    } else if label == "MAC 表数"@ {
        Some(FieldId::MacTables)
    } else if label == "IP 表数"@ {
        Some(FieldId::IpTables)
    } else if label == "登录次数"@ {
        Some(FieldId::Logins)
    } else if label == "发送单播数据包"@ {
        Some(FieldId::OutgoingUnicastPackets)
    } else if label == "发送单播总量"@ {
        Some(FieldId::OutgoingUnicastBytes)
    } else if label == "发送广播数据包"@ {
        Some(FieldId::OutgoingBroadcastPackets)
    } else if label == "发送广播总量"@ {
        Some(FieldId::OutgoingBroadcastBytes)
    } else if label == "接收单播数据包"@ {
        Some(FieldId::IncomingUnicastPackets)
    } else if label == "接收单播总量"@ {
        Some(FieldId::IncomingUnicastBytes)
    } else if label == "接收广播数据包"@ {
        Some(FieldId::IncomingBroadcastPackets)
    } else if label == "接收广播总量"@ {
        Some(FieldId::IncomingBroadcastBytes)
    } else {
        None
    }
}

/// Look a localized status label up in the translation table.
pub fn canonical_key(label: &str) -> (r: Option<FieldId>)
    ensures
        r == spec_canonical_key(label@),
{
    if str_eq(label, "仮想 HUB 名") {
        Some(FieldId::Name)
    } else if str_eq(label, "状態") {
        Some(FieldId::Online)
    } else if str_eq(label, "SecureNAT 機能") {
        Some(FieldId::SecureNat)
    } else if str_eq(label, "セッション数") {
        Some(FieldId::Sessions)
    } else if str_eq(label, "セッション数 (クライアント)") {
        Some(FieldId::SessionsClient)
    } else if str_eq(label, "セッション数 (ブリッジ)") {
        Some(FieldId::SessionsBridge)
    } else if str_eq(label, "アクセスリスト数") {
        Some(FieldId::AccessLists)
    } else if str_eq(label, "ユーザー数") {
        Some(FieldId::Users)
    } else if str_eq(label, "グループ数") {
        Some(FieldId::Groups)
    } else if str_eq(label, "MAC テーブル数") {
        Some(FieldId::MacTables)
    } else if str_eq(label, "IP テーブル数") {
        Some(FieldId::IpTables)
    } else if str_eq(label, "ログイン回数") {
        Some(FieldId::Logins)
    } else if str_eq(label, "送信ユニキャストパケット数") {
        Some(FieldId::OutgoingUnicastPackets)
    } else if str_eq(label, "送信ユニキャスト合計サイズ") {
        Some(FieldId::OutgoingUnicastBytes)
    } else if str_eq(label, "送信ブロードキャストパケット数") {
        Some(FieldId::OutgoingBroadcastPackets)
    } else if str_eq(label, "送信ブロードキャスト合計サイズ") {
        Some(FieldId::OutgoingBroadcastBytes)
    } else if str_eq(label, "受信ユニキャストパケット数") {
        Some(FieldId::IncomingUnicastPackets)
    } else if str_eq(label, "受信ユニキャスト合計サイズ") {
        Some(FieldId::IncomingUnicastBytes)
    } else if str_eq(label, "受信ブロードキャストパケット数") {
        Some(FieldId::IncomingBroadcastPackets)
    } else if str_eq(label, "受信ブロードキャスト合計サイズ") {
        Some(FieldId::IncomingBroadcastBytes)
    } else if str_eq(label, "Virtual Hub Name") {
        Some(FieldId::Name)
    } else if str_eq(label, "Status") {
        Some(FieldId::Online)
    } else if str_eq(label, "SecureNAT") {
        Some(FieldId::SecureNat)
    } else if str_eq(label, "Sessions") {
        Some(FieldId::Sessions)
    } else if str_eq(label, "Sessions (Client)") {
        Some(FieldId::SessionsClient)
    } else if str_eq(label, "Sessions (Bridge)") {
        Some(FieldId::SessionsBridge)
    } else if str_eq(label, "Access Lists") {
        Some(FieldId::AccessLists)
    } else if str_eq(label, "Users") {
        Some(FieldId::Users)
    } else if str_eq(label, "Groups") {
        Some(FieldId::Groups)
    } else if str_eq(label, "MAC Tables") {
        Some(FieldId::MacTables)
    } else if str_eq(label, "IP Tables") {
        Some(FieldId::IpTables)
    } else if str_eq(label, "Num Logins") {
        Some(FieldId::Logins)
    } else if str_eq(label, "Outgoing Unicast Packets") {
        Some(FieldId::OutgoingUnicastPackets)
    } else if str_eq(label, "Outgoing Unicast Total Size") {
        Some(FieldId::OutgoingUnicastBytes)
    } else if str_eq(label, "Outgoing Broadcast Packets") {
        Some(FieldId::OutgoingBroadcastPackets)
    } else if str_eq(label, "Outgoing Broadcast Total Size") {
        Some(FieldId::OutgoingBroadcastBytes)
    } else if str_eq(label, "Incoming Unicast Packets") {
        Some(FieldId::IncomingUnicastPackets)
    } else if str_eq(label, "Incoming Unicast Total Size") {
        Some(FieldId::IncomingUnicastBytes)
    } else if str_eq(label, "Incoming Broadcast Packets") {
        Some(FieldId::IncomingBroadcastPackets)
    } else if str_eq(label, "Incoming Broadcast Total Size") {
        Some(FieldId::IncomingBroadcastBytes)
    } else if str_eq(label, "虚拟 HUB 名称") {
        Some(FieldId::Name)
    } else if str_eq(label, "状态") {
        Some(FieldId::Online)
    } else if str_eq(label, "SecureNAT 机能") {
        Some(FieldId::SecureNat)
    } else if str_eq(label, "会话数") {
        Some(FieldId::Sessions)
    } else if str_eq(label, "会话数 (客户端)") {
        Some(FieldId::SessionsClient)
    } else if str_eq(label, "会话数 (网桥)") {
        Some(FieldId::SessionsBridge)
    } else if str_eq(label, "访问列表") {
        Some(FieldId::AccessLists)
    } else if str_eq(label, "用户数") {
        Some(FieldId::Users)
    } else if str_eq(label, "组数") {
        Some(FieldId::Groups)
    } else if str_eq(label, "MAC 表数") {
        Some(FieldId::MacTables)
    } else if str_eq(label, "IP 表数") {
        Some(FieldId::IpTables)
    } else if str_eq(label, "登录次数") {
        Some(FieldId::Logins)
    } else if str_eq(label, "发送单播数据包") {
        Some(FieldId::OutgoingUnicastPackets)
    } else if str_eq(label, "发送单播总量") {
        Some(FieldId::OutgoingUnicastBytes)
    } else if str_eq(label, "发送广播数据包") {
        Some(FieldId::OutgoingBroadcastPackets)
    } else if str_eq(label, "发送广播总量") {
        Some(FieldId::OutgoingBroadcastBytes)
    } else if str_eq(label, "接收单播数据包") {
        Some(FieldId::IncomingUnicastPackets)
    } else if str_eq(label, "接收单播总量") {
        Some(FieldId::IncomingUnicastBytes)
    } else if str_eq(label, "接收广播数据包") {
        Some(FieldId::IncomingBroadcastPackets)
    } else if str_eq(label, "接收广播总量") {
        Some(FieldId::IncomingBroadcastBytes)
    } else {
        None
    }
}

} // verus!

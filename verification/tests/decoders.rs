use softether_exporter::error::DecodeError;
use softether_exporter::fields::{canonical_key, FieldId};
use softether_exporter::softether_reader::SoftEtherReader;
use softether_exporter::status::HubStatus;

#[test]
fn test_hub_status() {
    let src = r#"項目,値
仮想 HUB 名,DEFAULT
状態,オンライン
種類,スタンドアロン
SecureNAT 機能,無効
セッション数,4
セッション数 (クライアント),3
セッション数 (ブリッジ),0
アクセスリスト数,0
ユーザー数,1
グループ数,0
MAC テーブル数,134
IP テーブル数,211
ログイン回数,18965
最終ログイン日時,2020-04-08 09:25:49
最終通信日時,2020-04-08 11:31:43
作成日時,2018-01-16 10:04:05
送信ユニキャストパケット数,"7,262,679,895 パケット"
送信ユニキャスト合計サイズ,"4,153,388,417,848 バイト"
送信ブロードキャストパケット数,"1,756,889,863 パケット"
送信ブロードキャスト合計サイズ,"256,781,466,202 バイト"
受信ユニキャストパケット数,"8,840,585,104 パケット"
受信ユニキャスト合計サイズ,"4,676,951,155,757 バイト"
受信ブロードキャストパケット数,"976,264,699 パケット"
受信ブロードキャスト合計サイズ,"138,170,046,309 バイト""#;

    let status = SoftEtherReader::decode_hub_status(src.as_bytes()).unwrap();
    assert_eq!(status.name, String::from("DEFAULT"));
    assert_eq!(status.online, true);
    assert_eq!(status.secure_nat, false);
    assert_eq!(status.sessions, 4);
    assert_eq!(status.sessions_client, 3);
    assert_eq!(status.sessions_bridge, 0);
    assert_eq!(status.access_lists, 0);
    assert_eq!(status.users, 1);
    assert_eq!(status.groups, 0);
    assert_eq!(status.mac_tables, 134);
    assert_eq!(status.ip_tables, 211);
    assert_eq!(status.logins, 18965);
    assert_eq!(status.outgoing_unicast_packets, 7262679895);
    assert_eq!(status.outgoing_unicast_bytes, 4153388417848);
    assert_eq!(status.outgoing_broadcast_packets, 1756889863);
    assert_eq!(status.outgoing_broadcast_bytes, 256781466202);
    assert_eq!(status.incoming_unicast_packets, 8840585104);
    assert_eq!(status.incoming_unicast_bytes, 4676951155757);
    assert_eq!(status.incoming_broadcast_packets, 976264699);
    assert_eq!(status.incoming_broadcast_bytes, 138170046309);
}

#[test]
fn test_hub_session() {
    let src = r#"セッション名,VLAN ID,場所,ユーザー名,接続元ホスト名,TCP コネクション,転送バイト数,転送パケット数
SID-LOCALBRIDGE-1,－,ローカルセッション,Local Bridge,Ethernet ブリッジ,なし,"294,035,917,956","1,380,393,323"
SID-XXXX-1047,－,ローカルセッション,xxxx,xxx.example.com,2 / 2,"82,691,861","322,784""#;

    let sessions = SoftEtherReader::decode_hub_sessions(src.as_bytes()).unwrap();
    assert_eq!(sessions[0].name, String::from("SID-LOCALBRIDGE-1"));
    assert_eq!(sessions[0].vlan_id, String::from("－"));
    assert_eq!(sessions[0].location, String::from("ローカルセッション"));
    assert_eq!(sessions[0].user, String::from("Local Bridge"));
    assert_eq!(sessions[0].source, String::from("Ethernet ブリッジ"));
    assert_eq!(sessions[0].connections, (0, 0));
    assert_eq!(sessions[0].transfer_bytes, 294035917956);
    assert_eq!(sessions[0].transfer_packets, 1380393323);
    assert_eq!(sessions[1].name, String::from("SID-XXXX-1047"));
    assert_eq!(sessions[1].vlan_id, String::from("－"));
    assert_eq!(sessions[1].location, String::from("ローカルセッション"));
    assert_eq!(sessions[1].user, String::from("xxxx"));
    assert_eq!(sessions[1].source, String::from("xxx.example.com"));
    assert_eq!(sessions[1].connections, (2, 2));
    assert_eq!(sessions[1].transfer_bytes, 82691861);
    assert_eq!(sessions[1].transfer_packets, 322784);
}

fn status_of(table: &str) -> HubStatus {
    SoftEtherReader::decode_hub_status(table.as_bytes()).unwrap()
}

#[test]
fn locale_invariant_status() {
    let ja = "項目,値\n仮想 HUB 名,DEFAULT\n状態,オンライン\nSecureNAT 機能,無効\nセッション数,4\nユーザー数,1\nログイン回数,7\n送信ユニキャストパケット数,\"1,234 パケット\"\n受信ユニキャスト合計サイズ,\"5,678 バイト\"\n";
    let en = "Item,Value\nVirtual Hub Name,DEFAULT\nStatus,Online\nSecureNAT,Disabled\nSessions,4\nUsers,1\nNum Logins,7\nOutgoing Unicast Packets,\"1,234 packets\"\nIncoming Unicast Total Size,\"5,678 bytes\"\n";
    let zh = "项目,值\n虚拟 HUB 名称,DEFAULT\n状态,在线\nSecureNAT 机能,无效\n会话数,4\n用户数,1\n登录次数,7\n发送单播数据包,\"1,234 数据包\"\n接收单播总量,\"5,678 字节\"\n";
    let s_ja = status_of(ja);
    let s_en = status_of(en);
    let s_zh = status_of(zh);
    assert_eq!(s_ja, s_en);
    assert_eq!(s_en, s_zh);
    assert_eq!(s_ja.online, true);
    assert_eq!(s_ja.secure_nat, false);
    assert_eq!(s_ja.outgoing_unicast_packets, 1234);
    assert_eq!(s_ja.incoming_unicast_bytes, 5678);
}

#[test]
fn absent_rows_keep_defaults() {
    // Only two rows appear; everything else stays at its zero/false default,
    // and the decode succeeds.
    let table = "Item,Value\nVirtual Hub Name,HUB1\nSessions,9\n";
    let status = status_of(table);
    assert_eq!(status.name, "HUB1");
    assert_eq!(status.sessions, 9);
    assert_eq!(status.online, false);
    assert_eq!(status.secure_nat, false);
    assert_eq!(status.sessions_client, 0);
    assert_eq!(status.users, 0);
    assert_eq!(status.logins, 0);
    assert_eq!(status.outgoing_unicast_packets, 0);
    assert_eq!(status.incoming_broadcast_bytes, 0);

    // An empty table (header only) decodes to the all-default record.
    let empty = status_of("Item,Value\n");
    assert_eq!(empty, HubStatus::new());
}

#[test]
fn unrecognized_rows_are_ignored() {
    let with_unknown = "Item,Value\nVirtual Hub Name,HUB1\nSome Future Field,whatever\nSessions,9\n";
    let without = "Item,Value\nVirtual Hub Name,HUB1\nSessions,9\n";
    assert_eq!(status_of(with_unknown), status_of(without));
}

#[test]
fn later_rows_win() {
    let table = "Item,Value\nSessions,9\nSessions,12\n";
    assert_eq!(status_of(table).sessions, 12);
}

#[test]
fn session_row_with_pair_and_grouped_transfers() {
    let src = "Session Name,VLAN ID,Location,User Name,Source Host Name,TCP Connections,Transfer Bytes,Transfer Packets\nSID-A-1,-,Local,alice,host.example.com,2 / 2,\"82,691,861\",\"322,784\"\n";
    let sessions = SoftEtherReader::decode_hub_sessions(src.as_bytes()).unwrap();
    assert_eq!(sessions.len(), 1);
    assert_eq!(sessions[0].connections, (2, 2));
    assert_eq!(sessions[0].transfer_bytes, 82691861);
    assert_eq!(sessions[0].transfer_packets, 322784);
}

#[test]
fn malformed_table_is_io_error() {
    // A record wider than the header cannot be tabulated.
    let src = "a,b\nc,d,e,f\n";
    assert_eq!(
        SoftEtherReader::decode_hub_status(src.as_bytes()),
        Err(DecodeError::Io)
    );
    assert_eq!(
        SoftEtherReader::decode_hub_sessions(src.as_bytes()),
        Err(DecodeError::Io)
    );
}

#[test]
fn malformed_numeric_field_is_numeric_error() {
    let status = "Item,Value\nSessions,not-a-number\n";
    assert_eq!(
        SoftEtherReader::decode_hub_status(status.as_bytes()),
        Err(DecodeError::Numeric)
    );
    let sessions = "n,v,l,u,s,c,b,p\nSID-1,-,Local,alice,host,none,12x4,9\n";
    assert_eq!(
        SoftEtherReader::decode_hub_sessions(sessions.as_bytes()),
        Err(DecodeError::Numeric)
    );
}

#[test]
fn label_translation_covers_all_locales() {
    assert_eq!(canonical_key("ユーザー数"), Some(FieldId::Users));
    assert_eq!(canonical_key("Users"), Some(FieldId::Users));
    assert_eq!(canonical_key("用户数"), Some(FieldId::Users));
    assert_eq!(canonical_key("受信ブロードキャスト合計サイズ"), Some(FieldId::IncomingBroadcastBytes));
    assert_eq!(canonical_key("Incoming Broadcast Total Size"), Some(FieldId::IncomingBroadcastBytes));
    assert_eq!(canonical_key("接收广播总量"), Some(FieldId::IncomingBroadcastBytes));
    assert_eq!(canonical_key("Some Future Field"), None);
    assert_eq!(canonical_key(""), None);
}

#[test]
fn unparsed_values_do_not_fail_text_fields() {
    // Boolean fields match exact tokens and default to their locale-free
    // reading otherwise; unknown status values read as offline.
    let table = "Item,Value\nStatus,Offline\nSecureNAT,Enabled\n";
    let status = status_of(table);
    assert_eq!(status.online, false);
    assert_eq!(status.secure_nat, true);
}

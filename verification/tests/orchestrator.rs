use softether_exporter::aggregate::{aggregate_user_transfer, UserTransfer};
use softether_exporter::config::{Config, Hub};
use softether_exporter::error::SoftEtherError;
use softether_exporter::exporter::{run, Exporter, GaugeWrite, HubFetch, HubGauge, UserGauge};
use softether_exporter::invoke::{
    build_invocation_args, classify_tool_output, prompt_release_byte, subcommand_name, QueryKind,
};
use softether_exporter::session::HubSession;

fn session(user: &str, bytes: u64, packets: u64) -> HubSession {
    HubSession {
        name: String::from("SID"),
        vlan_id: String::from("-"),
        location: String::from("Local"),
        user: String::from(user),
        source: String::from("host"),
        connections: (1, 1),
        transfer_bytes: bytes,
        transfer_packets: packets,
    }
}

#[test]
fn aggregate_sums_by_user() {
    let sessions = vec![session("A", 100, 10), session("B", 50, 5), session("A", 20, 2)];
    let agg = aggregate_user_transfer(&sessions);
    assert_eq!(agg.len(), 2);
    assert_eq!(agg[0], UserTransfer { user: String::from("A"), bytes: 120, packets: 12 });
    assert_eq!(agg[1], UserTransfer { user: String::from("B"), bytes: 50, packets: 5 });
}

#[test]
fn aggregate_is_order_independent() {
    let forward = vec![session("A", 100, 10), session("B", 50, 5), session("A", 20, 2)];
    let backward = vec![session("A", 20, 2), session("B", 50, 5), session("A", 100, 10)];
    assert_eq!(aggregate_user_transfer(&forward), aggregate_user_transfer(&backward));
}

#[test]
fn aggregate_of_no_sessions_is_empty() {
    let agg = aggregate_user_transfer(&Vec::new());
    assert_eq!(agg.len(), 0);
}

fn hub(name: &str) -> Hub {
    Hub { name: Some(String::from(name)), password: Some(String::from("secret")) }
}

fn status_table(name: &str, sessions: u64) -> Vec<u8> {
    format!("Item,Value\nVirtual Hub Name,{}\nStatus,Online\nSessions,{}\n", name, sessions)
        .into_bytes()
}

fn session_table() -> Vec<u8> {
    String::from(
        "Session Name,VLAN ID,Location,User Name,Source Host Name,TCP Connections,Transfer Bytes,Transfer Packets\nSID-1,-,Local,alice,host,1 / 2,100,10\nSID-2,-,Local,bob,host,1 / 2,50,5\n",
    )
    .into_bytes()
}

fn failed() -> Result<Vec<u8>, SoftEtherError> {
    Err(SoftEtherError::new(String::from("vpncmd failed ( boom )")))
}

#[test]
fn failed_hub_is_isolated() {
    let hubs = vec![hub("h1"), hub("h2"), hub("h3")];
    let fetches = vec![
        HubFetch { status: Ok(status_table("h1", 4)), sessions: Ok(session_table()) },
        HubFetch { status: failed(), sessions: failed() },
        HubFetch { status: Ok(status_table("h3", 7)), sessions: Ok(session_table()) },
    ];
    let writes = run(hubs, &fetches, "1.0.0", "rev", "toolchain");

    // Per successful hub: 18 status writes and 2 users x 2 gauges; the
    // failed hub gets exactly one write; one build-info write at the end.
    assert_eq!(writes.len(), 22 + 1 + 22 + 1);

    // The first hub's writes are fully populated and labeled by its name.
    assert_eq!(
        writes[0],
        GaugeWrite::Hub { gauge: HubGauge::Up, hub: String::from("h1"), value: 1 }
    );
    assert_eq!(
        writes[2],
        GaugeWrite::Hub { gauge: HubGauge::Sessions, hub: String::from("h1"), value: 4 }
    );
    assert_eq!(
        writes[18],
        GaugeWrite::User {
            gauge: UserGauge::TransferBytes,
            hub: String::from("h1"),
            user: String::from("alice"),
            value: 100,
        }
    );
    assert_eq!(
        writes[21],
        GaugeWrite::User {
            gauge: UserGauge::TransferPackets,
            hub: String::from("h1"),
            user: String::from("bob"),
            value: 5,
        }
    );

    // The second hub's only write is its up indicator dropping to 0.
    assert_eq!(
        writes[22],
        GaugeWrite::Hub { gauge: HubGauge::Up, hub: String::from("h2"), value: 0 }
    );
    let mentions_h2 = writes
        .iter()
        .filter(|w| match w {
            GaugeWrite::Hub { hub, .. } => hub == "h2",
            GaugeWrite::User { hub, .. } => hub == "h2",
            GaugeWrite::BuildInfo { .. } => false,
        })
        .count();
    assert_eq!(mentions_h2, 1);

    // The third hub is fully populated despite its neighbor's failure.
    assert_eq!(
        writes[23],
        GaugeWrite::Hub { gauge: HubGauge::Up, hub: String::from("h3"), value: 1 }
    );
    assert_eq!(
        writes[25],
        GaugeWrite::Hub { gauge: HubGauge::Sessions, hub: String::from("h3"), value: 7 }
    );

    // The build-info write comes last, whatever any hub's outcome.
    assert_eq!(
        writes[45],
        GaugeWrite::BuildInfo {
            version: String::from("1.0.0"),
            revision: String::from("rev"),
            toolchain: String::from("toolchain"),
        }
    );
}

#[test]
fn decode_failure_marks_hub_down() {
    let hubs = vec![hub("h1")];
    let fetches = vec![
        HubFetch { status: Ok(Vec::from(&b"Item,Value\nSessions,bogus\n"[..])), sessions: failed() },
    ];
    let writes = run(hubs, &fetches, "v", "r", "t");
    assert_eq!(writes.len(), 2);
    assert_eq!(
        writes[0],
        GaugeWrite::Hub { gauge: HubGauge::Up, hub: String::from("h1"), value: 0 }
    );
}

#[test]
fn stepped_scrape_skips_sessions_after_status_failure() {
    let ex = Exporter::new(vec![hub("h1"), hub("h2")]);
    let mut ex = ex;

    // First hub: the status query fails; no session query follows for it.
    let q = ex.next_query().unwrap();
    assert_eq!(q.hub, "h1");
    assert_eq!(q.password, "secret");
    assert_eq!(q.kind, QueryKind::Status);
    ex.supply(&failed());

    // The next question is already the second hub's status.
    let q = ex.next_query().unwrap();
    assert_eq!(q.hub, "h2");
    assert_eq!(q.kind, QueryKind::Status);
    ex.supply(&Ok(status_table("h2", 3)));

    let q = ex.next_query().unwrap();
    assert_eq!(q.hub, "h2");
    assert_eq!(q.kind, QueryKind::Sessions);
    ex.supply(&Ok(session_table()));

    assert!(ex.next_query().is_none());
    ex.finish("v", "r", "t");
    let writes = ex.into_writes();
    assert_eq!(
        writes[0],
        GaugeWrite::Hub { gauge: HubGauge::Up, hub: String::from("h1"), value: 0 }
    );
    assert_eq!(
        writes[1],
        GaugeWrite::Hub { gauge: HubGauge::Up, hub: String::from("h2"), value: 1 }
    );
    assert_eq!(writes.len(), 1 + 22 + 1);
}

#[test]
fn invocation_arguments_address_the_hub() {
    let args = build_invocation_args("vpn.example.com:443", "DEFAULT", "s3cret", "StatusGet");
    assert_eq!(
        args,
        vec![
            String::from("vpn.example.com:443"),
            String::from("/SERVER"),
            String::from("/ADMINHUB:DEFAULT"),
            String::from("/PASSWORD:s3cret"),
            String::from("/CSV"),
            String::from("/CMD"),
            String::from("StatusGet"),
        ]
    );
    assert_eq!(subcommand_name(QueryKind::Status), "StatusGet");
    assert_eq!(subcommand_name(QueryKind::Sessions), "SessionList");
    assert_eq!(prompt_release_byte(), 4);
}

#[test]
fn tool_outcome_classification() {
    let ok = classify_tool_output(true, Vec::from(&b"report"[..]));
    assert_eq!(ok.unwrap(), Vec::from(&b"report"[..]));

    let err = classify_tool_output(false, Vec::from(&b"boom"[..])).unwrap_err();
    assert_eq!(err.message(), "vpncmd failed ( boom )");
}

#[test]
fn config_defaults() {
    let config = Config { vpncmd: None, server: None, hubs: Vec::new() };
    assert_eq!(config.command_path(), "vpncmd");
    assert_eq!(config.server_address(), "localhost");

    let config = Config {
        vpncmd: Some(String::from("/usr/bin/vpncmd")),
        server: Some(String::from("vpn.example.com:443")),
        hubs: vec![Hub { name: None, password: None }],
    };
    assert_eq!(config.command_path(), "/usr/bin/vpncmd");
    assert_eq!(config.server_address(), "vpn.example.com:443");
    assert_eq!(config.hubs[0].display_name(), "");
    assert_eq!(config.hubs[0].secret(), "");
}

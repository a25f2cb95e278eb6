use panelbot::command::{
    ack_text, bearer_header, parse_command, parse_message, power_body, power_url, resources_url,
    signal_str, Command, PowerCommand,
};
use panelbot::dispatch::{dispatch, Action};
use panelbot::duration::format_dhms;
use panelbot::error::http_outcome;
use panelbot::json::{str_eq, Json};
use panelbot::numfmt::{tenths_to_fixed, u64_to_decimal};
use panelbot::parse::{parse_allocation, parse_resources};
use panelbot::units::{gib_tenths_of_milli_bytes, tenths_of_milli};

fn obj(entries: Vec<(&str, Json)>) -> Json {
    Json::Obj(entries.into_iter().map(|(k, v)| (k.to_string(), v)).collect())
}

fn resources_body() -> Json {
    obj(vec![(
        "attributes",
        obj(vec![
            ("current_state", Json::Str("running".to_string())),
            (
                "resources",
                obj(vec![
                    ("uptime", Json::Num(90_000_000_000)),
                    ("cpu_absolute", Json::Num(1_552)),
                    ("memory_bytes", Json::Num(3_500_000_000_000)),
                    ("disk_bytes", Json::Num(6_000_000_000_000)),
                ]),
            ),
        ]),
    )])
}

fn resources_body_without(field: &str) -> Json {
    let keep = |k: &str| k != field;
    let mut inner = Vec::new();
    for (k, m) in [
        ("uptime", 90_000_000_000u64),
        ("cpu_absolute", 1_552),
        ("memory_bytes", 3_500_000_000_000),
        ("disk_bytes", 6_000_000_000_000),
    ] {
        if keep(k) {
            inner.push((k, Json::Num(m)));
        }
    }
    let mut attrs = Vec::new();
    if keep("current_state") {
        attrs.push(("current_state", Json::Str("running".to_string())));
    }
    attrs.push(("resources", obj(inner)));
    obj(vec![("attributes", obj(attrs))])
}

fn details_body_with_port(port: Json) -> Json {
    obj(vec![(
        "attributes",
        obj(vec![(
            "relationships",
            obj(vec![(
                "allocations",
                obj(vec![(
                    "data",
                    Json::Arr(vec![obj(vec![(
                        "attributes",
                        obj(vec![
                            ("ip", Json::Str("203.0.113.9".to_string())),
                            ("port", port),
                        ]),
                    )])]),
                )]),
            )]),
        )]),
    )])
}

fn details_body() -> Json {
    details_body_with_port(Json::Num(25_565_000))
}

#[test]
fn dhms_sums_back_to_the_input() {
    for sec in [0u64, 1, 59, 60, 3599, 3600, 86399, 86400, 90000, 123_456_789] {
        let (d, h, m, s) = format_dhms(sec);
        assert_eq!(d * 86400 + h as u64 * 3600 + m as u64 * 60 + s as u64, sec);
        assert!(h < 24 && m < 60 && s < 60);
    }
}

#[test]
fn dhms_of_a_day_and_an_hour() {
    // 90_000_000 ms of uptime are 90_000 whole seconds.
    let (d, h, m, s) = format_dhms(90_000_000 / 1000);
    assert_eq!((d, h, m, s), (1, 1, 0, 0));
}

#[test]
fn dhms_edges() {
    assert_eq!(format_dhms(0), (0, 0, 0, 0));
    assert_eq!(format_dhms(86399), (0, 23, 59, 59));
    assert_eq!(format_dhms(86400), (1, 0, 0, 0));
}

#[test]
fn gib_conversion_exact_for_multiples() {
    // 6 GB of bytes, held in thousandths: exactly 60 tenths of a GiB.
    assert_eq!(gib_tenths_of_milli_bytes(6_000_000_000_000), 60);
    assert_eq!(gib_tenths_of_milli_bytes(0), 0);
    assert_eq!(gib_tenths_of_milli_bytes(1_000_000_000_000), 10);
}

#[test]
fn gib_conversion_rounds_half_up() {
    assert_eq!(gib_tenths_of_milli_bytes(3_550_000_000_000), 36);
    assert_eq!(gib_tenths_of_milli_bytes(3_549_999_999_999), 35);
}

#[test]
fn cpu_tenths_round_half_up() {
    assert_eq!(tenths_of_milli(1_552), 16);
    assert_eq!(tenths_of_milli(1_549), 15);
    assert_eq!(tenths_of_milli(0), 0);
    assert_eq!(tenths_of_milli(50), 1);
}

#[test]
fn decimal_rendering() {
    assert_eq!(u64_to_decimal(0).as_str(), "0");
    assert_eq!(u64_to_decimal(907).as_str(), "907");
    assert_eq!(u64_to_decimal(90_000_000).as_str(), "90000000");
    assert_eq!(tenths_to_fixed(0).as_str(), "0.0");
    assert_eq!(tenths_to_fixed(35).as_str(), "3.5");
    assert_eq!(tenths_to_fixed(160).as_str(), "16.0");
}

#[test]
fn json_lookup_and_accessors() {
    let body = resources_body();
    let attrs = body.get("attributes").unwrap();
    let state = attrs.get("current_state").unwrap();
    assert_eq!(state.as_str().unwrap().as_str(), "running");
    let resources = attrs.get("resources").unwrap();
    assert_eq!(resources.get("uptime").unwrap().as_u64(), Some(90_000_000));
    assert_eq!(resources.get("cpu_absolute").unwrap().as_u64(), None);
    assert_eq!(resources.get("cpu_absolute").unwrap().as_milli(), Some(1_552));
    assert!(attrs.get("nope").is_none());
    assert!(body.at(0).is_none());
}

#[test]
fn json_text_of_a_nested_value() {
    let v = obj(vec![
        (
            "a",
            Json::Arr(vec![
                Json::Num(1000),
                Json::Bool(true),
                Json::Null,
                Json::Str("x".to_string()),
            ]),
        ),
        ("b", Json::Num(1500)),
    ]);
    assert_eq!(
        v.to_text().as_str(),
        "{\n  \"a\": [\n    1,\n    true,\n    null,\n    \"x\"\n  ],\n  \"b\": 1.500\n}"
    );
}

#[test]
fn json_text_escapes_quotes_and_backslashes() {
    let v = Json::Str("a\"b\\c".to_string());
    assert_eq!(v.to_text().as_str(), "\"a\\\"b\\\\c\"");
    let o = obj(vec![("k\"", Json::Str("\\".to_string()))]);
    assert_eq!(o.to_text().as_str(), "{\n  \"k\\\"\": \"\\\\\"\n}");
}

#[test]
fn json_text_of_empty_containers() {
    assert_eq!(Json::Arr(vec![]).to_text().as_str(), "[]");
    assert_eq!(Json::Obj(vec![]).to_text().as_str(), "{}");
}

#[test]
fn str_eq_agrees_with_equality() {
    assert!(str_eq("uptime", "uptime"));
    assert!(!str_eq("uptime", "uptimes"));
    assert!(!str_eq("uptime", "uptimE"));
    assert!(str_eq("", ""));
}

#[test]
fn parse_resources_reads_every_field() {
    let body = resources_body();
    let summary = parse_resources(&body).unwrap();
    assert_eq!(summary.current_state.as_str(), "running");
    assert_eq!(summary.uptime_ms, 90_000_000);
    assert_eq!(summary.cpu_milli_percent, 1_552);
    assert_eq!(summary.memory_milli_bytes, 3_500_000_000_000);
    assert_eq!(summary.disk_milli_bytes, 6_000_000_000_000);
}

#[test]
fn parse_resources_missing_state_names_the_field_and_keeps_the_payload() {
    let body = resources_body_without("current_state");
    let e = parse_resources(&body).unwrap_err();
    assert_eq!(e.message.as_str(), "missing field: current_state");
    assert_eq!(e.context.as_str(), body.to_text().as_str());
    let reply = panelbot::render::render_error(&e);
    assert!(reply.contains("missing field: current_state"));
    assert!(reply.contains(body.to_text().as_str()));
}

#[test]
fn parse_resources_reports_the_first_missing_field() {
    let e = parse_resources(&resources_body_without("uptime")).unwrap_err();
    assert_eq!(e.message.as_str(), "missing field: uptime");
    let e = parse_resources(&resources_body_without("memory_bytes")).unwrap_err();
    assert_eq!(e.message.as_str(), "missing field: memory_bytes");
    let e = parse_resources(&resources_body_without("disk_bytes")).unwrap_err();
    assert_eq!(e.message.as_str(), "missing field: disk_bytes");
    let e = parse_resources(&resources_body_without("cpu_absolute")).unwrap_err();
    assert_eq!(e.message.as_str(), "missing field: cpu_absolute");
}

#[test]
fn parse_resources_mistyped_field_counts_as_missing() {
    // A fractional uptime cannot be read as whole milliseconds.
    let mut body = resources_body_without("uptime");
    if let Json::Obj(ref mut top) = body {
        if let Json::Obj(ref mut attrs) = top[0].1 {
            let last = attrs.len() - 1;
            if let Json::Obj(ref mut inner) = attrs[last].1 {
                inner.push(("uptime".to_string(), Json::Num(1_500)));
            }
        }
    }
    let e = parse_resources(&body).unwrap_err();
    assert_eq!(e.message.as_str(), "missing field: uptime");
}

#[test]
fn parse_resources_empty_body_fails_with_context() {
    let body = obj(vec![]);
    let e = parse_resources(&body).unwrap_err();
    assert_eq!(e.message.as_str(), "missing field: uptime");
    assert_eq!(e.context.as_str(), "{}");
}

#[test]
fn parse_allocation_reads_ip_and_port() {
    let a = parse_allocation(&details_body()).unwrap();
    assert_eq!(a.ip.as_str(), "203.0.113.9");
    assert_eq!(a.port, 25_565);
}

#[test]
fn parse_allocation_rejects_an_impossible_port() {
    // 70000 does not fit a port number; the field counts as mistyped.
    let body = details_body_with_port(Json::Num(70_000_000));
    let e = parse_allocation(&body).unwrap_err();
    assert_eq!(e.message.as_str(), "missing field: port");
}

#[test]
fn http_outcome_succeeds_only_on_a_success_status() {
    assert!(http_outcome(true, "200 OK", "ignored").is_ok());
    let e = http_outcome(false, "502 Bad Gateway", "panel is down").unwrap_err();
    assert_eq!(e.message.as_str(), "API answered 502 Bad Gateway");
    assert_eq!(e.context.as_str(), "panel is down");
}

#[test]
fn parse_allocation_missing_ip_names_the_field() {
    let body = obj(vec![("attributes", obj(vec![]))]);
    let e = parse_allocation(&body).unwrap_err();
    assert_eq!(e.message.as_str(), "missing field: ip");
    assert_eq!(e.context.as_str(), body.to_text().as_str());
}

#[test]
fn command_parsing_recognises_the_six_names() {
    assert_eq!(parse_command(">>status"), Some(Command::Status));
    assert_eq!(parse_command(">>start"), Some(Command::Power(PowerCommand::Start)));
    assert_eq!(parse_command(">>stop"), Some(Command::Power(PowerCommand::Stop)));
    assert_eq!(parse_command(">>restart"), Some(Command::Power(PowerCommand::Restart)));
    assert_eq!(parse_command(">>kill"), Some(Command::Power(PowerCommand::Kill)));
    assert_eq!(parse_command(">>help"), Some(Command::Help));
}

#[test]
fn command_parsing_is_tolerant() {
    assert_eq!(parse_command(">> STATUS"), Some(Command::Status));
    assert_eq!(parse_command(">>  Kill"), Some(Command::Power(PowerCommand::Kill)));
    assert_eq!(parse_command(">>restart,now"), Some(Command::Power(PowerCommand::Restart)));
    assert_eq!(parse_command(">>stop the server"), Some(Command::Power(PowerCommand::Stop)));
}

#[test]
fn command_parsing_rejects_what_is_no_command() {
    assert_eq!(parse_command("status"), None);
    assert_eq!(parse_command(">>"), None);
    assert_eq!(parse_command(">>  "), None);
    assert_eq!(parse_command(">>statuses"), None);
    assert_eq!(parse_command(">>foo"), None);
    assert_eq!(parse_command(""), None);
    assert_eq!(parse_command("hello >>status"), None);
}

#[test]
fn mention_triggers_like_the_prefix() {
    assert_eq!(parse_message("<@99>status", 99), Some(Command::Status));
    assert_eq!(parse_message("<@99> status", 99), Some(Command::Status));
    assert_eq!(parse_message("<@!99> help", 99), Some(Command::Help));
    assert_eq!(parse_message(">>kill", 99), Some(Command::Power(PowerCommand::Kill)));
    assert_eq!(parse_message("<@98> status", 99), None);
    assert_eq!(parse_message("status <@99>", 99), None);
    assert_eq!(parse_message("<@99>", 99), None);
}

#[test]
fn foreign_channel_is_ignored() {
    // No API call and no reply: the dispatcher returns the idle action
    // whatever the message says.
    assert_eq!(dispatch(41, 42, 99, ">>status"), Action::Ignore);
    assert_eq!(dispatch(41, 42, 99, ">>start"), Action::Ignore);
    assert_eq!(dispatch(41, 42, 99, ">>help"), Action::Ignore);
}

#[test]
fn target_channel_dispatches_by_command() {
    assert_eq!(dispatch(42, 42, 99, ">>status"), Action::FetchStatus);
    assert_eq!(dispatch(42, 42, 99, ">>help"), Action::ReplyHelp);
    assert_eq!(dispatch(42, 42, 99, ">>kill"), Action::SendPower(PowerCommand::Kill));
    assert_eq!(dispatch(42, 42, 99, "just chatting"), Action::Ignore);
}

#[test]
fn start_issues_one_power_request_and_one_acknowledgement() {
    // The whole effect of a start command: one action naming the power
    // endpoint, with this exact body, and one acknowledgement whose
    // text depends on nothing the endpoint answers.
    assert_eq!(dispatch(7, 7, 99, ">>start"), Action::SendPower(PowerCommand::Start));
    assert_eq!(power_body(PowerCommand::Start).as_str(), "{\"signal\":\"start\"}");
    assert_eq!(ack_text(PowerCommand::Start), "Start request sent");
}

#[test]
fn signals_and_bodies_for_every_power_command() {
    let all = [
        (PowerCommand::Start, "start", "Start request sent"),
        (PowerCommand::Stop, "stop", "Stop request sent"),
        (PowerCommand::Restart, "restart", "Restart request sent"),
        (PowerCommand::Kill, "kill", "Kill request sent"),
    ];
    for (p, signal, ack) in all {
        assert_eq!(signal_str(p), signal);
        assert_eq!(power_body(p).as_str(), format!("{{\"signal\":\"{signal}\"}}").as_str());
        assert_eq!(ack_text(p), ack);
    }
}

#[test]
fn urls_and_auth_header() {
    assert_eq!(
        resources_url("https://panel.example", "abc123").as_str(),
        "https://panel.example/client/servers/abc123/resources"
    );
    assert_eq!(
        power_url("https://panel.example", "abc123").as_str(),
        "https://panel.example/client/servers/abc123/power"
    );
    assert_eq!(bearer_header("k-1").as_str(), "Bearer k-1");
}

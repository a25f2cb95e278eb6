use panelbot::error::ApiError;
use panelbot::parse::{Allocation, StatusSummary};
use panelbot::render::{
    capitalize_first, help_text, help_title, render_error, render_footer,
    render_status_description, status_title, ToCodeBlock,
};

#[test]
fn status_description_for_a_day_and_an_hour_of_uptime() {
    let summary = StatusSummary {
        current_state: "running".to_string(),
        cpu_milli_percent: 1_552,
        memory_milli_bytes: 3_500_000_000_000,
        disk_milli_bytes: 6_000_000_000_000,
        uptime_ms: 90_000_000,
    };
    let text = render_status_description(&summary);
    assert_eq!(
        text.as_str(),
        "\n        \u{1f4bb} State: Running\
         \n        \u{1f4bb} CPU: 1.6% / 300%\
         \n        \u{1f4bb} RAM: 3.5 GiB / 6 GiB\
         \n        \u{1f4bb} Disk: 6.0 GiB / \u{221e}\
         \n        \u{1f4bb} Uptime: 1d 1h 0m\n        "
    );
    assert!(text.contains("1d 1h 0m"));
}

#[test]
fn status_description_for_a_fresh_server() {
    let summary = StatusSummary {
        current_state: "offline".to_string(),
        cpu_milli_percent: 0,
        memory_milli_bytes: 0,
        disk_milli_bytes: 0,
        uptime_ms: 0,
    };
    let text = render_status_description(&summary);
    assert_eq!(
        text.as_str(),
        "\n        \u{1f4bb} State: Offline\
         \n        \u{1f4bb} CPU: 0.0% / 300%\
         \n        \u{1f4bb} RAM: 0.0 GiB / 6 GiB\
         \n        \u{1f4bb} Disk: 0.0 GiB / \u{221e}\
         \n        \u{1f4bb} Uptime: 0d 0h 0m\n        "
    );
}

#[test]
fn capitalization_raises_only_the_first_letter() {
    assert_eq!(capitalize_first("running").as_str(), "Running");
    assert_eq!(capitalize_first("stopping").as_str(), "Stopping");
    assert_eq!(capitalize_first("Running").as_str(), "Running");
    assert_eq!(capitalize_first("x1 y2").as_str(), "X1 y2");
    assert_eq!(capitalize_first("7up").as_str(), "7up");
    assert_eq!(capitalize_first("").as_str(), "");
}

#[test]
fn code_blocks_are_fenced_under_their_tag() {
    assert_eq!("hi".to_string().to_code_block("yml").as_str(), "```yml\nhi```");
    assert_eq!("".to_string().to_code_block("json").as_str(), "```json\n```");
}

#[test]
fn error_reply_carries_message_and_payload() {
    let e = ApiError {
        message: "missing field: uptime".to_string(),
        context: "{\"attributes\":{}}".to_string(),
    };
    assert_eq!(
        render_error(&e).as_str(),
        "```yml\nmissing field: uptime```\nContexto: ```json\n{\"attributes\":{}}```"
    );
}

#[test]
fn footer_joins_ip_and_port() {
    let a = Allocation { ip: "203.0.113.9".to_string(), port: 25_565 };
    assert_eq!(render_footer(&a).as_str(), "203.0.113.9:25565");
}

#[test]
fn help_card_lists_the_console_commands() {
    assert_eq!(help_title(), "Comandos:");
    assert_eq!(
        help_text(),
        "- **`status`**\n- **`start`**\n- **`stop`**\n- **`restart`**\n- **`kill`**"
    );
    assert_eq!(status_title(), "Devil's Lair");
}

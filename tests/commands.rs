use musicbot::{
    help_description, help_fields, help_title, join_failed_text, joined_text, not_in_voice_text,
    ping_text, play_reply, play_searching_text, CommandInfo,
};

fn command(name: &str, category: Option<&str>) -> CommandInfo {
    CommandInfo { name: name.to_string(), category: category.map(|c| c.to_string()) }
}

#[test]
fn play_with_query_quotes_it() {
    assert_eq!(
        play_reply(Some("lofi beats")),
        "Searching for songs matching: `\"lofi beats\"`\n-# Not actually searching rn"
    );
    assert_eq!(
        play_reply(Some("say \"hi\"")),
        "Searching for songs matching: `\"say \\\"hi\\\"\"`\n-# Not actually searching rn"
    );
}

#[test]
fn play_without_query_unpauses() {
    assert_eq!(play_reply(None), "No query provided, unpausing..");
}

#[test]
fn play_searching_text_wraps_quoted_query() {
    assert_eq!(
        play_searching_text("\"x\""),
        "Searching for songs matching: `\"x\"`\n-# Not actually searching rn"
    );
}

#[test]
fn ping_reports_latency() {
    assert_eq!(ping_text(42), "latency: `42` ms");
    assert_eq!(ping_text(0), "latency: `0` ms");
    assert_eq!(ping_text(1000), "latency: `1000` ms");
}

#[test]
fn help_description_of_command() {
    assert_eq!(help_description(Some("Joins the channel")), ">>> Joins the channel");
    assert_eq!(help_description(None), ">>> No description");
}

#[test]
fn help_title_joins_icon_and_subject() {
    assert_eq!(help_title("*", "Help"), "* Help");
    assert_eq!(help_title("*", "join"), "* join");
}

#[test]
fn help_overview_groups_by_category() {
    let cmds = vec![
        command("help", Some("Utility")),
        command("play", Some("Music")),
        command("ping", Some("Utility")),
        command("join", Some("Music")),
        command("misc", None),
        command("leave", Some("Music")),
    ];
    let fields = help_fields(&cmds);
    assert_eq!(fields.len(), 3);
    assert_eq!(fields[0].name, "Utility");
    assert_eq!(fields[0].value, "```\nhelp\nping\n```");
    assert_eq!(fields[1].name, "Music");
    assert_eq!(fields[1].value, "```\nplay\njoin\nleave\n```");
    assert_eq!(fields[2].name, "Uncategorized");
    assert_eq!(fields[2].value, "```\nmisc\n```");
    assert!(fields.iter().all(|f| f.inline));
}

#[test]
fn help_overview_of_no_commands_is_empty() {
    assert!(help_fields(&Vec::new()).is_empty());
}

#[test]
fn reply_texts() {
    assert_eq!(joined_text(V_MENTION), "Joined <#1234567890123>");
    assert_eq!(joined_text(7), "Joined <#7>");
    assert_eq!(join_failed_text(&"timed out".to_string()), "Error while joining channel : timed out");
    assert_eq!(not_in_voice_text(), "Not in a voice channel!");
}

const V_MENTION: u64 = 1234567890123;

use lotr_mod_bot::checks::{
    after_hook, allowed_blacklist, dispatch_error_hook, is_admin, is_lotr_discord, is_minecraft_server,
    user_blacklist, DispatchFailure, Effect, MessageInfo, Reason,
};
use lotr_mod_bot::commands::{command_body_field, command_list_text, command_title, definable_name, prepare_definition};
use lotr_mod_bot::database::{delete_statement, prefix_or_default, select_statement, upsert_statement};
use lotr_mod_bot::floppa::{floppa_number, is_new_image};
use lotr_mod_bot::gate::{BlacklistLookup, Standing};
use lotr_mod_bot::general::{
    download_count_footer, download_label, file_url, forge_link, forge_notice, forge_release,
    latest_version_field, member_description, pretty_large_int, release_version, wants_renewed,
};
use lotr_mod_bot::minecraft::{online_server, Description, MinecraftServer, PlayerList};
use lotr_mod_bot::store::CommandTable;

const NOBODY: Standing = Standing { is_owner: false, is_bot_admin: false, can_manage: false };
const OWNER: Standing = Standing { is_owner: true, is_bot_admin: false, can_manage: false };

fn info() -> MessageInfo {
    MessageInfo {
        author_tag: "bob#0001".to_string(),
        author_id: "UserId(7)".to_string(),
        guild: "GuildId(9)".to_string(),
        channel: "ChannelId(3)".to_string(),
        content: "!meme".to_string(),
    }
}

fn shown(effects: &[Effect]) -> Vec<String> {
    effects
        .iter()
        .map(|e| match e {
            Effect::Reply(m) => format!("reply:{}", m),
            Effect::React => "react".to_string(),
            Effect::DirectMessage(m) => format!("dm:{}", m),
            Effect::Log(m) => format!("log:{}", m),
        })
        .collect()
}

#[test]
fn large_numbers_grouped() {
    assert_eq!(pretty_large_int(0), "0");
    assert_eq!(pretty_large_int(999), "999");
    assert_eq!(pretty_large_int(1000), "1,000");
    assert_eq!(pretty_large_int(1000005), "1,000,005");
    assert_eq!(pretty_large_int(1234567), "1,234,567");
    assert_eq!(pretty_large_int(u64::MAX), "18,446,744,073,709,551,615");
    assert_eq!(download_count_footer(2500), "Total download count: 2,500");
}

#[test]
fn release_versions() {
    assert_eq!(release_version("lotr-mod-v36.15.jar"), "36.15");
    assert_eq!(release_version("FirstAge_1.2.jar.jar"), "1.2");
    assert_eq!(release_version("nojarname"), "");
    assert_eq!(release_version("mod 2.0"), "2.0");
    assert_eq!(download_label(true, "x-1.0.jar"), "Download Legacy 1.0");
    assert_eq!(download_label(false, "x+7.jar"), "Download Renewed 7");
}

#[test]
fn project_links_and_sizes() {
    assert_eq!(
        file_url("https://www.curseforge.com/minecraft/mc-mods/x//", 123),
        "https://www.curseforge.com/minecraft/mc-mods/x/files/123"
    );
    assert_eq!(latest_version_field("a.jar", "u", 1500), "[a.jar](u) (1.5 KB)");
    assert_eq!(latest_version_field("a.jar", "u", 999), "[a.jar](u) (999 B)");
    assert!(wants_renewed("ReNewed"));
    assert!(!wants_renewed("legacy"));
}

#[test]
fn forge_texts() {
    assert_eq!(forge_release("legacy"), ("1614", "1.7.10"));
    assert_eq!(forge_release("Legacy"), ("36.2.0", "1.16.5"));
    assert_eq!(forge_release(""), ("36.2.0", "1.16.5"));
    assert_eq!(forge_link("https://f.net/index_{mc}.html#{mc}", "1.16.5"), "https://f.net/index_1.16.5.html#1.16.5");
    assert_eq!(
        forge_notice("1614", "1.7.10"),
        "To function properly, the mod needs to run with Forge 1614 or later for Minecraft 1.7.10"
    );
}

#[test]
fn member_descriptions() {
    assert_eq!(member_description("bob", true, true).as_deref(), Some("Username: **bob**\n_This user is a bot_"));
    assert_eq!(member_description("bob", true, false).as_deref(), Some("Username: **bob**"));
    assert_eq!(member_description("bob", false, true).as_deref(), Some("_This user is a bot_"));
    assert_eq!(member_description("bob", false, false), None);
}

#[test]
fn floppa_numbers_wrap() {
    assert_eq!(floppa_number(1, 5), 1);
    assert_eq!(floppa_number(5, 5), 5);
    assert_eq!(floppa_number(6, 5), 1);
    assert_eq!(floppa_number(0, 5), 5);
    assert_eq!(floppa_number(-1, 5), 4);
    assert_eq!(floppa_number(-5, 5), 5);
    assert_eq!(floppa_number(i64::MIN, 7), 6);
    assert_eq!(floppa_number(i64::MAX, 3), 1);
    assert_eq!(floppa_number(42, 1), 1);
}

#[test]
fn new_images() {
    let images = vec!["a.png".to_string(), "b.png".to_string()];
    assert!(!is_new_image(&images, "b.png"));
    assert!(is_new_image(&images, "c.png"));
    assert!(is_new_image(&Vec::new(), "a.png"));
}

#[test]
fn blacklist_checks() {
    assert!(allowed_blacklist(false, BlacklistLookup::Listed, &NOBODY, &info()).is_ok());
    assert!(allowed_blacklist(true, BlacklistLookup::NotListed, &NOBODY, &info()).is_ok());
    assert!(allowed_blacklist(true, BlacklistLookup::Listed, &OWNER, &info()).is_ok());
    match allowed_blacklist(true, BlacklistLookup::Failed, &NOBODY, &info()) {
        Err(Reason::UserAndLog { user, log }) => {
            assert_eq!(user, "You are not allowed to use this command here.");
            assert_eq!(
                log,
                "=== BLACKLIST ===\nUser: bob#0001 UserId(7)\nGuild: GuildId(9)\nChannel: ChannelId(3)\nMessage: !meme\n=== END ==="
            );
        }
        _ => panic!("a failed lookup lets the message through"),
    }
    match user_blacklist(true, BlacklistLookup::Listed, &NOBODY, &info()) {
        Err(Reason::UserAndLog { log, .. }) => assert_eq!(
            log,
            "=== USER BLACKLIST ===\nUser: bob#0001 UserId(7)\nGuild: GuildId(9)\nMessage: !meme\n=== END ==="
        ),
        _ => panic!("a listed user passes"),
    }
}

#[test]
fn admin_and_server_checks() {
    assert!(is_admin(&OWNER).is_ok());
    assert!(matches!(is_admin(&NOBODY), Err(Reason::User(m)) if m == "You are not an admin on this server!"));
    assert!(matches!(is_minecraft_server(false, true, &OWNER), Err(Reason::Log(m)) if m == "Not in a guild"));
    assert!(is_minecraft_server(true, true, &NOBODY).is_ok());
    assert!(is_minecraft_server(true, false, &OWNER).is_ok());
    assert!(matches!(is_minecraft_server(true, false, &NOBODY), Err(Reason::Log(m)) if m == "Not a minecraft server"));
    assert!(is_lotr_discord(Some(5), 1, 5, 2).is_ok());
    assert!(is_lotr_discord(None, 2, 5, 2).is_ok());
    assert!(matches!(is_lotr_discord(Some(6), 1, 5, 2), Err(Reason::Log(_))));
}

#[test]
fn dispatch_classification() {
    let e = dispatch_error_hook(
        DispatchFailure::CheckFailed { check: "is_admin".to_string(), reason: Reason::User("no".to_string()) },
        "define",
    );
    assert_eq!(
        shown(&e),
        vec!["log:=== CHECK FAILED ===\nCheck failed in command define: is_admin", "reply:no", "react", "log:=== END ==="]
    );
    let e = dispatch_error_hook(
        DispatchFailure::CheckFailed {
            check: "allowed_blacklist".to_string(),
            reason: Reason::UserAndLog { user: "u".to_string(), log: "l".to_string() },
        },
        "meme",
    );
    assert_eq!(shown(&e)[1..], ["log:l", "dm:u", "log:=== END ==="]);
    let e = dispatch_error_hook(
        DispatchFailure::CheckFailed { check: "c".to_string(), reason: Reason::Unknown },
        "x",
    );
    assert_eq!(shown(&e)[1], "log:(Unknown reason)");
    assert_eq!(
        shown(&dispatch_error_hook(DispatchFailure::OnlyForGuilds, "x")),
        vec!["reply:This command cannot be executed in DMs!", "log:=== END ==="]
    );
    assert_eq!(
        shown(&dispatch_error_hook(DispatchFailure::Ratelimited { first_try: true }, "x")),
        vec!["reply:Wait a few seconds before using this command again!", "log:=== END ==="]
    );
    assert_eq!(shown(&dispatch_error_hook(DispatchFailure::Ratelimited { first_try: false }, "x")), vec!["log:=== END ==="]);
    assert_eq!(
        shown(&dispatch_error_hook(DispatchFailure::Other { detail: "Blocked".to_string() }, "x")),
        vec!["log:Dispatch error: Blocked", "log:=== END ==="]
    );
}

#[test]
fn error_reports() {
    assert_eq!(after_hook("wiki", None, &info()), None);
    assert_eq!(
        after_hook("wiki", Some("boom".to_string()), &info()).as_deref(),
        Some("=== ERROR REPORT ===\nError in command `wiki`: boom\n=== MESSAGE ===\nAuthor: bob#0001, UserId(7)\nGuild: GuildId(9)\nChannel: ChannelId(3)\nContent: !meme\n=== END ===")
    );
}

#[test]
fn command_documentation() {
    assert_eq!(command_title("greet"), "Custom command: greet");
    assert_eq!(
        command_body_field("{\"a\": \"```x```\"}"),
        "```json\n{\"a\": \"`\u{200B}``x`\u{200B}``\"}```"
    );
    let long = "a".repeat(1013);
    assert_eq!(command_body_field(&long), "_Too long to display here_");
    let fits = "é".repeat(506);
    assert_eq!(command_body_field(&fits), format!("```json\n{}```", fits));
    let over = "é".repeat(507);
    assert_eq!(command_body_field(&over), "_Too long to display here_");
}

#[test]
fn command_listing_text() {
    let entries = vec![
        ("a".to_string(), "desc a".to_string()),
        ("b".to_string(), String::new()),
        ("c".to_string(), String::new()),
        ("d".to_string(), "desc d".to_string()),
    ];
    assert_eq!(
        command_list_text(&entries),
        "`a`  desc a\n\n`b`  _No description_\n`c`  _No description_\n`d`  desc d\n"
    );
    assert_eq!(command_list_text(&Vec::new()), "");
}

#[test]
fn definitions() {
    let d = prepare_definition("{\"content\":\"hi\",\"documentation\":\"says hi\"}").ok().unwrap();
    assert_eq!(d.body, "{\n  \"content\": \"hi\"\n}");
    assert_eq!(d.documentation.as_deref(), Some("says hi"));
    let d = prepare_definition("{\"content\":\"hi\"}").ok().unwrap();
    assert_eq!(d.documentation, None);
    assert!(prepare_definition("nope").is_err());
    assert_eq!(
        definable_name("Help", &vec!["help".to_string()]),
        Err("You cannot add a command with the reserved name `help`".to_string())
    );
    assert_eq!(definable_name("MyCmd", &vec!["help".to_string()]), Ok("mycmd".to_string()));
}

#[test]
fn define_then_list_then_remove() {
    let mut t = CommandTable::new();
    assert!(!t.put("hello".to_string(), "{}".to_string(), "greets".to_string()));
    assert!(!t.put("bye".to_string(), "{}".to_string(), String::new()));
    let names: Vec<String> = t.list().into_iter().map(|p| p.0).collect();
    assert_eq!(names.iter().filter(|n| *n == "hello").count(), 1);
    assert!(t.put("hello".to_string(), "{\"content\":\"hi\"}".to_string(), "greets again".to_string()));
    let list = t.list();
    assert_eq!(list.iter().filter(|p| p.0 == "hello").count(), 1);
    assert_eq!(list[0], ("hello".to_string(), "greets again".to_string()));
    assert_eq!(t.get("hello").map(|e| e.body.clone()).as_deref(), Some("{\"content\":\"hi\"}"));
    assert!(t.remove("hello"));
    assert!(t.list().iter().all(|p| p.0 != "hello"));
    assert!(t.get("hello").is_none());
    assert!(!t.remove("hello"));
    assert_eq!(t.len(), 1);
}

#[test]
fn statements() {
    assert_eq!(
        upsert_statement("prefixes", "prefix", true),
        "UPDATE prefixes SET prefix = :prefix WHERE server_id = :server_id"
    );
    assert_eq!(
        upsert_statement("ips", "mc_ip", false),
        "INSERT INTO ips (server_id, mc_ip) VALUES (:server_id, :mc_ip)"
    );
    assert_eq!(select_statement("prefix", "prefixes", 42), "SELECT prefix FROM prefixes WHERE server_id=42");
    assert_eq!(delete_statement("ips"), "DELETE FROM ips WHERE server_id = :server_id LIMIT 1");
    assert_eq!(prefix_or_default(None), ("!".to_string(), true));
    assert_eq!(prefix_or_default(Some("?".to_string())), ("?".to_string(), false));
}

#[test]
fn server_status_shown_only_online() {
    let status = |online| MinecraftServer {
        online,
        motd: Description { raw: vec!["hi".to_string()] },
        players: PlayerList { online: 1, max: 10, list: None },
    };
    assert!(online_server(Some(status(true))).is_some());
    assert!(online_server(Some(status(false))).is_none());
    assert!(online_server(None).is_none());
}

//! The checks that run before a command, and the classification of a failed
//! dispatch into the side effects it calls for.

use vstd::prelude::*;
use crate::gate::{BlacklistLookup, Standing};

verus! {

/// Why a check failed, and so who hears of it.
pub enum Reason {
    /// A reply to the user, with a reaction; nothing is logged.
    User(String),
    /// A private warning to the user, and a line in the console log.
    UserAndLog { user: String, log: String },
    /// A line in the console log only.
    Log(String),
    /// A failure that carries no reason.
    Unknown,
}

/// The message a check looks at, rendered for reports.
pub struct MessageInfo {
    pub author_tag: String,
    pub author_id: String,
    pub guild: String,
    pub channel: String,
    pub content: String,
}

/// A failed dispatch, as the framework reports it.
pub enum DispatchFailure {
    CheckFailed { check: String, reason: Reason },
    OnlyForGuilds,
    Ratelimited { first_try: bool },
    Other { detail: String },
}

/// One side effect of a failed dispatch.
pub enum Effect {
    /// Reply to the message.
    Reply(String),
    /// React to the message with a cross.
    React,
    /// Send the author a private warning.
    DirectMessage(String),
    /// Write a line to the console.
    Log(String),
}

/// The plain content of an [`Effect`].
pub enum EffectModel {
    Reply(Seq<char>),
    React,
    DirectMessage(Seq<char>),
    Log(Seq<char>),
}

impl View for Effect {
    type V = EffectModel;

    open spec fn view(&self) -> EffectModel {
        match self {
            Effect::Reply(m) => EffectModel::Reply(m@),
            Effect::React => EffectModel::React,
            Effect::DirectMessage(m) => EffectModel::DirectMessage(m@),
            Effect::Log(m) => EffectModel::Log(m@),
        }
    }
}

pub open spec fn effects_view(v: Seq<Effect>) -> Seq<EffectModel> {
    v.map_values(|e: Effect| e@)
}

/// Whether `r` is the failure `Reason::User(text)`.
pub open spec fn is_user_failure(r: Result<(), Reason>, text: Seq<char>) -> bool {
    r matches Err(Reason::User(m)) && m@ == text
}

/// Whether `r` is the failure `Reason::Log(text)`.
pub open spec fn is_log_failure(r: Result<(), Reason>, text: Seq<char>) -> bool {
    r matches Err(Reason::Log(m)) && m@ == text
}

/// The report logged when a blacklisted user is stopped in a channel.
pub open spec fn blacklist_report(m: MessageInfo) -> Seq<char> {
    "=== BLACKLIST ===\nUser: "@ + m.author_tag@ + " "@ + m.author_id@ + "\nGuild: "@ + m.guild@
        + "\nChannel: "@ + m.channel@ + "\nMessage: "@ + m.content@ + "\n=== END ==="@
}

/// The report logged when a blacklisted user is stopped anywhere in a guild.
pub open spec fn user_blacklist_report(m: MessageInfo) -> Seq<char> {
    "=== USER BLACKLIST ===\nUser: "@ + m.author_tag@ + " "@ + m.author_id@ + "\nGuild: "@
        + m.guild@ + "\nMessage: "@ + m.content@ + "\n=== END ==="@
}

/// Whether a blacklist check lets the message through: always in direct
/// messages; in a guild when the lookup answered that the user is not
/// listed, or when the user is privileged. A failed lookup counts as listed.
pub open spec fn blacklist_passes(in_guild: bool, lookup: BlacklistLookup, standing: Standing) -> bool {
    !in_guild || lookup == BlacklistLookup::NotListed || standing.spec_privileged()
}

/// The text the blacklist checks warn the user with.
pub open spec fn not_allowed_text() -> Seq<char> {
    "You are not allowed to use this command here."@
}

fn blacklist_decision(in_guild: bool, lookup: BlacklistLookup, standing: &Standing, log: String) -> (r:
    Result<(), Reason>)
    ensures
        r is Ok <==> blacklist_passes(in_guild, lookup, *standing),
        r is Err ==> (r matches Err(Reason::UserAndLog { user, log: l }) && user@
            == not_allowed_text() && l == log),
{
    if !in_guild || lookup == BlacklistLookup::NotListed || standing.privileged() {
        Ok(())
    } else {
        Err(Reason::UserAndLog { user: String::from_str("You are not allowed to use this command here."), log })
    }
}

/// The guild-message blacklist, keyed by the message's channel.
pub fn allowed_blacklist(in_guild: bool, lookup: BlacklistLookup, standing: &Standing, m: &MessageInfo) -> (r:
    Result<(), Reason>)
    ensures
        r is Ok <==> blacklist_passes(in_guild, lookup, *standing),
        r is Err ==> (r matches Err(Reason::UserAndLog { user, log }) && user@
            == not_allowed_text() && log@ == blacklist_report(*m)),
{
    let mut log = String::from_str("=== BLACKLIST ===\nUser: ");
    log.append(m.author_tag.as_str());
    log.append(" ");
    log.append(m.author_id.as_str());
    log.append("\nGuild: ");
    log.append(m.guild.as_str());
    log.append("\nChannel: ");
    log.append(m.channel.as_str());
    log.append("\nMessage: ");
    log.append(m.content.as_str());
    log.append("\n=== END ===");
    blacklist_decision(in_guild, lookup, standing, log)
}

/// The blacklist of users, whatever the channel.
pub fn user_blacklist(in_guild: bool, lookup: BlacklistLookup, standing: &Standing, m: &MessageInfo) -> (r:
    Result<(), Reason>)
    ensures
        r is Ok <==> blacklist_passes(in_guild, lookup, *standing),
        r is Err ==> (r matches Err(Reason::UserAndLog { user, log }) && user@
            == not_allowed_text() && log@ == user_blacklist_report(*m)),
{
    let mut log = String::from_str("=== USER BLACKLIST ===\nUser: ");
    log.append(m.author_tag.as_str());
    log.append(" ");
    log.append(m.author_id.as_str());
    log.append("\nGuild: ");
    log.append(m.guild.as_str());
    log.append("\nMessage: ");
    log.append(m.content.as_str());
    log.append("\n=== END ===");
    blacklist_decision(in_guild, lookup, standing, log)
}

/// Only privileged users pass.
pub fn is_admin(standing: &Standing) -> (r: Result<(), Reason>)
    ensures
        r is Ok <==> standing.spec_privileged(),
        r is Err ==> is_user_failure(r, "You are not an admin on this server!"@),
{
    if standing.privileged() {
        Ok(())
    } else {
        Err(Reason::User(String::from_str("You are not an admin on this server!")))
    }
}

/// Passes in a guild with a registered server address; privileged users
/// bypass the address, not the guild.
pub fn is_minecraft_server(in_guild: bool, has_address: bool, standing: &Standing) -> (r: Result<
    (),
    Reason,
>)
    ensures
        r is Ok <==> in_guild && (has_address || standing.spec_privileged()),
        !in_guild ==> is_log_failure(r, "Not in a guild"@),
        in_guild && r is Err ==> is_log_failure(r, "Not a minecraft server"@),
{
    if !in_guild {
        Err(Reason::Log(String::from_str("Not in a guild")))
    } else if has_address || standing.privileged() {
        Ok(())
    } else {
        Err(Reason::Log(String::from_str("Not a minecraft server")))
    }
}

/// Passes in the home guild, and for the owner anywhere.
pub fn is_lotr_discord(guild: Option<u64>, user: u64, home_guild: u64, owner: u64) -> (r: Result<
    (),
    Reason,
>)
    ensures
        r is Ok <==> (guild == Some(home_guild) || user == owner),
        r is Err ==> is_log_failure(
            r,
            "Tried to use an Eras of Arda Community Discord only command outside the server"@,
        ),
{
    if guild == Some(home_guild) || user == owner {
        Ok(())
    } else {
        Err(
            Reason::Log(
                String::from_str(
                    "Tried to use an Eras of Arda Community Discord only command outside the server",
                ),
            ),
        )
    }
}

/// The effects a check's reason calls for.
pub open spec fn reason_effects(r: Reason) -> Seq<EffectModel> {
    match r {
        Reason::User(m) => seq![EffectModel::Reply(m@), EffectModel::React],
        Reason::UserAndLog { user, log } => seq![
            EffectModel::Log(log@),
            EffectModel::DirectMessage(user@),
        ],
        Reason::Log(m) => seq![EffectModel::Log(m@)],
        Reason::Unknown => seq![EffectModel::Log("(Unknown reason)"@)],
    }
}

/// The effects a failed dispatch calls for, in order; each ends with the
/// closing log line.
pub open spec fn dispatch_effects(f: DispatchFailure, command: Seq<char>) -> Seq<EffectModel> {
    let end = seq![EffectModel::Log("=== END ==="@)];
    match f {
        DispatchFailure::CheckFailed { check, reason } => seq![
            EffectModel::Log(
                "=== CHECK FAILED ===\nCheck failed in command "@ + command + ": "@ + check@,
            ),
        ] + reason_effects(reason) + end,
        DispatchFailure::OnlyForGuilds => seq![
            EffectModel::Reply("This command cannot be executed in DMs!"@),
        ] + end,
        DispatchFailure::Ratelimited { first_try } => if first_try {
            seq![EffectModel::Reply("Wait a few seconds before using this command again!"@)] + end
        } else {
            end
        },
        DispatchFailure::Other { detail } => seq![
            EffectModel::Log("Dispatch error: "@ + detail@),
        ] + end,
    }
}

/// Classifies a failed dispatch into the effects it calls for; it never
/// evaluates a check again.
pub fn dispatch_error_hook(failure: DispatchFailure, command_name: &str) -> (r: Vec<Effect>)
    ensures
        effects_view(r@) == dispatch_effects(failure, command_name@),
{
    let ghost f = failure;
    let mut r: Vec<Effect> = Vec::new();
    match failure {
        DispatchFailure::CheckFailed { check, reason } => {
            let mut head = String::from_str("=== CHECK FAILED ===\nCheck failed in command ");
            head.append(command_name);
            head.append(": ");
            head.append(check.as_str());
            r.push(Effect::Log(head));
            match reason {
                Reason::User(m) => {
                    r.push(Effect::Reply(m));
                    r.push(Effect::React);
                },
                Reason::UserAndLog { user, log } => {
                    r.push(Effect::Log(log));
                    r.push(Effect::DirectMessage(user));
                },
                Reason::Log(m) => {
                    r.push(Effect::Log(m));
                },
                Reason::Unknown => {
                    r.push(Effect::Log(String::from_str("(Unknown reason)")));
                },
            }
        },
        DispatchFailure::OnlyForGuilds => {
            r.push(Effect::Reply(String::from_str("This command cannot be executed in DMs!")));
        },
        DispatchFailure::Ratelimited { first_try } => {
            if first_try {
                r.push(
                    Effect::Reply(
                        String::from_str("Wait a few seconds before using this command again!"),
                    ),
                );
            }
        },
        DispatchFailure::Other { detail } => {
            let mut line = String::from_str("Dispatch error: ");
            line.append(detail.as_str());
            r.push(Effect::Log(line));
        },
    }
    r.push(Effect::Log(String::from_str("=== END ===")));
    assert(effects_view(r@) =~= dispatch_effects(f, command_name@));
    r
}

/// The report logged after a command that ended in an error.
pub open spec fn error_report(command: Seq<char>, error: Seq<char>, m: MessageInfo) -> Seq<char> {
    "=== ERROR REPORT ===\nError in command `"@ + command + "`: "@ + error
        + "\n=== MESSAGE ===\nAuthor: "@ + m.author_tag@ + ", "@ + m.author_id@ + "\nGuild: "@
        + m.guild@ + "\nChannel: "@ + m.channel@ + "\nContent: "@ + m.content@ + "\n=== END ==="@
}

/// Runs after every dispatch: a command that ended in an error is reported
/// with its message; the outcome the user saw is not touched.
pub fn after_hook(command_name: &str, error: Option<String>, m: &MessageInfo) -> (r: Option<String>)
    ensures
        error is None ==> r is None,
        error matches Some(e) ==> (r matches Some(t) && t@ == error_report(command_name@, e@, *m)),
{
    match error {
        None => None,
        Some(e) => {
            let mut t = String::from_str("=== ERROR REPORT ===\nError in command `");
            t.append(command_name);
            t.append("`: ");
            t.append(e.as_str());
            t.append("\n=== MESSAGE ===\nAuthor: ");
            t.append(m.author_tag.as_str());
            t.append(", ");
            t.append(m.author_id.as_str());
            t.append("\nGuild: ");
            t.append(m.guild.as_str());
            t.append("\nChannel: ");
            t.append(m.channel.as_str());
            t.append("\nContent: ");
            t.append(m.content.as_str());
            t.append("\n=== END ===");
            Some(t)
        },
    }
}

} // verus!

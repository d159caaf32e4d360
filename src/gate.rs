//! The authorization gate: what a directive's privilege tag asks of the
//! invoker before it may be rendered.

use vstd::prelude::*;
use crate::directive::{opt_view, Directive};
use crate::text::same_text;

verus! {

/// What a directive's privilege tag asks for.
#[derive(Clone, Copy, Debug, PartialEq, Eq, Structural)]
pub enum Privilege {
    /// No tag, or an unknown tag: anyone may render it.
    Open,
    /// `admin`: only privileged invokers.
    Admin,
    /// `meme`: privileged invokers, and others where they are not blacklisted.
    Meme,
}

/// The answer of a blacklist lookup for (guild, invoker, channel).
#[derive(Clone, Copy, Debug, PartialEq, Eq, Structural)]
pub enum BlacklistLookup {
    Listed,
    NotListed,
    /// The store could not answer.
    Failed,
}

/// Why a directive was not rendered.
#[derive(Clone, Copy, Debug, PartialEq, Eq, Structural)]
pub enum Denial {
    /// An `admin` directive invoked by someone without privilege: the
    /// invoker is told so, nothing is logged.
    NotAdmin,
    /// A `meme` directive where the invoker is (or may be) blacklisted: the
    /// triggering message is deleted and the invoker is told privately.
    Blacklisted,
}

/// How the invoker stands in the guild.
#[derive(Clone, Copy, Debug, PartialEq, Eq, Structural)]
pub struct Standing {
    /// The invoker is the bot's owner.
    pub is_owner: bool,
    /// The invoker is a configured bot admin of the guild.
    pub is_bot_admin: bool,
    /// The invoker holds the guild's management permission.
    pub can_manage: bool,
}

/// The decision on one invocation.
pub enum Response {
    /// Render the object once; then delete the triggering message if asked.
    Render { payload: serde_json::Value, delete_trigger: bool },
    /// Render nothing.
    Deny(Denial),
}

impl Standing {
    /// The standing of `user`, given the owner's id and the two lookups.
    pub fn of(user: u64, owner: u64, is_bot_admin: bool, can_manage: bool) -> (r: Standing)
        ensures
            r.is_owner == (user == owner),
            r.is_bot_admin == is_bot_admin,
            r.can_manage == can_manage,
    {
        Standing { is_owner: user == owner, is_bot_admin, can_manage }
    }

    pub open spec fn spec_privileged(&self) -> bool {
        self.is_owner || self.is_bot_admin || self.can_manage
    }

    /// Owner, bot admin, or holder of the management permission.
    #[verifier::when_used_as_spec(spec_privileged)]
    pub fn privileged(&self) -> (r: bool)
        ensures
            r == self.spec_privileged(),
    {
        self.is_owner || self.is_bot_admin || self.can_manage
    }
}

impl Denial {
    pub open spec fn spec_message(&self) -> Seq<char> {
        match self {
            Denial::NotAdmin => "You are not an admin on this server!"@,
            Denial::Blacklisted => "You are not allowed to use this command here!"@,
        }
    }

    /// The text the invoker is sent.
    pub fn message(&self) -> (r: &'static str)
        ensures
            r@ == self.spec_message(),
    {
        match self {
            Denial::NotAdmin => "You are not an admin on this server!",
            Denial::Blacklisted => "You are not allowed to use this command here!",
        }
    }
}

/// The privilege a tag asks for.
pub open spec fn privilege_of(tag: Option<Seq<char>>) -> Privilege {
    match tag {
        Some(t) => if t == "admin"@ {
            Privilege::Admin
        } else if t == "meme"@ {
            Privilege::Meme
        } else {
            Privilege::Open
        },
        None => Privilege::Open,
    }
}

/// The authorization decision. A `meme` directive needs a lookup that answered
/// `NotListed`, unless the invoker is privileged: a failed lookup, or none,
/// denies.
pub open spec fn gate(p: Privilege, privileged: bool, lookup: Option<BlacklistLookup>) -> Result<
    (),
    Denial,
> {
    match p {
        Privilege::Open => Ok(()),
        Privilege::Admin => if privileged {
            Ok(())
        } else {
            Err(Denial::NotAdmin)
        },
        Privilege::Meme => if privileged || lookup == Some(BlacklistLookup::NotListed) {
            Ok(())
        } else {
            Err(Denial::Blacklisted)
        },
    }
}

/// The privilege a directive's tag asks for.
pub fn privilege(tag: &Option<String>) -> (r: Privilege)
    ensures
        r == privilege_of(opt_view(*tag)),
{
    proof {
        reveal_strlit("admin");
        reveal_strlit("meme");
    }
    match tag {
        Some(t) => {
            if same_text(t.as_str(), "admin") {
                Privilege::Admin
            } else if same_text(t.as_str(), "meme") {
                Privilege::Meme
            } else {
                Privilege::Open
            }
        },
        None => Privilege::Open,
    }
}

/// Whether authorization needs the blacklist answered for this invocation.
pub fn needs_blacklist_lookup(tag: &Option<String>, standing: &Standing) -> (r: bool)
    ensures
        r == (privilege_of(opt_view(*tag)) == Privilege::Meme && !standing.spec_privileged()),
{
    privilege(tag) == Privilege::Meme && !standing.privileged()
}

/// Decides whether a directive with the given tag may be rendered.
pub fn authorize(tag: &Option<String>, standing: &Standing, lookup: Option<BlacklistLookup>) -> (r:
    Result<(), Denial>)
    ensures
        r == gate(privilege_of(opt_view(*tag)), standing.spec_privileged(), lookup),
{
    match privilege(tag) {
        Privilege::Open => Ok(()),
        Privilege::Admin => {
            if standing.privileged() {
                Ok(())
            } else {
                Err(Denial::NotAdmin)
            }
        },
        Privilege::Meme => {
            if standing.privileged() || lookup == Some(BlacklistLookup::NotListed) {
                Ok(())
            } else {
                Err(Denial::Blacklisted)
            }
        },
    }
}

/// What to do with an expanded directive: render it once, or deny it.
pub fn respond(d: Directive, standing: &Standing, lookup: Option<BlacklistLookup>) -> (r: Response)
    ensures
        match gate(privilege_of(opt_view(d.kind)), standing.spec_privileged(), lookup) {
            Ok(_) => r matches Response::Render { payload, delete_trigger } && payload == d.payload
                && delete_trigger == d.self_delete,
            Err(e) => r == Response::Deny(e),
        },
{
    match authorize(&d.kind, standing, lookup) {
        Ok(()) => Response::Render { payload: d.payload, delete_trigger: d.self_delete },
        Err(e) => Response::Deny(e),
    }
}

} // verus!

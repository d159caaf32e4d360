//! A Minecraft server's status, as the status service reports it.

use vstd::prelude::*;

verus! {

/// The message of the day, one line per entry.
pub struct Description {
    pub raw: Vec<String>,
}

/// The players online, the most there can be, and their names if known.
pub struct PlayerList {
    pub online: u32,
    pub max: u32,
    pub list: Option<Vec<String>>,
}

/// A server's status.
pub struct MinecraftServer {
    pub online: bool,
    pub motd: Description,
    pub players: PlayerList,
}

/// The status worth showing: that of a server that is online.
pub fn online_server(status: Option<MinecraftServer>) -> (r: Option<MinecraftServer>)
    ensures
        r is Some <==> (status matches Some(s) && s.online),
        r matches Some(s) ==> status == Some(s),
{
    match status {
        Some(s) => if s.online {
            Some(s)
        } else {
            None
        },
        None => None,
    }
}

} // verus!

//! Outcome notifications: the followup answering the deciding user's
//! interaction, and the optional direct message to the original requester.
//!
//! Notification always follows the resolution; it is best-effort by design.
//! A failure to deliver either message is logged by the caller and never
//! changes the outcome, since the authoritative state change has already
//! happened by the time notification is attempted.

use vstd::prelude::*;

use crate::config::WhitelistConfig;
use crate::coordinator::Outcome;
use crate::store::{RequestData, WhitelistRequest};

verus! {

/// Embed colour for successful outcomes.
pub const COLOR_SUCCESS: u32 = 0x40a02b;

/// Embed colour for errors and denials.
pub const COLOR_ERROR: u32 = 0xd20f39;

/// Embed colour for informational embeds.
pub const COLOR_INFO: u32 = 0x04a5e5;

/// Embed colour for pending request announcements.
pub const COLOR_PENDING: u32 = 0xdf8e1d;

/// A reply to the reviewing surface, answering the decision interaction.
pub struct Followup {
    pub title: String,
    pub description: String,
    pub color: u32,
    pub ephemeral: bool,
}

/// Mathematical image of a [`Followup`].
pub struct FollowupData {
    pub title: Seq<char>,
    pub description: Seq<char>,
    pub color: u32,
    pub ephemeral: bool,
}

impl View for Followup {
    type V = FollowupData;

    open spec fn view(&self) -> FollowupData {
        FollowupData {
            title: self.title@,
            description: self.description@,
            color: self.color,
            ephemeral: self.ephemeral,
        }
    }
}

/// A direct message to the original requester.
pub struct DirectMessage {
    pub title: String,
    pub body: String,
    pub footer: String,
    pub icon_url: String,
    pub color: u32,
}

/// Mathematical image of a [`DirectMessage`].
pub struct DirectMessageData {
    pub title: Seq<char>,
    pub body: Seq<char>,
    pub footer: Seq<char>,
    pub icon_url: Seq<char>,
    pub color: u32,
}

impl View for DirectMessage {
    type V = DirectMessageData;

    open spec fn view(&self) -> DirectMessageData {
        DirectMessageData {
            title: self.title@,
            body: self.body@,
            footer: self.footer@,
            icon_url: self.icon_url@,
            color: self.color,
        }
    }
}

/// Title line of an error followup.
pub open spec fn spec_error_title(what: Seq<char>) -> Seq<char> {
    ":x: Error: "@ + what
}

/// The record's data when it was claimed, if the attempt got that far.
pub open spec fn opt_request_data(request: Option<&WhitelistRequest>) -> Option<RequestData> {
    match request {
        Some(r) => Some(r@),
        None => None,
    }
}

/// The followup answering one terminal outcome. `request_id` is the
/// identifier the decision event carried; `request` is the claimed record
/// when the attempt got past the claim.
pub open spec fn spec_followup(
    outcome: Outcome,
    request_id: Seq<char>,
    request: Option<RequestData>,
) -> FollowupData {
    match outcome {
        Outcome::Approved => FollowupData {
            title: ":white_check_mark: Whitelist request approved!"@,
            description: "Whitelist request approved for <@"@ + spec_subject(request, request_id)
                + ">!"@,
            color: COLOR_SUCCESS,
            ephemeral: true,
        },
        Outcome::Denied => FollowupData {
            title: ":x: Whitelist request denied!"@,
            description: "Whitelist request denied for <@"@ + spec_subject(request, request_id)
                + ">!"@,
            color: COLOR_ERROR,
            ephemeral: true,
        },
        Outcome::Unauthorized => FollowupData {
            title: spec_error_title("Unauthorized!"@),
            description: "You are not authorized to perform this action"@,
            color: COLOR_ERROR,
            ephemeral: true,
        },
        Outcome::AlreadyResolvedOrMissing => FollowupData {
            title: spec_error_title("Whitelist request not found!"@),
            description: "Whitelist request `"@ + request_id + "` not found in database"@,
            color: COLOR_ERROR,
            ephemeral: true,
        },
        Outcome::ServerUnavailable => FollowupData {
            title: spec_error_title("Server unavailable!"@),
            description: "Server with the ID `"@ + spec_server_ref(request, request_id)
                + "` is unknown or has no container configured"@,
            color: COLOR_ERROR,
            ephemeral: true,
        },
        Outcome::TargetNotRunning => FollowupData {
            title: spec_error_title("Server not running!"@),
            description: "Server container is not running"@,
            color: COLOR_ERROR,
            ephemeral: true,
        },
        Outcome::ActionFailed => FollowupData {
            title: spec_error_title("Action failed!"@),
            description: "Failed to run the whitelist command on the target server"@,
            color: COLOR_ERROR,
            ephemeral: true,
        },
    }
}

/// Whom a resolution followup mentions: the requester when the record is at
/// hand, the bare request identifier otherwise.
pub open spec fn spec_subject(request: Option<RequestData>, request_id: Seq<char>) -> Seq<char> {
    match request {
        Some(r) => r.discord_id,
        None => request_id,
    }
}

/// Which server an unavailability followup names.
pub open spec fn spec_server_ref(request: Option<RequestData>, request_id: Seq<char>) -> Seq<char> {
    match request {
        Some(r) => r.server_id,
        None => request_id,
    }
}

/// Builds the followup for one terminal outcome.
pub fn followup_for(outcome: Outcome, request_id: &str, request: Option<&WhitelistRequest>) -> (r:
    Followup)
    ensures
        r@ == spec_followup(outcome, request_id@, opt_request_data(request)),
{
    match outcome {
        Outcome::Approved => {
            let mut description = String::from_str("Whitelist request approved for <@");
            description.append(subject(request, request_id));
            description.append(">!");
            Followup {
                title: String::from_str(":white_check_mark: Whitelist request approved!"),
                description,
                color: COLOR_SUCCESS,
                ephemeral: true,
            }
        },
        Outcome::Denied => {
            let mut description = String::from_str("Whitelist request denied for <@");
            description.append(subject(request, request_id));
            description.append(">!");
            Followup {
                title: String::from_str(":x: Whitelist request denied!"),
                description,
                color: COLOR_ERROR,
                ephemeral: true,
            }
        },
        Outcome::Unauthorized => Followup {
            title: error_title("Unauthorized!"),
            description: String::from_str("You are not authorized to perform this action"),
            color: COLOR_ERROR,
            ephemeral: true,
        },
        Outcome::AlreadyResolvedOrMissing => {
            let mut description = String::from_str("Whitelist request `");
            description.append(request_id);
            description.append("` not found in database");
            Followup {
                title: error_title("Whitelist request not found!"),
                description,
                color: COLOR_ERROR,
                ephemeral: true,
            }
        },
        Outcome::ServerUnavailable => {
            let mut description = String::from_str("Server with the ID `");
            description.append(server_ref(request, request_id));
            description.append("` is unknown or has no container configured");
            Followup {
                title: error_title("Server unavailable!"),
                description,
                color: COLOR_ERROR,
                ephemeral: true,
            }
        },
        Outcome::TargetNotRunning => Followup {
            title: error_title("Server not running!"),
            description: String::from_str("Server container is not running"),
            color: COLOR_ERROR,
            ephemeral: true,
        },
        Outcome::ActionFailed => Followup {
            title: error_title("Action failed!"),
            description: String::from_str("Failed to run the whitelist command on the target server"),
            color: COLOR_ERROR,
            ephemeral: true,
        },
    }
}

fn error_title(what: &str) -> (r: String)
    ensures
        r@ == spec_error_title(what@),
{
    let mut t = String::from_str(":x: Error: ");
    t.append(what);
    t
}

fn subject<'a>(request: Option<&'a WhitelistRequest>, request_id: &'a str) -> (r: &'a str)
    ensures
        r@ == spec_subject(opt_request_data(request), request_id@),
{
    match request {
        Some(r) => r.discord_id.as_str(),
        None => request_id,
    }
}

fn server_ref<'a>(request: Option<&'a WhitelistRequest>, request_id: &'a str) -> (r: &'a str)
    ensures
        r@ == spec_server_ref(opt_request_data(request), request_id@),
{
    match request {
        Some(r) => r.server_id.as_str(),
        None => request_id,
    }
}

/// Icon shown when the guild has none of its own.
pub open spec fn spec_default_footer_icon() -> Seq<char> {
    "https://files.jadelily.dev/ZabtFsxYPYvgO2bpKry3.png"@
}

/// Footer of a requester direct message: where the decision came from.
pub open spec fn spec_dm_footer(guild_name: Seq<char>) -> Seq<char> {
    "From server "@ + guild_name
}

/// Body of the approval direct message.
pub open spec fn spec_approval_dm_body(
    server_name: Seq<char>,
    server_id: Seq<char>,
    username: Seq<char>,
) -> Seq<char> {
    "Your whitelist request for the server _**"@ + server_name + "**_ has been approved!\n\n**Server ID:** `"@
        + server_id + "`\n**Minecraft Username:** `"@ + username + "`"@
}

/// Body of the denial direct message.
pub open spec fn spec_denial_dm_body(
    server_name: Seq<char>,
    server_id: Seq<char>,
    username: Seq<char>,
) -> Seq<char> {
    "Your whitelist request for the server _**"@ + server_name + "**_ has been denied.\n\n**Server ID:** `"@
        + server_id + "`\n**Minecraft Username:** `"@ + username + "`"@
}

/// The direct message owed to the requester for one outcome, if the policy
/// asks for one: only an approval or a denial is announced, and each only
/// when its flag is set.
pub open spec fn spec_dm(
    policy: crate::config::WhitelistConfigData,
    outcome: Outcome,
    request: RequestData,
    server_name: Seq<char>,
    guild_name: Seq<char>,
    guild_icon: Option<Seq<char>>,
) -> Option<DirectMessageData> {
    if outcome is Approved && policy.send_approval_dm {
        Some(
            DirectMessageData {
                title: "✅ Your whitelist request has been approved!"@,
                body: spec_approval_dm_body(
                    server_name,
                    request.server_id,
                    request.minecraft_username,
                ),
                footer: spec_dm_footer(guild_name),
                icon_url: spec_dm_icon(guild_icon),
                color: COLOR_SUCCESS,
            },
        )
    } else if outcome is Denied && policy.send_denial_dm {
        Some(
            DirectMessageData {
                title: "❌ Your whitelist request has been denied."@,
                body: spec_denial_dm_body(
                    server_name,
                    request.server_id,
                    request.minecraft_username,
                ),
                footer: spec_dm_footer(guild_name),
                icon_url: spec_dm_icon(guild_icon),
                color: COLOR_ERROR,
            },
        )
    } else {
        None
    }
}

/// The footer icon: the guild's own, or the default.
pub open spec fn spec_dm_icon(guild_icon: Option<Seq<char>>) -> Seq<char> {
    match guild_icon {
        Some(url) => url,
        None => spec_default_footer_icon(),
    }
}

/// View of an optional icon url.
pub open spec fn opt_icon_data(guild_icon: Option<&String>) -> Option<Seq<char>> {
    match guild_icon {
        Some(s) => Some(s@),
        None => None,
    }
}

/// Builds the requester direct message owed for one outcome, if any.
/// `server_name` is display metadata resolved by the caller from the
/// originating context; `guild_name` and `guild_icon` address the community
/// the decision was made in.
pub fn dm_for(
    policy: &WhitelistConfig,
    outcome: Outcome,
    request: &WhitelistRequest,
    server_name: &str,
    guild_name: &str,
    guild_icon: Option<&String>,
) -> (r: Option<DirectMessage>)
    ensures
        ({
            let expected = spec_dm(
                policy@,
                outcome,
                request@,
                server_name@,
                guild_name@,
                opt_icon_data(guild_icon),
            );
            match r {
                Some(dm) => expected == Some(dm@),
                None => expected is None,
            }
        }),
{
    let wants_dm = match outcome {
        Outcome::Approved => policy.send_approval_dm,
        Outcome::Denied => policy.send_denial_dm,
        _ => false,
    };
    if !wants_dm {
        return None;
    }
    let approved = match outcome {
        Outcome::Approved => true,
        _ => false,
    };
    let mut body = String::from_str("Your whitelist request for the server _**");
    body.append(server_name);
    if approved {
        body.append("**_ has been approved!\n\n**Server ID:** `");
    } else {
        body.append("**_ has been denied.\n\n**Server ID:** `");
    }
    body.append(request.server_id.as_str());
    body.append("`\n**Minecraft Username:** `");
    body.append(request.minecraft_username.as_str());
    body.append("`");
    let mut footer = String::from_str("From server ");
    footer.append(guild_name);
    let icon_url = match guild_icon {
        Some(url) => url.clone(),
        None => String::from_str("https://files.jadelily.dev/ZabtFsxYPYvgO2bpKry3.png"),
    };
    let title = if approved {
        String::from_str("✅ Your whitelist request has been approved!")
    } else {
        String::from_str("❌ Your whitelist request has been denied.")
    };
    let color = if approved {
        COLOR_SUCCESS
    } else {
        COLOR_ERROR
    };
    Some(DirectMessage { title, body, footer, icon_url, color })
}

} // verus!

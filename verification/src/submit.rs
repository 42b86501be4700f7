//! The request-submission flow: turning a validated submission into a stored
//! pending record plus everything the announcement needs — the approve/deny
//! button tokens, the announcement text, the role mentions, and the
//! confirmation shown to the requester.

use vstd::prelude::*;

use crate::config::{Config, ConfigData, ServerData, spec_find_server};
use crate::coordinator::Decision;
use crate::store::{RequestData, RequestStore, WhitelistRequest};
use crate::text::{spec_decimal, spec_starts_with, u64_to_string};
use crate::token::{encode_decision_token, spec_encode_token};

verus! {

/// Why a submission was not stored.
#[derive(Clone, Copy, Debug, PartialEq, Eq, Structural)]
pub enum SubmitError {
    /// No configured server carries the submitted identifier.
    ServerNotFound,
    /// The store refused the record; the request was not persisted and the
    /// requester should retry.
    PersistenceError,
}

/// A stored submission with everything its announcement needs.
pub struct PreparedRequest {
    /// The pending record as stored.
    pub request: WhitelistRequest,
    /// Button token that approves this request.
    pub approve_custom_id: String,
    /// Button token that denies this request.
    pub deny_custom_id: String,
    /// Body of the announcement embed.
    pub announcement_description: String,
    /// Role mentions placed above the announcement.
    pub pings: String,
    /// Ephemeral confirmation shown to the requester.
    pub confirmation: String,
    /// Channel the announcement goes to.
    pub request_channel: u64,
}

/// Mathematical image of a [`PreparedRequest`].
pub struct PreparedData {
    pub request: RequestData,
    pub approve_custom_id: Seq<char>,
    pub deny_custom_id: Seq<char>,
    pub announcement_description: Seq<char>,
    pub pings: Seq<char>,
    pub confirmation: Seq<char>,
    pub request_channel: u64,
}

impl View for PreparedRequest {
    type V = PreparedData;

    open spec fn view(&self) -> PreparedData {
        PreparedData {
            request: self.request@,
            approve_custom_id: self.approve_custom_id@,
            deny_custom_id: self.deny_custom_id@,
            announcement_description: self.announcement_description@,
            pings: self.pings@,
            confirmation: self.confirmation@,
            request_channel: self.request_channel,
        }
    }
}

/// A mention of one role.
pub open spec fn spec_mention_role(role: u64) -> Seq<char> {
    "<@&"@ + spec_decimal(role as nat) + ">"@
}

/// The role mentions of an announcement, separated by single spaces.
pub open spec fn spec_pings(roles: Seq<u64>) -> Seq<char>
    decreases roles.len(),
{
    if roles.len() == 0 {
        Seq::empty()
    } else if roles.len() == 1 {
        spec_mention_role(roles[0])
    } else {
        spec_pings(roles.drop_last()) + " "@ + spec_mention_role(roles.last())
    }
}

/// Builds the role-mention line of an announcement.
pub fn pings_line(roles: &Vec<u64>) -> (r: String)
    ensures
        r@ == spec_pings(roles@),
{
    let mut out = String::new();
    let mut i: usize = 0;
    while i < roles.len()
        invariant
            i <= roles@.len(),
            out@ == spec_pings(roles@.take(i as int)),
        decreases roles@.len() - i,
    {
        if i > 0 {
            out.append(" ");
        }
        out.append("<@&");
        let digits = u64_to_string(roles[i]);
        out.append(digits.as_str());
        out.append(">");
        proof {
            assert(roles@.take(i as int + 1).drop_last() =~= roles@.take(i as int));
            assert(roles@.take(i as int + 1).last() == roles@[i as int]);
        }
        i = i + 1;
    }
    proof {
        assert(roles@.take(roles@.len() as int) =~= roles@);
    }
    out
}

/// Body of the announcement embed for one submission.
pub open spec fn spec_announcement(
    discord_id: Seq<char>,
    server: ServerData,
    username: Seq<char>,
    request_id: Seq<char>,
) -> Seq<char> {
    "<@"@ + discord_id + "> has requested to be whitelisted on server _"@ + server.name
        + "_!\n\n**Minecraft Username:** `"@ + username + "`\n**Server ID:** `"@ + server.id
        + "`\n**Container ID:** `"@ + server.container_id + "`\n**Request ID:** `"@ + request_id
        + "`"@
}

/// Confirmation shown to the requester after the announcement went out.
pub open spec fn spec_confirmation(server_id: Seq<char>) -> Seq<char> {
    "Sent whitelist request for server `"@ + server_id + "`!"@
}

/// The submission prepared for the given request identifier, if the server
/// exists.
pub open spec fn spec_prepare(
    cfg: ConfigData,
    server_id: Seq<char>,
    discord_id: Seq<char>,
    username: Seq<char>,
    request_id: Seq<char>,
    created_at: Option<i64>,
) -> Option<PreparedData> {
    match spec_find_server(cfg.servers, server_id) {
        Option::None => None,
        Option::Some(srv) => Some(
            PreparedData {
                request: RequestData {
                    id: request_id,
                    server_id: srv.id,
                    discord_id: discord_id,
                    minecraft_username: username,
                    created_at: created_at,
                },
                approve_custom_id: spec_encode_token(Decision::Approve, request_id),
                deny_custom_id: spec_encode_token(Decision::Deny, request_id),
                announcement_description: spec_announcement(discord_id, srv, username, request_id),
                pings: spec_pings(cfg.whitelist.ping_roles),
                confirmation: spec_confirmation(srv.id),
                request_channel: cfg.whitelist.request_channel,
            },
        ),
    }
}

/// Prepares a submission under a caller-chosen request identifier: resolves
/// the target server and builds the record, the button tokens and all the
/// announcement texts. Fails exactly when no configured server carries the
/// submitted identifier. Pure apart from its result; the record is not yet
/// stored.
pub fn prepare_request(
    config: &Config,
    server_id: &str,
    discord_id: &str,
    username: &str,
    request_id: &str,
    created_at: Option<i64>,
) -> (r: Result<PreparedRequest, SubmitError>)
    ensures
        match r {
            Ok(p) => spec_prepare(config@, server_id@, discord_id@, username@, request_id@, created_at)
                == Some(p@),
            Err(e) => spec_find_server(config@.servers, server_id@) is None && e
                == SubmitError::ServerNotFound,
        },
{
    let server = match config.find_server(server_id) {
        Some(s) => s,
        None => {
            return Err(SubmitError::ServerNotFound);
        },
    };
    let request = WhitelistRequest {
        id: String::from_str(request_id),
        server_id: server.id.clone(),
        discord_id: String::from_str(discord_id),
        minecraft_username: String::from_str(username),
        created_at,
    };
    let mut announcement = String::from_str("<@");
    announcement.append(discord_id);
    announcement.append("> has requested to be whitelisted on server _");
    announcement.append(server.name.as_str());
    announcement.append("_!\n\n**Minecraft Username:** `");
    announcement.append(username);
    announcement.append("`\n**Server ID:** `");
    announcement.append(server.id.as_str());
    announcement.append("`\n**Container ID:** `");
    announcement.append(server.container_id.as_str());
    announcement.append("`\n**Request ID:** `");
    announcement.append(request_id);
    announcement.append("`");
    let mut confirmation = String::from_str("Sent whitelist request for server `");
    confirmation.append(server.id.as_str());
    confirmation.append("`!");
    Ok(
        PreparedRequest {
            request,
            approve_custom_id: encode_decision_token(Decision::Approve, request_id),
            deny_custom_id: encode_decision_token(Decision::Deny, request_id),
            announcement_description: announcement,
            pings: pings_line(&config.whitelist.ping_roles),
            confirmation,
            request_channel: config.whitelist.request_channel,
        },
    )
}

/// Relies on `uuid::Uuid::new_v4` and the hyphenated form of its `Display`
/// implementation: a fresh random version-4 UUID rendered as 36 characters,
/// lowercase hexadecimal digits and hyphens. The value is random, so no two
/// calls are related; only the shape is stated.
#[verifier::external_body]
fn new_request_id() -> (r: String)
    ensures
        r@.len() == 36,
        forall|i: int|
            0 <= i < r@.len() ==> (r@[i] == '-' || ('0' <= r@[i] <= '9') || ('a' <= r@[i] <= 'f')),
{
    uuid::Uuid::new_v4().to_string()
}

/// Stores a submission under a freshly generated request identifier and
/// returns it prepared for announcement. Fails with `ServerNotFound` exactly
/// when no configured server carries the submitted identifier, and with
/// `PersistenceError` when the store refused the record (the generated
/// identifier collided with a live one); either way the store is unchanged.
pub fn submit_request(
    store: &mut RequestStore,
    config: &Config,
    server_id: &str,
    discord_id: &str,
    username: &str,
    created_at: Option<i64>,
) -> (r: Result<PreparedRequest, SubmitError>)
    ensures
        (r matches Ok(p) ==> !old(store)@.contains_key(p.request@.id) && final(store)@ == old(
            store,
        )@.insert(p.request@.id, p.request@) && spec_prepare(
            config@,
            server_id@,
            discord_id@,
            username@,
            p.request@.id,
            created_at,
        ) == Some(p@) && p.request@.id.len() == 36),
        (r matches Err(e) ==> final(store)@ == old(store)@ && (e == SubmitError::ServerNotFound
            <==> spec_find_server(config@.servers, server_id@) is None)),
        (r matches Err(e) && e == SubmitError::PersistenceError ==> exists|k: Seq<char>|
            #[trigger] old(store)@.contains_key(k) && k.len() == 36),
{
    let request_id = new_request_id();
    let prepared = match prepare_request(
        config,
        server_id,
        discord_id,
        username,
        request_id.as_str(),
        created_at,
    ) {
        Ok(p) => p,
        Err(e) => {
            return Err(e);
        },
    };
    let row = prepared.request.clone();
    match store.create(row) {
        Ok(_) => Ok(prepared),
        Err(_) => Err(SubmitError::PersistenceError),
    }
}

/// The announcement footer for a submission made at the given rendered time.
pub open spec fn spec_announcement_footer(now: Seq<char>) -> Seq<char> {
    "Requested at "@ + now
}

/// Builds the announcement footer from a rendered timestamp.
pub fn announcement_footer(now: &str) -> (r: String)
    ensures
        r@ == spec_announcement_footer(now@),
{
    let mut out = String::from_str("Requested at ");
    out.append(now);
    out
}

/// Relies on `chrono::Utc::now` and its `Display` implementation: the
/// current UTC time rendered as text. The value depends on the clock, so
/// nothing is promised of it.
#[verifier::external_body]
fn now_utc_string() -> String {
    chrono::Utc::now().to_string()
}

/// The announcement footer stamped with the current UTC time. Whatever the
/// clock answered, the footer opens with the fixed phrase.
pub fn announcement_footer_now() -> (r: String)
    ensures
        spec_starts_with(r@, "Requested at "@),
{
    let now = now_utc_string();
    let out = announcement_footer(now.as_str());
    proof {
        assert(out@.subrange(0, "Requested at "@.len() as int) =~= "Requested at "@);
    }
    out
}

} // verus!

//! The followup and direct-message texts for each outcome.

use breeze::config::WhitelistConfig;
use breeze::coordinator::Outcome;
use breeze::notify::{dm_for, followup_for, COLOR_ERROR, COLOR_SUCCESS};
use breeze::store::WhitelistRequest;

fn policy(approval_dm: bool, denial_dm: bool) -> WhitelistConfig {
    WhitelistConfig {
        allow_admin: true,
        allowed_roles: vec![100],
        ping_roles: vec![],
        request_channel: 1,
        send_approval_dm: approval_dm,
        send_denial_dm: denial_dm,
    }
}

fn request() -> WhitelistRequest {
    WhitelistRequest {
        id: "r1".to_string(),
        server_id: "s1".to_string(),
        discord_id: "42".to_string(),
        minecraft_username: "Notch".to_string(),
        created_at: None,
    }
}

#[test]
fn approved_followup_mentions_the_requester() {
    let req = request();
    let f = followup_for(Outcome::Approved, "r1", Some(&req));
    assert_eq!(f.title, ":white_check_mark: Whitelist request approved!");
    assert_eq!(f.description, "Whitelist request approved for <@42>!");
    assert_eq!(f.color, COLOR_SUCCESS);
    assert!(f.ephemeral);
}

#[test]
fn denied_followup_mentions_the_requester() {
    let req = request();
    let f = followup_for(Outcome::Denied, "r1", Some(&req));
    assert_eq!(f.title, ":x: Whitelist request denied!");
    assert_eq!(f.description, "Whitelist request denied for <@42>!");
    assert_eq!(f.color, COLOR_ERROR);
    assert!(f.ephemeral);
}

#[test]
fn unauthorized_followup_is_generic() {
    let f = followup_for(Outcome::Unauthorized, "r1", None);
    assert_eq!(f.title, ":x: Error: Unauthorized!");
    assert_eq!(f.description, "You are not authorized to perform this action");
    assert_eq!(f.color, COLOR_ERROR);
    assert!(f.ephemeral);
}

#[test]
fn missing_request_followup_names_the_id() {
    let f = followup_for(Outcome::AlreadyResolvedOrMissing, "r1", None);
    assert_eq!(f.title, ":x: Error: Whitelist request not found!");
    assert_eq!(f.description, "Whitelist request `r1` not found in database");
}

#[test]
fn unavailable_server_followup_names_the_server() {
    let req = request();
    let f = followup_for(Outcome::ServerUnavailable, "r1", Some(&req));
    assert_eq!(f.title, ":x: Error: Server unavailable!");
    assert_eq!(
        f.description,
        "Server with the ID `s1` is unknown or has no container configured"
    );
}

#[test]
fn not_running_followup() {
    let f = followup_for(Outcome::TargetNotRunning, "r1", None);
    assert_eq!(f.title, ":x: Error: Server not running!");
    assert_eq!(f.description, "Server container is not running");
}

#[test]
fn action_failed_followup() {
    let f = followup_for(Outcome::ActionFailed, "r1", None);
    assert_eq!(f.title, ":x: Error: Action failed!");
    assert_eq!(f.description, "Failed to run the whitelist command on the target server");
}

#[test]
fn approval_dm_carries_server_and_player() {
    let req = request();
    let dm = dm_for(&policy(true, false), Outcome::Approved, &req, "Main", "My Guild", None)
        .expect("the policy asks for an approval message");
    assert_eq!(dm.title, "✅ Your whitelist request has been approved!");
    assert_eq!(
        dm.body,
        "Your whitelist request for the server _**Main**_ has been approved!\n\n\
         **Server ID:** `s1`\n**Minecraft Username:** `Notch`"
    );
    assert_eq!(dm.footer, "From server My Guild");
    assert_eq!(dm.icon_url, "https://files.jadelily.dev/ZabtFsxYPYvgO2bpKry3.png");
    assert_eq!(dm.color, COLOR_SUCCESS);
}

#[test]
fn denial_dm_respects_flag_and_icon() {
    let req = request();
    assert!(dm_for(&policy(true, false), Outcome::Denied, &req, "Main", "g", None).is_none());
    let icon = "https://cdn.example.invalid/icon.png".to_string();
    let dm = dm_for(&policy(false, true), Outcome::Denied, &req, "Main", "g", Some(&icon))
        .expect("the policy asks for a denial message");
    assert_eq!(dm.title, "❌ Your whitelist request has been denied.");
    assert_eq!(
        dm.body,
        "Your whitelist request for the server _**Main**_ has been denied.\n\n\
         **Server ID:** `s1`\n**Minecraft Username:** `Notch`"
    );
    assert_eq!(dm.icon_url, "https://cdn.example.invalid/icon.png");
    assert_eq!(dm.color, COLOR_ERROR);
}

#[test]
fn no_dm_for_error_outcomes() {
    let req = request();
    let p = policy(true, true);
    assert!(dm_for(&p, Outcome::Unauthorized, &req, "Main", "g", None).is_none());
    assert!(dm_for(&p, Outcome::AlreadyResolvedOrMissing, &req, "Main", "g", None).is_none());
    assert!(dm_for(&p, Outcome::ServerUnavailable, &req, "Main", "g", None).is_none());
    assert!(dm_for(&p, Outcome::TargetNotRunning, &req, "Main", "g", None).is_none());
    assert!(dm_for(&p, Outcome::ActionFailed, &req, "Main", "g", None).is_none());
}

#[test]
fn approval_dm_suppressed_when_flag_off() {
    let req = request();
    assert!(dm_for(&policy(false, false), Outcome::Approved, &req, "Main", "g", None).is_none());
}

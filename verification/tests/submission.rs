//! The request-submission flow.

use breeze::config::{Config, Server, WhitelistConfig};
use breeze::store::RequestStore;
use breeze::submit::{
    announcement_footer, announcement_footer_now, pings_line, prepare_request, submit_request,
    SubmitError,
};

fn config() -> Config {
    Config {
        whitelist: WhitelistConfig {
            allow_admin: true,
            allowed_roles: vec![100],
            ping_roles: vec![1, 2],
            request_channel: 777,
            send_approval_dm: true,
            send_denial_dm: false,
        },
        servers: vec![Server {
            name: "Main".to_string(),
            id: "s1".to_string(),
            container_id: "c1".to_string(),
            address: "localhost".to_string(),
            query_port: 25565,
            rcon_port: 25575,
            rcon_password: "".to_string(),
        }],
    }
}

#[test]
fn prepare_builds_record_tokens_and_texts() {
    let cfg = config();
    let p = prepare_request(&cfg, "s1", "42", "Notch", "r1", Some(5)).expect("the server exists");
    assert_eq!(p.request.id, "r1");
    assert_eq!(p.request.server_id, "s1");
    assert_eq!(p.request.discord_id, "42");
    assert_eq!(p.request.minecraft_username, "Notch");
    assert_eq!(p.request.created_at, Some(5));
    assert_eq!(p.approve_custom_id, "wlreq-approve-r1");
    assert_eq!(p.deny_custom_id, "wlreq-deny-r1");
    assert_eq!(
        p.announcement_description,
        "<@42> has requested to be whitelisted on server _Main_!\n\n\
         **Minecraft Username:** `Notch`\n**Server ID:** `s1`\n\
         **Container ID:** `c1`\n**Request ID:** `r1`"
    );
    assert_eq!(p.pings, "<@&1> <@&2>");
    assert_eq!(p.confirmation, "Sent whitelist request for server `s1`!");
    assert_eq!(p.request_channel, 777);
}

#[test]
fn prepare_refuses_unknown_server() {
    let cfg = config();
    match prepare_request(&cfg, "nope", "42", "Notch", "r1", None) {
        Err(err) => assert_eq!(err, SubmitError::ServerNotFound),
        Ok(_) => panic!("an unknown server must be refused"),
    }
}

#[test]
fn submit_stores_the_record_under_a_fresh_uuid() {
    let cfg = config();
    let mut store = RequestStore::new();
    let p = submit_request(&mut store, &cfg, "s1", "42", "Notch", None).expect("a valid submission");
    assert_eq!(p.request.id.len(), 36);
    assert!(p
        .request
        .id
        .chars()
        .all(|c| c == '-' || c.is_ascii_digit() || ('a'..='f').contains(&c)));
    let stored = store.fetch(&p.request.id).expect("the record was stored");
    assert_eq!(stored.minecraft_username, "Notch");
    assert_eq!(p.approve_custom_id, format!("wlreq-approve-{}", p.request.id));
    assert_eq!(p.deny_custom_id, format!("wlreq-deny-{}", p.request.id));
}

#[test]
fn submit_refuses_unknown_server_and_stores_nothing() {
    let cfg = config();
    let mut store = RequestStore::new();
    match submit_request(&mut store, &cfg, "nope", "42", "Notch", None) {
        Err(err) => assert_eq!(err, SubmitError::ServerNotFound),
        Ok(_) => panic!("an unknown server must be refused"),
    }
}

#[test]
fn pings_line_joins_role_mentions() {
    assert_eq!(pings_line(&vec![]), "");
    assert_eq!(pings_line(&vec![5]), "<@&5>");
    assert_eq!(pings_line(&vec![1, 2, 3]), "<@&1> <@&2> <@&3>");
}

#[test]
fn footer_renders_the_given_time() {
    assert_eq!(announcement_footer("2024-01-01 00:00:00 UTC"), "Requested at 2024-01-01 00:00:00 UTC");
}

#[test]
fn footer_now_opens_with_the_fixed_phrase() {
    let footer = announcement_footer_now();
    assert!(footer.starts_with("Requested at "));
    assert!(footer.len() > "Requested at ".len());
}

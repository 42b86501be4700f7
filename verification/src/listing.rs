//! Presentation of the server list, the player list and the server-id
//! autocompletion. The runtime states and player counts come from outside
//! probes; these functions only turn the gathered values into text.

use vstd::prelude::*;

use crate::config::{Server, ServerData};
use crate::text::{spec_decimal, spec_starts_with, str_starts_with, u32_to_string};

verus! {

/// Status details of a reachable server.
pub struct ServerAdditionalInfo {
    players_online: u32,
    players_max: u32,
    version: String,
}

/// Mathematical image of a [`ServerAdditionalInfo`].
pub struct ServerAdditionalInfoData {
    pub players_online: u32,
    pub players_max: u32,
    pub version: Seq<char>,
}

impl View for ServerAdditionalInfo {
    type V = ServerAdditionalInfoData;

    closed spec fn view(&self) -> ServerAdditionalInfoData {
        ServerAdditionalInfoData {
            players_online: self.players_online,
            players_max: self.players_max,
            version: self.version@,
        }
    }
}

impl ServerAdditionalInfo {
    /// Status details as answered by the server's status query.
    pub fn new(players_online: u32, players_max: u32, version: String) -> (r: Self)
        ensures
            r@.players_online == players_online,
            r@.players_max == players_max,
            r@.version == version@,
    {
        ServerAdditionalInfo { players_online, players_max, version }
    }
}

/// One server's gathered state, ready for listing.
pub struct ServerListEntry {
    /// The configured server.
    pub server: Server,
    /// Whether its runtime container is running.
    pub online: bool,
    /// Status details when the server answered its status query.
    pub additional_info: Option<ServerAdditionalInfo>,
}

/// Mathematical image of a [`ServerListEntry`].
pub struct ServerListEntryData {
    pub server: ServerData,
    pub online: bool,
    pub additional_info: Option<ServerAdditionalInfoData>,
}

impl View for ServerListEntry {
    type V = ServerListEntryData;

    open spec fn view(&self) -> ServerListEntryData {
        ServerListEntryData {
            server: self.server@,
            online: self.online,
            additional_info: match self.additional_info {
                Some(ref info) => Some(info@),
                None => None,
            },
        }
    }
}

/// The status word of a list entry.
pub open spec fn spec_entry_status(online: bool) -> Seq<char> {
    if online {
        "Online"@
    } else {
        "Offline"@
    }
}

/// Body of one server's field in the list embed.
pub open spec fn spec_entry_field_body(e: ServerListEntryData) -> Seq<char> {
    match e.additional_info {
        Some(info) => "**ID:** `"@ + e.server.id + "`\n**Status:** "@ + spec_entry_status(e.online)
            + "\n**Players:** `"@ + spec_decimal(info.players_online as nat) + "/"@ + spec_decimal(
            info.players_max as nat,
        ) + "`\n**Version:** `"@ + info.version + "`"@,
        None => "**ID:** `"@ + e.server.id + "`\n**Status:** "@ + spec_entry_status(e.online),
    }
}

/// Turns the gathered server states into embed fields: one inline-disabled
/// field per server, titled with the server's display name, with identifier,
/// status, and — when the server answered its status query — player counts
/// and version in the body.
pub fn create_server_list_fields(servers: Vec<ServerListEntry>) -> (r: Vec<(String, String, bool)>)
    ensures
        r@.len() == servers@.len(),
        forall|i: int|
            0 <= i < servers@.len() ==> (#[trigger] r@[i]).0@ == servers@[i]@.server.name && r@[i].1@
                == spec_entry_field_body(servers@[i]@) && r@[i].2 == false,
{
    let mut fields: Vec<(String, String, bool)> = Vec::new();
    let mut i: usize = 0;
    while i < servers.len()
        invariant
            i <= servers@.len(),
            fields@.len() == i,
            forall|j: int|
                0 <= j < i ==> (#[trigger] fields@[j]).0@ == servers@[j]@.server.name && fields@[j].1@
                    == spec_entry_field_body(servers@[j]@) && fields@[j].2 == false,
        decreases servers@.len() - i,
    {
        let entry = &servers[i];
        let mut body = String::from_str("**ID:** `");
        body.append(entry.server.id.as_str());
        body.append("`\n**Status:** ");
        if entry.online {
            body.append("Online");
        } else {
            body.append("Offline");
        }
        match &entry.additional_info {
            Some(info) => {
                body.append("\n**Players:** `");
                let online_digits = u32_to_string(info.players_online);
                body.append(online_digits.as_str());
                body.append("/");
                let max_digits = u32_to_string(info.players_max);
                body.append(max_digits.as_str());
                body.append("`\n**Version:** `");
                body.append(info.version.as_str());
                body.append("`");
            },
            None => {},
        }
        fields.push((entry.server.name.clone(), body, false));
        i = i + 1;
    }
    fields
}

/// The bullet list of online player names, one `- name` line per player.
pub open spec fn spec_player_lines(names: Seq<Seq<char>>) -> Seq<char>
    decreases names.len(),
{
    if names.len() == 0 {
        Seq::empty()
    } else if names.len() == 1 {
        "- "@ + names[0]
    } else {
        spec_player_lines(names.drop_last()) + "\n"@ + "- "@ + names.last()
    }
}

/// Builds the bullet list of player names.
pub fn player_lines(names: &Vec<String>) -> (r: String)
    ensures
        r@ == spec_player_lines(names.deep_view()),
{
    let mut out = String::new();
    let mut i: usize = 0;
    while i < names.len()
        invariant
            i <= names@.len(),
            names.deep_view().len() == names@.len(),
            out@ == spec_player_lines(names.deep_view().take(i as int)),
        decreases names@.len() - i,
    {
        if i > 0 {
            out.append("\n");
        }
        out.append("- ");
        out.append(names[i].as_str());
        proof {
            let all = names.deep_view();
            assert(all.take(i as int + 1).drop_last() =~= all.take(i as int));
            assert(all.take(i as int + 1).last() == all[i as int]);
            assert(all[i as int] == names@[i as int]@);
        }
        i = i + 1;
    }
    proof {
        assert(names.deep_view().take(names@.len() as int) =~= names.deep_view());
    }
    out
}

/// Description of the player-list embed.
pub open spec fn spec_players_description(
    online: u32,
    server_name: Seq<char>,
    player_list: Seq<char>,
) -> Seq<char> {
    spec_decimal(online as nat) + " players online on _**"@ + server_name + "**_!\n\n"@
        + player_list
}

/// Builds the description of the player-list embed from the status query's
/// player count, the server's display name, and the built player list.
pub fn players_description(online: u32, server_name: &str, player_list: &str) -> (r: String)
    ensures
        r@ == spec_players_description(online, server_name@, player_list@),
{
    let mut out = u32_to_string(online);
    out.append(" players online on _**");
    out.append(server_name);
    out.append("**_!\n\n");
    out.append(player_list);
    out
}

/// Label of one autocompletion choice.
pub open spec fn spec_choice_label(s: ServerData) -> Seq<char> {
    s.name + " ("@ + s.id + ")"@
}

/// The autocompletion choices for a partial server identifier: label and
/// value of each configured server whose identifier begins with the partial
/// input, in configuration order.
pub open spec fn spec_choices(servers: Seq<ServerData>, partial: Seq<char>) -> Seq<
    (Seq<char>, Seq<char>),
>
    decreases servers.len(),
{
    if servers.len() == 0 {
        Seq::empty()
    } else {
        let rest = spec_choices(servers.drop_first(), partial);
        if spec_starts_with(servers[0].id, partial) {
            seq![(spec_choice_label(servers[0]), servers[0].id)] + rest
        } else {
            rest
        }
    }
}

/// Views of a built choice list.
pub open spec fn choices_data(choices: Seq<(String, String)>) -> Seq<(Seq<char>, Seq<char>)> {
    Seq::new(choices.len(), |i: int| (choices[i].0@, choices[i].1@))
}

/// Completes a partial server identifier against the configured servers:
/// for each whose identifier begins with the partial input, a label naming
/// the server and the identifier as the value.
pub fn autocomplete_choices(servers: &Vec<Server>, partial: &str) -> (r: Vec<(String, String)>)
    ensures
        choices_data(r@) == spec_choices(servers@.map_values(|s: Server| s@), partial@),
{
    let ghost all = servers@.map_values(|s: Server| s@);
    let mut out: Vec<(String, String)> = Vec::new();
    proof {
        assert(all.skip(0) =~= all);
        assert(choices_data(out@) + spec_choices(all, partial@) =~= spec_choices(all, partial@));
    }
    let mut i: usize = 0;
    while i < servers.len()
        invariant
            i <= servers@.len(),
            all == servers@.map_values(|s: Server| s@),
            all.len() == servers@.len(),
            spec_choices(all, partial@) == choices_data(out@) + spec_choices(
                all.skip(i as int),
                partial@,
            ),
        decreases servers@.len() - i,
    {
        proof {
            assert(all.skip(i as int)[0] == all[i as int]);
            assert(all.skip(i as int).drop_first() =~= all.skip(i as int + 1));
        }
        if str_starts_with(servers[i].id.as_str(), partial) {
            let mut label = servers[i].name.clone();
            label.append(" (");
            label.append(servers[i].id.as_str());
            label.append(")");
            let value = servers[i].id.clone();
            let ghost out0 = out@;
            out.push((label, value));
            proof {
                assert(choices_data(out@) =~= choices_data(out0) + seq![
                    (spec_choice_label(all[i as int]), all[i as int].id),
                ]);
                assert(choices_data(out0) + (seq![
                    (spec_choice_label(all[i as int]), all[i as int].id),
                ] + spec_choices(all.skip(i as int + 1), partial@)) =~= (choices_data(out0) + seq![
                    (spec_choice_label(all[i as int]), all[i as int].id),
                ]) + spec_choices(all.skip(i as int + 1), partial@));
            }
        }
        i = i + 1;
    }
    proof {
        assert(all.skip(i as int) =~= Seq::<ServerData>::empty());
        assert(choices_data(out@) + Seq::<(Seq<char>, Seq<char>)>::empty() =~= choices_data(out@));
    }
    out
}

} // verus!

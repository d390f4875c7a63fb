//! The one-shot operations on users, access policies, devices, cards and the
//! system log: the request each one sends and what it makes of the reply.
use vstd::prelude::*;
use crate::json::{json_literal, json_literal_of};
use crate::json::{object_members, parse_json, JsonNode};
use crate::model::{Device, NfcCard, SystemLogTopic, topic_text};
use crate::protocol::{
    decode_member, decode_optional_member, member_decoded, optional_member, request_typed,
    typed_outcome, ClientError, FromJson, List,
};
use crate::request::{joined, ApiRequest, Method};

verus! {

pub const USERS_PATH: &'static str = "/api/v1/developer/users";

pub const POLICIES_PATH: &'static str = "/api/v1/developer/access_policies";

pub const DEVICES_PATH: &'static str = "/api/v1/developer/devices";

pub const CARD_TOKENS_PATH: &'static str = "/api/v1/developer/credentials/nfc_cards/tokens";

pub const SYSTEM_LOG_PATH: &'static str = "/api/v1/developer/system/logs";

pub open spec fn digit_text(d: nat) -> Seq<char> {
    if d == 0 {
        "0"@
    } else if d == 1 {
        "1"@
    } else if d == 2 {
        "2"@
    } else if d == 3 {
        "3"@
    } else if d == 4 {
        "4"@
    } else if d == 5 {
        "5"@
    } else if d == 6 {
        "6"@
    } else if d == 7 {
        "7"@
    } else if d == 8 {
        "8"@
    } else {
        "9"@
    }
}

/// The decimal digits of `n`, without leading zeros.
pub open spec fn decimal_text(n: nat) -> Seq<char>
    decreases n,
{
    if n < 10 {
        digit_text(n)
    } else {
        decimal_text(n / 10) + digit_text(n % 10)
    }
}

fn digit_str(d: u64) -> (r: &'static str)
    requires
        d < 10,
    ensures
        r@ == digit_text(d as nat),
{
    if d == 0 {
        "0"
    } else if d == 1 {
        "1"
    } else if d == 2 {
        "2"
    } else if d == 3 {
        "3"
    } else if d == 4 {
        "4"
    } else if d == 5 {
        "5"
    } else if d == 6 {
        "6"
    } else if d == 7 {
        "7"
    } else if d == 8 {
        "8"
    } else {
        "9"
    }
}

/// `n` in decimal.
pub fn decimal(n: u64) -> (r: String)
    ensures
        r@ == decimal_text(n as nat),
    decreases n,
{
    if n < 10 {
        digit_str(n).to_owned()
    } else {
        let mut s = decimal(n / 10);
        s.append(digit_str(n % 10));
        s
    }
}

/// `path` followed by `/` and `tail`.
pub open spec fn below(path: Seq<char>, tail: Seq<char>) -> Seq<char> {
    path + "/"@ + tail
}

fn below_of(path: &str, tail: &str) -> (r: String)
    ensures
        r@ == below(path@, tail@),
{
    let mut s = joined(path, "/");
    s.append(tail);
    s
}

/// The path of one user.
pub fn user_path(user_id: &str) -> (r: String)
    ensures
        r@ == below(USERS_PATH@, user_id@),
{
    below_of(USERS_PATH, user_id)
}

/// The path of a user's access policies.
pub fn user_policies_path(user_id: &str) -> (r: String)
    ensures
        r@ == below(USERS_PATH@, user_id@) + "/access_policies"@,
{
    let mut s = user_path(user_id);
    s.append("/access_policies");
    s
}

/// The path of a user's cards.
pub fn user_cards_path(user_id: &str) -> (r: String)
    ensures
        r@ == below(USERS_PATH@, user_id@) + "/nfc_cards"@,
{
    let mut s = user_path(user_id);
    s.append("/nfc_cards");
    s
}

/// The path of a card, by its token.
pub fn card_path(card: &NfcCard) -> (r: String)
    ensures
        r@ == below(CARD_TOKENS_PATH@, card.token@),
{
    below_of(CARD_TOKENS_PATH, card.token.as_str())
}

/// A GET without a body.
pub fn get_request(path: &str) -> (r: ApiRequest)
    ensures
        r.method is Get,
        r.path@ == path@,
        r.body is None,
{
    ApiRequest { method: Method::Get, path: path.to_owned(), body: None }
}

/// The JSON string literals of `items`, separated by commas.
pub open spec fn literal_list(items: Seq<Seq<char>>) -> Seq<char>
    decreases items.len(),
{
    if items.len() == 0 {
        Seq::empty()
    } else if items.len() == 1 {
        json_literal_of(items[0])
    } else {
        literal_list(items.drop_last()) + ","@ + json_literal_of(items.last())
    }
}

pub open spec fn policies_body(ids: Seq<Seq<char>>) -> Seq<char> {
    "{\"access_policy_ids\":["@ + literal_list(ids) + "]}"@
}

/// The request that sets a user's access policies to exactly `policy_ids`.
pub fn assign_policies_request(user_id: &str, policy_ids: &Vec<String>) -> (r: ApiRequest)
    ensures
        r.method is Put,
        r.path@ == below(USERS_PATH@, user_id@) + "/access_policies"@,
        r.body is Some && r.body->0@ == policies_body(policy_ids@.map_values(|s: String| s@)),
{
    let ghost ids = policy_ids@.map_values(|s: String| s@);
    let mut list = String::new();
    let mut i: usize = 0;
    while i < policy_ids.len()
        invariant
            i <= policy_ids@.len(),
            ids == policy_ids@.map_values(|s: String| s@),
            list@ == literal_list(ids.subrange(0, i as int)),
        decreases policy_ids.len() - i,
    {
        let ghost before = ids.subrange(0, i as int);
        let ghost after = ids.subrange(0, i + 1);
        assert(after.drop_last() =~= before);
        assert(after.last() == policy_ids@[i as int]@);
        if i > 0 {
            list.append(",");
        } else {
            assert(before.len() == 0);
        }
        let lit = json_literal(policy_ids[i].as_str());
        list.append(lit.as_str());
        i = i + 1;
    }
    assert(ids.subrange(0, i as int) =~= ids);
    let mut body = "{\"access_policy_ids\":[".to_owned();
    body.append(list.as_str());
    body.append("]}");
    ApiRequest { method: Method::Put, path: user_policies_path(user_id), body: Some(body) }
}

pub open spec fn token_body(card: NfcCard) -> Seq<char> {
    "{\"token\":"@ + json_literal_of(card.token@) + "}"@
}

fn token_body_of(card: &NfcCard) -> (r: String)
    ensures
        r@ == token_body(*card),
{
    let mut body = "{\"token\":".to_owned();
    let lit = json_literal(card.token.as_str());
    body.append(lit.as_str());
    body.append("}");
    body
}

/// The request that assigns a card to a user.
pub fn assign_card_request(user_id: &str, card: &NfcCard) -> (r: ApiRequest)
    ensures
        r.method is Put,
        r.path@ == below(USERS_PATH@, user_id@) + "/nfc_cards"@,
        r.body is Some && r.body->0@ == token_body(*card),
{
    ApiRequest { method: Method::Put, path: user_cards_path(user_id), body: Some(token_body_of(card)) }
}

/// The request that takes a card away from a user.
pub fn unassign_card_request(user_id: &str, card: &NfcCard) -> (r: ApiRequest)
    ensures
        r.method is Put,
        r.path@ == below(USERS_PATH@, user_id@) + "/nfc_cards"@ + "/delete"@,
        r.body is Some && r.body->0@ == token_body(*card),
{
    let mut path = user_cards_path(user_id);
    path.append("/delete");
    ApiRequest { method: Method::Put, path, body: Some(token_body_of(card)) }
}

/// The request that deletes a card from the system.
pub fn delete_card_request(card: &NfcCard) -> (r: ApiRequest)
    ensures
        r.method is Delete,
        r.path@ == below(CARD_TOKENS_PATH@, card.token@),
        r.body is None,
{
    ApiRequest { method: Method::Delete, path: card_path(card), body: None }
}

pub open spec fn register_body(
    first_name: Seq<char>,
    last_name: Seq<char>,
    email: Seq<char>,
    employee_number: Seq<char>,
    onboard_time: nat,
) -> Seq<char> {
    "{\"first_name\":"@ + json_literal_of(first_name) + ",\"last_name\":"@ + json_literal_of(
        last_name,
    ) + ",\"user_email\":"@ + json_literal_of(email) + ",\"employee_number\":"@ + json_literal_of(
        employee_number,
    ) + ",\"onboard_time\":"@ + decimal_text(onboard_time) + "}"@
}

/// The request that registers a user, onboarded at `onboard_time` seconds
/// since the Unix epoch.
pub fn register_user_request(
    first_name: &str,
    last_name: &str,
    email: &str,
    employee_number: &str,
    onboard_time: u64,
) -> (r: ApiRequest)
    ensures
        r.method is Post,
        r.path@ == USERS_PATH@,
        r.body is Some && r.body->0@ == register_body(
            first_name@,
            last_name@,
            email@,
            employee_number@,
            onboard_time as nat,
        ),
{
    let mut body = "{\"first_name\":".to_owned();
    body.append(json_literal(first_name).as_str());
    body.append(",\"last_name\":");
    body.append(json_literal(last_name).as_str());
    body.append(",\"user_email\":");
    body.append(json_literal(email).as_str());
    body.append(",\"employee_number\":");
    body.append(json_literal(employee_number).as_str());
    body.append(",\"onboard_time\":");
    body.append(decimal(onboard_time).as_str());
    body.append("}");
    ApiRequest { method: Method::Post, path: USERS_PATH.to_owned(), body: Some(body) }
}

pub open spec fn log_body(topic: SystemLogTopic, since: Option<u64>) -> Seq<char> {
    "{\"since\":"@ + match since {
        Some(t) => decimal_text(t as nat),
        None => "null"@,
    } + ",\"topic\":\""@ + topic_text(topic) + "\"}"@
}

/// The request that reads the system log on `topic`, from `since` seconds
/// since the Unix epoch where given.
pub fn system_log_request(topic: &SystemLogTopic, since: Option<u64>) -> (r: ApiRequest)
    ensures
        r.method is Post,
        r.path@ == SYSTEM_LOG_PATH@,
        r.body is Some && r.body->0@ == log_body(*topic, since),
{
    let mut body = "{\"since\":".to_owned();
    match since {
        Some(t) => body.append(decimal(t).as_str()),
        None => body.append("null"),
    }
    body.append(",\"topic\":\"");
    body.append(topic.as_str());
    body.append("\"}");
    ApiRequest { method: Method::Post, path: SYSTEM_LOG_PATH.to_owned(), body: Some(body) }
}

/// The reply to a registration: the new user's id.
#[derive(Debug, Clone)]
pub struct CreatedUser {
    pub id: String,
}

impl View for CreatedUser {
    type V = Seq<char>;

    open spec fn view(&self) -> Seq<char> {
        self.id@
    }
}

impl FromJson for CreatedUser {
    open spec fn decoded(text: Seq<char>) -> Option<Seq<char>> {
        match object_members(text) {
            Some(ms) => member_decoded::<String>(ms, "id"@),
            None => None,
        }
    }

    open spec fn shape() -> Seq<char> {
        "CreatedUser"@
    }

    fn from_json(text: &str) -> (r: Option<CreatedUser>) {
        match parse_json(text) {
            Some(JsonNode::Object(ms)) => match decode_member::<String>(&ms, "id") {
                Some(id) => Some(CreatedUser { id }),
                None => None,
            },
            _ => None,
        }
    }

    fn shape_name() -> (r: String) {
        "CreatedUser".to_owned()
    }
}

/// The reply to a card lookup: the user that holds the card, if any.
#[derive(Debug, Clone)]
pub struct CardHolder {
    pub user_id: Option<String>,
}

impl View for CardHolder {
    type V = Option<Seq<char>>;

    open spec fn view(&self) -> Option<Seq<char>> {
        match self.user_id {
            Some(u) => Some(u@),
            None => None,
        }
    }
}

impl FromJson for CardHolder {
    open spec fn decoded(text: Seq<char>) -> Option<Option<Seq<char>>> {
        match object_members(text) {
            Some(ms) => optional_member::<String>(ms, "user_id"@),
            None => None,
        }
    }

    open spec fn shape() -> Seq<char> {
        "CardHolder"@
    }

    fn from_json(text: &str) -> (r: Option<CardHolder>) {
        match parse_json(text) {
            Some(JsonNode::Object(ms)) => match decode_optional_member::<String>(&ms, "user_id") {
                Some(user_id) => Some(CardHolder { user_id }),
                None => None,
            },
            _ => None,
        }
    }

    fn shape_name() -> (r: String) {
        "CardHolder".to_owned()
    }
}

/// The id of a newly registered user, from the registration reply.
pub fn created_user_id(raw: &str) -> (r: Result<String, ClientError>)
    ensures
        match (r, typed_outcome::<CreatedUser>(USERS_PATH@, raw@)) {
            (Ok(s), Ok(want)) => s@ == want,
            (Err(e), Err(want)) => e@ == want,
            _ => false,
        },
{
    let created = request_typed::<CreatedUser>(USERS_PATH, raw)?;
    Ok(created.id)
}

/// The holder of a card, from the reply to a lookup at `path`.
pub fn card_holder(path: &str, raw: &str) -> (r: Result<Option<String>, ClientError>)
    ensures
        match (r, typed_outcome::<CardHolder>(path@, raw@)) {
            (Ok(Some(s)), Ok(Some(want))) => s@ == want,
            (Ok(None), Ok(None)) => true,
            (Err(e), Err(want)) => e@ == want,
            _ => false,
        },
{
    let holder = request_typed::<CardHolder>(path, raw)?;
    Ok(holder.user_id)
}

/// The devices of the reply to a device listing, which nests them in lists of
/// lists; the lists are flattened in order.
pub fn devices_from_reply(raw: &str) -> (r: Result<Vec<Device>, ClientError>)
    ensures
        match (r, typed_outcome::<List<List<Device>>>(DEVICES_PATH@, raw@)) {
            (Ok(ds), Ok(groups)) => ds@.map_values(|d: Device| d@) == groups.flatten(),
            (Err(e), Err(want)) => e@ == want,
            _ => false,
        },
{
    let groups = request_typed::<List<List<Device>>>(DEVICES_PATH, raw)?;
    let ghost gv = groups@;
    let mut out: Vec<Device> = Vec::new();
    let mut rest = groups.items;
    let mut i: usize = 0;
    proof {
        assert(rest@.map_values(|g: List<Device>| g@) == gv);
    }
    while i < rest.len()
        invariant
            i <= rest@.len(),
            rest@.map_values(|g: List<Device>| g@) == gv,
            out@.map_values(|d: Device| d@) == gv.subrange(0, i as int).flatten(),
        decreases rest.len() - i,
    {
        let ghost before = out@.map_values(|d: Device| d@);
        let group = &rest[i];
        let mut j: usize = 0;
        while j < group.items.len()
            invariant
                j <= group.items@.len(),
                out@.map_values(|d: Device| d@) == before + group@.subrange(0, j as int),
            decreases group.items.len() - j,
        {
            let d = Device {
                id: group.items[j].id.clone(),
                name: group.items[j].name.clone(),
                device_type: group.items[j].device_type.clone(),
            };
            assert(d@ == group@[j as int]);
            let ghost prev = out@;
            out.push(d);
            assert(out@.map_values(|d: Device| d@) =~= prev.map_values(|d: Device| d@).push(
                group@[j as int],
            ));
            assert(before + group@.subrange(0, j + 1) =~= (before + group@.subrange(0, j as int)).push(
                group@[j as int],
            ));
            j = j + 1;
        }
        assert(group@.subrange(0, j as int) =~= group@);
        assert(gv.subrange(0, i + 1) =~= gv.subrange(0, i as int).push(gv[i as int]));
        proof {
            gv.subrange(0, i as int).lemma_flatten_push(gv[i as int]);
        }
        i = i + 1;
    }
    assert(gv.subrange(0, i as int) =~= gv);
    Ok(out)
}

} // verus!

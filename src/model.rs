//! The records of the access-control system and how payloads decode into them.
use vstd::prelude::*;
use crate::json::{object_members, text_member, text_field, text_object, parse_json, JsonNode};
use crate::protocol::{
    decode_member, decode_optional_member, member_decoded, optional_member, FromJson, List,
};

verus! {

/// An NFC card: its display label and the physical card's token.
#[derive(Debug, Clone)]
pub struct NfcCard {
    /// Display name of the card.
    pub id: String,
    /// The card's token.
    pub token: String,
}

pub struct NfcCardView {
    pub id: Seq<char>,
    pub token: Seq<char>,
}

impl View for NfcCard {
    type V = NfcCardView;

    open spec fn view(&self) -> NfcCardView {
        NfcCardView { id: self.id@, token: self.token@ }
    }
}

/// The members of a JSON text that decodes as a record with string fields
/// `a` and `b`.
pub open spec fn two_texts(text: Seq<char>, a: Seq<char>, b: Seq<char>) -> Option<(Seq<char>, Seq<char>)> {
    match object_members(text) {
        Some(ms) => match (text_member(ms, a), text_member(ms, b)) {
            (Some(x), Some(y)) => Some((x, y)),
            _ => None,
        },
        None => None,
    }
}

fn two_fields(text: &str, a: &str, b: &str) -> (r: Option<(String, String)>)
    ensures
        match r {
            Some(p) => two_texts(text@, a@, b@) == Some((p.0@, p.1@)),
            None => two_texts(text@, a@, b@) is None,
        },
{
    let x = match text_field(text, a) {
        Some(x) => x,
        None => {
            return None;
        },
    };
    let y = match text_field(text, b) {
        Some(y) => y,
        None => {
            return None;
        },
    };
    Some((x, y))
}

impl FromJson for NfcCard {
    open spec fn decoded(text: Seq<char>) -> Option<NfcCardView> {
        match two_texts(text, "id"@, "token"@) {
            Some(p) => Some(NfcCardView { id: p.0, token: p.1 }),
            None => None,
        }
    }

    open spec fn shape() -> Seq<char> {
        "NfcCard"@
    }

    fn from_json(text: &str) -> (r: Option<NfcCard>) {
        match two_fields(text, "id", "token") {
            Some(p) => Some(NfcCard { id: p.0, token: p.1 }),
            None => None,
        }
    }

    fn shape_name() -> (r: String) {
        "NfcCard".to_owned()
    }
}

impl NfcCard {
    /// The card as a JSON object with string members `id` and `token`.
    pub fn to_json(&self) -> (r: String)
        ensures
            NfcCard::decoded(r@) == Some(self@),
    {
        let mut members: Vec<(String, String)> = Vec::new();
        members.push(("id".to_owned(), self.id.clone()));
        members.push(("token".to_owned(), self.token.clone()));
        proof {
            reveal_strlit("id");
            reveal_strlit("token");
        }
        assert(members@[0].0@ == "id"@);
        assert(members@[1].0@ == "token"@);
        assert(members@[0].0@.len() != members@[1].0@.len());
        text_object(&members)
    }
}

/// An access policy: its identifier and name.
#[derive(Debug, Clone)]
pub struct AccessPolicy {
    pub id: String,
    pub name: String,
}

pub struct AccessPolicyView {
    pub id: Seq<char>,
    pub name: Seq<char>,
}

impl View for AccessPolicy {
    type V = AccessPolicyView;

    open spec fn view(&self) -> AccessPolicyView {
        AccessPolicyView { id: self.id@, name: self.name@ }
    }
}

impl FromJson for AccessPolicy {
    open spec fn decoded(text: Seq<char>) -> Option<AccessPolicyView> {
        match two_texts(text, "id"@, "name"@) {
            Some(p) => Some(AccessPolicyView { id: p.0, name: p.1 }),
            None => None,
        }
    }

    open spec fn shape() -> Seq<char> {
        "AccessPolicy"@
    }

    fn from_json(text: &str) -> (r: Option<AccessPolicy>) {
        match two_fields(text, "id", "name") {
            Some(p) => Some(AccessPolicy { id: p.0, name: p.1 }),
            None => None,
        }
    }

    fn shape_name() -> (r: String) {
        "AccessPolicy".to_owned()
    }
}

/// A physical device in the building; its kind is the payload's `type`.
#[derive(Debug, Clone)]
pub struct Device {
    pub id: String,
    pub name: String,
    pub device_type: String,
}

pub struct DeviceView {
    pub id: Seq<char>,
    pub name: Seq<char>,
    pub device_type: Seq<char>,
}

impl View for Device {
    type V = DeviceView;

    open spec fn view(&self) -> DeviceView {
        DeviceView { id: self.id@, name: self.name@, device_type: self.device_type@ }
    }
}

impl FromJson for Device {
    open spec fn decoded(text: Seq<char>) -> Option<DeviceView> {
        match (two_texts(text, "id"@, "name"@), object_members(text)) {
            (Some(p), Some(ms)) => match text_member(ms, "type"@) {
                Some(t) => Some(DeviceView { id: p.0, name: p.1, device_type: t }),
                None => None,
            },
            _ => None,
        }
    }

    open spec fn shape() -> Seq<char> {
        "Device"@
    }

    fn from_json(text: &str) -> (r: Option<Device>) {
        let p = match two_fields(text, "id", "name") {
            Some(p) => p,
            None => {
                return None;
            },
        };
        match text_field(text, "type") {
            Some(t) => Some(Device { id: p.0, name: p.1, device_type: t }),
            None => None,
        }
    }

    fn shape_name() -> (r: String) {
        "Device".to_owned()
    }
}

/// A user of the access-control system.
#[derive(Debug, Clone)]
pub struct User {
    /// A UUID.
    pub id: String,
    pub first_name: String,
    pub last_name: String,
    pub nfc_cards: Vec<NfcCard>,
    pub employee_number: String,
    pub user_email: String,
    /// Not part of the user payload; filled in from a second request.
    pub access_policies: Option<Vec<AccessPolicy>>,
}

pub struct UserView {
    pub id: Seq<char>,
    pub first_name: Seq<char>,
    pub last_name: Seq<char>,
    pub nfc_cards: Seq<NfcCardView>,
    pub employee_number: Seq<char>,
    pub user_email: Seq<char>,
    pub access_policies: Option<Seq<AccessPolicyView>>,
}

impl View for User {
    type V = UserView;

    open spec fn view(&self) -> UserView {
        UserView {
            id: self.id@,
            first_name: self.first_name@,
            last_name: self.last_name@,
            nfc_cards: self.nfc_cards@.map_values(|c: NfcCard| c@),
            employee_number: self.employee_number@,
            user_email: self.user_email@,
            access_policies: match self.access_policies {
                Some(ps) => Some(ps@.map_values(|p: AccessPolicy| p@)),
                None => None,
            },
        }
    }
}

pub open spec fn user_from_members(ms: Seq<(Seq<char>, Seq<char>)>) -> Option<UserView> {
    match (
        member_decoded::<String>(ms, "id"@),
        member_decoded::<String>(ms, "first_name"@),
        member_decoded::<String>(ms, "last_name"@),
        member_decoded::<List<NfcCard>>(ms, "nfc_cards"@),
        member_decoded::<String>(ms, "employee_number"@),
        member_decoded::<String>(ms, "user_email"@),
        optional_member::<List<AccessPolicy>>(ms, "access_policies"@),
    ) {
        (Some(id), Some(first_name), Some(last_name), Some(nfc_cards), Some(employee_number), Some(
            user_email,
        ), Some(access_policies)) => Some(
            UserView {
                id,
                first_name,
                last_name,
                nfc_cards,
                employee_number,
                user_email,
                access_policies,
            },
        ),
        _ => None,
    }
}

impl FromJson for User {
    open spec fn decoded(text: Seq<char>) -> Option<UserView> {
        match object_members(text) {
            Some(ms) => user_from_members(ms),
            None => None,
        }
    }

    open spec fn shape() -> Seq<char> {
        "User"@
    }

    fn from_json(text: &str) -> (r: Option<User>) {
        let members = match parse_json(text) {
            Some(JsonNode::Object(ms)) => ms,
            _ => {
                return None;
            },
        };
        let id = decode_member::<String>(&members, "id");
        let first_name = decode_member::<String>(&members, "first_name");
        let last_name = decode_member::<String>(&members, "last_name");
        let nfc_cards = decode_member::<List<NfcCard>>(&members, "nfc_cards");
        let employee_number = decode_member::<String>(&members, "employee_number");
        let user_email = decode_member::<String>(&members, "user_email");
        let access_policies = decode_optional_member::<List<AccessPolicy>>(
            &members,
            "access_policies",
        );
        match (id, first_name, last_name, nfc_cards, employee_number, user_email, access_policies) {
            (Some(id), Some(first_name), Some(last_name), Some(cards), Some(employee_number), Some(
                user_email,
            ), Some(policies)) => Some(
                User {
                    id,
                    first_name,
                    last_name,
                    nfc_cards: cards.items,
                    employee_number,
                    user_email,
                    access_policies: match policies {
                        Some(l) => Some(l.items),
                        None => None,
                    },
                },
            ),
            _ => None,
        }
    }

    fn shape_name() -> (r: String) {
        "User".to_owned()
    }
}

/// A response that lists users under `data`.
#[derive(Debug, Clone)]
pub struct UsersResponse {
    pub data: Vec<User>,
}

impl View for UsersResponse {
    type V = Seq<UserView>;

    open spec fn view(&self) -> Seq<UserView> {
        self.data@.map_values(|u: User| u@)
    }
}

impl FromJson for UsersResponse {
    open spec fn decoded(text: Seq<char>) -> Option<Seq<UserView>> {
        match object_members(text) {
            Some(ms) => member_decoded::<List<User>>(ms, "data"@),
            None => None,
        }
    }

    open spec fn shape() -> Seq<char> {
        "UsersResponse"@
    }

    fn from_json(text: &str) -> (r: Option<UsersResponse>) {
        match parse_json(text) {
            Some(JsonNode::Object(ms)) => match decode_member::<List<User>>(&ms, "data") {
                Some(l) => Some(UsersResponse { data: l.items }),
                None => None,
            },
            _ => None,
        }
    }

    fn shape_name() -> (r: String) {
        "UsersResponse".to_owned()
    }
}

/// The topics of the system log.
#[derive(Debug, Clone, Copy, PartialEq, Eq, Structural)]
pub enum SystemLogTopic {
    All,
    DoorOpenings,
    Critical,
    Updates,
    DeviceEvents,
    AdminActivity,
    Visitor,
}

pub open spec fn topic_text(t: SystemLogTopic) -> Seq<char> {
    match t {
        SystemLogTopic::All => "all"@,
        SystemLogTopic::DoorOpenings => "door_openings"@,
        SystemLogTopic::Critical => "critical"@,
        SystemLogTopic::Updates => "updates"@,
        SystemLogTopic::DeviceEvents => "device_events"@,
        SystemLogTopic::AdminActivity => "admin_activity"@,
        SystemLogTopic::Visitor => "visitor"@,
    }
}

impl SystemLogTopic {
    /// The topic's name on the wire.
    pub fn as_str(&self) -> (r: &'static str)
        ensures
            r@ == topic_text(*self),
    {
        match self {
            SystemLogTopic::All => "all",
            SystemLogTopic::DoorOpenings => "door_openings",
            SystemLogTopic::Critical => "critical",
            SystemLogTopic::Updates => "updates",
            SystemLogTopic::DeviceEvents => "device_events",
            SystemLogTopic::AdminActivity => "admin_activity",
            SystemLogTopic::Visitor => "visitor",
        }
    }
}

} // verus!

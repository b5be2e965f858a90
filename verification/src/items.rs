//! The records as the stores hold them. A stored item is a set of named
//! attributes, each a text or a number in decimal writing. The functions here
//! turn records into items and read items back, and say which item is a
//! record at all.

use vstd::prelude::*;
use vstd::string::*;
use crate::clock::{instant_of, text_of, timestamp_from_text, timestamp_text};
use crate::errors::{AuthError, AuthErrorView};
use crate::models::{
    OTPRecord,
    OTPRecordView,
    RateLimitRecord,
    RateLimitRecordView,
    Timestamp,
    UserProfile,
    UserProfileView,
    UserStatus,
};
use crate::strmap::StringMap;
use crate::text::{
    concat2,
    decimal,
    i64_to_string,
    lemma_decimal_round_trip,
    lemma_signed_decimal_round_trip,
    opt_view,
    parse_i64,
    parse_i64_spec,
    parse_u8,
    parse_u8_spec,
    signed_decimal,
};

verus! {

/// The message of the failure when a stored status is none of the six.
pub const INVALID_STATUS: &'static str = "Invalid status";

/// The message of the failure when an instant has no date to be written as.
pub const TIMESTAMP_OUT_OF_RANGE: &'static str = "Timestamp out of range";

/// A stored item: its attributes that are texts, and its attributes that are
/// numbers, each number in decimal writing. An attribute of any other type is
/// in neither.
#[derive(Debug, Clone, PartialEq, Eq)]
pub struct Item {
    pub strings: StringMap,
    pub numbers: StringMap,
}

/// What an [`Item`] holds, as plain values.
pub struct ItemView {
    pub strings: Map<Seq<char>, Seq<char>>,
    pub numbers: Map<Seq<char>, Seq<char>>,
}

impl View for Item {
    type V = ItemView;

    open spec fn view(&self) -> ItemView {
        ItemView { strings: self.strings@, numbers: self.numbers@ }
    }
}

impl ItemView {
    /// The item without attributes.
    pub open spec fn empty() -> ItemView {
        ItemView { strings: Map::empty(), numbers: Map::empty() }
    }

    /// The item with the text attribute `name` set to `value`.
    pub open spec fn with_text(self, name: Seq<char>, value: Seq<char>) -> ItemView {
        ItemView { strings: self.strings.insert(name, value), numbers: self.numbers }
    }

    /// The item with the number attribute `name` set to `value`.
    pub open spec fn with_number(self, name: Seq<char>, value: int) -> ItemView {
        ItemView {
            strings: self.strings,
            numbers: self.numbers.insert(name, signed_decimal(value)),
        }
    }

    /// The text attribute `name`, if the item has one.
    pub open spec fn text(self, name: Seq<char>) -> Option<Seq<char>> {
        if self.strings.contains_key(name) {
            Some(self.strings[name])
        } else {
            None
        }
    }

    /// The number attribute `name` as an `i64`, if the item has one and it is
    /// one.
    pub open spec fn number_i64(self, name: Seq<char>) -> Option<i64> {
        if self.numbers.contains_key(name) {
            parse_i64_spec(self.numbers[name])
        } else {
            None
        }
    }

    /// The number attribute `name` as a `u8`, if the item has one and it is
    /// one.
    pub open spec fn number_u8(self, name: Seq<char>) -> Option<u8> {
        if self.numbers.contains_key(name) {
            parse_u8_spec(self.numbers[name])
        } else {
            None
        }
    }

    /// The text attribute `name` read as an instant, if the item has one and
    /// it is one.
    pub open spec fn instant(self, name: Seq<char>) -> Option<Timestamp> {
        match self.text(name) {
            Some(t) => instant_of(t),
            None => None,
        }
    }
}

/// The failure that tells of an attribute that is missing or unreadable.
pub open spec fn missing(name: Seq<char>) -> AuthErrorView {
    AuthErrorView::InternalError("Missing "@ + name)
}

impl Item {
    /// The item without attributes.
    pub fn new() -> (r: Self)
        ensures
            r@ == ItemView::empty(),
    {
        Item { strings: StringMap::new(), numbers: StringMap::new() }
    }

    /// Sets the text attribute `name` to `value`.
    pub fn set_text(&mut self, name: &str, value: String)
        ensures
            final(self)@ == old(self)@.with_text(name@, value@),
    {
        self.strings.insert(String::from_str(name), value);
    }

    /// Sets the number attribute `name` to `value`.
    pub fn set_number(&mut self, name: &str, value: i64)
        ensures
            final(self)@ == old(self)@.with_number(name@, value as int),
    {
        self.numbers.insert(String::from_str(name), i64_to_string(value));
    }

    /// The text attribute `name`, if the item has one.
    pub fn text(&self, name: &str) -> (r: Option<String>)
        ensures
            opt_view(r) == self@.text(name@),
    {
        self.strings.get_cloned(name)
    }

    /// The number attribute `name` as an `i64`, if the item has one and it is
    /// one.
    pub fn number_i64(&self, name: &str) -> (r: Option<i64>)
        ensures
            r == self@.number_i64(name@),
    {
        match self.numbers.get(name) {
            Some(n) => parse_i64(n.as_str()),
            None => None,
        }
    }

    /// The number attribute `name` as a `u8`, if the item has one and it is
    /// one.
    pub fn number_u8(&self, name: &str) -> (r: Option<u8>)
        ensures
            r == self@.number_u8(name@),
    {
        match self.numbers.get(name) {
            Some(n) => parse_u8(n.as_str()),
            None => None,
        }
    }

    /// The text attribute `name` read as an instant, if the item has one and
    /// it is one.
    pub fn instant(&self, name: &str) -> (r: Option<Timestamp>)
        ensures
            r == self@.instant(name@),
    {
        match self.strings.get(name) {
            Some(t) => timestamp_from_text(t.as_str()),
            None => None,
        }
    }
}

/// The failure that tells of an attribute that is missing or unreadable.
pub fn missing_attribute(name: &str) -> (r: AuthError)
    ensures
        r@ == missing(name@),
{
    AuthError::InternalError(concat2("Missing ", name))
}

/// The item under which a challenge is stored.
pub open spec fn otp_item_spec(rec: OTPRecordView) -> ItemView {
    ItemView::empty().with_text("email"@, rec.email).with_text("otp_hash"@, rec.otp_hash).with_number(
        "created_at"@,
        rec.created_at,
    ).with_number("expires_at"@, rec.expires_at).with_number("ttl"@, rec.ttl).with_text(
        "challenge_id"@,
        rec.challenge_id,
    ).with_number("attempts"@, rec.attempts)
}

/// The challenge that an item holds. The attributes are looked for in the
/// order in which a challenge names them, and the first that is missing or
/// unreadable is reported.
pub open spec fn otp_from_item_spec(item: ItemView) -> Result<OTPRecordView, AuthErrorView> {
    if item.text("email"@) is None {
        Err(missing("email"@))
    } else if item.text("otp_hash"@) is None {
        Err(missing("otp_hash"@))
    } else if item.number_i64("created_at"@) is None {
        Err(missing("created_at"@))
    } else if item.number_i64("expires_at"@) is None {
        Err(missing("expires_at"@))
    } else if item.number_i64("ttl"@) is None {
        Err(missing("ttl"@))
    } else if item.text("challenge_id"@) is None {
        Err(missing("challenge_id"@))
    } else if item.number_u8("attempts"@) is None {
        Err(missing("attempts"@))
    } else {
        Ok(
            OTPRecordView {
                email: item.text("email"@)->0,
                otp_hash: item.text("otp_hash"@)->0,
                created_at: item.number_i64("created_at"@)->0 as int,
                expires_at: item.number_i64("expires_at"@)->0 as int,
                ttl: item.number_i64("ttl"@)->0 as int,
                challenge_id: item.text("challenge_id"@)->0,
                attempts: item.number_u8("attempts"@)->0 as int,
            },
        )
    }
}

/// The item under which a challenge is stored.
pub fn otp_item(record: &OTPRecord) -> (r: Item)
    ensures
        r@ == otp_item_spec(record@),
{
    let mut item = Item::new();
    item.set_text("email", record.email.clone());
    item.set_text("otp_hash", record.otp_hash.clone());
    item.set_number("created_at", record.created_at);
    item.set_number("expires_at", record.expires_at);
    item.set_number("ttl", record.ttl);
    item.set_text("challenge_id", record.challenge_id.clone());
    item.set_number("attempts", record.attempts as i64);
    item
}

/// Reads what the store returned for an address: nothing, a challenge, or an
/// item that is no challenge.
pub fn read_otp(found: &Option<Item>) -> (r: Result<Option<OTPRecord>, AuthError>)
    ensures
        match *found {
            None => r matches Ok(None),
            Some(item) => match otp_from_item_spec(item@) {
                Ok(rec) => r matches Ok(Some(got)) && got@ == rec,
                Err(e) => r matches Err(got) && got@ == e,
            },
        },
{
    match found {
        None => Ok(None),
        Some(item) => match otp_from_item(item) {
            Ok(rec) => Ok(Some(rec)),
            Err(e) => Err(e),
        },
    }
}

/// The challenge that an item holds.
pub fn otp_from_item(item: &Item) -> (r: Result<OTPRecord, AuthError>)
    ensures
        match otp_from_item_spec(item@) {
            Ok(rec) => r matches Ok(got) && got@ == rec,
            Err(e) => r matches Err(got) && got@ == e,
        },
{
    let email = match item.text("email") {
        Some(v) => v,
        None => {
            return Err(missing_attribute("email"));
        },
    };
    let otp_hash = match item.text("otp_hash") {
        Some(v) => v,
        None => {
            return Err(missing_attribute("otp_hash"));
        },
    };
    let created_at = match item.number_i64("created_at") {
        Some(v) => v,
        None => {
            return Err(missing_attribute("created_at"));
        },
    };
    let expires_at = match item.number_i64("expires_at") {
        Some(v) => v,
        None => {
            return Err(missing_attribute("expires_at"));
        },
    };
    let ttl = match item.number_i64("ttl") {
        Some(v) => v,
        None => {
            return Err(missing_attribute("ttl"));
        },
    };
    let challenge_id = match item.text("challenge_id") {
        Some(v) => v,
        None => {
            return Err(missing_attribute("challenge_id"));
        },
    };
    let attempts = match item.number_u8("attempts") {
        Some(v) => v,
        None => {
            return Err(missing_attribute("attempts"));
        },
    };
    Ok(OTPRecord { email, otp_hash, created_at, expires_at, ttl, challenge_id, attempts })
}

/// The item under which a request is counted.
pub open spec fn rate_limit_item_spec(rec: RateLimitRecordView) -> ItemView {
    ItemView::empty().with_text("email"@, rec.email).with_number(
        "request_timestamp"@,
        rec.request_timestamp,
    ).with_number("ttl"@, rec.ttl)
}

/// The request that an item counts.
pub open spec fn rate_limit_from_item_spec(item: ItemView) -> Result<
    RateLimitRecordView,
    AuthErrorView,
> {
    if item.text("email"@) is None {
        Err(missing("email"@))
    } else if item.number_i64("request_timestamp"@) is None {
        Err(missing("request_timestamp"@))
    } else if item.number_i64("ttl"@) is None {
        Err(missing("ttl"@))
    } else {
        Ok(
            RateLimitRecordView {
                email: item.text("email"@)->0,
                request_timestamp: item.number_i64("request_timestamp"@)->0 as int,
                ttl: item.number_i64("ttl"@)->0 as int,
            },
        )
    }
}

/// The item under which a request is counted.
pub fn rate_limit_item(record: &RateLimitRecord) -> (r: Item)
    ensures
        r@ == rate_limit_item_spec(record@),
{
    let mut item = Item::new();
    item.set_text("email", record.email.clone());
    item.set_number("request_timestamp", record.request_timestamp);
    item.set_number("ttl", record.ttl);
    item
}

/// The request that an item counts.
pub fn rate_limit_from_item(item: &Item) -> (r: Result<RateLimitRecord, AuthError>)
    ensures
        match rate_limit_from_item_spec(item@) {
            Ok(rec) => r matches Ok(got) && got@ == rec,
            Err(e) => r matches Err(got) && got@ == e,
        },
{
    let email = match item.text("email") {
        Some(v) => v,
        None => {
            return Err(missing_attribute("email"));
        },
    };
    let request_timestamp = match item.number_i64("request_timestamp") {
        Some(v) => v,
        None => {
            return Err(missing_attribute("request_timestamp"));
        },
    };
    let ttl = match item.number_i64("ttl") {
        Some(v) => v,
        None => {
            return Err(missing_attribute("ttl"));
        },
    };
    Ok(RateLimitRecord { email, request_timestamp, ttl })
}

/// The times of the requests that a list of rows counts: the time of every
/// row whose time can be read, in the order of the rows. A row counts by its
/// time alone, whatever else it holds or lacks.
pub open spec fn request_times_spec(items: Seq<Item>) -> Seq<i64>
    decreases items.len(),
{
    if items.len() == 0 {
        Seq::empty()
    } else {
        let front = request_times_spec(items.drop_last());
        match items.last()@.number_i64("request_timestamp"@) {
            Some(t) => front.push(t),
            None => front,
        }
    }
}

/// The times of the requests that a list of rows counts.
pub fn request_times(items: &Vec<Item>) -> (r: Vec<i64>)
    ensures
        r@ == request_times_spec(items@),
{
    let mut out: Vec<i64> = Vec::new();
    let mut i: usize = 0;
    while i < items.len()
        invariant
            i <= items.len(),
            out@ == request_times_spec(items@.take(i as int)),
        decreases items.len() - i,
    {
        proof {
            assert(items@.take(i + 1).drop_last() =~= items@.take(i as int));
        }
        match items[i].number_i64("request_timestamp") {
            Some(t) => {
                out.push(t);
            },
            None => {},
        }
        i += 1;
    }
    proof {
        assert(items@.take(i as int) =~= items@);
    }
    out
}

/// Every row whose time can be read counts, and no other: there are as many
/// times as there are such rows, and a list of rows that can all be read
/// gives one time for each row.
pub proof fn lemma_request_times_count(items: Seq<Item>)
    ensures
        request_times_spec(items).len() <= items.len(),
        (forall|i: int|
            0 <= i < items.len() ==> (#[trigger] items[i])@.number_i64("request_timestamp"@)
                is Some) ==> request_times_spec(items).len() == items.len() && forall|i: int|
            0 <= i < items.len() ==> Some(#[trigger] request_times_spec(items)[i])
                == items[i]@.number_i64("request_timestamp"@),
    decreases items.len(),
{
    if items.len() > 0 {
        let front = items.drop_last();
        lemma_request_times_count(front);
        if forall|i: int|
            0 <= i < items.len() ==> (#[trigger] items[i])@.number_i64("request_timestamp"@)
                is Some {
            assert forall|i: int| 0 <= i < front.len() implies (#[trigger] front[i])@.number_i64(
                "request_timestamp"@,
            ) is Some by {
                assert(front[i] == items[i]);
            }
            assert(items[items.len() - 1] == items.last());
            assert forall|i: int| 0 <= i < items.len() implies Some(
                #[trigger] request_times_spec(items)[i],
            ) == items[i]@.number_i64("request_timestamp"@) by {
                if i < front.len() {
                    assert(front[i] == items[i]);
                    assert(request_times_spec(items)[i] == request_times_spec(front)[i]);
                }
            }
        }
    }
}

/// The item under which a user is stored at first contact, given the texts
/// of the two instants: the identifier, the address, the status and the two
/// instants; none where an instant has no text.
pub open spec fn user_item_with(
    user: UserProfileView,
    created: Option<Seq<char>>,
    updated: Option<Seq<char>>,
) -> Option<ItemView> {
    match (created, updated) {
        (Some(created), Some(updated)) => Some(
            ItemView::empty().with_text("user_id"@, user.user_id).with_text(
                "email"@,
                user.email,
            ).with_text("status"@, user.status.stored_name()).with_text(
                "created_at"@,
                created,
            ).with_text("updated_at"@, updated),
        ),
        _ => None,
    }
}

/// The item under which a user is stored at first contact; none where an
/// instant has no date.
pub open spec fn user_item_spec(user: UserProfileView) -> Option<ItemView> {
    user_item_with(user, text_of(user.created_at), text_of(user.updated_at))
}

/// The item under which a user is stored at first contact, given the texts
/// of the two instants.
pub fn user_item(user: &UserProfile, created: Option<String>, updated: Option<String>) -> (r:
    Result<Item, AuthError>)
    ensures
        match user_item_with(user@, opt_view(created), opt_view(updated)) {
            Some(item) => r matches Ok(got) && got@ == item,
            None => r matches Err(e) && e@ == AuthErrorView::InternalError(
                TIMESTAMP_OUT_OF_RANGE@,
            ),
        },
{
    let created = match created {
        Some(t) => t,
        None => {
            return Err(AuthError::InternalError(String::from_str(TIMESTAMP_OUT_OF_RANGE)));
        },
    };
    let updated = match updated {
        Some(t) => t,
        None => {
            return Err(AuthError::InternalError(String::from_str(TIMESTAMP_OUT_OF_RANGE)));
        },
    };
    let mut item = Item::new();
    item.set_text("user_id", user.user_id.clone());
    item.set_text("email", user.email.clone());
    item.set_text("status", String::from_str(user.status.as_str()));
    item.set_text("created_at", created);
    item.set_text("updated_at", updated);
    Ok(item)
}

/// The item under which a user is stored at first contact.
pub fn new_user_item(user: &UserProfile) -> (r: Result<Item, AuthError>)
    ensures
        match user_item_spec(user@) {
            Some(item) => r matches Ok(got) && got@ == item,
            None => r matches Err(e) && e@ == AuthErrorView::InternalError(
                TIMESTAMP_OUT_OF_RANGE@,
            ),
        },
{
    let created = timestamp_text(user.created_at);
    let updated = timestamp_text(user.updated_at);
    user_item(user, created, updated)
}

/// The user that an item holds, given what its three instants read as. The
/// status is read first, then the two instants that a user must have, then
/// the identifier and the address; the first of them that is missing or
/// unreadable is reported. Everything else is optional, and an optional
/// attribute that cannot be read counts as absent.
pub open spec fn user_from_parts_spec(
    item: ItemView,
    created_at: Option<Timestamp>,
    updated_at: Option<Timestamp>,
    reviewed_at: Option<Timestamp>,
) -> Result<UserProfileView, AuthErrorView> {
    if item.text("status"@) is None {
        Err(missing("status"@))
    } else if UserStatus::from_stored_name(item.text("status"@)->0) is None {
        Err(AuthErrorView::InternalError(INVALID_STATUS@))
    } else if created_at is None {
        Err(missing("created_at"@))
    } else if updated_at is None {
        Err(missing("updated_at"@))
    } else if item.text("user_id"@) is None {
        Err(missing("user_id"@))
    } else if item.text("email"@) is None {
        Err(missing("email"@))
    } else {
        Ok(
            UserProfileView {
                user_id: item.text("user_id"@)->0,
                email: item.text("email"@)->0,
                status: UserStatus::from_stored_name(item.text("status"@)->0)->0,
                full_name: item.text("full_name"@),
                content_description: item.text("content_description"@),
                content_link: item.text("content_link"@),
                stripe_account_id: item.text("stripe_account_id"@),
                created_at: created_at->0,
                updated_at: updated_at->0,
                reviewed_by: item.text("reviewed_by"@),
                reviewed_at,
                rejection_reason: item.text("rejection_reason"@),
            },
        )
    }
}

/// The user that an item holds.
pub open spec fn user_from_item_spec(item: ItemView) -> Result<UserProfileView, AuthErrorView> {
    user_from_parts_spec(
        item,
        item.instant("created_at"@),
        item.instant("updated_at"@),
        item.instant("reviewed_at"@),
    )
}

/// The user that an item holds, given what its three instants read as.
pub fn user_from_parts(
    item: &Item,
    created_at: Option<Timestamp>,
    updated_at: Option<Timestamp>,
    reviewed_at: Option<Timestamp>,
) -> (r: Result<UserProfile, AuthError>)
    ensures
        match user_from_parts_spec(item@, created_at, updated_at, reviewed_at) {
            Ok(user) => r matches Ok(got) && got@ == user,
            Err(e) => r matches Err(got) && got@ == e,
        },
{
    let status_text = match item.text("status") {
        Some(v) => v,
        None => {
            return Err(missing_attribute("status"));
        },
    };
    let status = match UserStatus::parse(status_text.as_str()) {
        Some(s) => s,
        None => {
            return Err(AuthError::InternalError(String::from_str(INVALID_STATUS)));
        },
    };
    let created_at = match created_at {
        Some(v) => v,
        None => {
            return Err(missing_attribute("created_at"));
        },
    };
    let updated_at = match updated_at {
        Some(v) => v,
        None => {
            return Err(missing_attribute("updated_at"));
        },
    };
    let user_id = match item.text("user_id") {
        Some(v) => v,
        None => {
            return Err(missing_attribute("user_id"));
        },
    };
    let email = match item.text("email") {
        Some(v) => v,
        None => {
            return Err(missing_attribute("email"));
        },
    };
    Ok(
        UserProfile {
            user_id,
            email,
            status,
            full_name: item.text("full_name"),
            content_description: item.text("content_description"),
            content_link: item.text("content_link"),
            stripe_account_id: item.text("stripe_account_id"),
            created_at,
            updated_at,
            reviewed_by: item.text("reviewed_by"),
            reviewed_at,
            rejection_reason: item.text("rejection_reason"),
        },
    )
}

/// The user that an item holds.
pub fn parse_user_from_item(item: &Item) -> (r: Result<UserProfile, AuthError>)
    ensures
        match user_from_item_spec(item@) {
            Ok(user) => r matches Ok(got) && got@ == user,
            Err(e) => r matches Err(got) && got@ == e,
        },
{
    let created_at = item.instant("created_at");
    let updated_at = item.instant("updated_at");
    let reviewed_at = item.instant("reviewed_at");
    user_from_parts(item, created_at, updated_at, reviewed_at)
}

/// Reads what the directory returned for an address: the first of the items,
/// if there is one.
pub fn read_user(items: &Vec<Item>) -> (r: Result<Option<UserProfile>, AuthError>)
    ensures
        items@.len() == 0 ==> r matches Ok(None),
        items@.len() > 0 ==> match user_from_item_spec(items@[0]@) {
            Ok(user) => r matches Ok(Some(got)) && got@ == user,
            Err(e) => r matches Err(got) && got@ == e,
        },
{
    if items.len() == 0 {
        return Ok(None);
    }
    match parse_user_from_item(&items[0]) {
        Ok(user) => Ok(Some(user)),
        Err(e) => Err(e),
    }
}

/// What is written to move a user on: the new status under its stored name,
/// and the time of the change.
#[derive(Debug, Clone, PartialEq, Eq)]
pub struct StatusUpdate {
    pub user_id: String,
    pub status: String,
    pub updated_at: String,
}

/// What is written to move a user on, given the text of the time of the
/// change; a time without a text is a failure.
pub fn status_update(user_id: &str, status: UserStatus, changed_at: Option<String>) -> (r: Result<
    StatusUpdate,
    AuthError,
>)
    ensures
        match changed_at {
            Some(t) => r matches Ok(u) && u.user_id@ == user_id@ && u.status@
                == status.stored_name() && u.updated_at@ == t@,
            None => r matches Err(e) && e@ == AuthErrorView::InternalError(
                TIMESTAMP_OUT_OF_RANGE@,
            ),
        },
{
    match changed_at {
        Some(t) => Ok(
            StatusUpdate {
                user_id: String::from_str(user_id),
                status: String::from_str(status.as_str()),
                updated_at: t,
            },
        ),
        None => Err(AuthError::InternalError(String::from_str(TIMESTAMP_OUT_OF_RANGE))),
    }
}

/// What is written to move a user on at `now`.
pub fn status_update_at(user_id: &str, status: UserStatus, now: Timestamp) -> (r: Result<
    StatusUpdate,
    AuthError,
>)
    ensures
        match text_of(now) {
            Some(t) => r matches Ok(u) && u.user_id@ == user_id@ && u.status@
                == status.stored_name() && u.updated_at@ == t,
            None => r matches Err(e) && e@ == AuthErrorView::InternalError(
                TIMESTAMP_OUT_OF_RANGE@,
            ),
        },
{
    let changed_at = timestamp_text(now);
    status_update(user_id, status, changed_at)
}

/// The names of the attributes of a challenge are distinct.
proof fn lemma_otp_names_distinct()
    ensures
        "email"@ != "otp_hash"@,
        "email"@ != "challenge_id"@,
        "otp_hash"@ != "challenge_id"@,
        "created_at"@ != "expires_at"@,
        "created_at"@ != "ttl"@,
        "created_at"@ != "attempts"@,
        "expires_at"@ != "ttl"@,
        "expires_at"@ != "attempts"@,
        "ttl"@ != "attempts"@,
{
    reveal_strlit("email");
    reveal_strlit("otp_hash");
    reveal_strlit("challenge_id");
    reveal_strlit("created_at");
    reveal_strlit("expires_at");
    reveal_strlit("ttl");
    reveal_strlit("attempts");
    assert("email"@.len() == 5 && "otp_hash"@.len() == 8 && "challenge_id"@.len() == 12);
    assert("created_at"@.len() == 10 && "expires_at"@.len() == 10 && "ttl"@.len() == 3
        && "attempts"@.len() == 8);
    assert("created_at"@[0] == 'c' && "expires_at"@[0] == 'e');
}

/// A number in decimal writing is read back as itself.
proof fn lemma_number_round_trip(v: int)
    ensures
        i64::MIN <= v <= i64::MAX ==> parse_i64_spec(signed_decimal(v)) == Some(v as i64),
        0 <= v <= u8::MAX ==> parse_u8_spec(signed_decimal(v)) == Some(v as u8),
{
    lemma_signed_decimal_round_trip(v);
    if 0 <= v {
        lemma_decimal_round_trip(v as nat);
        let s = decimal(v as nat);
        assert(crate::text::is_digit(s[0]));
    }
}

/// What is stored is what is read: the item under which a challenge is
/// stored holds that challenge.
pub proof fn lemma_otp_item_round_trip(rec: OTPRecord)
    ensures
        otp_from_item_spec(otp_item_spec(rec@)) == Ok::<OTPRecordView, AuthErrorView>(rec@),
{
    lemma_otp_names_distinct();
    lemma_number_round_trip(rec.created_at as int);
    lemma_number_round_trip(rec.expires_at as int);
    lemma_number_round_trip(rec.ttl as int);
    lemma_number_round_trip(rec.attempts as int);
}

} // verus!

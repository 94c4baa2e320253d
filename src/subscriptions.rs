//! Intake of mailing-list subscriptions: validation of the form, the record
//! it yields, and the status that answers it.

use vstd::prelude::*;
use crate::form::{
    FieldLookup, FormPairs, decode_form, find_field, form_pairs, lookup_field, pairs_view,
};
use crate::http::{Response, STATUS_BAD_REQUEST, STATUS_INTERNAL_SERVER_ERROR, STATUS_OK};

verus! {

/// The content of a subscription record; the store adds its own identifier
/// and timestamp.
pub struct SubscriptionRecord {
    pub name: Seq<char>,
    pub email: Seq<char>,
}

/// A new subscription, ready to be inserted.
pub struct Subscription {
    pub name: String,
    pub email: String,
}

impl View for Subscription {
    type V = SubscriptionRecord;

    open spec fn view(&self) -> SubscriptionRecord {
        SubscriptionRecord { name: self.name@, email: self.email@ }
    }
}

/// The name of the field that holds the subscriber's name.
pub open spec fn name_key() -> Seq<char> {
    seq!['n', 'a', 'm', 'e']
}

/// The name of the field that holds the subscriber's email.
pub open spec fn email_key() -> Seq<char> {
    seq!['e', 'm', 'a', 'i', 'l']
}

/// The subscription that a decoded form asks for: both `name` and `email`
/// given exactly once, neither empty. Other fields are ignored. The email's
/// format is not checked.
pub open spec fn requested_subscription(pairs: FormPairs) -> Option<SubscriptionRecord> {
    match (lookup_field(pairs, name_key()), lookup_field(pairs, email_key())) {
        (FieldLookup::Once(name), FieldLookup::Once(email)) => {
            if name.len() > 0 && email.len() > 0 {
                Some(SubscriptionRecord { name, email })
            } else {
                None
            }
        },
        _ => None,
    }
}

/// The status that answers a decoded form, when the store accepts the insert.
pub open spec fn status_for_form(pairs: FormPairs) -> u16 {
    if requested_subscription(pairs) is Some {
        STATUS_OK
    } else {
        STATUS_BAD_REQUEST
    }
}

/// The store's records after a decoded form was handled.
pub open spec fn records_after_form(
    records: Seq<SubscriptionRecord>,
    pairs: FormPairs,
) -> Seq<SubscriptionRecord> {
    match requested_subscription(pairs) {
        Some(rec) => records.push(rec),
        None => records,
    }
}

/// Reads the subscription that decoded pairs ask for, or `None` when the
/// form is incomplete, repeats a field, or leaves one empty.
pub fn parse_subscription(pairs: &Vec<(String, String)>) -> (r: Option<Subscription>)
    ensures
        match requested_subscription(pairs_view(pairs@)) {
            Some(rec) => r is Some && r->0@ == rec,
            None => r is None,
        },
{
    let name_field = String::from_str("name");
    let email_field = String::from_str("email");
    proof {
        reveal_strlit("name");
        reveal_strlit("email");
        assert(name_field@ =~= name_key());
        assert(email_field@ =~= email_key());
    }
    let name_at = find_field(pairs, &name_field);
    let email_at = find_field(pairs, &email_field);
    match (name_at, email_at) {
        (Some(i), Some(j)) => {
            let name = &pairs[i].1;
            let email = &pairs[j].1;
            if name.as_str().is_empty() || email.as_str().is_empty() {
                None
            } else {
                Some(Subscription { name: name.clone(), email: email.clone() })
            }
        },
        _ => None,
    }
}

/// What handling a subscription request calls for next.
pub enum SubscribeStep {
    /// Answer at once; nothing is stored.
    Respond(Response),
    /// Insert this subscription, then answer with `insert_reply`.
    Insert(Subscription),
}

/// Decides what a subscription request body calls for: the insert of the
/// subscription it asks for, or a 400 with an empty body.
pub fn subscribe(body: &[u8]) -> (r: SubscribeStep)
    ensures
        match requested_subscription(form_pairs(body@)) {
            Some(rec) => r matches SubscribeStep::Insert(s) && s@ == rec,
            None => r matches SubscribeStep::Respond(resp) && resp.status == STATUS_BAD_REQUEST
                && resp.body@.len() == 0,
        },
        body@.len() == 0 ==> r is Respond,
{
    let pairs = decode_form(body);
    match parse_subscription(&pairs) {
        Some(s) => SubscribeStep::Insert(s),
        None => SubscribeStep::Respond(Response::empty(STATUS_BAD_REQUEST)),
    }
}

/// The answer once the store has taken the insert: 200 when it succeeded,
/// 500 when it failed. The body is empty either way.
pub fn insert_reply(inserted: bool) -> (r: Response)
    ensures
        r.status == (if inserted {
            STATUS_OK
        } else {
            STATUS_INTERNAL_SERVER_ERROR
        }),
        r.body@.len() == 0,
{
    if inserted {
        Response::empty(STATUS_OK)
    } else {
        Response::empty(STATUS_INTERNAL_SERVER_ERROR)
    }
}

/// A store that keeps its records in memory, in the order of insertion.
/// Every insert succeeds; no record is ever changed or removed.
pub struct MemoryStore {
    records: Vec<Subscription>,
}

impl View for MemoryStore {
    type V = Seq<SubscriptionRecord>;

    closed spec fn view(&self) -> Seq<SubscriptionRecord> {
        self.records@.map_values(|s: Subscription| s@)
    }
}

impl MemoryStore {
    /// An empty store.
    pub fn new() -> (r: MemoryStore)
        ensures
            r@ == Seq::<SubscriptionRecord>::empty(),
    {
        let r = MemoryStore { records: Vec::new() };
        assert(r@ =~= Seq::<SubscriptionRecord>::empty());
        r
    }

    /// The number of records held.
    pub fn len(&self) -> (r: usize)
        ensures
            r == self@.len(),
    {
        self.records.len()
    }

    /// The record at position `i`, counting from the first inserted.
    pub fn get(&self, i: usize) -> (r: &Subscription)
        requires
            i < self@.len(),
        ensures
            r@ == self@[i as int],
    {
        &self.records[i]
    }

    /// Appends a record. No key is checked: the same subscription may be
    /// held more than once.
    pub fn insert(&mut self, s: Subscription)
        ensures
            final(self)@ == old(self)@.push(s@),
    {
        let ghost s_view = s@;
        self.records.push(s);
        assert(self@ =~= old(self)@.push(s_view));
    }

    /// Handles a subscription request body against this store: inserts the
    /// subscription it asks for and answers 200, or answers 400 and stores
    /// nothing. The body of the answer is empty.
    pub fn handle_subscription(&mut self, body: &[u8]) -> (r: Response)
        ensures
            r.status == status_for_form(form_pairs(body@)),
            final(self)@ == records_after_form(old(self)@, form_pairs(body@)),
            r.body@.len() == 0,
            match requested_subscription(form_pairs(body@)) {
                Some(rec) => r.status == STATUS_OK && final(self)@ == old(self)@.push(rec),
                None => r.status == STATUS_BAD_REQUEST && final(self)@ == old(self)@,
            },
            body@.len() == 0 ==> r.status == STATUS_BAD_REQUEST && final(self)@ == old(self)@,
    {
        match subscribe(body) {
            SubscribeStep::Respond(resp) => resp,
            SubscribeStep::Insert(s) => {
                self.insert(s);
                insert_reply(true)
            },
        }
    }
}

/// A form that gives `name` and `email` once each, both non-empty, is
/// answered 200, and exactly one record with those values is added to the
/// store: the records after it are those before it and that one.
pub proof fn lemma_complete_form_is_stored(
    records: Seq<SubscriptionRecord>,
    pairs: FormPairs,
    name: Seq<char>,
    email: Seq<char>,
)
    requires
        lookup_field(pairs, name_key()) == FieldLookup::Once(name),
        lookup_field(pairs, email_key()) == FieldLookup::Once(email),
        name.len() > 0,
        email.len() > 0,
    ensures
        status_for_form(pairs) == STATUS_OK,
        records_after_form(records, pairs) == records.push(SubscriptionRecord { name, email }),
        records_after_form(records, pairs).to_multiset().count(SubscriptionRecord { name, email })
            == records.to_multiset().count(SubscriptionRecord { name, email }) + 1,
{
    let rec = SubscriptionRecord { name, email };
    records.to_multiset_ensures();
    assert(records.push(rec).to_multiset() =~= records.to_multiset().insert(rec));
}

/// A form without a `name` field, or without an `email` field (an empty
/// form has neither), is answered 400 and adds no record.
pub proof fn lemma_incomplete_form_is_rejected(records: Seq<SubscriptionRecord>, pairs: FormPairs)
    requires
        lookup_field(pairs, name_key()) is Absent || lookup_field(pairs, email_key()) is Absent,
    ensures
        status_for_form(pairs) == STATUS_BAD_REQUEST,
        records_after_form(records, pairs) == records,
{
}

/// Subscriptions are not deduplicated: handling the same acceptable form
/// twice leaves two equal records, and both requests are answered 200.
pub proof fn lemma_resubmission_adds_two_records(records: Seq<SubscriptionRecord>, pairs: FormPairs)
    requires
        requested_subscription(pairs) is Some,
    ensures
        ({
            let rec = requested_subscription(pairs)->0;
            let twice = records_after_form(records_after_form(records, pairs), pairs);
            &&& status_for_form(pairs) == STATUS_OK
            &&& twice == records.push(rec).push(rec)
            &&& twice.len() == records.len() + 2
            &&& twice.to_multiset().count(rec) == records.to_multiset().count(rec) + 2
        }),
{
    let rec = requested_subscription(pairs)->0;
    records.to_multiset_ensures();
    records.push(rec).to_multiset_ensures();
}

} // verus!

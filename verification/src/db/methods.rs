//! Event type codes, gem computation and transaction defaults.

use vstd::prelude::*;
use crate::db::models::NewTransaction;
use crate::db::structs::{EventType, Transaction};
use crate::json::{jarr, jget, ji64, jidx, jstr, oget, oi64, oidx, ostr, JsonValue};
use crate::text::{truncate_bytes, truncate_ok, truncated};
use crate::webmodels::{sanitize, sanitized};
use vstd::string::StringExecFns;

verus! {

impl EventType {
    /// The code of an event type, in declaration order from 0.
    pub open spec fn spec_to_int(self) -> i32 {
        match self {
            EventType::OrderMembership => 0,
            EventType::OrderDonation => 1,
            EventType::OrderUnknown => 2,
            EventType::PaymentMonthlyDonation => 3,
            EventType::PaymentMembership => 4,
            EventType::PaymentDonation => 5,
            EventType::PaymentUnknown => 6,
        }
    }

    /// The event type of a code, if it is one.
    pub open spec fn spec_from_int(i: i32) -> Option<EventType> {
        if i == 0 {
            Some(EventType::OrderMembership)
        } else if i == 1 {
            Some(EventType::OrderDonation)
        } else if i == 2 {
            Some(EventType::OrderUnknown)
        } else if i == 3 {
            Some(EventType::PaymentMonthlyDonation)
        } else if i == 4 {
            Some(EventType::PaymentMembership)
        } else if i == 5 {
            Some(EventType::PaymentDonation)
        } else if i == 6 {
            Some(EventType::PaymentUnknown)
        } else {
            None
        }
    }

    pub fn from_int(i: i32) -> (r: Option<Self>)
        ensures
            r == Self::spec_from_int(i),
    {
        match i {
            0 => Some(EventType::OrderMembership),
            1 => Some(EventType::OrderDonation),
            2 => Some(EventType::OrderUnknown),
            3 => Some(EventType::PaymentMonthlyDonation),
            4 => Some(EventType::PaymentMembership),
            5 => Some(EventType::PaymentDonation),
            6 => Some(EventType::PaymentUnknown),
            _ => None,
        }
    }

    pub fn to_int(&self) -> (r: i32)
        ensures
            r == self.spec_to_int(),
    {
        match self {
            EventType::OrderMembership => 0,
            EventType::OrderDonation => 1,
            EventType::OrderUnknown => 2,
            EventType::PaymentMonthlyDonation => 3,
            EventType::PaymentMembership => 4,
            EventType::PaymentDonation => 5,
            EventType::PaymentUnknown => 6,
        }
    }
}

/// Reading back the code of an event type gives the event type.
pub proof fn lemma_event_type_roundtrip(e: EventType)
    ensures
        EventType::spec_from_int(e.spec_to_int()) == Some(e),
{
}

/// The codes are exactly 0 to 6, and each reads back to itself.
pub proof fn lemma_event_code_roundtrip(i: i32)
    ensures
        EventType::spec_from_int(i) is Some <==> 0 <= i <= 6,
        EventType::spec_from_int(i) matches Some(e) ==> e.spec_to_int() == i,
{
}

/// The gems of a donation of `amount` cents: none under one euro, 250 from
/// 500 euros, and in between 48 gems per 100 euros, rounded up to a
/// multiple of 5 (one multiple further when 3 or 4 past one).
pub open spec fn gems_for(amount: int) -> int {
    if amount < 100 {
        0
    } else if amount >= 50000 {
        250
    } else {
        let g = (48 * (amount / 100)) / 100;
        let m = g % 5;
        if m >= 3 {
            g + 10 - m
        } else {
            g + 5 - m
        }
    }
}

proof fn lemma_div_mono(a: int, b: int, d: int)
    requires
        0 <= a <= b,
        0 < d,
    ensures
        a / d <= b / d,
{
    vstd::arithmetic::div_mod::lemma_div_is_ordered(a, b, d);
}

/// No gems under one euro; from one euro on, between 5 and 250 gems and a
/// multiple of 5; 250 gems from 500 euros.
pub proof fn lemma_gems_range(amount: int)
    ensures
        amount < 100 ==> gems_for(amount) == 0,
        amount >= 100 ==> 5 <= gems_for(amount) <= 250 && gems_for(amount) % 5 == 0,
        amount >= 50000 ==> gems_for(amount) == 250,
{
    if 100 <= amount < 50000 {
        let n = amount / 100;
        assert(1 <= n <= 499);
        lemma_div_mono(48 * n, 48 * 499int, 100);
        let g = (48 * n) / 100;
        assert(0 <= g <= 239);
    }
}

/// A larger donation never earns fewer gems.
pub proof fn lemma_gems_monotone(a: int, b: int)
    requires
        a <= b,
    ensures
        gems_for(a) <= gems_for(b),
{
    lemma_gems_range(a);
    lemma_gems_range(b);
    if 100 <= a && b < 50000 {
        lemma_div_mono(a, b, 100);
        let n1 = a / 100;
        let n2 = b / 100;
        lemma_div_mono(48 * n1, 48 * n2, 100);
        let g1 = (48 * n1) / 100;
        let g2 = (48 * n2) / 100;
        lemma_div_mono(g1, g2, 5);
        assert(g1 == 5 * (g1 / 5) + g1 % 5);
        assert(g2 == 5 * (g2 / 5) + g2 % 5);
    }
}

/// Length of the random tokens.
pub const TOKEN_LENGTH: usize = 32;

pub open spec fn is_ascii_alphanumeric(c: char) -> bool {
    ('a' <= c && c <= 'z') || ('A' <= c && c <= 'Z') || ('0' <= c && c <= '9')
}

/// Trusted: `rand::distributions::Alphanumeric::sample_string` with the
/// thread's generator; it gives `len` characters, each an ASCII letter or
/// digit. Which ones is random and not claimed.
#[verifier::external_body]
fn random_alphanumeric(len: usize) -> (r: String)
    ensures
        r@.len() == len,
        forall|i: int| 0 <= i < len ==> is_ascii_alphanumeric(#[trigger] r@[i]),
{
    rand::distributions::DistString::sample_string(&rand::distributions::Alphanumeric, &mut rand::thread_rng(), len)
}

impl NewTransaction {
    /// A random token of `TOKEN_LENGTH` ASCII letters and digits.
    pub fn gen_random() -> (r: String)
        ensures
            r@.len() == TOKEN_LENGTH,
            forall|i: int| 0 <= i < TOKEN_LENGTH ==> is_ascii_alphanumeric(#[trigger] r@[i]),
    {
        random_alphanumeric(TOKEN_LENGTH)
    }

    /// The gems a donation of `amount` cents earns.
    pub fn calc_gems(amount: i32) -> (r: i32)
        ensures
            r == gems_for(amount as int),
    {
        if amount < 100 {
            0
        } else if amount >= 50000 {
            250
        } else {
            let n: i32 = amount / 100;
            let g: i32 = (48 * n) / 100;
            let m: i32 = g % 5;
            let mut gems: i32 = g + 5 - m;
            if m >= 3 {
                gems = gems + 5;
            }
            gems
        }
    }

    /// Fills in the gems from the amount when there are none, and a random
    /// token when there is none.
    pub fn validate(&mut self)
        ensures
            final(self).gems == (if old(self).gems == 0 { gems_for(old(self).amount as int) as i32 } else { old(self).gems }),
            old(self).token@.len() != 0 ==> final(self).token == old(self).token,
            old(self).token@.len() == 0 ==> final(self).token@.len() == TOKEN_LENGTH && forall|i: int|
                0 <= i < TOKEN_LENGTH ==> is_ascii_alphanumeric(#[trigger] final(self).token@[i]),
            final(self).username == old(self).username,
            final(self).message == old(self).message,
            final(self).email == old(self).email,
            final(self).day == old(self).day,
            final(self).amount == old(self).amount,
            final(self).ha_id == old(self).ha_id,
            final(self).receipt_url == old(self).receipt_url,
            final(self).event_type == old(self).event_type,
            final(self).is_mail_sent == old(self).is_mail_sent,
            final(self).is_token_used == old(self).is_token_used,
            final(self).is_checked == old(self).is_checked,
    {
        if self.gems == 0 {
            self.gems = Self::calc_gems(self.amount);
        }
        if self.token.as_str().is_empty() {
            self.token = Self::gen_random();
        }
    }
}

/// The longest username kept, in bytes.
pub const USERNAME_MAX_BYTES: usize = 15;

/// The longest message kept, in bytes.
pub const MESSAGE_MAX_BYTES: usize = 50;

/// The outcome of reading one custom field from a list of answers.
pub enum FieldScan {
    /// An answer lacks its `name`, or the field's answer is not a string.
    Failed,
    /// Cutting a sanitized answer to its byte limit would split a character.
    Panics,
    /// The sanitized and cut answer of the field's last occurrence (empty
    /// when the field is not there).
    Found(Seq<char>),
}

/// Reads `field` from the answers `elems`, in order, after `acc` was read.
pub open spec fn scan_field(elems: Seq<JsonValue>, field: Seq<char>, limit: int, acc: Seq<char>) -> FieldScan
    decreases elems.len(),
{
    if elems.len() == 0 {
        FieldScan::Found(acc)
    } else {
        match jget(elems[0], "name"@) {
            None => FieldScan::Failed,
            Some(nm) => if jstr(nm) == Some(field) {
                match ostr(jget(elems[0], "answer"@)) {
                    None => FieldScan::Failed,
                    Some(a) => if !truncate_ok(sanitized(a), limit) {
                        FieldScan::Panics
                    } else {
                        scan_field(elems.skip(1), field, limit, truncated(sanitized(a), limit))
                    },
                }
            } else {
                scan_field(elems.skip(1), field, limit, acc)
            },
        }
    }
}

/// The executable outcome of reading a custom field.
pub enum ScanResult {
    Failed,
    Panics,
    Found(String),
}

/// Reads `field` from the answers `elems`: the sanitized answer of its last
/// occurrence, cut to `limit` bytes.
pub fn scan_custom_field(elems: &Vec<JsonValue>, field: &String, limit: usize) -> (r: ScanResult)
    ensures
        match scan_field(elems@, field@, limit as int, Seq::empty()) {
            FieldScan::Failed => r is Failed,
            FieldScan::Panics => r is Panics,
            FieldScan::Found(v) => r matches ScanResult::Found(s) && s@ == v,
        },
{
    let mut acc = String::new();
    let mut i: usize = 0;
    assert(elems@.skip(0) =~= elems@);
    while i < elems.len()
        invariant
            i <= elems@.len(),
            scan_field(elems@, field@, limit as int, Seq::empty()) == scan_field(elems@.skip(i as int), field@,
                limit as int, acc@),
        decreases elems.len() - i,
    {
        let e = &elems[i];
        assert(elems@.skip(i as int)[0] == *e);
        assert(elems@.skip(i as int).skip(1) =~= elems@.skip(i + 1));
        match e.get("name") {
            None => {
                return ScanResult::Failed;
            },
            Some(nm) => {
                if nm.eq_str(field) {
                    match e.get("answer") {
                        None => {
                            return ScanResult::Failed;
                        },
                        Some(ans) => match ans.as_str() {
                            None => {
                                return ScanResult::Failed;
                            },
                            Some(a) => {
                                let clean = sanitize(a.as_str());
                                if !can_truncate(&clean, limit) {
                                    return ScanResult::Panics;
                                }
                                acc = truncate_bytes(clean, limit);
                            },
                        },
                    }
                }
            },
        }
        i = i + 1;
    }
    assert(elems@.skip(i as int) =~= Seq::<JsonValue>::empty());
    ScanResult::Found(acc)
}

/// Whether `String::truncate(n)` accepts `s`.
fn can_truncate(s: &String, n: usize) -> (r: bool)
    ensures
        r == truncate_ok(s@, n as int),
{
    let t = s.as_str();
    t.len() <= n || t.is_char_boundary(n)
}

/// The username and message of an order's custom fields.
pub enum CustomFields {
    Absent,
    Panics,
    Read(Seq<char>, Seq<char>),
}

/// The username and message read from the custom fields of the order's
/// first item: none when it has no custom fields.
pub open spec fn order_custom_fields(data: JsonValue, fu: Seq<char>, fm: Seq<char>) -> CustomFields {
    match oget(oidx(jget(data, "items"@), 0), "customFields"@) {
        None => CustomFields::Read(Seq::empty(), Seq::empty()),
        Some(cf) => match jarr(cf) {
            None => CustomFields::Absent,
            Some(arr) => match scan_field(arr, fu, USERNAME_MAX_BYTES as int, Seq::empty()) {
                FieldScan::Failed => CustomFields::Absent,
                FieldScan::Panics => CustomFields::Panics,
                FieldScan::Found(u) => match scan_field(arr, fm, MESSAGE_MAX_BYTES as int, Seq::empty()) {
                    FieldScan::Failed => CustomFields::Absent,
                    FieldScan::Panics => CustomFields::Panics,
                    FieldScan::Found(m) => CustomFields::Read(u, m),
                },
            },
        },
    }
}

/// Whether reading the callback stops on cutting a custom field inside a
/// character (where `String::truncate` panics).
pub open spec fn callback_panics(jresp: JsonValue, fu: Seq<char>, fm: Seq<char>) -> bool {
    match (ostr(jget(jresp, "eventType"@)), jget(jresp, "data"@)) {
        (Some(et), Some(data)) => et == "Order"@ && oidx(jget(data, "payments"@), 0) is Some
            && oidx(jget(data, "items"@), 0) is Some && order_custom_fields(data, fu, fm) is Panics,
        _ => false,
    }
}

/// What a transaction read from a callback holds, but for its date and
/// random token.
pub struct TxFields {
    pub username: Seq<char>,
    pub message: Seq<char>,
    pub email: Seq<char>,
    pub amount: i32,
    pub ha_id: i32,
    pub receipt_url: Seq<char>,
    pub event_type: i32,
}

pub open spec fn order_event_code(form_type: Seq<char>) -> i32 {
    if form_type == "Membership"@ {
        EventType::OrderMembership.spec_to_int()
    } else if form_type == "Donation"@ {
        EventType::OrderDonation.spec_to_int()
    } else {
        EventType::OrderUnknown.spec_to_int()
    }
}

pub open spec fn payment_event_code(kind: Seq<char>) -> i32 {
    if kind == "MonthlyDonation"@ {
        EventType::PaymentMonthlyDonation.spec_to_int()
    } else if kind == "Membership"@ {
        EventType::PaymentMembership.spec_to_int()
    } else if kind == "Donation"@ {
        EventType::PaymentDonation.spec_to_int()
    } else {
        EventType::PaymentUnknown.spec_to_int()
    }
}

/// A second transaction read from a second payment item: the first one with
/// that item's amount and id, and the given event type.
pub open spec fn second_tx(t0: TxFields, item: Option<JsonValue>, event: i32) -> Option<Option<TxFields>> {
    match item {
        None => Some(None),
        Some(p1) => match (ji64_of(p1, "shareAmount"@), ji64_of(p1, "id"@)) {
            (Some(a1), Some(i1)) => Some(Some(TxFields {
                username: t0.username,
                message: t0.message,
                email: t0.email,
                amount: a1 as i32,
                ha_id: i1 as i32,
                receipt_url: t0.receipt_url,
                event_type: event,
            })),
            _ => None,
        },
    }
}

pub open spec fn ji64_of(v: JsonValue, k: Seq<char>) -> Option<i64> {
    oi64(jget(v, k))
}

/// The transactions of an `Order` callback.
pub open spec fn order_spec(data: JsonValue, fu: Seq<char>, fm: Seq<char>) -> Option<(TxFields, Option<TxFields>)> {
    let inner = oidx(jget(data, "payments"@), 0);
    let item0 = oidx(jget(data, "items"@), 0);
    if inner is None || item0 is None {
        None
    } else {
        match order_custom_fields(data, fu, fm) {
            CustomFields::Read(u, m) => {
                let ft = ostr(jget(data, "formType"@));
                let pitem0 = oidx(oget(inner, "items"@), 0);
                let amount = oi64(oget(pitem0, "shareAmount"@));
                let email = ostr(oget(jget(data, "payer"@), "email"@));
                let ha = oi64(oget(pitem0, "id"@));
                let receipt = ostr(oget(inner, "paymentReceiptUrl"@));
                if ft is Some && amount is Some && email is Some && ha is Some && receipt is Some {
                    let t0 = TxFields {
                        username: u,
                        message: m,
                        email: email->0,
                        amount: amount->0 as i32,
                        ha_id: ha->0 as i32,
                        receipt_url: receipt->0,
                        event_type: order_event_code(ft->0),
                    };
                    match second_tx(t0, oidx(oget(inner, "items"@), 1), EventType::OrderDonation.spec_to_int()) {
                        Some(t1) => Some((t0, t1)),
                        None => None,
                    }
                } else {
                    None
                }
            },
            _ => None,
        }
    }
}

/// The transactions of a `Payment` callback.
pub open spec fn payment_spec(data: JsonValue) -> Option<(TxFields, Option<TxFields>)> {
    let item0 = oidx(jget(data, "items"@), 0);
    let kind = ostr(oget(item0, "type"@));
    let amount = oi64(oget(item0, "shareAmount"@));
    let email = ostr(oget(jget(data, "payer"@), "email"@));
    let ha = oi64(oget(item0, "id"@));
    let receipt = ostr(jget(data, "paymentReceiptUrl"@));
    if kind is Some && amount is Some && email is Some && ha is Some && receipt is Some {
        let t0 = TxFields {
            username: Seq::empty(),
            message: Seq::empty(),
            email: email->0,
            amount: amount->0 as i32,
            ha_id: ha->0 as i32,
            receipt_url: receipt->0,
            event_type: payment_event_code(kind->0),
        };
        match second_tx(t0, oidx(jget(data, "items"@), 1), EventType::PaymentDonation.spec_to_int()) {
            Some(t1) => Some((t0, t1)),
            None => None,
        }
    } else {
        None
    }
}

/// The transactions that a payment notification announces: one, or two for
/// a membership paid together with a donation; none for other events or
/// when a needed member is missing or of the wrong type.
pub open spec fn callback_spec(jresp: JsonValue, fu: Seq<char>, fm: Seq<char>) -> Option<(TxFields, Option<TxFields>)> {
    match (ostr(jget(jresp, "eventType"@)), jget(jresp, "data"@)) {
        (Some(et), Some(data)) => if et == "Order"@ {
            order_spec(data, fu, fm)
        } else if et == "Payment"@ {
            payment_spec(data)
        } else {
            None
        },
        _ => None,
    }
}

/// `t` holds the fields `f`, the gems of its amount, a fresh token, and no
/// flag set.
pub open spec fn tx_matches(t: NewTransaction, f: TxFields) -> bool {
    &&& t.username@ == f.username
    &&& t.message@ == f.message
    &&& t.email@ == f.email
    &&& t.amount == f.amount
    &&& t.gems == gems_for(f.amount as int)
    &&& t.ha_id == f.ha_id
    &&& t.receipt_url@ == f.receipt_url
    &&& t.event_type == f.event_type
    &&& t.token@.len() == TOKEN_LENGTH
    &&& forall|i: int| 0 <= i < TOKEN_LENGTH ==> is_ascii_alphanumeric(#[trigger] t.token@[i])
    &&& !t.is_mail_sent
    &&& !t.is_token_used
    &&& !t.is_checked
}

/// Trusted: `chrono::Utc::now`, taken as its UTC calendar date
/// (`naive_utc().date()`); nothing is claimed of it.
#[verifier::external_body]
fn today_utc() -> (r: chrono::NaiveDate) {
    chrono::Utc::now().naive_utc().date()
}

fn str_member(v: &JsonValue, k: &str) -> (r: Option<String>)
    ensures
        match ostr(jget(*v, k@)) {
            Some(s) => r matches Some(t) && t@ == s,
            None => r is None,
        },
{
    match v.get(k) {
        Some(x) => match x.as_str() {
            Some(s) => Some(s.clone()),
            None => None,
        },
        None => None,
    }
}

fn i64_member(v: &JsonValue, k: &str) -> (r: Option<i64>)
    ensures
        r == oi64(jget(*v, k@)),
{
    match v.get(k) {
        Some(x) => x.as_i64(),
        None => None,
    }
}

fn index_member<'a>(v: &'a JsonValue, k: &str, i: usize) -> (r: Option<&'a JsonValue>)
    ensures
        r matches Some(x) ==> oidx(jget(*v, k@), i as int) == Some(*x),
        r is None ==> oidx(jget(*v, k@), i as int) is None,
{
    match v.get(k) {
        Some(x) => x.get_index(i),
        None => None,
    }
}

fn new_transaction(username: String, message: String, email: String, day: chrono::NaiveDate, amount: i32,
    ha_id: i32, receipt_url: String, event_type: i32) -> (t: NewTransaction)
    ensures
        t.username == username,
        t.message == message,
        t.email == email,
        t.day == day,
        t.amount == amount,
        t.gems == gems_for(amount as int),
        t.ha_id == ha_id,
        t.receipt_url == receipt_url,
        t.event_type == event_type,
        t.token@.len() == TOKEN_LENGTH,
        forall|i: int| 0 <= i < TOKEN_LENGTH ==> is_ascii_alphanumeric(#[trigger] t.token@[i]),
        !t.is_mail_sent,
        !t.is_token_used,
        !t.is_checked,
{
    NewTransaction {
        username,
        message,
        email,
        day,
        amount,
        gems: NewTransaction::calc_gems(amount),
        token: NewTransaction::gen_random(),
        ha_id,
        receipt_url,
        event_type,
        is_mail_sent: false,
        is_token_used: false,
        is_checked: false,
    }
}

/// The second transaction of a callback, from its second payment item.
fn second_transaction(t0: &NewTransaction, item: Option<&JsonValue>, event_type: i32) -> (r: Option<Option<NewTransaction>>)
    ensures
        item is None ==> r == Some(None::<NewTransaction>),
        item matches Some(p1) ==> (r is None <==> (ji64_of(*p1, "shareAmount"@) is None || ji64_of(*p1, "id"@) is None)),
        item is Some && r is Some ==> r->0 is Some,
        r matches Some(Some(t1)) ==> item is Some && {
            let p1 = item->0;
            &&& t1.username == t0.username
            &&& t1.message == t0.message
            &&& t1.email == t0.email
            &&& t1.day == t0.day
            &&& t1.receipt_url == t0.receipt_url
            &&& t1.amount == ji64_of(*p1, "shareAmount"@)->0 as i32
            &&& t1.ha_id == ji64_of(*p1, "id"@)->0 as i32
            &&& t1.gems == gems_for(t1.amount as int)
            &&& t1.event_type == event_type
            &&& t1.token@.len() == TOKEN_LENGTH
            &&& forall|i: int| 0 <= i < TOKEN_LENGTH ==> is_ascii_alphanumeric(#[trigger] t1.token@[i])
            &&& !t1.is_mail_sent && !t1.is_token_used && !t1.is_checked
        },
{
    match item {
        None => Some(None),
        Some(p1) => {
            let a1: i64 = match i64_member(p1, "shareAmount") {
                Some(a) => a,
                None => {
                    return None;
                },
            };
            let i1: i64 = match i64_member(p1, "id") {
                Some(i) => i,
                None => {
                    return None;
                },
            };
            Some(Some(new_transaction(t0.username.clone(), t0.message.clone(), t0.email.clone(), t0.day,
                a1 as i32, i1 as i32, t0.receipt_url.clone(), event_type)))
        },
    }
}

/// The username and message of an order, read from the custom fields of
/// its first item.
fn read_custom_fields(data: &JsonValue, field_username: &String, field_message: &String) -> (r: Option<Option<(String, String)>>)
    requires
        oidx(jget(*data, "items"@), 0) is Some,
    ensures
        match order_custom_fields(*data, field_username@, field_message@) {
            CustomFields::Absent => r == Some(None::<(String, String)>),
            CustomFields::Panics => r is None,
            CustomFields::Read(u, m) => r matches Some(Some((su, sm))) && su@ == u && sm@ == m,
        },
{
    let item0 = match index_member(data, "items", 0) {
        Some(x) => x,
        None => {
            return Some(None);
        },
    };
    match item0.get("customFields") {
        None => Some(Some((String::new(), String::new()))),
        Some(cf) => match cf.as_array() {
            None => Some(None),
            Some(arr) => match scan_custom_field(arr, field_username, USERNAME_MAX_BYTES) {
                ScanResult::Failed => Some(None),
                ScanResult::Panics => None,
                ScanResult::Found(u) => match scan_custom_field(arr, field_message, MESSAGE_MAX_BYTES) {
                    ScanResult::Failed => Some(None),
                    ScanResult::Panics => None,
                    ScanResult::Found(m) => Some(Some((u, m))),
                },
            },
        },
    }
}

/// Whether reading `jresp` would cut a custom field inside a character,
/// where the reading stops with a panic.
pub fn callback_would_panic(jresp: &JsonValue, field_username: &String, field_message: &String) -> (r: bool)
    ensures
        r == callback_panics(*jresp, field_username@, field_message@),
{
    let et = match str_member(jresp, "eventType") {
        Some(e) => e,
        None => {
            return false;
        },
    };
    let data = match jresp.get("data") {
        Some(d) => d,
        None => {
            return false;
        },
    };
    let order = String::from_str("Order");
    if et != order {
        return false;
    }
    if index_member(data, "payments", 0).is_none() || index_member(data, "items", 0).is_none() {
        return false;
    }
    read_custom_fields(data, field_username, field_message).is_none()
}

/// The transactions that a payment notification announces (see
/// `callback_spec`), dated `day`, each with its gems and a fresh token.
/// `field_username` and `field_message` name the custom fields that hold
/// the donor's username and message.
pub fn transactions_on(jresp: &JsonValue, field_username: &String, field_message: &String, day: chrono::NaiveDate)
    -> (r: Option<(NewTransaction, Option<NewTransaction>)>)
    requires
        !callback_panics(*jresp, field_username@, field_message@),
    ensures
        match callback_spec(*jresp, field_username@, field_message@) {
            None => r is None,
            Some((f0, f1)) => r matches Some((t0, t1)) && tx_matches(t0, f0) && t0.day == day && match f1 {
                None => t1 is None,
                Some(g1) => t1 matches Some(u1) && tx_matches(u1, g1) && u1.day == day,
            },
        },
{
    let ha_event_type = str_member(jresp, "eventType")?;
    let j = jresp.get("data")?;
    let order = String::from_str("Order");
    let payment = String::from_str("Payment");
    proof {
        reveal_strlit("Order");
        reveal_strlit("Payment");
    }
    if ha_event_type == order {
        let inner_payment = index_member(j, "payments", 0)?;
        if index_member(j, "items", 0).is_none() {
            return None;
        }
        let (cf_username, cf_message) = match read_custom_fields(j, field_username, field_message) {
            Some(Some(um)) => um,
            Some(None) => {
                return None;
            },
            None => {
                return None;
            },
        };
        let form_type = str_member(j, "formType")?;
        let event_type = if form_type == String::from_str("Membership") {
            EventType::OrderMembership
        } else if form_type == String::from_str("Donation") {
            EventType::OrderDonation
        } else {
            EventType::OrderUnknown
        };
        let pitem0 = index_member(inner_payment, "items", 0)?;
        let amount: i32 = i64_member(pitem0, "shareAmount")? as i32;
        let payer = j.get("payer")?;
        let email = str_member(payer, "email")?;
        let ha_id: i32 = i64_member(pitem0, "id")? as i32;
        let receipt_url = str_member(inner_payment, "paymentReceiptUrl")?;
        let new_tr_0 = new_transaction(cf_username, cf_message, email, day, amount, ha_id, receipt_url,
            event_type.to_int());
        let item1 = index_member(inner_payment, "items", 1);
        let new_tr_1 = second_transaction(&new_tr_0, item1, EventType::OrderDonation.to_int())?;
        Some((new_tr_0, new_tr_1))
    } else if ha_event_type == payment {
        let item0 = index_member(j, "items", 0)?;
        let kind = str_member(item0, "type")?;
        let event_type = if kind == String::from_str("MonthlyDonation") {
            EventType::PaymentMonthlyDonation
        } else if kind == String::from_str("Membership") {
            EventType::PaymentMembership
        } else if kind == String::from_str("Donation") {
            EventType::PaymentDonation
        } else {
            EventType::PaymentUnknown
        };
        let amount: i32 = i64_member(item0, "shareAmount")? as i32;
        let payer = j.get("payer")?;
        let email = str_member(payer, "email")?;
        let ha_id: i32 = i64_member(item0, "id")? as i32;
        let receipt_url = str_member(j, "paymentReceiptUrl")?;
        let new_tr_0 = new_transaction(String::new(), String::new(), email, day, amount, ha_id,
            receipt_url, event_type.to_int());
        let item1 = index_member(j, "items", 1);
        let new_tr_1 = second_transaction(&new_tr_0, item1, EventType::PaymentDonation.to_int())?;
        Some((new_tr_0, new_tr_1))
    } else {
        None
    }
}

/// What to do with a new transaction given the recorded one with the same
/// payment id, if any.
pub enum Override {
    /// No transaction has this payment id: record the new one.
    Insert,
    /// The recorded one gains the new one's username (and message); store it.
    Update(Transaction),
    /// The recorded one is kept as it is.
    Exists,
}

/// The event type a recorded transaction takes when an order confirms it:
/// a donation or membership payment becomes the matching order.
pub open spec fn upgraded_event(old_event: i32, new_event: i32) -> i32 {
    let o = EventType::spec_from_int(old_event);
    let n = EventType::spec_from_int(new_event);
    if (o == Some(EventType::PaymentDonation) && n == Some(EventType::OrderDonation))
        || (o == Some(EventType::PaymentMembership) && n == Some(EventType::OrderMembership)) {
        new_event
    } else {
        old_event
    }
}

/// A donation payment (5) confirmed by a donation order (1) becomes that
/// order, and so does a membership payment (4) confirmed by a membership
/// order (0); any other pair keeps the recorded event type.
pub proof fn lemma_upgraded_event(old_event: i32, new_event: i32)
    ensures
        old_event == 5 && new_event == 1 ==> upgraded_event(old_event, new_event) == 1,
        old_event == 4 && new_event == 0 ==> upgraded_event(old_event, new_event) == 0,
        !(old_event == 5 && new_event == 1) && !(old_event == 4 && new_event == 0) ==> upgraded_event(old_event,
            new_event) == old_event,
{
}

/// Decides how a new transaction overrides the recorded one with the same
/// payment id: a recorded transaction without username takes the new
/// username, the new message when it had none, and the order's event type.
pub fn override_transaction(old_tr: Option<Transaction>, new_tr: &NewTransaction) -> (r: Override)
    requires
        old_tr matches Some(o) ==> (o.username@.len() == 0 && new_tr.username@.len() != 0 ==> (EventType::spec_from_int(
            o.event_type) is Some && EventType::spec_from_int(new_tr.event_type) is Some)),
    ensures
        old_tr is None ==> r is Insert,
        old_tr matches Some(o) ==> if o.username@.len() == 0 && new_tr.username@.len() != 0 {
            r matches Override::Update(u) && u.username == new_tr.username
                && u.message == (if o.message@.len() == 0 && new_tr.message@.len() != 0 { new_tr.message } else { o.message })
                && u.event_type == upgraded_event(o.event_type, new_tr.event_type)
                && u.id == o.id && u.email == o.email && u.day == o.day && u.amount == o.amount
                && u.gems == o.gems && u.token == o.token && u.ha_id == o.ha_id && u.receipt_url == o.receipt_url
                && u.is_mail_sent == o.is_mail_sent && u.is_token_used == o.is_token_used
                && u.is_checked == o.is_checked
        } else {
            r is Exists
        },
        old_tr is Some && r is Update ==> (old_tr->0.event_type == 5 && new_tr.event_type == 1
            ==> r->Update_0.event_type == 1),
        old_tr is Some && r is Update ==> (old_tr->0.event_type == 4 && new_tr.event_type == 0
            ==> r->Update_0.event_type == 0),
        old_tr is Some && r is Update ==> (!(old_tr->0.event_type == 5 && new_tr.event_type == 1)
            && !(old_tr->0.event_type == 4 && new_tr.event_type == 0) ==> r->Update_0.event_type
            == old_tr->0.event_type),
{
    proof {
        if old_tr is Some {
            lemma_upgraded_event(old_tr->0.event_type, new_tr.event_type);
        }
    }
    match old_tr {
        None => Override::Insert,
        Some(mut old_tr) => {
            if old_tr.username.as_str().is_empty() && !new_tr.username.as_str().is_empty() {
                old_tr.username = new_tr.username.clone();
                if old_tr.message.as_str().is_empty() && !new_tr.message.as_str().is_empty() {
                    old_tr.message = new_tr.message.clone();
                }
                let o = EventType::from_int(old_tr.event_type).unwrap();
                let n = EventType::from_int(new_tr.event_type).unwrap();
                old_tr.event_type = match (o, n) {
                    (EventType::PaymentDonation, EventType::OrderDonation)
                    | (EventType::PaymentMembership, EventType::OrderMembership) => new_tr.event_type,
                    _ => old_tr.event_type,
                };
                Override::Update(old_tr)
            } else {
                Override::Exists
            }
        },
    }
}

/// The transactions that a payment notification announces, dated today (see
/// `transactions_on`).
pub fn from_callback(jresp: &JsonValue, field_username: &String, field_message: &String)
    -> (r: Option<(NewTransaction, Option<NewTransaction>)>)
    requires
        !callback_panics(*jresp, field_username@, field_message@),
    ensures
        match callback_spec(*jresp, field_username@, field_message@) {
            None => r is None,
            Some((f0, f1)) => r matches Some((t0, t1)) && tx_matches(t0, f0) && match f1 {
                None => t1 is None,
                Some(g1) => t1 matches Some(u1) && tx_matches(u1, g1) && u1.day == t0.day,
            },
        },
{
    transactions_on(jresp, field_username, field_message, today_utc())
}

/// The event codes of the transactions a notification announces: for an
/// `Order`, the first is 0, 1 or 2 after `data.formType` ("Membership",
/// "Donation", anything else) and a second one is a donation order (1); for
/// a `Payment`, the first is 3, 4, 5 or 6 after `data.items[0].type`
/// ("MonthlyDonation", "Membership", "Donation", anything else) and a second
/// one is a donation payment (5).
pub proof fn lemma_callback_event_codes(jresp: JsonValue, fu: Seq<char>, fm: Seq<char>)
    ensures
        callback_spec(jresp, fu, fm) matches Some((f0, f1)) ==> {
            let data = jget(jresp, "data"@)->0;
            &&& ostr(jget(jresp, "eventType"@)) == Some("Order"@) ==> {
                &&& f0.event_type == order_event_code(ostr(jget(data, "formType"@))->0)
                &&& 0 <= f0.event_type <= 2
                &&& f1 matches Some(g) ==> g.event_type == 1
            }
            &&& ostr(jget(jresp, "eventType"@)) == Some("Payment"@) ==> {
                &&& f0.event_type == payment_event_code(ostr(oget(oidx(jget(data, "items"@), 0), "type"@))->0)
                &&& 3 <= f0.event_type <= 6
                &&& f1 matches Some(g) ==> g.event_type == 5
            }
            &&& ostr(jget(jresp, "eventType"@)) == Some("Order"@) || ostr(jget(jresp, "eventType"@)) == Some(
                "Payment"@)
        },
{
    reveal_strlit("Order");
    reveal_strlit("Payment");
    assert("Order"@ != "Payment"@) by {
        assert("Order"@[0] != "Payment"@[0]);
    }
    if let Some((f0, f1)) = callback_spec(jresp, fu, fm) {
        let data = jget(jresp, "data"@)->0;
        let et = ostr(jget(jresp, "eventType"@))->0;
        if et == "Order"@ {
            assert(order_spec(data, fu, fm) == Some((f0, f1)));
            lemma_order_codes(data, fu, fm);
        } else if et == "Payment"@ {
            assert(payment_spec(data) == Some((f0, f1)));
            lemma_payment_codes(data);
        }
    }
}

proof fn lemma_second_tx_code(t0: TxFields, item: Option<JsonValue>, event: i32)
    ensures
        second_tx(t0, item, event) matches Some(Some(g)) ==> g.event_type == event,
{
}

proof fn lemma_order_codes(data: JsonValue, fu: Seq<char>, fm: Seq<char>)
    ensures
        order_spec(data, fu, fm) matches Some((f0, f1)) ==> {
            &&& f0.event_type == order_event_code(ostr(jget(data, "formType"@))->0)
            &&& 0 <= f0.event_type <= 2
            &&& f1 matches Some(g) ==> g.event_type == 1
        },
{
    let inner = oidx(jget(data, "payments"@), 0);
    if let Some((f0, f1)) = order_spec(data, fu, fm) {
        if let CustomFields::Read(u, m) = order_custom_fields(data, fu, fm) {
            let ft = ostr(jget(data, "formType"@));
            let pitem0 = oidx(oget(inner, "items"@), 0);
            let amount = oi64(oget(pitem0, "shareAmount"@));
            let email = ostr(oget(jget(data, "payer"@), "email"@));
            let ha = oi64(oget(pitem0, "id"@));
            let receipt = ostr(oget(inner, "paymentReceiptUrl"@));
            let t0 = TxFields {
                username: u,
                message: m,
                email: email->0,
                amount: amount->0 as i32,
                ha_id: ha->0 as i32,
                receipt_url: receipt->0,
                event_type: order_event_code(ft->0),
            };
            lemma_second_tx_code(t0, oidx(oget(inner, "items"@), 1), EventType::OrderDonation.spec_to_int());
        }
    }
}

proof fn lemma_payment_codes(data: JsonValue)
    ensures
        payment_spec(data) matches Some((f0, f1)) ==> {
            &&& f0.event_type == payment_event_code(ostr(oget(oidx(jget(data, "items"@), 0), "type"@))->0)
            &&& 3 <= f0.event_type <= 6
            &&& f1 matches Some(g) ==> g.event_type == 5
        },
{
    if let Some((f0, f1)) = payment_spec(data) {
        let item0 = oidx(jget(data, "items"@), 0);
        let kind = ostr(oget(item0, "type"@));
        let amount = oi64(oget(item0, "shareAmount"@));
        let email = ostr(oget(jget(data, "payer"@), "email"@));
        let ha = oi64(oget(item0, "id"@));
        let receipt = ostr(jget(data, "paymentReceiptUrl"@));
        let t0 = TxFields {
            username: Seq::empty(),
            message: Seq::empty(),
            email: email->0,
            amount: amount->0 as i32,
            ha_id: ha->0 as i32,
            receipt_url: receipt->0,
            event_type: payment_event_code(kind->0),
        };
        lemma_second_tx_code(t0, oidx(jget(data, "items"@), 1), EventType::PaymentDonation.spec_to_int());
    }
}

/// A second item of the payment announces a second transaction: the first
/// one's donor, message and receipt, that item's amount (with its gems) and
/// id, as a donation of the same kind of event (5 for a `Payment`, 1 for an
/// `Order`). Without a second item there is no second transaction; a second
/// item without an integer `shareAmount` or `id` announces nothing at all.
pub proof fn lemma_callback_second_item(jresp: JsonValue, fu: Seq<char>, fm: Seq<char>)
    ensures
        ({
            let data = jget(jresp, "data"@)->0;
            let payment = ostr(jget(jresp, "eventType"@)) == Some("Payment"@);
            let item1 = if payment {
                oidx(jget(data, "items"@), 1)
            } else {
                oidx(oget(oidx(jget(data, "payments"@), 0), "items"@), 1)
            };
            &&& callback_spec(jresp, fu, fm) matches Some((f0, f1)) ==> {
                &&& (item1 is None <==> f1 is None)
                &&& item1 matches Some(p) ==> (f1 matches Some(g) && g.amount == ji64_of(p, "shareAmount"@)->0 as i32
                    && g.ha_id == ji64_of(p, "id"@)->0 as i32 && g.event_type == (if payment { 5i32 } else { 1i32 })
                    && g.email == f0.email && g.username == f0.username && g.message == f0.message && g.receipt_url
                    == f0.receipt_url)
            }
            &&& (item1 matches Some(p) && (ji64_of(p, "shareAmount"@) is None || ji64_of(p, "id"@) is None))
                ==> callback_spec(jresp, fu, fm) is None
        }),
{
    reveal_strlit("Order");
    reveal_strlit("Payment");
    assert("Order"@ != "Payment"@) by {
        assert("Order"@[0] != "Payment"@[0]);
    }
}

/// A `Payment` whose first item and donor are complete is read: one
/// transaction, and a second one for a second item that has an integer
/// `shareAmount` and `id`.
pub proof fn lemma_payment_read(jresp: JsonValue, fu: Seq<char>, fm: Seq<char>)
    ensures
        ({
            let data = jget(jresp, "data"@)->0;
            let item0 = oidx(jget(data, "items"@), 0);
            let item1 = oidx(jget(data, "items"@), 1);
            (ostr(jget(jresp, "eventType"@)) == Some("Payment"@) && jget(jresp, "data"@) is Some
                && ostr(oget(item0, "type"@)) is Some && oi64(oget(item0, "shareAmount"@)) is Some
                && ostr(oget(jget(data, "payer"@), "email"@)) is Some && oi64(oget(item0, "id"@)) is Some
                && ostr(jget(data, "paymentReceiptUrl"@)) is Some && (item1 matches Some(p) ==> ji64_of(p,
                "shareAmount"@) is Some && ji64_of(p, "id"@) is Some)) ==> (callback_spec(jresp, fu, fm) matches Some(
                (f0, f1)) && (f1 is Some <==> item1 is Some))
        }),
{
    reveal_strlit("Order");
    reveal_strlit("Payment");
    assert("Order"@ != "Payment"@) by {
        assert("Order"@[0] != "Payment"@[0]);
    }
}

} // verus!

//! Intake of a subscription request: from a form body to a validated
//! subscriber, and from the outcome of a request to its HTTP status.

use vstd::prelude::*;
use crate::validation::{
    parse_subscriber,
    subscriber_verdict,
    NewSubscriber,
    SubscriberError,
    SubscriberFields,
};

verus! {

/// The key–value pairs of a form, as plain sequences of characters.
pub type FormFields = Seq<(Seq<char>, Seq<char>)>;

/// The pairs, in order, that decoding an `application/x-www-form-urlencoded`
/// body yields, or `None` where it fails.
pub uninterp spec fn decoded_form(body: Seq<u8>) -> Option<FormFields>;

pub open spec fn fields_view(v: Seq<(String, String)>) -> FormFields {
    v.map_values(|p: (String, String)| (p.0@, p.1@))
}

/// Relies on `serde_urlencoded::from_bytes` to split a form body into its
/// percent-decoded key–value pairs, in the order they appear.
#[verifier::external_body]
fn decode_form(body: &[u8]) -> (r: Option<Vec<(String, String)>>)
    ensures
        match decoded_form(body@) {
            None => r is None,
            Some(f) => r is Some && fields_view(r->0@) == f,
        },
{
    serde_urlencoded::from_bytes::<Vec<(String, String)>>(body).ok()
}

pub open spec fn name_key() -> Seq<char> {
    seq!['n', 'a', 'm', 'e']
}

pub open spec fn email_key() -> Seq<char> {
    seq!['e', 'm', 'a', 'i', 'l']
}

/// The pair at index `i` is the one and only pair of `f` with key `key`.
pub open spec fn sole_key_at(f: FormFields, key: Seq<char>, i: int) -> bool {
    &&& 0 <= i < f.len()
    &&& f[i].0 == key
    &&& forall|j: int| 0 <= j < f.len() && #[trigger] f[j].0 == key ==> j == i
}

/// The value of `key` where exactly one pair has that key.
pub open spec fn sole_value(f: FormFields, key: Seq<char>) -> Option<Seq<char>> {
    if exists|i: int| sole_key_at(f, key, i) {
        Some(f[choose|i: int| sole_key_at(f, key, i)].1)
    } else {
        None
    }
}

/// Why a subscription request is answered with a client error.
#[derive(Clone, Copy, Debug, PartialEq, Eq, Structural)]
pub enum IntakeError {
    /// The body cannot be decoded, or lacks `name` or `email`, or repeats one.
    MalformedBody,
    /// The fields were read but did not pass validation.
    Rejected(SubscriberError),
}

pub open spec fn fields_verdict(f: FormFields) -> Result<SubscriberFields, IntakeError> {
    match (sole_value(f, name_key()), sole_value(f, email_key())) {
        (Some(name), Some(email)) => match subscriber_verdict(name, email) {
            Ok(s) => Ok(s),
            Err(e) => Err(IntakeError::Rejected(e)),
        },
        _ => Err(IntakeError::MalformedBody),
    }
}

pub open spec fn body_verdict(form: Option<FormFields>) -> Result<SubscriberFields, IntakeError> {
    match form {
        None => Err(IntakeError::MalformedBody),
        Some(f) => fields_verdict(f),
    }
}

pub open spec fn intake_view(r: Result<NewSubscriber, IntakeError>) -> Result<
    SubscriberFields,
    IntakeError,
> {
    match r {
        Ok(s) => Ok(s@),
        Err(e) => Err(e),
    }
}

/// The index of the one pair with key `key`, where there is exactly one.
fn find_sole_key(fields: &Vec<(String, String)>, key: &String) -> (r: Option<usize>)
    ensures
        match r {
            Some(i) => sole_key_at(fields_view(fields@), key@, i as int),
            None => !exists|i: int| sole_key_at(fields_view(fields@), key@, i),
        },
{
    let ghost f = fields_view(fields@);
    let mut found: Option<usize> = None;
    let mut i: usize = 0;
    while i < fields.len()
        invariant
            f == fields_view(fields@),
            f.len() == fields@.len(),
            i <= fields.len(),
            match found {
                Some(p) => p < i && f[p as int].0 == key@ && forall|j: int|
                    0 <= j < i && #[trigger] f[j].0 == key@ ==> j == p,
                None => forall|j: int| 0 <= j < i ==> #[trigger] f[j].0 != key@,
            },
        decreases fields.len() - i,
    {
        if fields[i].0 == *key {
            if found.is_some() {
                proof {
                    let p = found->0;
                    assert(f[i as int].0 == key@);
                    assert forall|q: int| !sole_key_at(f, key@, q) by {
                        if sole_key_at(f, key@, q) {
                            assert(f[p as int].0 == key@);
                        }
                    }
                }
                return None;
            }
            found = Some(i);
        }
        i = i + 1;
    }
    proof {
        if found is None {
            assert forall|q: int| !sole_key_at(f, key@, q) by {
                if sole_key_at(f, key@, q) {
                    assert(f[q].0 == key@);
                }
            }
        }
    }
    found
}

proof fn lemma_sole_value_at(f: FormFields, key: Seq<char>, i: int)
    requires
        sole_key_at(f, key, i),
    ensures
        sole_value(f, key) == Some(f[i].1),
{
    let k = choose|k: int| sole_key_at(f, key, k);
    assert(f[i].0 == key);
    assert(k == i);
}

/// Reads `name` and `email` from decoded form fields and validates them.
/// Each must occur exactly once; other keys are ignored.
pub fn subscriber_from_fields(fields: &Vec<(String, String)>) -> (r: Result<
    NewSubscriber,
    IntakeError,
>)
    ensures
        intake_view(r) == fields_verdict(fields_view(fields@)),
{
    let ghost f = fields_view(fields@);
    let name_key_s = String::from_str("name");
    let email_key_s = String::from_str("email");
    proof {
        reveal_strlit("name");
        reveal_strlit("email");
        assert(name_key_s@ == name_key());
        assert(email_key_s@ == email_key());
    }
    let name_at = find_sole_key(fields, &name_key_s);
    let email_at = find_sole_key(fields, &email_key_s);
    match (name_at, email_at) {
        (Some(n), Some(e)) => {
            proof {
                lemma_sole_value_at(f, name_key(), n as int);
                lemma_sole_value_at(f, email_key(), e as int);
            }
            match parse_subscriber(fields[n].1.as_str(), fields[e].1.as_str()) {
                Ok(s) => Ok(s),
                Err(e) => Err(IntakeError::Rejected(e)),
            }
        },
        _ => Err(IntakeError::MalformedBody),
    }
}

/// Decodes an `application/x-www-form-urlencoded` body and reads a
/// subscriber from it.
pub fn subscriber_from_body(body: &[u8]) -> (r: Result<NewSubscriber, IntakeError>)
    ensures
        intake_view(r) == body_verdict(decoded_form(body@)),
{
    match decode_form(body) {
        None => Err(IntakeError::MalformedBody),
        Some(fields) => subscriber_from_fields(&fields),
    }
}

/// How one subscription request ended.
#[derive(Clone, Copy, Debug, PartialEq, Eq, Structural)]
pub enum IntakeOutcome {
    /// Refused before storage was touched.
    Rejected(IntakeError),
    /// The subscriber was inserted.
    Stored,
    /// The insert failed: the store was unreachable, or the email is already
    /// subscribed. The two are not told apart in the response.
    StoreFailed,
}

pub open spec fn outcome_status(o: IntakeOutcome) -> u16 {
    match o {
        IntakeOutcome::Rejected(_) => 400,
        IntakeOutcome::Stored => 200,
        IntakeOutcome::StoreFailed => 500,
    }
}

/// The HTTP status that answers a subscription request: 400 for a client
/// error, 200 once stored, 500 when storage failed.
pub fn response_status(outcome: IntakeOutcome) -> (r: u16)
    ensures
        r == outcome_status(outcome),
{
    match outcome {
        IntakeOutcome::Rejected(_) => 400,
        IntakeOutcome::Stored => 200,
        IntakeOutcome::StoreFailed => 500,
    }
}

} // verus!

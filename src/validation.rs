//! Validation of the name and email of a subscription request.

use vstd::prelude::*;

verus! {

/// The longest name, in characters, that a subscriber may give.
pub const MAX_NAME_LENGTH: usize = 256;

/// Unicode `White_Space` characters.
pub open spec fn is_whitespace(c: char) -> bool {
    let u = c as u32;
    ||| 0x9 <= u <= 0xd
    ||| u == 0x20
    ||| u == 0x85
    ||| u == 0xa0
    ||| u == 0x1680
    ||| 0x2000 <= u <= 0x200a
    ||| u == 0x2028
    ||| u == 0x2029
    ||| u == 0x202f
    ||| u == 0x205f
    ||| u == 0x3000
}

/// Unicode general category `Cc`: the C0 and C1 control characters and DEL.
pub open spec fn is_control(c: char) -> bool {
    let u = c as u32;
    u <= 0x1f || 0x7f <= u <= 0x9f
}

/// Characters that a name may not hold: control characters and
/// `/ ( ) " < > \ { }`.
pub open spec fn is_forbidden_in_name(c: char) -> bool {
    ||| is_control(c)
    ||| c == '/'
    ||| c == '('
    ||| c == ')'
    ||| c == '"'
    ||| c == '<'
    ||| c == '>'
    ||| c == '\\'
    ||| c == '{'
    ||| c == '}'
}

/// Nothing is left of `s` once whitespace is trimmed from both ends.
pub open spec fn is_blank(s: Seq<char>) -> bool {
    forall|i: int| 0 <= i < s.len() ==> is_whitespace(#[trigger] s[i])
}

pub open spec fn has_forbidden_char(s: Seq<char>) -> bool {
    exists|i: int| 0 <= i < s.len() && is_forbidden_in_name(#[trigger] s[i])
}

/// A name is accepted when it is not blank, holds at most
/// `MAX_NAME_LENGTH` characters and no forbidden character.
pub open spec fn valid_name(s: Seq<char>) -> bool {
    &&& !is_blank(s)
    &&& s.len() <= MAX_NAME_LENGTH
    &&& !has_forbidden_char(s)
}

/// `@` stands at index `i` of `e` and nowhere else.
pub open spec fn sole_at_sign(e: Seq<char>, i: int) -> bool {
    &&& 0 <= i < e.len()
    &&& e[i] == '@'
    &&& forall|j: int| 0 <= j < e.len() && #[trigger] e[j] == '@' ==> j == i
}

/// Some `.` follows index `i` of `e`.
pub open spec fn has_dot_after(e: Seq<char>, i: int) -> bool {
    exists|k: int| i < k < e.len() && #[trigger] e[k] == '.'
}

pub open spec fn has_whitespace(s: Seq<char>) -> bool {
    exists|i: int| 0 <= i < s.len() && is_whitespace(#[trigger] s[i])
}

pub open spec fn has_control(s: Seq<char>) -> bool {
    exists|i: int| 0 <= i < s.len() && is_control(#[trigger] s[i])
}

/// An email is accepted when it holds exactly one `@`, with a non-empty
/// local part before it and a domain after it that holds a `.`, and no
/// whitespace or control character anywhere.
pub open spec fn valid_email(e: Seq<char>) -> bool {
    &&& exists|i: int| #[trigger] sole_at_sign(e, i) && 0 < i && has_dot_after(e, i)
    &&& !has_whitespace(e)
    &&& !has_control(e)
}

fn chars_of(s: &str) -> (v: Vec<char>)
    ensures
        v@ == s@,
{
    let mut v: Vec<char> = Vec::new();
    for c in it: s.chars()
        invariant
            it.seq() == s@,
            v@ == s@.take(it.index() as int),
    {
        proof {
            assert(s@.take(it.index() + 1) == s@.take(it.index() as int).push(c));
        }
        v.push(c);
    }
    proof {
        assert(s@.take(s@.len() as int) == s@);
    }
    v
}

/// Whether `email` is acceptable as a subscriber's email address.
pub fn is_valid_email(email: &str) -> (r: bool)
    ensures
        r == valid_email(email@),
{
    let v = chars_of(email);
    let n = v.len();
    let ghost e = email@;
    let mut at: usize = n;
    let mut clean = true;
    let mut i: usize = 0;
    while i < n
        invariant
            v@ == e,
            n == e.len(),
            i <= n,
            at == n || at < i,
            at == n ==> forall|j: int| 0 <= j < i ==> e[j] != '@',
            at < n ==> e[at as int] == '@' && forall|j: int| 0 <= j < at ==> e[j] != '@',
            clean <==> forall|j: int| 0 <= j < i ==> !is_whitespace(e[j]) && !is_control(e[j]),
        decreases n - i,
    {
        let c = v[i];
        if char_is_whitespace(c) || char_is_control(c) {
            clean = false;
        }
        if c == '@' && at == n {
            at = i;
        }
        i = i + 1;
    }
    if !clean {
        proof {
            let j = choose|j: int| 0 <= j < n && !(!is_whitespace(e[j]) && !is_control(e[j]));
            if is_whitespace(e[j]) {
                assert(has_whitespace(e));
            } else {
                assert(has_control(e));
            }
        }
        return false;
    }
    if at == n || at == 0 {
        proof {
            if valid_email(e) {
                let k = choose|k: int| #[trigger] sole_at_sign(e, k) && 0 < k && has_dot_after(e, k);
                if at == 0 {
                    assert(e[0] == '@');
                }
            }
        }
        return false;
    }
    let mut dot = false;
    let mut other_at = false;
    let mut k: usize = at + 1;
    while k < n
        invariant
            v@ == e,
            n == e.len(),
            at < n,
            at < k <= n,
            dot <==> exists|j: int| at < j < k && #[trigger] e[j] == '.',
            other_at <==> exists|j: int| at < j < k && #[trigger] e[j] == '@',
        decreases n - k,
    {
        if v[k] == '.' {
            dot = true;
        }
        if v[k] == '@' {
            other_at = true;
        }
        k = k + 1;
    }
    proof {
        assert(!has_whitespace(e));
        assert(!has_control(e));
        if !other_at {
            assert(sole_at_sign(e, at as int));
        }
        if dot {
            assert(has_dot_after(e, at as int));
        }
        if valid_email(e) {
            let p = choose|p: int| #[trigger] sole_at_sign(e, p) && 0 < p && has_dot_after(e, p);
            assert(p == at);
            if other_at {
                let j = choose|j: int| at < j < n && #[trigger] e[j] == '@';
                assert(false);
            }
        }
    }
    dot && !other_at
}

fn char_is_whitespace(c: char) -> (r: bool)
    ensures
        r == is_whitespace(c),
{
    let u = c as u32;
    (0x9 <= u && u <= 0xd) || u == 0x20 || u == 0x85 || u == 0xa0 || u == 0x1680 || (0x2000 <= u
        && u <= 0x200a) || u == 0x2028 || u == 0x2029 || u == 0x202f || u == 0x205f || u == 0x3000
}

fn char_is_control(c: char) -> (r: bool)
    ensures
        r == is_control(c),
{
    let u = c as u32;
    u <= 0x1f || (0x7f <= u && u <= 0x9f)
}

fn char_is_forbidden_in_name(c: char) -> (r: bool)
    ensures
        r == is_forbidden_in_name(c),
{
    char_is_control(c) || c == '/' || c == '(' || c == ')' || c == '"' || c == '<' || c == '>'
        || c == '\\' || c == '{' || c == '}'
}

/// Whether `name` is acceptable as a subscriber's name.
pub fn is_valid_name(name: &str) -> (r: bool)
    ensures
        r == valid_name(name@),
{
    let mut blank = true;
    let mut forbidden = false;
    let mut count: usize = 0;
    for c in it: name.chars()
        invariant
            it.seq() == name@,
            count == (if it.index() <= MAX_NAME_LENGTH + 1 {
                it.index()
            } else {
                MAX_NAME_LENGTH + 1
            }),
            blank <==> is_blank(name@.take(it.index() as int)),
            forbidden <==> has_forbidden_char(name@.take(it.index() as int)),
    {
        let ghost before = name@.take(it.index() as int);
        proof {
            assert(name@.take(it.index() + 1) == before.push(c));
            assert(before.push(c)[before.len() as int] == c);
            if has_forbidden_char(before) {
                let j = choose|j: int| 0 <= j < before.len() && is_forbidden_in_name(before[j]);
                assert(before.push(c)[j] == before[j]);
            }
        }
        if !char_is_whitespace(c) {
            blank = false;
        }
        if char_is_forbidden_in_name(c) {
            forbidden = true;
        }
        if count < MAX_NAME_LENGTH + 1 {
            count = count + 1;
        }
    }
    proof {
        assert(name@.take(name@.len() as int) == name@);
    }
    !blank && count <= MAX_NAME_LENGTH && !forbidden
}

/// Why a subscription request was refused.
#[derive(Clone, Copy, Debug, PartialEq, Eq, Structural)]
pub enum SubscriberError {
    InvalidName,
    InvalidEmail,
}

/// The name and email of a subscriber, as plain sequences of characters.
pub struct SubscriberFields {
    pub name: Seq<char>,
    pub email: Seq<char>,
}

/// A subscriber whose name and email have both been accepted.
#[derive(Debug)]
pub struct NewSubscriber {
    name: String,
    email: String,
}

impl View for NewSubscriber {
    type V = SubscriberFields;

    closed spec fn view(&self) -> SubscriberFields {
        SubscriberFields { name: self.name@, email: self.email@ }
    }
}

impl NewSubscriber {
    #[verifier::type_invariant]
    spec fn inv(&self) -> bool {
        valid_name(self.name@) && valid_email(self.email@)
    }

    pub fn name(&self) -> (r: &str)
        ensures
            r@ == self@.name,
            valid_name(r@),
    {
        proof {
            use_type_invariant(self);
        }
        self.name.as_str()
    }

    pub fn email(&self) -> (r: &str)
        ensures
            r@ == self@.email,
            valid_email(r@),
    {
        proof {
            use_type_invariant(self);
        }
        self.email.as_str()
    }
}

/// What validation makes of a name and an email: the name is checked first.
pub open spec fn subscriber_verdict(name: Seq<char>, email: Seq<char>) -> Result<
    SubscriberFields,
    SubscriberError,
> {
    if !valid_name(name) {
        Err(SubscriberError::InvalidName)
    } else if !valid_email(email) {
        Err(SubscriberError::InvalidEmail)
    } else {
        Ok(SubscriberFields { name, email })
    }
}

pub open spec fn verdict_view(r: Result<NewSubscriber, SubscriberError>) -> Result<
    SubscriberFields,
    SubscriberError,
> {
    match r {
        Ok(s) => Ok(s@),
        Err(e) => Err(e),
    }
}

/// Validates a name and an email; the subscriber keeps both as given.
pub fn parse_subscriber(name: &str, email: &str) -> (r: Result<NewSubscriber, SubscriberError>)
    ensures
        verdict_view(r) == subscriber_verdict(name@, email@),
{
    if !is_valid_name(name) {
        return Err(SubscriberError::InvalidName);
    }
    if !is_valid_email(email) {
        return Err(SubscriberError::InvalidEmail);
    }
    Ok(NewSubscriber { name: name.to_owned(), email: email.to_owned() })
}

/// A name that is not blank, is no longer than `MAX_NAME_LENGTH` and holds
/// no forbidden character, together with a valid email, is accepted.
pub proof fn lemma_accepts_valid_fields(name: Seq<char>, email: Seq<char>)
    requires
        !is_blank(name),
        name.len() <= MAX_NAME_LENGTH,
        !has_forbidden_char(name),
        valid_email(email),
    ensures
        subscriber_verdict(name, email) == Ok::<SubscriberFields, SubscriberError>(
            SubscriberFields { name, email },
        ),
{
}

/// A blank name, an over-long one, or one holding a forbidden character is
/// rejected as an invalid name, whatever the email.
pub proof fn lemma_rejects_invalid_name(name: Seq<char>, email: Seq<char>)
    requires
        is_blank(name) || name.len() > MAX_NAME_LENGTH || has_forbidden_char(name),
    ensures
        subscriber_verdict(name, email) == Err::<SubscriberFields, SubscriberError>(
            SubscriberError::InvalidName,
        ),
{
}

/// An email with no `@`, with no `.` after any `@`, or with whitespace is
/// rejected; when the name is valid, the rejection is for the email.
pub proof fn lemma_rejects_invalid_email(name: Seq<char>, email: Seq<char>)
    requires
        (forall|j: int| 0 <= j < email.len() ==> email[j] != '@') || (forall|i: int|
            0 <= i < email.len() && email[i] == '@' ==> !has_dot_after(email, i))
            || has_whitespace(email),
    ensures
        subscriber_verdict(name, email) is Err,
        valid_name(name) ==> subscriber_verdict(name, email) == Err::<
            SubscriberFields,
            SubscriberError,
        >(SubscriberError::InvalidEmail),
{
    assert(!valid_email(email)) by {
        if valid_email(email) {
            let i = choose|i: int| #[trigger] sole_at_sign(email, i) && 0 < i && has_dot_after(email, i);
            assert(email[i] == '@');
        }
    }
}

/// Validation has no hidden state: the same name and email always get the
/// same verdict.
pub proof fn lemma_verdict_is_deterministic(
    name1: Seq<char>,
    email1: Seq<char>,
    name2: Seq<char>,
    email2: Seq<char>,
)
    requires
        name1 == name2,
        email1 == email2,
    ensures
        subscriber_verdict(name1, email1) == subscriber_verdict(name2, email2),
{
}

} // verus!

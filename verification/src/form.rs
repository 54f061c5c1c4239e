//! The submitted form: decoding of an `application/x-www-form-urlencoded`
//! body and the rules that decide whether it is a complete submission.
//!
//! Splitting the body into pairs and percent-decoding them is done by the
//! `form_urlencoded` crate. Everything after that (which pairs count, what
//! makes a submission incomplete, which error is reported) is decided here.

use vstd::prelude::*;

verus! {

/// The (name, value) pairs that `form_urlencoded::parse` yields for a body,
/// in the order in which they stand in it, each already percent-decoded.
pub uninterp spec fn form_pairs(body: Seq<u8>) -> Seq<(Seq<char>, Seq<char>)>;

/// A list of owned pairs, seen as sequences of characters.
pub open spec fn pairs_view(pairs: Seq<(String, String)>) -> Seq<(Seq<char>, Seq<char>)> {
    Seq::new(pairs.len(), |i: int| (pairs[i].0@, pairs[i].1@))
}

/// Calls `form_urlencoded::parse` and collects what it yields.
///
/// Trusted: the result is taken to be `form_pairs` of the body. The outside
/// function accepts every byte string (bytes that are not UTF-8 after
/// decoding are replaced, never refused), so nothing is required of `body`.
#[verifier::external_body]
fn decode_pairs(body: &[u8]) -> (pairs: Vec<(String, String)>)
    ensures
        pairs_view(pairs@) == form_pairs(body@),
{
    form_urlencoded::parse(body).into_owned().collect()
}

/// Why a body is not a complete submission.
#[derive(Debug, Clone, Copy, PartialEq, Eq, Structural)]
pub enum ValidationError {
    /// `email` or `name` is given more than once.
    RepeatedField,
    /// No pair is named `email`.
    MissingEmail,
    /// No pair is named `name`.
    MissingName,
    /// `email` is given, with nothing in it.
    EmptyEmail,
    /// `name` is given, with nothing in it.
    EmptyName,
}

/// The two fields of a submission, as sequences of characters.
pub ghost struct FormFields {
    pub email: Seq<char>,
    pub name: Seq<char>,
}

/// Name of the pair that carries the subscriber's address.
pub open spec fn email_key() -> Seq<char> {
    "email"@
}

/// Name of the pair that carries the subscriber's name.
pub open spec fn name_key() -> Seq<char> {
    "name"@
}

/// The values of all pairs with the given name, in the order of the pairs.
pub open spec fn values_of(pairs: Seq<(Seq<char>, Seq<char>)>, key: Seq<char>) -> Seq<Seq<char>>
    decreases pairs.len(),
{
    if pairs.len() == 0 {
        Seq::empty()
    } else if pairs.last().0 == key {
        values_of(pairs.drop_last(), key).push(pairs.last().1)
    } else {
        values_of(pairs.drop_last(), key)
    }
}

/// What two strings are as a submission: both must hold something, and the
/// address is looked at first.
pub open spec fn checked(email: Seq<char>, name: Seq<char>) -> Result<FormFields, ValidationError> {
    if email.len() == 0 {
        Err(ValidationError::EmptyEmail)
    } else if name.len() == 0 {
        Err(ValidationError::EmptyName)
    } else {
        Ok(FormFields { email, name })
    }
}

/// What a list of decoded pairs is as a submission.
///
/// `email` and `name` must each occur exactly once and hold something; pairs
/// with other names are passed over. A repeated field is reported before a
/// missing one, a missing one before an empty one, and `email` before `name`.
pub open spec fn form_of(pairs: Seq<(Seq<char>, Seq<char>)>) -> Result<FormFields, ValidationError> {
    let emails = values_of(pairs, email_key());
    let names = values_of(pairs, name_key());
    if emails.len() > 1 || names.len() > 1 {
        Err(ValidationError::RepeatedField)
    } else if emails.len() == 0 {
        Err(ValidationError::MissingEmail)
    } else if names.len() == 0 {
        Err(ValidationError::MissingName)
    } else {
        checked(emails[0], names[0])
    }
}

/// Whether decoded pairs are a complete submission: `email` and `name` each
/// stand exactly once, with something in them.
pub open spec fn is_complete(pairs: Seq<(Seq<char>, Seq<char>)>) -> bool {
    let emails = values_of(pairs, email_key());
    let names = values_of(pairs, name_key());
    emails.len() == 1 && names.len() == 1 && emails[0].len() > 0 && names[0].len() > 0
}

/// A list of pairs gives a submission exactly if it is complete, and the
/// submission then holds the one address and the one name.
pub proof fn lemma_accepted_iff_complete(pairs: Seq<(Seq<char>, Seq<char>)>)
    ensures
        form_of(pairs) is Ok <==> is_complete(pairs),
        is_complete(pairs) ==> form_of(pairs) == Ok::<FormFields, ValidationError>(
            FormFields {
                email: values_of(pairs, email_key())[0],
                name: values_of(pairs, name_key())[0],
            },
        ),
{
}

/// Whether an outcome of decoding is the one that the rules give.
pub open spec fn agrees(
    result: Result<FormData, ValidationError>,
    expected: Result<FormFields, ValidationError>,
) -> bool {
    match expected {
        Ok(fields) => result matches Ok(form) && form@ == fields,
        Err(error) => result matches Err(e) && e == error,
    }
}

/// A complete submission: an address and a name, neither of them empty.
#[derive(Debug)]
pub struct FormData {
    email: String,
    name: String,
}

impl View for FormData {
    type V = FormFields;

    closed spec fn view(&self) -> FormFields {
        FormFields { email: self.email@, name: self.name@ }
    }
}

impl FormData {
    #[verifier::type_invariant]
    spec fn complete(self) -> bool {
        self.email@.len() > 0 && self.name@.len() > 0
    }

    /// Makes a submission of two strings, if both hold something.
    pub fn new(email: String, name: String) -> (result: Result<FormData, ValidationError>)
        ensures
            agrees(result, checked(email@, name@)),
    {
        if email.as_str().is_empty() {
            Err(ValidationError::EmptyEmail)
        } else if name.as_str().is_empty() {
            Err(ValidationError::EmptyName)
        } else {
            Ok(FormData { email, name })
        }
    }

    /// Picks the submission out of decoded pairs.
    pub fn from_pairs(pairs: &Vec<(String, String)>) -> (result: Result<
        FormData,
        ValidationError,
    >)
        ensures
            agrees(result, form_of(pairs_view(pairs@))),
    {
        let email_field: String = "email".to_owned();
        let name_field: String = "name".to_owned();
        let mut email: Option<String> = None;
        let mut name: Option<String> = None;
        let mut repeated: bool = false;
        let ghost all = pairs_view(pairs@);
        let mut i: usize = 0;
        while i < pairs.len()
            invariant
                i <= pairs.len(),
                all == pairs_view(pairs@),
                email_field@ == email_key(),
                name_field@ == name_key(),
                repeated <==> (values_of(all.take(i as int), email_key()).len() > 1 || values_of(
                    all.take(i as int),
                    name_key(),
                ).len() > 1),
                email is None <==> values_of(all.take(i as int), email_key()).len() == 0,
                email matches Some(e) ==> values_of(all.take(i as int), email_key())[0] == e@,
                name is None <==> values_of(all.take(i as int), name_key()).len() == 0,
                name matches Some(n) ==> values_of(all.take(i as int), name_key())[0] == n@,
            decreases pairs.len() - i,
        {
            proof {
                assert(all.take(i + 1).drop_last() =~= all.take(i as int));
                assert(all.take(i + 1).last() == (pairs@[i as int].0@, pairs@[i as int].1@));
            }
            let pair = &pairs[i];
            if pair.0 == email_field {
                if email.is_some() {
                    repeated = true;
                } else {
                    email = Some(pair.1.clone());
                }
            }
            if pair.0 == name_field {
                if name.is_some() {
                    repeated = true;
                } else {
                    name = Some(pair.1.clone());
                }
            }
            i = i + 1;
        }
        proof {
            assert(all.take(i as int) =~= all);
        }
        if repeated {
            return Err(ValidationError::RepeatedField);
        }
        match (email, name) {
            (None, _) => Err(ValidationError::MissingEmail),
            (Some(_), None) => Err(ValidationError::MissingName),
            (Some(email), Some(name)) => FormData::new(email, name),
        }
    }

    /// Decodes a request body and picks the submission out of it.
    pub fn parse(body: &[u8]) -> (result: Result<FormData, ValidationError>)
        ensures
            agrees(result, form_of(form_pairs(body@))),
    {
        let pairs = decode_pairs(body);
        FormData::from_pairs(&pairs)
    }

    /// The subscriber's address.
    pub fn email(&self) -> (email: &str)
        ensures
            email@ == self@.email,
            email@.len() > 0,
    {
        proof {
            use_type_invariant(self);
        }
        self.email.as_str()
    }

    /// The subscriber's name.
    pub fn name(&self) -> (name: &str)
        ensures
            name@ == self@.name,
            name@.len() > 0,
    {
        proof {
            use_type_invariant(self);
        }
        self.name.as_str()
    }
}

} // verus!

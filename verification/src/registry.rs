//! Reading the answers of the pseudonym registry.

use crate::error::RegistryError;
use crate::json::{parse, parsed_json, Json, JsonView};
use crate::reply::{is_success, succeeded, RegistryReply, RegistryReplyView};
use crate::session::{session_id, session_id_of};
use vstd::prelude::*;

verus! {

/// The member of a token answer that holds the token.
pub const TOKEN_MEMBER: &'static str = "tokenId";

/// The member of a match that holds its identifiers.
pub const IDS_MEMBER: &'static str = "ids";

/// The member of an identifier that holds its text.
pub const ID_STRING_MEMBER: &'static str = "idString";

/// The model of an outcome that carries a text.
pub open spec fn text_outcome<E>(outcome: Result<String, E>) -> Result<Seq<char>, E> {
    match outcome {
        Ok(text) => Ok(text@),
        Err(error) => Err(error),
    }
}

/// The model of an outcome that carries a list of texts.
pub open spec fn texts_outcome<E>(outcome: Result<Vec<String>, E>) -> Result<Seq<Seq<char>>, E> {
    match outcome {
        Ok(texts) => Ok(texts.deep_view()),
        Err(error) => Err(error),
    }
}

/// The token that a token answer holds: the text of its member `tokenId`.
pub open spec fn token_id_of(document: JsonView) -> Option<Seq<char>> {
    match document.member(TOKEN_MEMBER@) {
        Some(token) => token.text(),
        None => None,
    }
}

/// The pseudonym of a match: the text of the member `idString` of the first
/// of its `ids`.
pub open spec fn pseudonym_of(entry: JsonView) -> Option<Seq<char>> {
    match entry.member(IDS_MEMBER@) {
        Some(ids) => match ids.element(0) {
            Some(first) => match first.member(ID_STRING_MEMBER@) {
                Some(id_string) => id_string.text(),
                None => None,
            },
            None => None,
        },
        None => None,
    }
}

/// The pseudonyms of a list of matches, in its order; a match without one is
/// passed over.
pub open spec fn pseudonyms_among(entries: Seq<JsonView>) -> Seq<Seq<char>>
    decreases entries.len(),
{
    if entries.len() == 0 {
        Seq::empty()
    } else {
        let before = pseudonyms_among(entries.drop_last());
        match pseudonym_of(entries.last()) {
            Some(pseudonym) => before.push(pseudonym),
            None => before,
        }
    }
}

/// The pseudonyms that a list answer holds; none where the answer is no
/// list.
pub open spec fn pseudonyms_of(document: JsonView) -> Option<Seq<Seq<char>>> {
    match document {
        JsonView::Array(entries) => Some(pseudonyms_among(entries)),
        _ => None,
    }
}

/// The session that an answer to a session request opens.
pub open spec fn session_outcome(reply: RegistryReplyView) -> Result<Seq<char>, RegistryError> {
    match reply {
        RegistryReplyView::Unreachable => Err(RegistryError::Unreachable),
        RegistryReplyView::Answered { status, location, body } => if !is_success(status) {
            Err(RegistryError::Rejected)
        } else {
            match location {
                Some(location) => match session_id_of(location) {
                    Some(session) => Ok(session),
                    None => Err(RegistryError::MalformedResponse),
                },
                None => Err(RegistryError::MalformedResponse),
            }
        },
    }
}

/// The token that a read document of a token answer gives.
pub open spec fn token_in(document: Option<JsonView>) -> Result<Seq<char>, RegistryError> {
    match document {
        Some(document) => match token_id_of(document) {
            Some(token) => Ok(token),
            None => Err(RegistryError::MalformedResponse),
        },
        None => Err(RegistryError::MalformedResponse),
    }
}

/// The token that an answer to a token request gives.
pub open spec fn token_outcome(reply: RegistryReplyView) -> Result<Seq<char>, RegistryError> {
    match reply {
        RegistryReplyView::Unreachable => Err(RegistryError::Unreachable),
        RegistryReplyView::Answered { status, location, body } => if !is_success(status) {
            Err(RegistryError::NotConfigured)
        } else {
            token_in(parsed_json(body))
        },
    }
}

/// The pseudonyms that a read document of a list answer gives.
pub open spec fn pseudonyms_in(document: Option<JsonView>) -> Result<
    Seq<Seq<char>>,
    RegistryError,
> {
    match document {
        Some(document) => match pseudonyms_of(document) {
            Some(pseudonyms) => Ok(pseudonyms),
            None => Err(RegistryError::MalformedResponse),
        },
        None => Err(RegistryError::MalformedResponse),
    }
}

/// The pseudonyms that an answer to a request for the patients of a token
/// gives.
pub open spec fn patients_outcome(reply: RegistryReplyView) -> Result<
    Seq<Seq<char>>,
    RegistryError,
> {
    match reply {
        RegistryReplyView::Unreachable => Err(RegistryError::Unreachable),
        RegistryReplyView::Answered { status, location, body } => if !is_success(status) {
            Err(RegistryError::Rejected)
        } else {
            pseudonyms_in(parsed_json(body))
        },
    }
}

/// Reads the token out of a token answer.
pub fn token_id(document: &Json) -> (token: Option<String>)
    ensures
        token.deep_view() == token_id_of(document@),
{
    let name = String::from_str(TOKEN_MEMBER);
    match document.member(&name) {
        Some(found) => match found.text() {
            Some(text) => Some(text.clone()),
            None => None,
        },
        None => None,
    }
}

/// Reads the pseudonym out of a match.
pub fn pseudonym(entry: &Json) -> (pseudonym: Option<String>)
    ensures
        pseudonym.deep_view() == pseudonym_of(entry@),
{
    let ids = String::from_str(IDS_MEMBER);
    let id_string = String::from_str(ID_STRING_MEMBER);
    match entry.member(&ids) {
        Some(ids) => match ids.element(0) {
            Some(first) => match first.member(&id_string) {
                Some(found) => match found.text() {
                    Some(text) => Some(text.clone()),
                    None => None,
                },
                None => None,
            },
            None => None,
        },
        None => None,
    }
}

/// Reads the pseudonyms out of a list answer: one for each match that has
/// one, in the order of the matches. An answer that is no list gives none.
pub fn pseudonyms(document: &Json) -> (pseudonyms: Option<Vec<String>>)
    ensures
        pseudonyms.deep_view() == pseudonyms_of(document@),
{
    match document {
        Json::Array(entries) => {
            let ghost all = document@->Array_0;
            let mut found: Vec<String> = Vec::new();
            let mut i: usize = 0;
            assert(all.take(0) =~= Seq::<JsonView>::empty());
            while i < entries.len()
                invariant
                    i <= entries.len(),
                    document@ == JsonView::Array(all),
                    all.len() == entries.len(),
                    forall|j: int|
                        0 <= j < entries.len() ==> all[j] == #[trigger] entries[j].deep_view(),
                    found.deep_view() == pseudonyms_among(all.take(i as int)),
                decreases entries.len() - i,
            {
                let ghost before = found.deep_view();
                assert(all.take(i + 1).drop_last() =~= all.take(i as int));
                assert(all.take(i + 1).last() == all[i as int]);
                match pseudonym(&entries[i]) {
                    Some(text) => {
                        found.push(text);
                        assert(found.deep_view() =~= before.push(text@));
                    },
                    None => {},
                }
                i += 1;
            }
            assert(all.take(i as int) =~= all);
            Some(found)
        },
        _ => None,
    }
}

/// Reads the answer to a session request.
///
/// The session is the identifier that the location header names. An answer
/// that did not arrive is `Unreachable`, one with a status that is no
/// success is `Rejected`, and one without a location header, or with one
/// that names no session, is a `MalformedResponse`.
pub fn session_from(reply: &RegistryReply) -> (outcome: Result<String, RegistryError>)
    ensures
        text_outcome(outcome) == session_outcome(reply@),
{
    match reply {
        RegistryReply::Unreachable => Err(RegistryError::Unreachable),
        RegistryReply::Answered { status, location, body } => {
            if !succeeded(*status) {
                return Err(RegistryError::Rejected);
            }
            match location {
                Some(location) => match session_id(location.as_str()) {
                    Some(session) => Ok(session),
                    None => Err(RegistryError::MalformedResponse),
                },
                None => Err(RegistryError::MalformedResponse),
            }
        },
    }
}

/// Reads the answer to a token request.
///
/// The token is the text of the member `tokenId` of the body. An answer that
/// did not arrive is `Unreachable`, one with a status that is no success
/// means that the project is `NotConfigured` in the category asked for, and
/// one with a body that is no JSON document, or that lacks the token, is a
/// `MalformedResponse`.
pub fn token_from(reply: &RegistryReply) -> (outcome: Result<String, RegistryError>)
    ensures
        text_outcome(outcome) == token_outcome(reply@),
{
    match reply {
        RegistryReply::Unreachable => Err(RegistryError::Unreachable),
        RegistryReply::Answered { status, location, body } => {
            if !succeeded(*status) {
                return Err(RegistryError::NotConfigured);
            }
            match parse(body.as_slice()) {
                Some(document) => match token_id(&document) {
                    Some(token) => Ok(token),
                    None => Err(RegistryError::MalformedResponse),
                },
                None => Err(RegistryError::MalformedResponse),
            }
        },
    }
}

/// Reads the answer to a request for the patients of a token.
///
/// The body is a list of matches, and each match that has a pseudonym gives
/// one; a list without matches gives an empty list. An answer that did not
/// arrive is `Unreachable`, one with a status that is no success is
/// `Rejected`, and one with a body that is no JSON list is a
/// `MalformedResponse`.
pub fn patients_from(reply: &RegistryReply) -> (outcome: Result<Vec<String>, RegistryError>)
    ensures
        texts_outcome(outcome) == patients_outcome(reply@),
{
    match reply {
        RegistryReply::Unreachable => Err(RegistryError::Unreachable),
        RegistryReply::Answered { status, location, body } => {
            if !succeeded(*status) {
                return Err(RegistryError::Rejected);
            }
            match parse(body.as_slice()) {
                Some(document) => match pseudonyms(&document) {
                    Some(found) => Ok(found),
                    None => Err(RegistryError::MalformedResponse),
                },
                None => Err(RegistryError::MalformedResponse),
            }
        },
    }
}

} // verus!

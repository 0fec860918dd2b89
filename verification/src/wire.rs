//! The messages exchanged with the certificate authority.
//!
//! A message is a sequence of frames. A request opens with the verb and
//! goes on with the verb's arguments, all of them text. A reply opens with
//! a status frame, `Ok` or `Err`. What follows `Ok` depends on the verb;
//! what follows `Err` is one frame with the authority's message. A reply is
//! decoded in two steps: the status first, then what follows it.

use vstd::prelude::*;
use vstd::utf8::decode_utf8;
use vstd::utf8::encode_utf8;
use vstd::utf8::valid_utf8;
use crate::auth::Error;
use crate::cert::is_key_text;
use crate::cert::Cert;
use crate::cert::CertView;
use crate::text::bytes_eq;
use crate::text::decode_text;

verus! {

/// Verb that asks for the names of the certificates of one type.
pub const VERB_LIST: &'static str = "cert::list";

/// Verb that asks for a new certificate.
pub const VERB_CREATE: &'static str = "cert::create";

/// Verb that asks for a certificate to be revoked.
pub const VERB_DELETE: &'static str = "cert::delete";

/// Status frame of a reply that grants the request.
pub const STATUS_OK: &'static str = "Ok";

/// Status frame of a reply that refuses the request.
pub const STATUS_ERR: &'static str = "Err";

/// The status that opens a reply.
#[derive(Clone, Copy, Debug, PartialEq, Eq, Structural)]
pub enum Status {
    /// The frame `Ok`: the request is granted.
    Granted,
    /// The frame `Err`: the request is refused.
    Refused,
}

/// What a reply means for a request that answers with a `T`.
pub enum Outcome<T> {
    /// The authority granted the request, with this answer.
    Granted(T),
    /// The authority refused the request, with this message.
    Refused(Seq<char>),
    /// The reply breaks the protocol.
    Malformed,
}

/// The texts held by a vector of strings.
pub open spec fn texts(v: Seq<String>) -> Seq<Seq<char>> {
    Seq::new(v.len(), |i: int| v[i]@)
}

/// The frames held by a vector of byte vectors.
pub open spec fn frames(v: Seq<Vec<u8>>) -> Seq<Seq<u8>> {
    Seq::new(v.len(), |i: int| v[i]@)
}

/// The request for the names of the certificates of type `cert_type`.
pub open spec fn list_request_spec(cert_type: Seq<char>) -> Seq<Seq<char>> {
    seq![VERB_LIST@, cert_type]
}

/// The request for a new certificate of type `cert_type` called `name`.
pub open spec fn create_request_spec(cert_type: Seq<char>, name: Seq<char>) -> Seq<Seq<char>> {
    seq![VERB_CREATE@, cert_type, name]
}

/// The request to revoke the certificate called `name`.
pub open spec fn delete_request_spec(name: Seq<char>) -> Seq<Seq<char>> {
    seq![VERB_DELETE@, name]
}

/// The status of `reply`: that of its first frame, if that is exactly
/// `Ok` or `Err`.
pub open spec fn status_spec(reply: Seq<Seq<u8>>) -> Option<Status> {
    if reply.len() == 0 {
        None
    } else if reply[0] == encode_utf8(STATUS_OK@) {
        Some(Status::Granted)
    } else if reply[0] == encode_utf8(STATUS_ERR@) {
        Some(Status::Refused)
    } else {
        None
    }
}

/// The message of a reply with status `Err`: the one frame that follows
/// the status, if it is alone and is text.
pub open spec fn refusal_spec(reply: Seq<Seq<u8>>) -> Option<Seq<char>> {
    if reply.len() == 2 && valid_utf8(reply[1]) {
        Some(decode_utf8(reply[1]))
    } else {
        None
    }
}

/// What a reply with status `Err` means: a refusal with the authority's
/// message, or a breach of the protocol.
pub open spec fn refused<T>(reply: Seq<Seq<u8>>) -> Outcome<T> {
    match refusal_spec(reply) {
        Some(message) => Outcome::Refused(message),
        None => Outcome::Malformed,
    }
}

/// What `reply` means for a request to list: after `Ok`, every frame is a
/// name, in the order in which they came.
pub open spec fn list_reply_spec(reply: Seq<Seq<u8>>) -> Outcome<Seq<Seq<char>>> {
    match status_spec(reply) {
        Some(Status::Granted) => if forall|i: int| 1 <= i < reply.len() ==> valid_utf8(#[trigger] reply[i]) {
            Outcome::Granted(Seq::new((reply.len() - 1) as nat, |i: int| decode_utf8(reply[i + 1])))
        } else {
            Outcome::Malformed
        },
        Some(Status::Refused) => refused(reply),
        None => Outcome::Malformed,
    }
}

/// What `reply` means for a request to create: after `Ok`, exactly three
/// frames, the public key, the secret key and the metadata. The keys are
/// well-formed key texts; the metadata is any bytes.
pub open spec fn create_reply_spec(reply: Seq<Seq<u8>>) -> Outcome<CertView> {
    match status_spec(reply) {
        Some(Status::Granted) => if reply.len() == 4 && valid_utf8(reply[1]) && valid_utf8(reply[2])
            && is_key_text(decode_utf8(reply[1])) && is_key_text(decode_utf8(reply[2])) {
            Outcome::Granted(
                CertView {
                    public_key: decode_utf8(reply[1]),
                    secret_key: decode_utf8(reply[2]),
                    metadata: reply[3],
                },
            )
        } else {
            Outcome::Malformed
        },
        Some(Status::Refused) => refused(reply),
        None => Outcome::Malformed,
    }
}

/// What `reply` means for a request to delete: after `Ok`, nothing.
pub open spec fn delete_reply_spec(reply: Seq<Seq<u8>>) -> Outcome<()> {
    match status_spec(reply) {
        Some(Status::Granted) => if reply.len() == 1 {
            Outcome::Granted(())
        } else {
            Outcome::Malformed
        },
        Some(Status::Refused) => refused(reply),
        None => Outcome::Malformed,
    }
}

/// The request for the names of the certificates of type `cert_type`.
pub fn list_request(cert_type: &str) -> (req: Vec<String>)
    ensures
        texts(req@) == list_request_spec(cert_type@),
{
    let mut req: Vec<String> = Vec::new();
    req.push(VERB_LIST.to_owned());
    req.push(cert_type.to_owned());
    assert(texts(req@) =~= list_request_spec(cert_type@));
    req
}

/// The request for a new certificate of type `cert_type` called `name`.
pub fn create_request(cert_type: &str, name: &str) -> (req: Vec<String>)
    ensures
        texts(req@) == create_request_spec(cert_type@, name@),
{
    let mut req: Vec<String> = Vec::new();
    req.push(VERB_CREATE.to_owned());
    req.push(cert_type.to_owned());
    req.push(name.to_owned());
    assert(texts(req@) =~= create_request_spec(cert_type@, name@));
    req
}

/// The request to revoke the certificate called `name`.
pub fn delete_request(name: &str) -> (req: Vec<String>)
    ensures
        texts(req@) == delete_request_spec(name@),
{
    let mut req: Vec<String> = Vec::new();
    req.push(VERB_DELETE.to_owned());
    req.push(name.to_owned());
    assert(texts(req@) =~= delete_request_spec(name@));
    req
}

/// Reads the status of a reply.
pub fn status(reply: &Vec<Vec<u8>>) -> (s: Option<Status>)
    ensures
        s == status_spec(frames(reply@)),
{
    if reply.len() == 0 {
        None
    } else if bytes_eq(reply[0].as_slice(), STATUS_OK.as_bytes()) {
        Some(Status::Granted)
    } else if bytes_eq(reply[0].as_slice(), STATUS_ERR.as_bytes()) {
        Some(Status::Refused)
    } else {
        None
    }
}

/// Reads what follows the status `Err`: the authority's message if it is
/// the only frame and is text, else a breach of the protocol.
fn refusal(reply: &Vec<Vec<u8>>) -> (e: Error)
    requires
        reply.len() >= 1,
    ensures
        match refusal_spec(frames(reply@)) {
            Some(m) => e matches Error::AuthorityError(text) && text@ == m,
            None => e matches Error::MalformedReply,
        },
{
    if reply.len() != 2 {
        return Error::MalformedReply;
    }
    match decode_text(reply[1].as_slice()) {
        Some(message) => Error::AuthorityError(message),
        None => Error::MalformedReply,
    }
}

/// Decodes the reply to a request to list.
pub fn parse_list_reply(reply: &Vec<Vec<u8>>) -> (r: Result<Vec<String>, Error>)
    ensures
        match list_reply_spec(frames(reply@)) {
            Outcome::Granted(names) => r matches Ok(v) && texts(v@) == names,
            Outcome::Refused(m) => r matches Err(Error::AuthorityError(text)) && text@ == m,
            Outcome::Malformed => r matches Err(Error::MalformedReply),
        },
{
    match status(reply) {
        Some(Status::Granted) => {
            let mut names: Vec<String> = Vec::new();
            let mut i: usize = 1;
            while i < reply.len()
                invariant
                    1 <= i <= reply.len(),
                    names.len() == i - 1,
                    forall|k: int| 1 <= k < i ==> valid_utf8(#[trigger] frames(reply@)[k]),
                    forall|k: int|
                        0 <= k < i - 1 ==> (#[trigger] names@[k])@ == decode_utf8(
                            frames(reply@)[k + 1],
                        ),
                decreases reply.len() - i,
            {
                assert(frames(reply@)[i as int] == reply@[i as int]@);
                match decode_text(reply[i].as_slice()) {
                    Some(name) => {
                        names.push(name);
                    },
                    None => {
                        return Err(Error::MalformedReply);
                    },
                }
                i += 1;
            }
            assert(texts(names@) =~= Seq::new(
                (reply.len() - 1) as nat,
                |i: int| decode_utf8(frames(reply@)[i + 1]),
            ));
            Ok(names)
        },
        Some(Status::Refused) => Err(refusal(reply)),
        None => Err(Error::MalformedReply),
    }
}

/// Decodes the reply to a request to create.
pub fn parse_create_reply(reply: &Vec<Vec<u8>>) -> (r: Result<Cert, Error>)
    ensures
        match create_reply_spec(frames(reply@)) {
            Outcome::Granted(cert) => r matches Ok(c) && c@ == cert && c.wf(),
            Outcome::Refused(m) => r matches Err(Error::AuthorityError(text)) && text@ == m,
            Outcome::Malformed => r matches Err(Error::MalformedReply),
        },
{
    match status(reply) {
        Some(Status::Granted) => {
            if reply.len() != 4 {
                return Err(Error::MalformedReply);
            }
            let public_txt = match decode_text(reply[1].as_slice()) {
                Some(text) => text,
                None => {
                    return Err(Error::MalformedReply);
                },
            };
            let secret_txt = match decode_text(reply[2].as_slice()) {
                Some(text) => text,
                None => {
                    return Err(Error::MalformedReply);
                },
            };
            match Cert::new(public_txt.as_str(), secret_txt.as_str()) {
                Some(mut cert) => {
                    cert.decode_meta(reply[3].clone());
                    Ok(cert)
                },
                None => Err(Error::MalformedReply),
            }
        },
        Some(Status::Refused) => Err(refusal(reply)),
        None => Err(Error::MalformedReply),
    }
}

/// Decodes the reply to a request to delete.
pub fn parse_delete_reply(reply: &Vec<Vec<u8>>) -> (r: Result<(), Error>)
    ensures
        match delete_reply_spec(frames(reply@)) {
            Outcome::Granted(_) => r matches Ok(_),
            Outcome::Refused(m) => r matches Err(Error::AuthorityError(text)) && text@ == m,
            Outcome::Malformed => r matches Err(Error::MalformedReply),
        },
{
    match status(reply) {
        Some(Status::Granted) => {
            if reply.len() == 1 {
                Ok(())
            } else {
                Err(Error::MalformedReply)
            }
        },
        Some(Status::Refused) => Err(refusal(reply)),
        None => Err(Error::MalformedReply),
    }
}

/// A reply without a status frame, or with one that is neither `Ok` nor
/// `Err`, breaks the protocol whatever the request was.
pub proof fn lemma_unknown_status_is_malformed(reply: Seq<Seq<u8>>)
    requires
        status_spec(reply) is None,
    ensures
        list_reply_spec(reply) is Malformed,
        create_reply_spec(reply) is Malformed,
        delete_reply_spec(reply) is Malformed,
{
}

/// A reply with the wrong number of frames for its status and its request
/// breaks the protocol: a refusal has one frame after the status, a
/// granted create three, a granted delete none.
pub proof fn lemma_wrong_frame_count_is_malformed(reply: Seq<Seq<u8>>)
    ensures
        status_spec(reply) == Some(Status::Refused) && reply.len() != 2 ==> list_reply_spec(reply)
            is Malformed && create_reply_spec(reply) is Malformed && delete_reply_spec(reply)
            is Malformed,
        status_spec(reply) == Some(Status::Granted) && reply.len() != 4 ==> create_reply_spec(
            reply,
        ) is Malformed,
        status_spec(reply) == Some(Status::Granted) && reply.len() != 1 ==> delete_reply_spec(
            reply,
        ) is Malformed,
{
}

/// A granted list hands on every frame after the status, each as the name
/// it holds and in the order of the reply: none is dropped.
pub proof fn lemma_list_keeps_every_name(reply: Seq<Seq<u8>>)
    ensures
        list_reply_spec(reply) matches Outcome::Granted(names) ==> names.len() == reply.len() - 1
            && forall|i: int|
            0 <= i < names.len() ==> valid_utf8(reply[i + 1]) && #[trigger] names[i]
                == decode_utf8(reply[i + 1]),
{
}

/// A reply is read in one way only: what is granted is not refused, and
/// what breaks the protocol is neither.
pub proof fn lemma_status_decides(reply: Seq<Seq<u8>>)
    ensures
        list_reply_spec(reply) is Granted ==> status_spec(reply) == Some(Status::Granted),
        create_reply_spec(reply) is Granted ==> status_spec(reply) == Some(Status::Granted),
        delete_reply_spec(reply) is Granted ==> status_spec(reply) == Some(Status::Granted),
        list_reply_spec(reply) is Refused ==> status_spec(reply) == Some(Status::Refused),
        create_reply_spec(reply) is Refused ==> status_spec(reply) == Some(Status::Refused),
        delete_reply_spec(reply) is Refused ==> status_spec(reply) == Some(Status::Refused),
{
}

} // verus!

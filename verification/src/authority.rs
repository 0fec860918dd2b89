//! What the client may expect of the certificate authority.
//!
//! The authority is a remote service. This module holds no code that
//! runs: it describes, as mathematical functions, an authority that keeps
//! a record of the names it has issued and answers each request by the
//! rules of the protocol. The laws below are proved of the client's
//! requests and of its reading of the replies, against that description.

use vstd::prelude::*;
use vstd::utf8::decode_utf8;
use vstd::utf8::encode_utf8;
use vstd::utf8::valid_utf8;
use crate::cert::is_key_text;
use crate::cert::CertView;
use crate::text::lemma_encoding_is_injective;
use crate::wire::create_reply_spec;
use crate::wire::create_request_spec;
use crate::wire::delete_reply_spec;
use crate::wire::delete_request_spec;
use crate::wire::list_reply_spec;
use crate::wire::list_request_spec;
use crate::wire::status_spec;
use crate::wire::Outcome;
use crate::wire::Status;
use crate::wire::STATUS_ERR;
use crate::wire::STATUS_OK;
use crate::wire::VERB_CREATE;
use crate::wire::VERB_DELETE;
use crate::wire::VERB_LIST;

verus! {

/// The authority's record: for each type of certificate, the names that
/// hold one, in the order in which they were issued.
pub struct Registry {
    pub names: Map<Seq<char>, Seq<Seq<char>>>,
}

/// What the authority takes from outside when it answers a request.
pub struct Inputs {
    /// The keys and metadata of the certificate it would issue.
    pub fresh: CertView,
    /// The message it would give with a refusal.
    pub complaint: Seq<char>,
}

impl Registry {
    /// The names that hold a certificate of type `cert_type`.
    pub open spec fn listed(self, cert_type: Seq<char>) -> Seq<Seq<char>> {
        if self.names.dom().contains(cert_type) {
            self.names[cert_type]
        } else {
            Seq::<Seq<char>>::empty()
        }
    }

    /// Whether `name` holds a certificate of type `cert_type`.
    pub open spec fn registered(self, cert_type: Seq<char>, name: Seq<char>) -> bool {
        self.listed(cert_type).contains(name)
    }

    /// Whether `name` holds a certificate of any type.
    pub open spec fn known(self, name: Seq<char>) -> bool {
        exists|cert_type: Seq<char>| #[trigger] self.registered(cert_type, name)
    }

    /// No name holds two certificates of one type.
    pub open spec fn wf(self) -> bool {
        forall|cert_type: Seq<char>| (#[trigger] self.listed(cert_type)).no_duplicates()
    }

    /// The record after a certificate of type `cert_type` was issued for
    /// `name`.
    pub open spec fn with(self, cert_type: Seq<char>, name: Seq<char>) -> Registry {
        Registry { names: self.names.insert(cert_type, self.listed(cert_type).push(name)) }
    }

    /// The record after every certificate of `name` was revoked.
    pub open spec fn without(self, name: Seq<char>) -> Registry {
        Registry {
            names: self.names.map_values(
                |names: Seq<Seq<char>>| names.filter(other_than(name)),
            ),
        }
    }
}

/// The test that every name but `name` passes.
pub open spec fn other_than(name: Seq<char>) -> spec_fn(Seq<char>) -> bool {
    |other: Seq<char>| other != name
}

/// Whether `x` stands in `s` at exactly one place.
pub open spec fn occurs_once<A>(s: Seq<A>, x: A) -> bool {
    exists|i: int|
        0 <= i < s.len() && #[trigger] s[i] == x && forall|j: int|
            0 <= j < s.len() && #[trigger] s[j] == x ==> j == i
}

/// The frames that hold `names`.
pub open spec fn name_frames(names: Seq<Seq<char>>) -> Seq<Seq<u8>> {
    Seq::new(names.len(), |i: int| encode_utf8(names[i]))
}

/// The reply that grants a request to list, with `names`.
pub open spec fn names_reply(names: Seq<Seq<char>>) -> Seq<Seq<u8>> {
    seq![encode_utf8(STATUS_OK@)] + name_frames(names)
}

/// The reply that grants a request to create, with `cert`.
pub open spec fn issued_reply(cert: CertView) -> Seq<Seq<u8>> {
    seq![
        encode_utf8(STATUS_OK@),
        encode_utf8(cert.public_key),
        encode_utf8(cert.secret_key),
        cert.metadata,
    ]
}

/// The reply that grants a request to delete.
pub open spec fn deleted_reply() -> Seq<Seq<u8>> {
    seq![encode_utf8(STATUS_OK@)]
}

/// The reply that refuses a request, with `complaint`.
pub open spec fn refusal_reply(complaint: Seq<char>) -> Seq<Seq<u8>> {
    seq![encode_utf8(STATUS_ERR@), encode_utf8(complaint)]
}

/// One exchange: the authority's record after `request`, and its reply.
///
/// - A request to list is granted with the names of that type.
/// - A request to create is refused if the name holds a certificate of
///   that type already; else the certificate is issued and recorded.
/// - A request to delete is refused if the name holds no certificate;
///   else all its certificates are revoked.
/// - Anything else is refused.
///
/// A refusal leaves the record as it was.
pub open spec fn respond(record: Registry, request: Seq<Seq<char>>, inputs: Inputs) -> (
    Registry,
    Seq<Seq<u8>>,
) {
    if request.len() == 2 && request[0] == VERB_LIST@ {
        (record, names_reply(record.listed(request[1])))
    } else if request.len() == 3 && request[0] == VERB_CREATE@ {
        if record.registered(request[1], request[2]) {
            (record, refusal_reply(inputs.complaint))
        } else {
            (record.with(request[1], request[2]), issued_reply(inputs.fresh))
        }
    } else if request.len() == 2 && request[0] == VERB_DELETE@ {
        if record.known(request[1]) {
            (record.without(request[1]), deleted_reply())
        } else {
            (record, refusal_reply(inputs.complaint))
        }
    } else {
        (record, refusal_reply(inputs.complaint))
    }
}

/// The verbs and the two status frames are told apart.
pub proof fn lemma_protocol_words_differ()
    ensures
        VERB_LIST@ != VERB_CREATE@,
        VERB_LIST@ != VERB_DELETE@,
        VERB_CREATE@ != VERB_DELETE@,
        encode_utf8(STATUS_OK@) != encode_utf8(STATUS_ERR@),
{
    reveal_strlit("cert::list");
    reveal_strlit("cert::create");
    reveal_strlit("cert::delete");
    reveal_strlit("Ok");
    reveal_strlit("Err");
    assert(VERB_LIST@.len() == 10);
    assert(VERB_CREATE@.len() == 12);
    assert(VERB_CREATE@[6] == 'c');
    assert(VERB_DELETE@[6] == 'd');
    assert(STATUS_OK@.len() == 2);
    assert(STATUS_ERR@.len() == 3);
    if encode_utf8(STATUS_OK@) == encode_utf8(STATUS_ERR@) {
        lemma_encoding_is_injective(STATUS_OK@, STATUS_ERR@);
    }
}

/// A reply that grants a list is read as the names it was made of.
pub proof fn lemma_names_reply_is_read_back(names: Seq<Seq<char>>)
    ensures
        list_reply_spec(names_reply(names)) == Outcome::Granted(names),
{
    let reply = names_reply(names);
    assert(reply[0] == encode_utf8(STATUS_OK@));
    assert(status_spec(reply) == Some(Status::Granted));
    assert forall|i: int| 1 <= i < reply.len() implies valid_utf8(#[trigger] reply[i]) by {
        assert(reply[i] == encode_utf8(names[i - 1]));
        vstd::utf8::encode_utf8_valid_utf8(names[i - 1]);
    }
    let read = Seq::new((reply.len() - 1) as nat, |i: int| decode_utf8(reply[i + 1]));
    assert forall|i: int| 0 <= i < names.len() implies read[i] == names[i] by {
        assert(reply[i + 1] == encode_utf8(names[i]));
        vstd::utf8::encode_utf8_decode_utf8(names[i]);
    }
    assert(read =~= names);
}

/// A reply that refuses is read as a refusal with the same message,
/// whatever the request was.
pub proof fn lemma_refusal_reply_is_read_back(complaint: Seq<char>)
    ensures
        list_reply_spec(refusal_reply(complaint)) == Outcome::<Seq<Seq<char>>>::Refused(complaint),
        create_reply_spec(refusal_reply(complaint)) == Outcome::<CertView>::Refused(complaint),
        delete_reply_spec(refusal_reply(complaint)) == Outcome::<()>::Refused(complaint),
{
    let reply = refusal_reply(complaint);
    lemma_protocol_words_differ();
    assert(reply[0] == encode_utf8(STATUS_ERR@));
    assert(status_spec(reply) == Some(Status::Refused));
    vstd::utf8::encode_utf8_valid_utf8(complaint);
    vstd::utf8::encode_utf8_decode_utf8(complaint);
    assert(reply[1] == encode_utf8(complaint));
}

/// A reply that issues a certificate with well-formed keys is read as
/// that certificate.
pub proof fn lemma_issued_reply_is_read_back(cert: CertView)
    requires
        is_key_text(cert.public_key),
        is_key_text(cert.secret_key),
    ensures
        create_reply_spec(issued_reply(cert)) == Outcome::Granted(cert),
{
    let reply = issued_reply(cert);
    assert(reply[0] == encode_utf8(STATUS_OK@));
    assert(status_spec(reply) == Some(Status::Granted));
    vstd::utf8::encode_utf8_valid_utf8(cert.public_key);
    vstd::utf8::encode_utf8_decode_utf8(cert.public_key);
    vstd::utf8::encode_utf8_valid_utf8(cert.secret_key);
    vstd::utf8::encode_utf8_decode_utf8(cert.secret_key);
    assert(reply[1] == encode_utf8(cert.public_key));
    assert(reply[2] == encode_utf8(cert.secret_key));
    assert(reply[3] == cert.metadata);
}

/// After a request to add a name, granted or not, a list of the same type
/// holds the name exactly once.
pub proof fn lemma_added_name_is_listed_once(
    record: Registry,
    cert_type: Seq<char>,
    name: Seq<char>,
    at_add: Inputs,
    at_list: Inputs,
)
    requires
        record.wf(),
    ensures
        ({
            let (added, _) = respond(record, create_request_spec(cert_type, name), at_add);
            let (_, reply) = respond(added, list_request_spec(cert_type), at_list);
            list_reply_spec(reply) matches Outcome::Granted(names) && occurs_once(names, name)
        }),
{
    lemma_protocol_words_differ();
    let (added, _) = respond(record, create_request_spec(cert_type, name), at_add);
    let (_, reply) = respond(added, list_request_spec(cert_type), at_list);
    let before = record.listed(cert_type);
    let names = added.listed(cert_type);
    assert(reply == names_reply(names));
    lemma_names_reply_is_read_back(names);
    assert(before.no_duplicates());
    if record.registered(cert_type, name) {
        assert(names == before);
        let i = choose|i: int| 0 <= i < before.len() && before[i] == name;
        assert(names[i] == name);
        assert(occurs_once(names, name));
    } else {
        assert(names == before.push(name));
        let i = before.len() as int;
        assert(names[i] == name);
        assert forall|j: int| 0 <= j < names.len() && #[trigger] names[j] == name implies j
            == i by {
            if j < before.len() {
                assert(before[j] == name);
                assert(before.contains(name));
            }
        }
        assert(occurs_once(names, name));
    }
}

/// A request to delete a name that holds no certificate is refused, and
/// the record stays as it was.
pub proof fn lemma_delete_of_unknown_name_is_refused(
    record: Registry,
    name: Seq<char>,
    inputs: Inputs,
)
    requires
        !record.known(name),
    ensures
        ({
            let (after, reply) = respond(record, delete_request_spec(name), inputs);
            after == record && delete_reply_spec(reply) == Outcome::<()>::Refused(
                inputs.complaint,
            )
        }),
{
    lemma_protocol_words_differ();
    lemma_refusal_reply_is_read_back(inputs.complaint);
}

/// The first request to add a name is granted with the certificate that
/// the authority made; the same request once more is refused.
pub proof fn lemma_second_add_is_refused(
    record: Registry,
    cert_type: Seq<char>,
    name: Seq<char>,
    first: Inputs,
    second: Inputs,
)
    requires
        !record.registered(cert_type, name),
        is_key_text(first.fresh.public_key),
        is_key_text(first.fresh.secret_key),
    ensures
        ({
            let (added, granted) = respond(record, create_request_spec(cert_type, name), first);
            let (after, refused) = respond(added, create_request_spec(cert_type, name), second);
            &&& create_reply_spec(granted) == Outcome::Granted(first.fresh)
            &&& create_reply_spec(refused) == Outcome::<CertView>::Refused(second.complaint)
            &&& after == added
        }),
{
    lemma_protocol_words_differ();
    let (added, granted) = respond(record, create_request_spec(cert_type, name), first);
    lemma_issued_reply_is_read_back(first.fresh);
    lemma_refusal_reply_is_read_back(second.complaint);
    let names = added.listed(cert_type);
    assert(names == record.listed(cert_type).push(name));
    assert(names[names.len() - 1] == name);
    assert(added.registered(cert_type, name));
}

proof fn lemma_filter_keeps_no_duplicates<A>(s: Seq<A>, keep: spec_fn(A) -> bool)
    requires
        s.no_duplicates(),
    ensures
        s.filter(keep).no_duplicates(),
    decreases s.len(),
{
    reveal(Seq::filter);
    if s.len() > 0 {
        let rest = s.drop_last();
        let last = s.last();
        assert forall|i: int, j: int|
            0 <= i < rest.len() && 0 <= j < rest.len() && i != j implies rest[i] != rest[j] by {
            assert(rest[i] == s[i] && rest[j] == s[j]);
        }
        lemma_filter_keeps_no_duplicates(rest, keep);
        let kept = rest.filter(keep);
        if keep(last) {
            let all = kept.push(last);
            assert(!kept.contains(last)) by {
                if kept.contains(last) {
                    rest.lemma_filter_contains_rev(keep, last);
                    let k = choose|k: int| 0 <= k < rest.len() && rest[k] == last;
                    assert(s[k] == s[s.len() - 1]);
                }
            }
            assert forall|i: int, j: int|
                0 <= i < all.len() && 0 <= j < all.len() && i != j implies all[i] != all[j] by {
                if i < kept.len() && j < kept.len() {
                    assert(all[i] == kept[i] && all[j] == kept[j]);
                } else if i < kept.len() {
                    assert(all[i] == kept[i]);
                    if kept[i] == last {
                        assert(kept.contains(last));
                    }
                } else {
                    assert(all[j] == kept[j]);
                    if kept[j] == last {
                        assert(kept.contains(last));
                    }
                }
            }
        }
    }
}

/// Whatever the request, the authority's record stays free of doubles.
pub proof fn lemma_record_stays_well_formed(
    record: Registry,
    request: Seq<Seq<char>>,
    inputs: Inputs,
)
    requires
        record.wf(),
    ensures
        respond(record, request, inputs).0.wf(),
{
    let after = respond(record, request, inputs).0;
    assert forall|cert_type: Seq<char>| (#[trigger] after.listed(cert_type)).no_duplicates() by {
        let before = record.listed(cert_type);
        assert(before.no_duplicates());
        if after == record {
        } else if request.len() == 3 {
            let t = request[1];
            let n = request[2];
            if cert_type == t {
                let names = after.listed(cert_type);
                assert(names == before.push(n));
                assert forall|i: int, j: int|
                    0 <= i < names.len() && 0 <= j < names.len() && i != j implies names[i]
                    != names[j] by {
                    if i < before.len() && j < before.len() {
                    } else if i < before.len() {
                        assert(before[i] == names[i]);
                        if names[i] == n {
                            assert(before.contains(n));
                        }
                    } else {
                        assert(before[j] == names[j]);
                        if names[j] == n {
                            assert(before.contains(n));
                        }
                    }
                }
            } else {
                assert(after.listed(cert_type) == before);
            }
        } else {
            let n = request[1];
            assert(after == record.without(n));
            if record.names.dom().contains(cert_type) {
                assert(after.names.dom().contains(cert_type));
                assert(after.listed(cert_type) == before.filter(other_than(n)));
                lemma_filter_keeps_no_duplicates(before, other_than(n));
            } else {
                assert(after.listed(cert_type) == before);
            }
        }
    }
}

} // verus!

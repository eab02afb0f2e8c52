use vstd::prelude::*;

use crate::errors::{HeaderName, ParseError};
use crate::message::{MessageView, MyMessage};
use crate::mime::{
    addr_entries, decode_mime, mime_first_header, mime_own_body, mime_parses, mime_part_bodies,
    mime_part_types, mime_view, parse_address_list, part_bodies_of, part_types_of, parts_view,
    AddrEntry, EntityView, MimeEntity, MimePart, PartView,
};
use crate::text::{str_eq, trim_end_spec, trim_end_whitespace};

verus! {

/// What the sender stage yields for a `From` header value: the first
/// address of the parsed list, which must be a single plain address.
pub open spec fn spec_sender(from_value: Seq<char>) -> Result<Seq<char>, ParseError> {
    match addr_entries(from_value) {
        None => Err(ParseError::AddressParse),
        Some(entries) => if entries.len() == 0 {
            Err(ParseError::AddressParse)
        } else {
            match entries[0] {
                Some(a) => Ok(a),
                None => Err(ParseError::UnsupportedAddressForm),
            }
        },
    }
}

/// The index of the first part whose content type is exactly `text/plain`.
pub open spec fn first_plain_index(parts: Seq<PartView>) -> Option<int>
    decreases parts.len(),
{
    if parts.len() == 0 {
        None
    } else if parts[0].mimetype == "text/plain"@ {
        Some(0int)
    } else {
        match first_plain_index(parts.drop_first()) {
            Some(i) => Some(i + 1),
            None => None,
        }
    }
}

/// What the body stage yields: the message's own text where there are no
/// subparts, else the text of the first `text/plain` subpart; in either
/// case with trailing whitespace trimmed.
pub open spec fn spec_body(e: EntityView) -> Result<Seq<char>, ParseError> {
    if e.parts.len() == 0 {
        match e.body {
            Some(b) => Ok(trim_end_spec(b)),
            None => Err(ParseError::MalformedMessage),
        }
    } else {
        match first_plain_index(e.parts) {
            None => Err(ParseError::NoPlainTextPart),
            Some(i) => match e.parts[i].body {
                Some(b) => Ok(trim_end_spec(b)),
                None => Err(ParseError::MalformedMessage),
            },
        }
    }
}

/// What extraction yields for a decoded structure: sender, then subject,
/// then body, the first failing stage short-circuiting the rest.
pub open spec fn spec_extract(e: EntityView) -> Result<MessageView, ParseError> {
    match e.from {
        None => Err(ParseError::MissingHeader(HeaderName::From)),
        Some(fv) => match spec_sender(fv) {
            Err(pe) => Err(pe),
            Ok(sender) => match e.subject {
                None => Err(ParseError::MissingHeader(HeaderName::Subject)),
                Some(subj) => match spec_body(e) {
                    Err(pe) => Err(pe),
                    Ok(b) => Ok(MessageView { from: sender, subject: subj, body: b }),
                },
            },
        },
    }
}

/// What parsing yields for raw message bytes.
pub open spec fn spec_parse(raw: Seq<u8>) -> Result<MessageView, ParseError> {
    if !mime_parses(raw) {
        Err(ParseError::MalformedMessage)
    } else {
        spec_extract(mime_view(raw))
    }
}

/// The mathematical content of a parse result.
pub open spec fn res_view(r: Result<MyMessage, ParseError>) -> Result<MessageView, ParseError> {
    match r {
        Ok(m) => Ok(m@),
        Err(e) => Err(e),
    }
}

proof fn lemma_first_plain_at(parts: Seq<PartView>, i: int)
    requires
        0 <= i < parts.len(),
        parts[i].mimetype == "text/plain"@,
        forall|j: int| 0 <= j < i ==> parts[j].mimetype != "text/plain"@,
    ensures
        first_plain_index(parts) == Some(i),
    decreases parts.len(),
{
    if i > 0 {
        let rest = parts.drop_first();
        assert(forall|j: int| 0 <= j < i - 1 ==> rest[j] == parts[j + 1]);
        lemma_first_plain_at(rest, i - 1);
    }
}

proof fn lemma_first_plain_absent(parts: Seq<PartView>)
    requires
        forall|j: int| 0 <= j < parts.len() ==> parts[j].mimetype != "text/plain"@,
    ensures
        first_plain_index(parts) is None,
    decreases parts.len(),
{
    if parts.len() > 0 {
        let rest = parts.drop_first();
        assert(forall|j: int| 0 <= j < rest.len() ==> rest[j] == parts[j + 1]);
        lemma_first_plain_absent(rest);
    }
}

/// The index of the first subpart whose content type is exactly
/// `text/plain`, if any.
fn find_first_plain(parts: &Vec<MimePart>) -> (r: Option<usize>)
    ensures
        r matches Some(i) ==> i < parts@.len() && first_plain_index(parts_view(parts@)) == Some(
            i as int,
        ),
        r is None ==> first_plain_index(parts_view(parts@)) is None,
{
    let ghost pv = parts_view(parts@);
    let mut i: usize = 0;
    while i < parts.len()
        invariant
            i <= parts@.len(),
            pv == parts_view(parts@),
            pv.len() == parts@.len(),
            forall|j: int| 0 <= j < i ==> pv[j].mimetype != "text/plain"@,
        decreases parts@.len() - i,
    {
        if str_eq(parts[i].mimetype.as_str(), "text/plain") {
            proof {
                assert(pv[i as int].mimetype == parts@[i as int]@.mimetype);
                lemma_first_plain_at(pv, i as int);
            }
            return Some(i);
        }
        i += 1;
    }
    proof {
        lemma_first_plain_absent(pv);
    }
    None
}

proof fn lemma_entity_is_mime_view(raw: Seq<u8>, e: EntityView)
    requires
        e.from == mime_first_header(raw, "From"@),
        e.subject == mime_first_header(raw, "Subject"@),
        e.body == mime_own_body(raw),
        part_types_of(e.parts) == mime_part_types(raw),
        part_bodies_of(e.parts) == mime_part_bodies(raw),
    ensures
        e == mime_view(raw),
{
    let mv = mime_view(raw);
    assert(e.parts.len() == mime_part_types(raw).len());
    assert forall|i: int| 0 <= i < e.parts.len() implies e.parts[i] == mv.parts[i] by {
        assert(part_types_of(e.parts)[i] == e.parts[i].mimetype);
        assert(part_bodies_of(e.parts)[i] == e.parts[i].body);
        assert(e.parts[i] =~= mv.parts[i]);
    }
    assert(e.parts =~= mv.parts);
    assert(e =~= mv);
}

/// Extract sender, subject, and body from a decoded structure: the sender
/// is the first address of the parsed `From` value and must be a single
/// plain address; the body comes from the message itself where there are
/// no subparts, else from the first `text/plain` subpart, and loses its
/// trailing whitespace. The first failing stage short-circuits the rest.
pub fn extract_message(e: MimeEntity) -> (r: Result<MyMessage, ParseError>)
    ensures
        res_view(r) == spec_extract(e@),
{
    let ghost ev = e@;
    let MimeEntity { from, subject, body, subparts } = e;
    let from_value = match from {
        Some(v) => v,
        None => {
            return Err(ParseError::MissingHeader(HeaderName::From));
        },
    };
    let mut entries = match parse_address_list(from_value.as_str()) {
        Some(v) => v,
        None => {
            return Err(ParseError::AddressParse);
        },
    };
    if entries.len() == 0 {
        return Err(ParseError::AddressParse);
    }
    let first = entries.remove(0);
    let sender = match first {
        AddrEntry::Single { addr } => addr,
        AddrEntry::Group => {
            return Err(ParseError::UnsupportedAddressForm);
        },
    };
    let subject_value = match subject {
        Some(s) => s,
        None => {
            return Err(ParseError::MissingHeader(HeaderName::Subject));
        },
    };
    let body_candidate: Option<String>;
    if subparts.len() == 0 {
        body_candidate = body;
    } else {
        let mut subparts = subparts;
        match find_first_plain(&subparts) {
            Some(i) => {
                let part = subparts.remove(i);
                body_candidate = part.body;
            },
            None => {
                return Err(ParseError::NoPlainTextPart);
            },
        }
    }
    let body_text = match body_candidate {
        Some(b) => trim_end_whitespace(b.as_str()),
        None => {
            return Err(ParseError::MalformedMessage);
        },
    };
    Ok(MyMessage { from: sender, subject: subject_value, body: body_text })
}

/// Parse raw message bytes into a `MyMessage`, or say exactly why that is
/// impossible: the structure does not decode, a required header is absent,
/// the `From` value has no usable address, a multipart message has no
/// `text/plain` subpart, or the chosen body does not decode to text.
pub fn parse(raw: &[u8]) -> (r: Result<MyMessage, ParseError>)
    ensures
        res_view(r) == spec_parse(raw@),
{
    match decode_mime(raw) {
        None => Err(ParseError::MalformedMessage),
        Some(e) => {
            proof {
                lemma_entity_is_mime_view(raw@, e@);
            }
            extract_message(e)
        },
    }
}

} // verus!

use vstd::prelude::*;

use crate::errors::{FetchError, HeaderName, ParseError};
use crate::message::MessageView;
use crate::mime::{addr_entries, mime_first_header, mime_parses, EntityView};
use crate::parse::{first_plain_index, spec_body, spec_parse, spec_sender};
use crate::session::{spec_advance, Event, Phase, SessionModel};
use crate::text::trim_end_spec;

verus! {

/// A folder with no messages yields an empty sequence, not an error: after
/// the search answers with no identifiers and the logout completes, the
/// session is done with no failure and no messages.
pub proof fn lemma_empty_folder_yields_empty(m: SessionModel, search: Event)
    requires
        m.phase == Phase::Search,
        m.failure is None,
        search matches Event::SearchOk(uids) && uids@.len() == 0,
    ensures
        ({
            let after_search = spec_advance(m, search);
            let after_logout = spec_advance(after_search, Event::LogoutOk);
            &&& after_search.phase == Phase::Logout
            &&& after_search.messages.len() == 0
            &&& after_search.failure is None
            &&& after_logout.phase == Phase::Done
            &&& after_logout.messages.len() == 0
            &&& after_logout.failure is None
        }),
{
}

/// A message that parses is appended, in order, and fetching moves on to
/// the next identifier without touching any earlier result.
pub proof fn lemma_fetch_appends_in_order(m: SessionModel, fetch: Event)
    requires
        m.phase == Phase::Fetch,
    ensures
        fetch matches Event::FetchOk(raw) ==> spec_parse(raw@) matches Ok(mv) ==> ({
            let after = spec_advance(m, fetch);
            &&& after.messages == m.messages.push(mv)
            &&& after.next == m.next + 1
            &&& after.failure == m.failure
            &&& after.uids == m.uids
        }),
{
}

/// One malformed message fails the whole batch with that single error: the
/// session stops fetching, keeps no partial result beyond what it already
/// held, and once the logout completes the outcome is exactly that error.
pub proof fn lemma_malformed_message_fails_batch(m: SessionModel, fetch: Event)
    requires
        m.phase == Phase::Fetch,
    ensures
        fetch matches Event::FetchOk(raw) ==> spec_parse(raw@) matches Err(pe) ==> ({
            let after_fetch = spec_advance(m, fetch);
            let after_logout = spec_advance(after_fetch, Event::LogoutOk);
            &&& after_fetch.phase == Phase::Logout
            &&& after_fetch.failure == Some(FetchError::Parse(pe))
            &&& after_fetch.messages == m.messages
            &&& after_logout.phase == Phase::Done
            &&& after_logout.failure == Some(FetchError::Parse(pe))
            &&& after_logout.messages == m.messages
        }),
{
}

/// Where the `From` header value parses to an address list whose first
/// entry is a single plain address, a successfully parsed message carries
/// exactly that address as its sender.
pub proof fn lemma_sender_is_exact_address(raw: Seq<u8>, a: Seq<char>)
    ensures
        mime_parses(raw) ==> (mime_first_header(raw, "From"@) matches Some(fv) ==> (addr_entries(
            fv,
        ) matches Some(es) ==> ((es.len() > 0 && es[0] == Some(a)) ==> (spec_parse(
            raw,
        ) matches Ok(m) ==> m.from == a)))),
{
}

/// A message without a `Subject` header, whose sender stage succeeds, fails
/// to parse with exactly a missing-`Subject` error, and so produces no
/// message at all.
pub proof fn lemma_missing_subject_fails(raw: Seq<u8>)
    ensures
        mime_parses(raw) ==> (mime_first_header(raw, "Subject"@) is None ==> (mime_first_header(
            raw,
            "From"@,
        ) matches Some(fv) ==> (spec_sender(fv) is Ok ==> spec_parse(raw) == Err::<
            MessageView,
            ParseError,
        >(ParseError::MissingHeader(HeaderName::Subject))))),
{
}

/// For a multipart structure whose parts are `text/html`, `text/plain`,
/// `text/plain`, the body is taken from the first `text/plain` part, the
/// one in the middle, not the second.
pub proof fn lemma_first_plain_part_chosen(e: EntityView)
    ensures
        (e.parts.len() == 3 && e.parts[0].mimetype == "text/html"@ && e.parts[1].mimetype
            == "text/plain"@ && e.parts[2].mimetype == "text/plain"@) ==> (first_plain_index(
            e.parts,
        ) == Some(1int) && (e.parts[1].body matches Some(b) ==> spec_body(e) == Ok::<
            Seq<char>,
            ParseError,
        >(trim_end_spec(b)))),
{
    if e.parts.len() == 3 && e.parts[0].mimetype == "text/html"@ && e.parts[1].mimetype
        == "text/plain"@ && e.parts[2].mimetype == "text/plain"@ {
        reveal_strlit("text/html");
        reveal_strlit("text/plain");
        assert("text/html"@.len() == 9);
        assert("text/plain"@.len() == 10);
        let rest = e.parts.drop_first();
        assert(rest[0] == e.parts[1]);
        assert(first_plain_index(rest) == Some(0int));
        assert(first_plain_index(e.parts) == Some(1int));
    }
}

/// A message with no subparts takes its body from its own content, trimmed
/// of trailing whitespace only.
pub proof fn lemma_single_part_body_trimmed(e: EntityView)
    ensures
        e.parts.len() == 0 ==> (e.body matches Some(b) ==> spec_body(e) == Ok::<
            Seq<char>,
            ParseError,
        >(trim_end_spec(b))),
{
}

} // verus!

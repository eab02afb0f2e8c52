use mailparse::MailHeaderMap;
use vstd::prelude::*;

verus! {

/// One immediate subpart of a decoded message: its content type, and the
/// part's decoded text where decoding succeeded.
pub struct MimePart {
    pub mimetype: String,
    pub body: Option<String>,
}

/// The mathematical content of a `MimePart`.
#[verifier::ext_equal]
pub struct PartView {
    pub mimetype: Seq<char>,
    pub body: Option<Seq<char>>,
}

/// A decoded message: the first `From` and `Subject` header values, the
/// message's own decoded body text where decoding succeeded, and its
/// immediate subparts. Nested multipart structure is not recorded: only the
/// immediate subpart list is ever scanned.
pub struct MimeEntity {
    pub from: Option<String>,
    pub subject: Option<String>,
    pub body: Option<String>,
    pub subparts: Vec<MimePart>,
}

/// The mathematical content of a `MimeEntity`.
#[verifier::ext_equal]
pub struct EntityView {
    pub from: Option<Seq<char>>,
    pub subject: Option<Seq<char>>,
    pub body: Option<Seq<char>>,
    pub parts: Seq<PartView>,
}

pub open spec fn opt_str_view(o: Option<String>) -> Option<Seq<char>> {
    match o {
        Some(s) => Some(s@),
        None => None,
    }
}

pub open spec fn parts_view(ps: Seq<MimePart>) -> Seq<PartView> {
    ps.map_values(|p: MimePart| p@)
}

impl View for MimePart {
    type V = PartView;

    open spec fn view(&self) -> PartView {
        PartView { mimetype: self.mimetype@, body: opt_str_view(self.body) }
    }
}

impl View for MimeEntity {
    type V = EntityView;

    open spec fn view(&self) -> EntityView {
        EntityView {
            from: opt_str_view(self.from),
            subject: opt_str_view(self.subject),
            body: opt_str_view(self.body),
            parts: parts_view(self.subparts@),
        }
    }
}

/// Whether the raw bytes decode to a MIME structure at all.
pub uninterp spec fn mime_parses(raw: Seq<u8>) -> bool;

/// The decoded value of the first header of the decoded structure of `raw`
/// whose key equals `name` up to ASCII case, if any.
pub uninterp spec fn mime_first_header(raw: Seq<u8>, name: Seq<char>) -> Option<Seq<char>>;

/// The decoded body text of the decoded structure of `raw` itself, or
/// `None` where the body does not decode to text.
pub uninterp spec fn mime_own_body(raw: Seq<u8>) -> Option<Seq<char>>;

/// The content type of each immediate subpart of the decoded structure of
/// `raw`, in order.
pub uninterp spec fn mime_part_types(raw: Seq<u8>) -> Seq<Seq<char>>;

/// The decoded body text of each immediate subpart of the decoded structure
/// of `raw`, in order; `None` where a part's body does not decode to text.
pub uninterp spec fn mime_part_bodies(raw: Seq<u8>) -> Seq<Option<Seq<char>>>;

/// The address list that the header value `value` parses to: `None` where
/// it does not parse, otherwise one entry per address, holding the plain
/// address of a single mailbox and `None` for a group construct.
pub uninterp spec fn addr_entries(value: Seq<char>) -> Option<Seq<Option<Seq<char>>>>;

/// The content type of each part of `ps`, in order.
pub open spec fn part_types_of(ps: Seq<PartView>) -> Seq<Seq<char>> {
    ps.map_values(|p: PartView| p.mimetype)
}

/// The body text of each part of `ps`, in order.
pub open spec fn part_bodies_of(ps: Seq<PartView>) -> Seq<Option<Seq<char>>> {
    ps.map_values(|p: PartView| p.body)
}

/// The decoded structure of `raw`, assembled from the named results.
pub open spec fn mime_view(raw: Seq<u8>) -> EntityView {
    EntityView {
        from: mime_first_header(raw, "From"@),
        subject: mime_first_header(raw, "Subject"@),
        body: mime_own_body(raw),
        parts: Seq::new(
            mime_part_types(raw).len(),
            |i: int|
                PartView { mimetype: mime_part_types(raw)[i], body: mime_part_bodies(raw)[i] },
        ),
    }
}

/// Relies on `mailparse::parse_mail` to decode the MIME structure of the
/// raw bytes, on `mailparse::MailHeaderMap::get_first_value` for the first
/// `From` and `Subject` header values, on `mailparse::ParsedMail::get_body`
/// for the decoded text of the message and of each immediate subpart, and
/// on each subpart's `ctype.mimetype` field for its content type. All of
/// these are functions of the raw bytes alone.
#[verifier::external_body]
pub(crate) fn decode_mime(raw: &[u8]) -> (r: Option<MimeEntity>)
    ensures
        r is Some <==> mime_parses(raw@),
        r matches Some(e) ==> e@.from == mime_first_header(raw@, "From"@),
        r matches Some(e) ==> e@.subject == mime_first_header(raw@, "Subject"@),
        r matches Some(e) ==> e@.body == mime_own_body(raw@),
        r matches Some(e) ==> part_types_of(e@.parts) == mime_part_types(raw@),
        r matches Some(e) ==> part_bodies_of(e@.parts) == mime_part_bodies(raw@),
{
    let m = match mailparse::parse_mail(raw) {
        Ok(m) => m,
        Err(_) => return None,
    };
    let subparts = m.subparts.iter().map(
        |p| MimePart { mimetype: p.ctype.mimetype.clone(), body: p.get_body().ok() },
    ).collect();
    Some(
        MimeEntity {
            from: m.headers.get_first_value("From"),
            subject: m.headers.get_first_value("Subject"),
            body: m.get_body().ok(),
            subparts,
        },
    )
}

/// One entry of a parsed address list: the address of a single mailbox, or
/// a group construct, whose contents this library does not use.
pub enum AddrEntry {
    Single { addr: String },
    Group,
}

impl View for AddrEntry {
    type V = Option<Seq<char>>;

    open spec fn view(&self) -> Option<Seq<char>> {
        match self {
            AddrEntry::Single { addr } => Some(addr@),
            AddrEntry::Group => None,
        }
    }
}

pub open spec fn entries_view(s: Seq<AddrEntry>) -> Seq<Option<Seq<char>>> {
    s.map_values(|e: AddrEntry| e@)
}

/// Relies on `mailparse::addrparse`: parses a header value as a structured
/// address list whose entries are single mailboxes or groups; a single
/// mailbox's `addr` is the plain routing address, without display name or
/// angle brackets. The result is a function of the value alone.
#[verifier::external_body]
pub(crate) fn parse_address_list(value: &str) -> (r: Option<Vec<AddrEntry>>)
    ensures
        r is Some <==> addr_entries(value@) is Some,
        r matches Some(v) ==> Some(entries_view(v@)) == addr_entries(value@),
{
    let list = match mailparse::addrparse(value) {
        Ok(list) => list,
        Err(_) => return None,
    };
    Some(
        list.iter().map(
            |a| match a {
                mailparse::MailAddr::Single(info) => AddrEntry::Single { addr: info.addr.clone() },
                mailparse::MailAddr::Group(_) => AddrEntry::Group,
            },
        ).collect(),
    )
}

} // verus!

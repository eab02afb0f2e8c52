//! Reading a remote mailbox: a verified protocol-session state machine that
//! an unverified driver advances with network events, and a verified parser
//! that extracts the sender address, subject, and plain-text body from each
//! raw message.

mod config;
mod errors;
mod laws;
mod message;
mod mime;
mod parse;
mod session;
mod text;

pub use config::MyMailbox;
pub use errors::{FetchError, HeaderName, ParseError};
pub use laws::{
    lemma_empty_folder_yields_empty, lemma_fetch_appends_in_order, lemma_first_plain_part_chosen,
    lemma_malformed_message_fails_batch, lemma_missing_subject_fails,
    lemma_sender_is_exact_address, lemma_single_part_body_trimmed,
};
pub use message::{MessageView, MyMessage};
pub use mime::{
    addr_entries, entries_view, mime_first_header, mime_own_body, mime_parses, mime_part_bodies,
    mime_part_types, mime_view, opt_str_view, part_bodies_of, part_types_of, parts_view,
    AddrEntry, EntityView, MimeEntity, MimePart, PartView,
};
pub use parse::{
    extract_message, first_plain_index, parse, res_view, spec_body, spec_extract, spec_parse,
    spec_sender,
};
pub use session::{
    event_matches, init_model, messages_view, spec_advance, spec_step, Event, FetchSession, Phase,
    SessionModel, Step,
};
pub use text::{spec_is_space, str_eq, trim_end_spec, trim_end_whitespace, trimmed_len};

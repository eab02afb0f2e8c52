use vstd::prelude::*;

verus! {

/// The mathematical content of a `MyMessage`: the three extracted fields as
/// sequences of characters.
#[verifier::ext_equal]
pub struct MessageView {
    pub from: Seq<char>,
    pub subject: Seq<char>,
    pub body: Seq<char>,
}

/// A message extracted from a mailbox: the sender's plain address (no
/// display name), the subject line, and the plain-text body with trailing
/// whitespace trimmed. A `MyMessage` is only ever built from a raw byte
/// buffer in which all three fields were found.
#[derive(Debug)]
pub struct MyMessage {
    pub from: String,
    pub subject: String,
    pub body: String,
}

impl View for MyMessage {
    type V = MessageView;

    open spec fn view(&self) -> MessageView {
        MessageView { from: self.from@, subject: self.subject@, body: self.body@ }
    }
}

} // verus!

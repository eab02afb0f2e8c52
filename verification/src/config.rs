use vstd::prelude::*;

verus! {

/// Where and how to reach the mailbox: host, port, credentials, and the
/// folder to select. Constructed fresh for each invocation; nothing is
/// persisted.
pub struct MyMailbox<'a> {
    pub host: &'a str,
    pub port: u16,
    pub user: &'a str,
    pub password: &'a str,
    pub selection: &'a str,
}

impl<'a> Default for MyMailbox<'a> {
    /// The default configuration: empty credentials, the standard secure
    /// mail-access port, and the `INBOX` folder.
    fn default() -> (r: Self)
        ensures
            r.host@ == ""@,
            r.port == 993,
            r.user@ == ""@,
            r.password@ == ""@,
            r.selection@ == "INBOX"@,
    {
        MyMailbox { host: "", port: 993, user: "", password: "", selection: "INBOX" }
    }
}

} // verus!

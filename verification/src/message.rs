use vstd::prelude::*;

verus! {

/// What a `Message` holds, as mathematical values.
pub struct MessageView {
    pub uuid: Seq<char>,
    pub text: Seq<char>,
}

/// A chat message: the sender's name (or a label such as "Listening on") and its text.
#[derive(Clone, Debug, PartialEq, Eq)]
pub struct Message {
    pub uuid: String,
    pub text: String,
}

impl View for Message {
    type V = MessageView;

    open spec fn view(&self) -> MessageView {
        MessageView { uuid: self.uuid@, text: self.text@ }
    }
}

/// The row that the chat window shows for a message: `uuid`, a colon, a space, `text`.
pub open spec fn display_line_of(m: MessageView) -> Seq<char> {
    m.uuid + seq![':', ' '] + m.text
}

/// The row of a message is its whole name, a colon, a space and its whole
/// text, whatever their lengths: nothing is cut and nothing is added.
pub proof fn lemma_display_line_layout(m: MessageView)
    ensures
        display_line_of(m).len() == m.uuid.len() + 2 + m.text.len(),
        display_line_of(m).take(m.uuid.len() as int) == m.uuid,
        display_line_of(m)[m.uuid.len() as int] == ':',
        display_line_of(m)[m.uuid.len() + 1 as int] == ' ',
        display_line_of(m).skip(m.uuid.len() + 2 as int) == m.text,
{
    let row = display_line_of(m);
    let n = m.uuid.len() as int;
    assert(row.take(n) =~= m.uuid);
    assert(row.skip(n + 2) =~= m.text);
}

/// The text of the notice for a message that came from the console.
pub open spec fn console_label() -> Seq<char> {
    seq!['T', 'e', 'x', 't']
}

/// The label of the notices that announce a listening address.
pub open spec fn listening_label() -> Seq<char> {
    seq!['L', 'i', 's', 't', 'e', 'n', 'i', 'n', 'g', ' ', 'o', 'n']
}

impl Message {
    pub fn new(uuid: String, text: String) -> (m: Message)
        ensures
            m@ == (MessageView { uuid: uuid@, text: text@ }),
    {
        Message { uuid, text }
    }

    /// The row shown for this message in the chat window ("uuid: text").
    pub fn display_line(&self) -> (line: String)
        ensures
            line@ == display_line_of(self@),
            line@.len() == self.uuid@.len() + 2 + self.text@.len(),
            line@.take(self.uuid@.len() as int) == self.uuid@,
            line@[self.uuid@.len() as int] == ':',
            line@[self.uuid@.len() + 1 as int] == ' ',
            line@.skip(self.uuid@.len() + 2 as int) == self.text@,
    {
        proof {
            lemma_display_line_layout(self@);
        }
        let mut line = self.uuid.clone();
        line.append(": ");
        proof {
            reveal_strlit(": ");
        }
        line.append(self.text.as_str());
        line
    }

    /// A line typed on the console, sent under the label "Text".
    pub fn from_console(line: String) -> (m: Message)
        ensures
            m@ == (MessageView { uuid: console_label(), text: line@ }),
    {
        let label = String::from_str("Text");
        proof {
            reveal_strlit("Text");
            assert(label@ =~= console_label());
        }
        Message { uuid: label, text: line }
    }

    /// The notice that announces a listening address.
    pub fn listening_on(address: String) -> (m: Message)
        ensures
            m@ == (MessageView { uuid: listening_label(), text: address@ }),
    {
        let label = String::from_str("Listening on");
        proof {
            reveal_strlit("Listening on");
            assert(label@ =~= listening_label());
        }
        Message { uuid: label, text: address }
    }
}

/// Notices that the user interface shows in a dialog.
#[derive(Clone, Copy, Debug, PartialEq, Eq, Structural)]
pub enum Notice {
    /// An empty name was submitted.
    NameRequired,
    /// An empty peer address was submitted.
    NetworkAddressRequired,
    /// An empty chat message was submitted.
    MessageRequired,
    /// A message could not be handed to the publisher.
    PublishFailed,
}

pub open spec fn notice_text(n: Notice) -> Seq<char> {
    match n {
        Notice::NameRequired => "Please enter a name"@,
        Notice::NetworkAddressRequired => "Please enter network addr"@,
        Notice::MessageRequired => "Please enter a message!"@,
        Notice::PublishFailed => "Error Publishing!"@,
    }
}

impl Notice {
    /// The words of the notice.
    pub fn text(&self) -> (t: String)
        ensures
            t@ == notice_text(*self),
    {
        match self {
            Notice::NameRequired => String::from_str("Please enter a name"),
            Notice::NetworkAddressRequired => String::from_str("Please enter network addr"),
            Notice::MessageRequired => String::from_str("Please enter a message!"),
            Notice::PublishFailed => String::from_str("Error Publishing!"),
        }
    }
}

/// What pressing "Send" with `input` in the box does: an empty box is refused
/// with a notice; otherwise a message from `user` with that text is queued.
pub fn compose(user: &String, input: &String) -> (r: Result<Message, Notice>)
    ensures
        input@.len() == 0 ==> r == Err::<Message, Notice>(Notice::MessageRequired),
        input@.len() != 0 ==> (r matches Ok(m) && m@ == (MessageView { uuid: user@, text: input@ })),
{
    if input.as_str().is_empty() {
        Err(Notice::MessageRequired)
    } else {
        Ok(Message { uuid: user.clone(), text: input.clone() })
    }
}

/// What follows an attempt to queue a composed message for publishing: a
/// failure is shown as a notice, a success clears the input box (`Ok`).
pub fn after_queueing(queued: bool) -> (r: Result<(), Notice>)
    ensures
        queued ==> r is Ok,
        !queued ==> r == Err::<(), Notice>(Notice::PublishFailed),
{
    if queued {
        Ok(())
    } else {
        Err(Notice::PublishFailed)
    }
}

/// A message that was published to the network is shown locally too; one
/// whose publication failed is dropped.
pub fn echo_after_publish(published: bool, m: Message) -> (r: Option<Message>)
    ensures
        published ==> r == Some(m),
        !published ==> r is None,
{
    if published {
        Some(m)
    } else {
        None
    }
}

/// The chat window's reception of gossip payloads: messages are shown until
/// the first payload that is no chat message; from then on nothing is shown.
pub struct Reception {
    open: bool,
}

impl Reception {
    pub fn new() -> (r: Reception)
        ensures
            r.is_open(),
    {
        Reception { open: true }
    }

    pub closed spec fn is_open(&self) -> bool {
        self.open
    }

    /// Takes the outcome of decoding one payload (`None` where it is no chat
    /// message) and gives the message to show, if any.
    pub fn receive(&mut self, decoded: Option<Message>) -> (shown: Option<Message>)
        ensures
            final(self).is_open() == (old(self).is_open() && decoded is Some),
            shown == (if old(self).is_open() {
                decoded
            } else {
                None
            }),
    {
        if self.open {
            if decoded.is_none() {
                self.open = false;
            }
            decoded
        } else {
            None
        }
    }
}

/// Announces the addresses that the node listens on.
pub struct ListenAnnouncer {
    announced: bool,
}

impl ListenAnnouncer {
    pub fn new() -> (a: ListenAnnouncer)
        ensures
            !a.has_announced(),
    {
        ListenAnnouncer { announced: false }
    }

    pub closed spec fn has_announced(&self) -> bool {
        self.announced
    }

    /// The chat window's announcement: on the first poll every listening
    /// address becomes a notice, and later polls announce nothing, whether or
    /// not there was an address the first time.
    pub fn announce_once(&mut self, addresses: Vec<String>) -> (notes: Vec<Message>)
        ensures
            final(self).has_announced(),
            old(self).has_announced() ==> notes@.len() == 0,
            !old(self).has_announced() ==> notes@.len() == addresses@.len() && forall|i: int|
                0 <= i < addresses@.len() ==> #[trigger] notes@[i]@ == (MessageView {
                    uuid: listening_label(),
                    text: addresses@[i]@,
                }),
    {
        let mut notes: Vec<Message> = Vec::new();
        if !self.announced {
            let n = addresses.len();
            let mut i: usize = 0;
            while i < n
                invariant
                    n == addresses@.len(),
                    i <= n,
                    notes@.len() == i,
                    forall|j: int|
                        0 <= j < i ==> #[trigger] notes@[j]@ == (MessageView {
                            uuid: listening_label(),
                            text: addresses@[j]@,
                        }),
                decreases n - i,
            {
                notes.push(Message::listening_on(addresses[i].clone()));
                i = i + 1;
            }
            self.announced = true;
        }
        notes
    }

    /// The console's announcement: the addresses are reported on every poll
    /// until a poll finds at least one; after that nothing is reported.
    pub fn report_until_listening(&mut self, addresses: Vec<String>) -> (report: Vec<String>)
        ensures
            old(self).has_announced() ==> report@.len() == 0 && final(self).has_announced(),
            !old(self).has_announced() ==> report@ == addresses@ && final(self).has_announced()
                == (addresses@.len() > 0),
    {
        if self.announced {
            Vec::new()
        } else {
            if addresses.len() > 0 {
                self.announced = true;
            }
            addresses
        }
    }
}

} // verus!

//! The state of the chat screen and the actions that change it.

use vstd::prelude::*;
use vstd::string::*;
use vstd::seq_lib::{to_multiset_build, to_multiset_insert};
use crate::models::{Conversation, Message, MessageStatus, User};
use crate::text::same_text;

verus! {

/// What the chat screen shows.
#[derive(Debug, PartialEq, Eq)]
pub struct ChatState {
    pub messages: Vec<Message>,
    pub conversations: Vec<Conversation>,
    pub is_loading: bool,
    pub error: Option<String>,
    pub current_chat_id: Option<String>,
    pub users: Vec<User>,
}

/// What can happen to the chat screen.
#[derive(Debug, PartialEq, Eq)]
pub enum ChatAction {
    SetMessages(Vec<Message>),
    SetConversations(Vec<Conversation>),
    AddMessage(Message),
    /// Puts the server's message in the place of the one with the given id.
    UpdateMessage(String, Message),
    UpdateMessageStatus(String, MessageStatus),
    SetLoading(bool),
    SetError(String),
    ClearError,
    SetCurrentChatId(Option<String>),
    SetUsers(Vec<User>),
}

/// Where the first message later than `time` stands, or the length where
/// none is later.
pub open spec fn first_later(messages: Seq<Message>, time: u64) -> int
    decreases messages.len(),
{
    if messages.len() == 0 {
        0
    } else if messages[0].timestamp > time {
        0
    } else {
        1 + first_later(messages.subrange(1, messages.len() as int), time)
    }
}

/// The messages with one more, put before the first that is later: behind
/// all that are as old.
pub open spec fn placed(messages: Seq<Message>, message: Message) -> Seq<Message> {
    messages.insert(first_later(messages, message.timestamp), message)
}

/// The messages in the order of their times; messages of the same time keep
/// the order they had.
pub open spec fn ordered(messages: Seq<Message>) -> Seq<Message>
    decreases messages.len(),
{
    if messages.len() == 0 {
        messages
    } else {
        placed(ordered(messages.drop_last()), messages.last())
    }
}

/// Whether each message is at most as late as the next.
pub open spec fn in_order(messages: Seq<Message>) -> bool {
    forall|i: int, j: int|
        0 <= i <= j < messages.len() ==> messages[i].timestamp <= messages[j].timestamp
}

/// Where the first message with the given id stands, if there is one.
pub open spec fn position_of(messages: Seq<Message>, id: Seq<char>) -> Option<int>
    decreases messages.len(),
{
    if messages.len() == 0 {
        None
    } else if messages[0].message_id@ == id {
        Some(0)
    } else {
        match position_of(messages.subrange(1, messages.len() as int), id) {
            Some(at) => Some(at + 1),
            None => None,
        }
    }
}

/// The messages after an action.
pub open spec fn messages_after(messages: Seq<Message>, action: ChatAction) -> Seq<Message> {
    match action {
        ChatAction::SetMessages(all) => all@,
        ChatAction::AddMessage(message) => match position_of(messages, message.message_id@) {
            Some(_) => messages,
            None => ordered(messages.push(message)),
        },
        ChatAction::UpdateMessage(id, message) => match position_of(messages, id@) {
            Some(at) => ordered(
                messages.update(at, Message { status: MessageStatus::Sent, ..message }),
            ),
            None => ordered(messages),
        },
        ChatAction::UpdateMessageStatus(id, status) => match position_of(messages, id@) {
            Some(at) => messages.update(at, Message { status, ..messages[at] }),
            None => messages,
        },
        _ => messages,
    }
}

impl ChatState {
    /// Whether `next` is this state after `action`.
    pub open spec fn reduces_to(self, action: ChatAction, next: ChatState) -> bool {
        &&& next.messages@ == messages_after(self.messages@, action)
        &&& next.conversations@ == match action {
            ChatAction::SetConversations(all) => all@,
            _ => self.conversations@,
        }
        &&& next.users@ == match action {
            ChatAction::SetUsers(all) => all@,
            _ => self.users@,
        }
        &&& next.is_loading == match action {
            ChatAction::SetLoading(is_loading) => is_loading,
            _ => self.is_loading,
        }
        &&& next.error == match action {
            ChatAction::SetError(error) => Some(error),
            ChatAction::ClearError => None,
            _ => self.error,
        }
        &&& next.current_chat_id == match action {
            ChatAction::SetCurrentChatId(chat_id) => chat_id,
            _ => self.current_chat_id,
        }
    }

    /// An empty screen.
    pub fn new() -> (r: ChatState)
        ensures
            r.messages@.len() == 0,
            r.conversations@.len() == 0,
            r.users@.len() == 0,
            !r.is_loading,
            r.error is None,
            r.current_chat_id is None,
    {
        ChatState {
            messages: Vec::new(),
            conversations: Vec::new(),
            is_loading: false,
            error: None,
            current_chat_id: None,
            users: Vec::new(),
        }
    }

    /// Applies an action. A message whose id is known already is not added a
    /// second time; after a message was added or replaced the messages stand
    /// in the order of their times.
    pub fn reduce(self, action: ChatAction) -> (r: ChatState)
        ensures
            self.reduces_to(action, r),
    {
        let mut next = self;
        match action {
            ChatAction::AddMessage(message) => {
                if find_message(&next.messages, message.message_id.as_str()).is_none() {
                    next.messages.push(message);
                    next.messages = order_messages(next.messages);
                }
            },
            ChatAction::UpdateMessageStatus(id, status) => {
                match find_message(&next.messages, id.as_str()) {
                    Some(at) => {
                        let ghost before = next.messages@;
                        let mut message = next.messages.remove(at);
                        message.status = status;
                        next.messages.insert(at, message);
                        assert(next.messages@ =~= before.update(
                            at as int,
                            Message { status, ..before[at as int] },
                        ));
                    },
                    None => {},
                }
            },
            ChatAction::SetError(error) => {
                next.error = Some(error);
            },
            ChatAction::ClearError => {
                next.error = None;
            },
            ChatAction::SetLoading(is_loading) => {
                next.is_loading = is_loading;
            },
            ChatAction::SetMessages(messages) => {
                next.messages = messages;
            },
            ChatAction::UpdateMessage(id, new_message) => {
                match find_message(&next.messages, id.as_str()) {
                    Some(at) => {
                        let ghost before = next.messages@;
                        let mut message = new_message;
                        message.status = MessageStatus::Sent;
                        let _ = next.messages.remove(at);
                        next.messages.insert(at, message);
                        assert(next.messages@ =~= before.update(
                            at as int,
                            Message { status: MessageStatus::Sent, ..new_message },
                        ));
                    },
                    None => {},
                }
                next.messages = order_messages(next.messages);
            },
            ChatAction::SetCurrentChatId(chat_id) => {
                next.current_chat_id = chat_id;
            },
            ChatAction::SetConversations(conversations) => {
                next.conversations = conversations;
            },
            ChatAction::SetUsers(users) => {
                next.users = users;
            },
        }
        next
    }
}

/// Finds the first message with the given id.
pub fn find_message(messages: &Vec<Message>, id: &str) -> (r: Option<usize>)
    ensures
        match r {
            Some(at) => position_of(messages@, id@) == Some(at as int) && at < messages@.len(),
            None => position_of(messages@, id@) is None,
        },
{
    let n: usize = messages.len();
    let mut i: usize = 0;
    assert(messages@.subrange(0, n as int) =~= messages@);
    while i < n
        invariant
            i <= n,
            n == messages@.len(),
            position_of(messages@, id@) == match position_of(
                messages@.subrange(i as int, n as int),
                id@,
            ) {
                Some(at) => Some(at + i),
                None => None,
            },
        decreases n - i,
    {
        let ghost rest = messages@.subrange(i as int, n as int);
        assert(rest[0] == messages@[i as int]);
        if same_text(messages[i].message_id.as_str(), id) {
            return Some(i);
        }
        assert(rest.subrange(1, rest.len() as int) =~= messages@.subrange(i + 1, n as int));
        i = i + 1;
    }
    None
}

/// Where a message of the given time goes: before the first later one.
fn place_of(messages: &Vec<Message>, time: u64) -> (r: usize)
    ensures
        r == first_later(messages@, time),
        r <= messages@.len(),
{
    let n: usize = messages.len();
    let mut i: usize = 0;
    assert(messages@.subrange(0, n as int) =~= messages@);
    while i < n
        invariant
            i <= n,
            n == messages@.len(),
            first_later(messages@, time) == i + first_later(
                messages@.subrange(i as int, n as int),
                time,
            ),
        decreases n - i,
    {
        let ghost rest = messages@.subrange(i as int, n as int);
        assert(rest[0] == messages@[i as int]);
        if messages[i].timestamp > time {
            return i;
        }
        assert(rest.subrange(1, rest.len() as int) =~= messages@.subrange(i + 1, n as int));
        i = i + 1;
    }
    n
}

/// Puts the messages in the order of their times, keeping the order of
/// messages of the same time.
pub fn order_messages(messages: Vec<Message>) -> (r: Vec<Message>)
    ensures
        r@ == ordered(messages@),
{
    let ghost all = messages@;
    let mut rest = messages;
    let mut out: Vec<Message> = Vec::new();
    let mut taken: usize = 0;
    let n: usize = rest.len();
    assert(all.subrange(0, 0) =~= Seq::<Message>::empty());
    assert(rest@ =~= all.subrange(0, n as int));
    while rest.len() > 0
        invariant
            n == all.len(),
            taken <= n,
            rest@ == all.subrange(taken as int, n as int),
            out@ == ordered(all.subrange(0, taken as int)),
        decreases rest@.len(),
    {
        let message = rest.remove(0);
        let at = place_of(&out, message.timestamp);
        out.insert(at, message);
        proof {
            let grown = all.subrange(0, taken + 1);
            assert(grown.drop_last() =~= all.subrange(0, taken as int));
            assert(grown.last() == message);
            assert(rest@ =~= all.subrange(taken + 1, n as int));
        }
        taken = taken + 1;
    }
    assert(all.subrange(0, n as int) =~= all);
    out
}

proof fn lemma_first_later(messages: Seq<Message>, time: u64)
    ensures
        0 <= first_later(messages, time) <= messages.len(),
        forall|k: int|
            0 <= k < first_later(messages, time) ==> (#[trigger] messages[k]).timestamp <= time,
        first_later(messages, time) < messages.len() ==> messages[first_later(
            messages,
            time,
        )].timestamp > time,
    decreases messages.len(),
{
    if messages.len() > 0 && messages[0].timestamp <= time {
        let tail = messages.subrange(1, messages.len() as int);
        lemma_first_later(tail, time);
        assert forall|k: int| 0 <= k < first_later(messages, time) implies (
        #[trigger] messages[k]).timestamp <= time by {
            if k > 0 {
                assert(messages[k] == tail[k - 1]);
            }
        }
        if first_later(messages, time) < messages.len() {
            assert(messages[first_later(messages, time)] == tail[first_later(tail, time)]);
        }
    }
}

/// Putting messages in order gives the same messages, each as often as
/// before, and each at most as late as the next.
pub proof fn lemma_ordered_is_a_sorted_rearrangement(messages: Seq<Message>)
    ensures
        ordered(messages).len() == messages.len(),
        ordered(messages).to_multiset() == messages.to_multiset(),
        in_order(ordered(messages)),
    decreases messages.len(),
{
    if messages.len() > 0 {
        let head = messages.drop_last();
        let last = messages.last();
        lemma_ordered_is_a_sorted_rearrangement(head);
        let sorted = ordered(head);
        let at = first_later(sorted, last.timestamp);
        lemma_first_later(sorted, last.timestamp);
        let grown = sorted.insert(at, last);
        to_multiset_insert(sorted, at, last);
        to_multiset_build(head, last);
        assert(head.push(last) =~= messages);
        assert forall|i: int, j: int| 0 <= i <= j < grown.len() implies grown[i].timestamp
            <= grown[j].timestamp by {
            if i < at && j > at {
                assert(grown[i] == sorted[i]);
                assert(grown[j] == sorted[j - 1]);
            } else if i < at && j < at {
                assert(grown[i] == sorted[i] && grown[j] == sorted[j]);
            } else if i > at {
                assert(grown[i] == sorted[i - 1] && grown[j] == sorted[j - 1]);
            } else if i == at && j > at {
                assert(grown[j] == sorted[j - 1]);
                assert(sorted[at].timestamp <= sorted[j - 1].timestamp);
            } else if i < at && j == at {
                assert(grown[i] == sorted[i]);
            }
        }
    }
}

/// Messages that stand in the order of their times are left as they are.
pub proof fn lemma_ordered_leaves_sorted_alone(messages: Seq<Message>)
    requires
        in_order(messages),
    ensures
        ordered(messages) == messages,
    decreases messages.len(),
{
    if messages.len() > 0 {
        let head = messages.drop_last();
        let last = messages.last();
        assert forall|i: int, j: int| 0 <= i <= j < head.len() implies head[i].timestamp
            <= head[j].timestamp by {
            assert(head[i] == messages[i] && head[j] == messages[j]);
        }
        lemma_ordered_leaves_sorted_alone(head);
        lemma_first_later(head, last.timestamp);
        let at = first_later(head, last.timestamp);
        if at < head.len() {
            assert(head[at] == messages[at]);
            assert(messages[at].timestamp <= messages[messages.len() - 1].timestamp);
        }
        assert(head.insert(head.len() as int, last) =~= messages);
    }
}

} // verus!

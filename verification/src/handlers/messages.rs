use vstd::prelude::*;

use crate::error::AppError;
use crate::models::{shows_message, Message, MessageResponse};

verus! {

/// How many of the latest messages the history holds: every message, as long
/// as there are no more than this.
pub const HISTORY_LIMIT: usize = 100;

/// The first message at or after position `i` that names its author, or the
/// number of messages where none does.
pub open spec fn first_authored_from(ms: Seq<Message>, i: int) -> int
    decreases ms.len() - i,
{
    if i >= ms.len() {
        ms.len() as int
    } else if ms[i].user_id is Some {
        i
    } else {
        first_authored_from(ms, i + 1)
    }
}

/// `new` is `old` followed by the messages from `old.len()` up to the next one
/// that names its author, each shown without an author's name.
pub open spec fn extends_unauthored(old: Seq<MessageResponse>, new: Seq<MessageResponse>, ms: Seq<Message>) -> bool {
    &&& new.len() == first_authored_from(ms, old.len() as int)
    &&& forall|j: int| 0 <= j < old.len() ==> new[j] == old[j]
    &&& forall|j: int| old.len() <= j < new.len() ==> shows_message(#[trigger] new[j], ms[j], None)
}

/// Where the message history stands.
pub enum HistoryStep {
    /// The latest messages are being fetched, newest first.
    AwaitingMessages,
    /// The author of `messages[collected.len()]` is being looked up.
    AwaitingAuthor { messages: Vec<Message>, collected: Vec<MessageResponse> },
    /// The request is answered.
    Finished,
}

/// What the server does next for the message history.
pub enum HistoryAction {
    /// Fetch the latest `limit` messages, newest first.
    FetchRecentMessages { limit: usize },
    FindUsername { user_id: u128 },
    /// Answer with the messages, oldest first, or with a failure.
    Reply(Result<Vec<MessageResponse>, AppError>),
}

/// What the server learned from the last action of the history.
pub enum HistoryEvent {
    MessagesFetched(Vec<Message>),
    UsernameFound(Option<String>),
    DatabaseFailed(String),
}

/// `event` answers the action that left the history at `step`.
pub open spec fn history_expects(step: HistoryStep, event: HistoryEvent) -> bool {
    match step {
        HistoryStep::AwaitingMessages => event is MessagesFetched || event is DatabaseFailed,
        HistoryStep::AwaitingAuthor { messages, collected } => {
            &&& collected@.len() < messages@.len()
            &&& messages@[collected@.len() as int].user_id is Some
            &&& (event is UsernameFound || event is DatabaseFailed)
        },
        HistoryStep::Finished => false,
    }
}

/// Where collecting goes after `collected`: on to the next author to look
/// up, or, past the last message, to the answer in reverse (oldest first).
pub open spec fn collected_next(r: (HistoryStep, HistoryAction), old: Seq<MessageResponse>, ms: Seq<Message>) -> bool {
    let k = first_authored_from(ms, old.len() as int);
    if k < ms.len() {
        &&& r.0 matches HistoryStep::AwaitingAuthor { messages, collected }
            && messages@ == ms && extends_unauthored(old, collected@, ms)
        &&& r.1 == HistoryAction::FindUsername { user_id: ms[k].user_id->Some_0 }
    } else {
        &&& r.0 is Finished
        &&& r.1 matches HistoryAction::Reply(Ok(reply))
            && reply@.len() == ms.len()
            && exists|all: Seq<MessageResponse>| extends_unauthored(old, all, ms) && reply@ == all.reverse()
    }
}

/// How `history_step` moves the history at `step` on `event` to `r`.
pub open spec fn history_moves(step: HistoryStep, event: HistoryEvent, r: (HistoryStep, HistoryAction)) -> bool {
    &&& (event matches HistoryEvent::DatabaseFailed(m) ==> r.0 is Finished && r.1 == HistoryAction::Reply(Err(AppError::Database(m))))
    &&& (step is AwaitingMessages ==> (event matches HistoryEvent::MessagesFetched(ms) ==> collected_next(r, Seq::empty(), ms@)))
    &&& (step matches HistoryStep::AwaitingAuthor { messages, collected } ==> (event matches HistoryEvent::UsernameFound(name) ==> exists|with_author: Seq<MessageResponse>| {
            &&& with_author.len() == collected@.len() + 1
            &&& with_author.take(collected@.len() as int) == collected@
            &&& shows_message(with_author.last(), messages@[collected@.len() as int], crate::models::name_view(name))
            &&& collected_next(r, with_author, messages@)
        }))
}

/// Past a position from which no message names an author, the first that
/// does is the end.
proof fn lemma_unauthored_to_end(ms: Seq<Message>, i: int)
    requires
        0 <= i <= ms.len(),
        forall|j: int| i <= j < ms.len() ==> (#[trigger] ms[j]).user_id is None,
    ensures
        first_authored_from(ms, i) == ms.len(),
    decreases ms.len() - i,
{
    if i < ms.len() {
        lemma_unauthored_to_end(ms, i + 1);
    }
}

/// The history answers the fetched messages in reverse order, oldest first,
/// however many there are: where none of the fetched messages names an
/// author, the answer comes at once, and its entry at `i` shows the fetched
/// message at `len - 1 - i`, without an author's name.
pub proof fn law_history_is_fetched_order_reversed(ms: Vec<Message>, r: (HistoryStep, HistoryAction))
    requires
        history_moves(HistoryStep::AwaitingMessages, HistoryEvent::MessagesFetched(ms), r),
        forall|j: int| 0 <= j < ms@.len() ==> (#[trigger] ms@[j]).user_id is None,
    ensures
        r.0 is Finished,
        r.1 matches HistoryAction::Reply(Ok(reply)) && reply@.len() == ms@.len() && forall|i: int|
            0 <= i < reply@.len() ==> shows_message(#[trigger] reply@[i], ms@[ms@.len() - 1 - i], None),
{
    lemma_unauthored_to_end(ms@, 0);
    let reply = r.1->Reply_0->Ok_0;
    let all = choose|all: Seq<MessageResponse>| extends_unauthored(Seq::empty(), all, ms@) && reply@ == all.reverse();
    assert forall|i: int| 0 <= i < reply@.len() implies shows_message(#[trigger] reply@[i], ms@[ms@.len() - 1 - i], None) by {
        assert(reply@[i] == all[all.len() - 1 - i]);
    }
}

/// Right after the messages are fetched, the history either answers (no
/// message names an author) or asks for the author of the first fetched
/// message that names one, having shown every message before it without a
/// name; a database failure ends it with that failure.
pub proof fn law_history_asks_first_author(ms: Vec<Message>, r: (HistoryStep, HistoryAction))
    requires
        history_moves(HistoryStep::AwaitingMessages, HistoryEvent::MessagesFetched(ms), r),
    ensures
        r.1 matches HistoryAction::FindUsername { user_id } ==> exists|k: int| {
            &&& 0 <= k < ms@.len()
            &&& (#[trigger] ms@[k]).user_id == Some(user_id)
            &&& forall|j: int| 0 <= j < k ==> (#[trigger] ms@[j]).user_id is None
            &&& r.0 matches HistoryStep::AwaitingAuthor { messages, collected } && messages@ == ms@
                && collected@.len() == k && forall|j: int| 0 <= j < k ==> shows_message(
                #[trigger] collected@[j],
                ms@[j],
                None,
            )
        },
        r.1 is Reply ==> forall|j: int| 0 <= j < ms@.len() ==> (#[trigger] ms@[j]).user_id is None,
{
    lemma_first_authored_bounds(ms@, 0);
}

/// The first message from `i` on that names an author lies between `i` and
/// the end, names one where it is not the end, and every message before it
/// from `i` on names none.
proof fn lemma_first_authored_bounds(ms: Seq<Message>, i: int)
    requires
        0 <= i <= ms.len(),
    ensures
        i <= first_authored_from(ms, i) <= ms.len(),
        first_authored_from(ms, i) < ms.len() ==> ms[first_authored_from(ms, i)].user_id is Some,
        forall|j: int| i <= j < first_authored_from(ms, i) ==> (#[trigger] ms[j]).user_id is None,
    decreases ms.len() - i,
{
    if i < ms.len() && ms[i].user_id is None {
        lemma_first_authored_bounds(ms, i + 1);
    }
}

/// Once the author of the message at position `k` (the number shown so far)
/// is looked up, an answer, if it comes, lists all fetched messages in reverse
/// order: the entry at `i` is the message at `j = len - 1 - i`, as shown before
/// where `j < k`, under the name found where `j == k`, and without a name
/// past `k` (none of those names an author).
pub proof fn law_history_answer_reverses_with_authors(
    messages: Vec<Message>,
    collected: Vec<MessageResponse>,
    name: Option<String>,
    r: (HistoryStep, HistoryAction),
)
    requires
        history_expects(HistoryStep::AwaitingAuthor { messages, collected }, HistoryEvent::UsernameFound(name)),
        history_moves(HistoryStep::AwaitingAuthor { messages, collected }, HistoryEvent::UsernameFound(name), r),
        r.1 is Reply,
    ensures
        r.0 is Finished,
        r.1 matches HistoryAction::Reply(Ok(reply)) && reply@.len() == messages@.len() && forall|i: int|
            0 <= i < reply@.len() ==> {
                let j = messages@.len() - 1 - i;
                &&& j < collected@.len() ==> #[trigger] reply@[i] == collected@[j]
                &&& j == collected@.len() ==> shows_message(reply@[i], messages@[j], crate::models::name_view(name))
                &&& j > collected@.len() ==> shows_message(reply@[i], messages@[j], None)
            },
{
    let ms = messages@;
    let k = collected@.len();
    let with_author = choose|with_author: Seq<MessageResponse>| {
        &&& with_author.len() == k + 1
        &&& with_author.take(k as int) == collected@
        &&& shows_message(with_author.last(), ms[k as int], crate::models::name_view(name))
        &&& collected_next(r, with_author, ms)
    };
    let reply = r.1->Reply_0->Ok_0;
    let all = choose|all: Seq<MessageResponse>| extends_unauthored(with_author, all, ms) && reply@ == all.reverse();
    assert forall|i: int| 0 <= i < reply@.len() implies {
        let j = ms.len() - 1 - i;
        &&& j < k ==> #[trigger] reply@[i] == collected@[j]
        &&& j == k ==> shows_message(reply@[i], ms[j], crate::models::name_view(name))
        &&& j > k ==> shows_message(reply@[i], ms[j], None)
    } by {
        let j = ms.len() - 1 - i;
        assert(reply@[i] == all[j]);
        if j < k {
            assert(with_author.take(k as int)[j] == with_author[j]);
        }
    }
}

/// Starts the history: the latest messages are fetched.
pub fn get_messages() -> (r: (HistoryStep, HistoryAction))
    ensures
        r.0 is AwaitingMessages,
        r.1 == (HistoryAction::FetchRecentMessages { limit: HISTORY_LIMIT }),
{
    (HistoryStep::AwaitingMessages, HistoryAction::FetchRecentMessages { limit: HISTORY_LIMIT })
}

/// Reverses a list of messages.
fn reversed(v: Vec<MessageResponse>) -> (r: Vec<MessageResponse>)
    ensures
        r@ == v@.reverse(),
{
    let mut rest = v;
    let mut out: Vec<MessageResponse> = Vec::new();
    let ghost whole = rest@;
    while rest.len() > 0
        invariant
            rest@ == whole.take(rest@.len() as int),
            out@ == whole.skip(rest@.len() as int).reverse(),
            rest@.len() <= whole.len(),
        decreases rest@.len(),
    {
        let item = rest.pop().unwrap();
        out.push(item);
        proof {
            assert(rest@ =~= whole.take(rest@.len() as int));
            assert(out@ =~= whole.skip(rest@.len() as int).reverse());
        }
    }
    assert(whole.skip(0) =~= whole);
    out
}

/// Shows the messages from `collected.len()` on that name no author, up to
/// the next that does; then asks for that author, or answers the history.
fn collect_unauthored(messages: Vec<Message>, collected: Vec<MessageResponse>) -> (r: (HistoryStep, HistoryAction))
    requires
        collected@.len() <= messages@.len(),
    ensures
        collected_next(r, collected@, messages@),
{
    let ghost old = collected@;
    let ghost ms = messages@;
    let mut collected = collected;
    let mut i = collected.len();
    while i < messages.len() && messages[i].user_id.is_none()
        invariant
            ms == messages@,
            old.len() <= i <= ms.len(),
            collected@.len() == i,
            first_authored_from(ms, i as int) == first_authored_from(ms, old.len() as int),
            forall|j: int| 0 <= j < old.len() ==> collected@[j] == old[j],
            forall|j: int| old.len() <= j < i ==> shows_message(#[trigger] collected@[j], ms[j], None),
        decreases ms.len() - i,
    {
        let resp = messages[i].to_response(None);
        collected.push(resp);
        i = i + 1;
    }
    if i < messages.len() {
        let user_id = match messages[i].user_id {
            Some(u) => u,
            None => vstd::pervasive::unreached(),
        };
        (HistoryStep::AwaitingAuthor { messages, collected }, HistoryAction::FindUsername { user_id })
    } else {
        let ghost all = collected@;
        let reply = reversed(collected);
        assert(extends_unauthored(old, all, ms));
        (HistoryStep::Finished, HistoryAction::Reply(Ok(reply)))
    }
}

/// Moves the history on: each fetched message is shown under its author's
/// name, looked up where the message names an author; the answer lists the
/// messages in reverse of the fetched order, so oldest first. A database
/// failure ends the request with that failure.
pub fn history_step(step: HistoryStep, event: HistoryEvent) -> (r: (HistoryStep, HistoryAction))
    requires
        history_expects(step, event),
    ensures
        history_moves(step, event, r),
{
    match step {
        HistoryStep::AwaitingMessages => match event {
            HistoryEvent::MessagesFetched(messages) => collect_unauthored(messages, Vec::new()),
            HistoryEvent::DatabaseFailed(m) => (HistoryStep::Finished, HistoryAction::Reply(Err(AppError::Database(m)))),
            _ => vstd::pervasive::unreached(),
        },
        HistoryStep::AwaitingAuthor { messages, collected } => match event {
            HistoryEvent::UsernameFound(name) => {
                let ghost before = collected@;
                let mut collected = collected;
                let resp = messages[collected.len()].to_response(name);
                collected.push(resp);
                assert(collected@.take(before.len() as int) =~= before);
                collect_unauthored(messages, collected)
            },
            HistoryEvent::DatabaseFailed(m) => (HistoryStep::Finished, HistoryAction::Reply(Err(AppError::Database(m)))),
            _ => vstd::pervasive::unreached(),
        },
        HistoryStep::Finished => vstd::pervasive::unreached(),
    }
}

} // verus!

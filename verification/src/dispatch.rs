//! The capability dispatcher: an ordered list of handlers, and the rule that
//! routes a message to the first handler that answers it.

use vstd::prelude::*;
use crate::device::DeviceId;
use crate::message::{Message, MessageView};

verus! {

/// Why a handler could not do its work.
#[derive(Debug, Clone, PartialEq)]
pub struct PluginError {
    /// What went wrong, in words.
    pub message: String,
}

/// What a handler can come back with, as plain values.
pub enum Outcome {
    /// The handler answers with a message.
    Reply(MessageView),
    /// The message is none of the handler's, or was handled without answer.
    Silent,
    /// The handler failed, with the reason.
    Failed(Seq<char>),
}

/// The outcome that a handler's result stands for.
pub open spec fn outcome_of(result: Result<Option<Message>, PluginError>) -> Outcome {
    match result {
        Ok(Some(reply)) => Outcome::Reply(reply@),
        Ok(None) => Outcome::Silent,
        Err(error) => Outcome::Failed(error.message@),
    }
}

/// A capability handler: a unit of functionality that claims some kinds of
/// message and may answer them.
///
/// `may_answer` says which outcomes the handler allows itself for a message
/// in a given state. A handler whose answer depends on the outside world
/// allows several, and one that says nothing allows all; a handler that
/// computes its answer allows exactly one. `may_be_named` does the same for
/// the handler's name.
pub trait Plugin: Send + Sync {
    /// Whether `name` is a name that the handler may give itself.
    open spec fn may_be_named(&self, name: Seq<char>) -> bool {
        true
    }

    /// Whether the handler, as it stands, may come back with `outcome` when
    /// handed `message` from `sender`.
    open spec fn may_answer(&self, message: MessageView, sender: Seq<char>, outcome: Outcome) -> bool {
        true
    }

    /// The handler's name.
    fn name(&self) -> (name: &'static str)
        ensures
            self.may_be_named(name@),
    ;

    /// Handles a message from a sender: `Ok(Some(reply))` to answer,
    /// `Ok(None)` where the message is not for this handler or needs no
    /// answer, `Err` where the handler failed.
    fn handle_message(&mut self, message: &Message, sender_id: &DeviceId) -> (result: Result<
        Option<Message>,
        PluginError,
    >)
        ensures
            old(self).may_answer(message@, sender_id@, outcome_of(result)),
    ;
}

/// A boxed handler is the handler in the box: it has the name and gives the
/// answers of that handler.
impl<T: Plugin + ?Sized> Plugin for Box<T> {
    open spec fn may_be_named(&self, name: Seq<char>) -> bool {
        (**self).may_be_named(name)
    }

    open spec fn may_answer(&self, message: MessageView, sender: Seq<char>, outcome: Outcome) -> bool {
        (**self).may_answer(message, sender, outcome)
    }

    fn name(&self) -> (name: &'static str) {
        (**self).name()
    }

    fn handle_message(&mut self, message: &Message, sender_id: &DeviceId) -> (result: Result<
        Option<Message>,
        PluginError,
    >) {
        (**self).handle_message(message, sender_id)
    }
}

/// Whether `run` can be the outcomes of one dispatch over `handlers`: the
/// handlers are asked in registration order, each allows its outcome, none
/// but the last one asked answers, and asking stops early only at an answer.
pub open spec fn is_run<P: Plugin>(
    handlers: Seq<P>,
    message: MessageView,
    sender: Seq<char>,
    run: Seq<Outcome>,
) -> bool {
    &&& run.len() <= handlers.len()
    &&& forall|i: int|
        0 <= i < run.len() ==> #[trigger] handlers[i].may_answer(message, sender, run[i])
    &&& forall|i: int| 0 <= i < run.len() - 1 ==> !((#[trigger] run[i]) is Reply)
    &&& run.len() < handlers.len() ==> run.len() > 0 && run.last() is Reply
}

/// What a dispatch comes to.
pub struct Selection {
    /// The position of the handler that answered, if one did.
    pub handler: Option<int>,
    /// Its answer.
    pub response: Option<MessageView>,
}

/// What a run comes to: the last handler asked and its answer, if it
/// answered; nothing, if the run went through all handlers without answer.
pub open spec fn selection_of(run: Seq<Outcome>) -> Selection {
    if run.len() > 0 && run.last() is Reply {
        Selection { handler: Some(run.len() - 1), response: Some(run.last()->Reply_0) }
    } else {
        Selection { handler: None, response: None }
    }
}

/// Dispatch is a function of the handlers and the message: over handlers
/// that compute their answers, which is to say that each allows one outcome
/// at most for the message, any two runs for the message are the same run,
/// so they select the same handler and give the same response.
pub proof fn lemma_dispatch_deterministic<P: Plugin>(
    handlers: Seq<P>,
    message: MessageView,
    sender: Seq<char>,
    first: Seq<Outcome>,
    second: Seq<Outcome>,
)
    requires
        is_run(handlers, message, sender, first),
        is_run(handlers, message, sender, second),
        forall|i: int, a: Outcome, b: Outcome|
            #![trigger handlers[i].may_answer(message, sender, a), handlers[i].may_answer(message, sender, b)]
            0 <= i < handlers.len() && handlers[i].may_answer(message, sender, a)
                && handlers[i].may_answer(message, sender, b) ==> a == b,
    ensures
        first == second,
        selection_of(first) == selection_of(second),
{
    assert forall|i: int| 0 <= i < first.len() && i < second.len() implies first[i] == second[i] by {
        assert(handlers[i].may_answer(message, sender, first[i]));
        assert(handlers[i].may_answer(message, sender, second[i]));
    }
    if first.len() < second.len() {
        let k = first.len() - 1;
        assert(first[k] == second[k]);
        assert(!(second[k] is Reply));
    }
    if second.len() < first.len() {
        let k = second.len() - 1;
        assert(first[k] == second[k]);
        assert(!(first[k] is Reply));
    }
    assert(first =~= second);
}

/// The answering handler of a run is the first in registration order whose
/// outcome is an answer.
pub proof fn lemma_first_answer_wins<P: Plugin>(
    handlers: Seq<P>,
    message: MessageView,
    sender: Seq<char>,
    run: Seq<Outcome>,
)
    requires
        is_run(handlers, message, sender, run),
    ensures
        match selection_of(run).handler {
            Some(k) => 0 <= k < handlers.len() && run[k] is Reply && forall|i: int|
                0 <= i < k ==> !((#[trigger] run[i]) is Reply),
            None => run.len() == handlers.len() && forall|i: int|
                0 <= i < run.len() ==> !((#[trigger] run[i]) is Reply),
        },
{
}

/// What a dispatch hands back.
#[derive(Debug, Clone, PartialEq)]
pub struct Dispatched {
    /// The answer of the first handler that gave one.
    pub response: Option<Message>,
    /// The position of that handler in registration order.
    pub handler: Option<usize>,
}

impl Dispatched {
    /// The dispatch as plain values.
    pub open spec fn selection(&self) -> Selection {
        Selection {
            handler: match self.handler {
                Some(position) => Some(position as int),
                None => None,
            },
            response: match self.response {
                Some(message) => Some(message@),
                None => None,
            },
        }
    }
}

/// The response of a handler's result, if it is one: a failure counts as no
/// response, so that a failing handler never stops a dispatch.
pub fn response_of(result: Result<Option<Message>, PluginError>) -> (response: Option<Message>)
    ensures
        match outcome_of(result) {
            Outcome::Reply(reply) => response matches Some(message) && message@ == reply,
            _ => response is None,
        },
{
    match result {
        Ok(Some(reply)) => Some(reply),
        Ok(None) => None,
        Err(_) => None,
    }
}

/// The result of a handler that only had work done: no response where the
/// work went well, the failure where it did not.
pub fn after_effects(failure: Option<String>) -> (result: Result<Option<Message>, PluginError>)
    ensures
        match failure {
            Some(reason) => outcome_of(result) == Outcome::Failed(reason@),
            None => outcome_of(result) == Outcome::Silent,
        },
{
    match failure {
        Some(reason) => Err(PluginError { message: reason }),
        None => Ok(None),
    }
}

/// The ordered list of capability handlers. The handlers are of one type;
/// handlers of many kinds are dispatched over as boxes of `dyn Plugin`.
pub struct Dispatcher<P: Plugin = Box<dyn Plugin>> {
    plugins: Vec<P>,
}

impl<P: Plugin> Dispatcher<P> {
    /// The handlers, in registration order.
    pub closed spec fn handlers(&self) -> Seq<P> {
        self.plugins@
    }

    /// A dispatcher over the given handlers, in the given order.
    pub fn new(plugins: Vec<P>) -> (dispatcher: Dispatcher<P>)
        ensures
            dispatcher.handlers() == plugins@,
    {
        Dispatcher { plugins }
    }

    /// Registers a handler behind those already registered.
    pub fn register(&mut self, plugin: P)
        ensures
            final(self).handlers() == old(self).handlers().push(plugin),
    {
        self.plugins.push(plugin);
    }

    /// The number of handlers.
    pub fn len(&self) -> (count: usize)
        ensures
            count == self.handlers().len(),
    {
        self.plugins.len()
    }

    /// The names that the handlers give themselves, in registration order.
    pub fn names(&self) -> (names: Vec<&'static str>)
        ensures
            names.len() == self.handlers().len(),
            forall|i: int|
                0 <= i < names.len() ==> #[trigger] self.handlers()[i].may_be_named(names@[i]@),
    {
        let mut names: Vec<&'static str> = Vec::new();
        let mut i: usize = 0;
        while i < self.plugins.len()
            invariant
                i <= self.plugins.len(),
                names.len() == i,
                forall|j: int| 0 <= j < i ==> #[trigger] self.plugins@[j].may_be_named(names@[j]@),
            decreases self.plugins.len() - i,
        {
            names.push(self.plugins[i].name());
            i = i + 1;
        }
        names
    }

    /// Routes a message: the handlers are asked in registration order until
    /// one answers; its answer is the response. A handler that fails counts
    /// as one that does not answer. Without any answer there is no response.
    pub fn dispatch(&mut self, message: &Message, sender_id: &DeviceId) -> (dispatched: Dispatched)
        ensures
            final(self).handlers().len() == old(self).handlers().len(),
            exists|run: Seq<Outcome>|
                is_run(old(self).handlers(), message@, sender_id@, run) && dispatched.selection()
                    == selection_of(run),
    {
        let ghost handlers = self.plugins@;
        let ghost run: Seq<Outcome> = Seq::empty();
        let mut i: usize = 0;
        while i < self.plugins.len()
            invariant
                i <= self.plugins.len(),
                self.plugins.len() == handlers.len(),
                handlers == old(self).handlers(),
                run.len() == i,
                forall|j: int| i <= j < handlers.len() ==> self.plugins@[j] == handlers[j],
                forall|j: int|
                    0 <= j < i ==> #[trigger] handlers[j].may_answer(
                        message@,
                        sender_id@,
                        run[j],
                    ),
                forall|j: int| 0 <= j < i ==> !((#[trigger] run[j]) is Reply),
            decreases self.plugins.len() - i,
        {
            let result = self.plugins[i].handle_message(message, sender_id);
            proof {
                run = run.push(outcome_of(result));
            }
            if let Some(reply) = response_of(result) {
                let dispatched = Dispatched { response: Some(reply), handler: Some(i) };
                proof {
                    assert(run.last() == outcome_of(result));
                    assert(is_run(handlers, message@, sender_id@, run));
                    assert(dispatched.selection() == selection_of(run));
                }
                return dispatched;
            }
            i = i + 1;
        }
        let dispatched = Dispatched { response: None, handler: None };
        proof {
            assert(is_run(handlers, message@, sender_id@, run));
            assert(dispatched.selection() == selection_of(run));
        }
        dispatched
    }
}

} // verus!

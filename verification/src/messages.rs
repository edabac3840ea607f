//! The message queue through which panes report to the main window, and
//! the error dialog it feeds.
use vstd::prelude::*;
use std::collections::VecDeque;

verus! {

/// A message from a pane to the main window.
#[derive(Debug)]
pub enum UiMessage {
    /// Show an error dialog with this text.
    ErrorDialog(String),
}

/// A first-in first-out queue of UI messages.
#[derive(Debug)]
pub struct MessageBus {
    messages: VecDeque<UiMessage>,
}

impl MessageBus {
    /// The waiting messages, oldest first.
    pub closed spec fn pending(&self) -> Seq<UiMessage> {
        self.messages@.reverse()
    }

    /// An empty queue.
    pub fn new() -> (r: Self)
        ensures
            r.pending() == Seq::<UiMessage>::empty(),
    {
        MessageBus { messages: VecDeque::new() }
    }

    /// Queues a message behind the waiting ones.
    pub fn push(&mut self, message: UiMessage)
        ensures
            final(self).pending() == old(self).pending().push(message),
    {
        self.messages.push_front(message);
        assert(self.messages@.reverse() =~= old(self).messages@.reverse().push(message));
    }

    /// Takes the oldest waiting message, if any.
    pub fn pop(&mut self) -> (r: Option<UiMessage>)
        ensures
            old(self).pending().len() == 0 ==> (r is None) && final(self).pending()
                == old(self).pending(),
            old(self).pending().len() > 0 ==> r == Some(old(self).pending()[0])
                && final(self).pending() == old(self).pending().drop_first(),
    {
        let r = self.messages.pop_back();
        proof {
            if old(self).messages@.len() > 0 {
                assert(self.messages@.reverse() =~= old(self).messages@.reverse().drop_first());
            }
        }
        r
    }
}

/// The error dialog text the queued messages leave behind: the text of the
/// last error message, or `current` when there is none.
pub open spec fn last_error_dialog(messages: Seq<UiMessage>, current: Option<Seq<char>>) -> Option<
    Seq<char>,
>
{
    if messages.len() == 0 {
        current
    } else {
        match messages.last() {
            UiMessage::ErrorDialog(text) => Some(text@),
        }
    }
}

/// The main window's message queue and the error dialog it shows.
#[derive(Debug)]
pub struct CaditUiState {
    pub messages: MessageBus,
    pub error_dialog: Option<String>,
}

/// The view of an optional text.
pub open spec fn opt_text(o: Option<String>) -> Option<Seq<char>> {
    match o {
        Some(s) => Some(s@),
        None => None,
    }
}

impl CaditUiState {
    /// No message waiting and no dialog shown.
    pub fn new() -> (r: Self)
        ensures
            r.messages.pending().len() == 0,
            r.error_dialog is None,
    {
        CaditUiState { messages: MessageBus::new(), error_dialog: None }
    }

    /// Handles every waiting message, oldest first: each error message
    /// replaces the dialog text, so the last one wins.
    pub fn handle_messages(&mut self)
        ensures
            final(self).messages.pending().len() == 0,
            opt_text(final(self).error_dialog) == last_error_dialog(
                old(self).messages.pending(),
                opt_text(old(self).error_dialog),
            ),
    {
        let ghost all = self.messages.pending();
        let ghost start = opt_text(self.error_dialog);
        let ghost mut taken: int = 0;
        loop
            invariant
                0 <= taken <= all.len(),
                self.messages.pending() == all.skip(taken),
                opt_text(self.error_dialog) == last_error_dialog(all.take(taken), start),
            ensures
                self.messages.pending().len() == 0,
                opt_text(self.error_dialog) == last_error_dialog(all, start),
            decreases all.len() - taken,
        {
            let m = self.messages.pop();
            match m {
                Some(UiMessage::ErrorDialog(content)) => {
                    proof {
                        assert(all.take(taken + 1).drop_last() =~= all.take(taken));
                        assert(all[taken] == all.skip(taken)[0]);
                        taken = taken + 1;
                        assert(all.skip(taken - 1).drop_first() =~= all.skip(taken));
                    }
                    self.error_dialog = Some(content);
                },
                None => {
                    assert(all.take(taken) =~= all);
                    break ;
                },
            }
        }
    }

    /// The user acknowledged the error dialog.
    pub fn dismiss_error_dialog(&mut self)
        ensures
            final(self).error_dialog is None,
            final(self).messages.pending() == old(self).messages.pending(),
    {
        self.error_dialog = None;
    }

    /// The main window may always be closed.
    pub fn on_close(&mut self) -> (r: bool)
        ensures
            r,
            *final(self) == *old(self),
    {
        true
    }
}

/// Messages leave the queue in the order they entered it: a message pushed
/// behind waiting ones comes out only after them, and on an empty queue it
/// comes out next.
pub proof fn law_fifo(waiting: Seq<UiMessage>, m: UiMessage)
    ensures
        waiting.len() > 0 ==> waiting.push(m)[0] == waiting[0] && waiting.push(m).drop_first()
            == waiting.drop_first().push(m),
        waiting.len() == 0 ==> waiting.push(m)[0] == m && waiting.push(m).drop_first().len() == 0,
{
    if waiting.len() > 0 {
        assert(waiting.push(m).drop_first() =~= waiting.drop_first().push(m));
    }
}

} // verus!

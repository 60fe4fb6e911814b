//! What holds of every run of the parser.

use crate::model::ParserModel;
use crate::table::{
    buffer_policy, transition, AB, AE, C1, CB, CE, OB, OE, OK, SE, SP, UC, Y1, YB, _A, _O, __,
};
use crate::types::{Config, Event, Jev};
use crate::wellformed::{lemma_feed_wf, lemma_initial_wf, well_nested};
use vstd::prelude::*;

verus! {

/// A sequence is a prefix of itself with one more element.
pub proof fn lemma_prefix_push(s: Seq<Event>, e: Event)
    ensures
        s.is_prefix_of(s.push(e)),
{
    assert(s =~= s.push(e).subrange(0, s.len() as int));
}

/// A prefix of a prefix is a prefix.
pub proof fn lemma_prefix_trans(a: Seq<Event>, b: Seq<Event>, c: Seq<Event>)
    requires
        a.is_prefix_of(b),
        b.is_prefix_of(c),
    ensures
        a.is_prefix_of(c),
{
    assert(a =~= c.subrange(0, a.len() as int));
}

impl ParserModel {
    /// Reporting the pending scalar takes no event back.
    pub proof fn lemma_do_buffer_grows(self)
        ensures
            self.emitted.is_prefix_of(self.do_buffer().emitted),
    {
        match self.pending_type {
            Some(ty) => {
                lemma_prefix_push(self.emitted, Event { kind: ty, data: Some(self.buffer) });
            },
            None => {},
        }
    }

    /// The work of an action takes no event back.
    pub proof fn lemma_per_type_action_grows(self, action: u8)
        ensures
            self.emitted.is_prefix_of(self.per_type_action(action).emitted),
    {
        let after = self.per_type_action(action);
        if action == AB {
            lemma_prefix_push(self.emitted, Event { kind: Jev::ArrayStart, data: None });
        } else if action == AE {
            lemma_prefix_push(self.emitted, Event { kind: Jev::ArrayEnd, data: None });
        } else if action == OB {
            lemma_prefix_push(self.emitted, Event { kind: Jev::ObjectStart, data: None });
        } else if action == OE {
            lemma_prefix_push(self.emitted, Event { kind: Jev::ObjectEnd, data: None });
        } else if action == CB || action == YB {
            self.lemma_do_buffer_grows();
        } else if action == SE {
            lemma_prefix_push(self.emitted, Event { kind: Jev::Key, data: Some(self.buffer) });
            lemma_prefix_push(self.emitted, Event { kind: Jev::String, data: Some(self.buffer) });
        } else {
            assert(after.emitted == self.emitted);
        }
    }

    /// An action as a whole takes no event back.
    pub proof fn lemma_update_callbk_grows(
        self,
        ty: Option<Jev>,
        nst: u8,
        dobuf: bool,
        action: u8,
    )
        ensures
            self.emitted.is_prefix_of(self.update_callbk(ty, nst, dobuf, action).emitted),
    {
        let flushed = if dobuf {
            self.do_buffer()
        } else {
            self
        };
        self.lemma_do_buffer_grows();
        flushed.lemma_per_type_action_grows(action);
        lemma_prefix_trans(self.emitted, flushed.emitted, flushed.per_type_action(action).emitted);
    }

    /// Carrying out an action takes no event back.
    pub proof fn lemma_do_action_grows(self, action: u8)
        ensures
            self.emitted.is_prefix_of(self.do_action(action).emitted),
    {
        reveal(ParserModel::do_action);
        self.lemma_update_callbk_grows(None, __, true, SP);
        self.lemma_update_callbk_grows(None, _A, false, AB);
        self.lemma_update_callbk_grows(None, OK, true, AE);
        self.lemma_update_callbk_grows(None, _O, false, OB);
        self.lemma_update_callbk_grows(None, OK, true, OE);
        self.lemma_update_callbk_grows(None, C1, false, CB);
        self.lemma_update_callbk_grows(None, Y1, false, YB);
        self.lemma_update_callbk_grows(None, __, false, CE);
        self.lemma_update_callbk_grows(None, __, false, SE);
        self.lemma_update_callbk_grows(None, __, false, UC);
    }

    /// One more byte takes no event back.
    pub proof fn lemma_step_grows(self, ch: u8)
        ensures
            self.emitted.is_prefix_of(self.step(ch).emitted),
    {
        reveal(ParserModel::step);
        if self.failed is None {
            let classified = self.get_next_class(ch);
            let class = self.class_of(ch);
            let next = transition(self.state, class);
            let policy = buffer_policy(self.state, class);
            let buffered = classified.buffer_apply(policy, ch);
            buffered.lemma_do_action_grows(next);
        }
    }

    /// A run of bytes takes no event back.
    pub proof fn lemma_feed_grows(self, bytes: Seq<u8>)
        ensures
            self.emitted.is_prefix_of(self.feed(bytes).emitted),
        decreases bytes.len(),
    {
        if bytes.len() > 0 {
            self.lemma_feed_grows(bytes.drop_last());
            self.feed(bytes.drop_last()).lemma_step_grows(bytes.last());
            lemma_prefix_trans(
                self.emitted,
                self.feed(bytes.drop_last()).emitted,
                self.feed(bytes).emitted,
            );
        }
    }

    /// A parser that has failed takes no further input: it stays as it is.
    pub proof fn lemma_feed_after_failure(self, bytes: Seq<u8>)
        requires
            self.failed is Some,
        ensures
            self.feed(bytes) == self,
        decreases bytes.len(),
    {
        if bytes.len() > 0 {
            reveal(ParserModel::step);
            self.lemma_feed_after_failure(bytes.drop_last());
        }
    }

    /// Feeding a run of bytes in two parts leaves the parser as feeding it at
    /// once does, with the same events handed over: where the input is cut
    /// makes no difference.
    pub proof fn lemma_feed_split(self, first: Seq<u8>, second: Seq<u8>)
        ensures
            self.feed(first + second) == self.feed(first).feed(second),
        decreases second.len(),
    {
        if second.len() == 0 {
            assert(first + second =~= first);
        } else {
            assert((first + second).drop_last() =~= first + second.drop_last());
            self.lemma_feed_split(first, second.drop_last());
        }
    }

    /// Feeding one byte is one step.
    pub proof fn lemma_feed_one(self, ch: u8)
        ensures
            self.feed(seq![ch]) == self.step(ch),
    {
        assert(seq![ch].drop_last() =~= Seq::<u8>::empty());
        reveal_with_fuel(ParserModel::feed, 2);
    }

    /// Feeding byte by byte yields what feeding the whole input once yields:
    /// the parser after `bytes` is the parser after all of them but the last,
    /// given the last.
    pub proof fn lemma_feed_byte_by_byte(self, bytes: Seq<u8>, n: int)
        requires
            0 <= n < bytes.len(),
        ensures
            self.feed(bytes.take(n + 1)) == self.feed(bytes.take(n)).step(bytes[n]),
    {
        assert(bytes.take(n + 1).drop_last() =~= bytes.take(n));
    }

    /// A rejected input has one offending byte: every byte before it was read
    /// without failure, the parser failed on it, and what follows it in the
    /// input changes nothing.
    pub proof fn lemma_first_offending_byte(self, bytes: Seq<u8>) -> (offset: int)
        requires
            self.failed is None,
            self.feed(bytes).failed is Some,
        ensures
            0 <= offset < bytes.len(),
            forall|n: int| 0 <= n <= offset ==> (#[trigger] self.feed(bytes.take(n))).failed is None,
            forall|n: int|
                offset < n <= bytes.len() ==> #[trigger] self.feed(bytes.take(n)) == self.feed(bytes),
        decreases bytes.len(),
    {
        assert(bytes.len() > 0);
        let shorter = bytes.drop_last();
        assert(bytes.take(bytes.len() as int) =~= bytes);
        if self.feed(shorter).failed is Some {
            let offset = self.lemma_first_offending_byte(shorter);
            reveal(ParserModel::step);
            assert forall|n: int| 0 <= n <= offset implies (#[trigger] self.feed(
                bytes.take(n),
            )).failed is None by {
                assert(bytes.take(n) =~= shorter.take(n));
            }
            assert forall|n: int| offset < n <= bytes.len() implies #[trigger] self.feed(
                bytes.take(n),
            ) == self.feed(bytes) by {
                if n < bytes.len() {
                    assert(bytes.take(n) =~= shorter.take(n));
                }
            }
            offset
        } else {
            let offset = bytes.len() - 1;
            assert forall|n: int| 0 <= n <= offset implies (#[trigger] self.feed(
                bytes.take(n),
            )).failed is None by {
                if self.feed(bytes.take(n)).failed is Some {
                    assert(bytes.take(n) + bytes.subrange(n, offset) =~= shorter);
                    self.lemma_feed_split(bytes.take(n), bytes.subrange(n, offset));
                    self.feed(bytes.take(n)).lemma_feed_after_failure(bytes.subrange(n, offset));
                }
            }
            offset
        }
    }

    /// Where an input is rejected depends on nothing but the bytes up to the
    /// offending one: any input that begins with them is rejected at the same
    /// offset, with the same error, after the same events.
    pub proof fn lemma_rejection_is_deterministic(self, a: Seq<u8>, b: Seq<u8>, offset: int)
        requires
            0 <= offset < a.len(),
            offset < b.len(),
            a.take(offset + 1) == b.take(offset + 1),
            self.feed(a.take(offset + 1)).failed is Some,
        ensures
            self.feed(a) == self.feed(b),
            self.feed(a) == self.feed(a.take(offset + 1)),
    {
        assert(a.take(offset + 1) + a.skip(offset + 1) =~= a);
        assert(b.take(offset + 1) + b.skip(offset + 1) =~= b);
        self.lemma_feed_split(a.take(offset + 1), a.skip(offset + 1));
        self.lemma_feed_split(b.take(offset + 1), b.skip(offset + 1));
        self.feed(a.take(offset + 1)).lemma_feed_after_failure(a.skip(offset + 1));
        self.feed(b.take(offset + 1)).lemma_feed_after_failure(b.skip(offset + 1));
    }

    /// In the events of an input that is accepted to its end, every start
    /// event has its end event later on, of the same kind, and the pairs
    /// nest.
    pub proof fn lemma_accepted_input_is_well_nested(self, input: Seq<u8>)
        requires
            self.wf(),
            self.feed(input).end() is Ok,
        ensures
            well_nested(self.feed(input).emitted),
    {
        lemma_feed_wf(self, input);
        reveal(ParserModel::wf);
        assert(self.feed(input).stack =~= Seq::empty());
    }
}

/// In the events of a whole input that is accepted, every start event has
/// its end event later on, of the same kind, and the pairs nest.
pub proof fn lemma_accepted_document_is_well_nested(config: Config, input: Seq<u8>)
    requires
        ParserModel::initial(config).feed(input).end() is Ok,
    ensures
        well_nested(ParserModel::initial(config).feed(input).emitted),
{
    lemma_initial_wf(config);
    ParserModel::initial(config).lemma_accepted_input_is_well_nested(input);
}

} // verus!

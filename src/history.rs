use vstd::prelude::*;
use crate::message::{Message, system_role};

verus! {

/// The messages of `s` that are not system messages, in their order.
pub open spec fn without_system(s: Seq<Message>) -> Seq<Message> {
    s.filter(|m: Message| m.role@ != system_role())
}

/// The last `k` elements of `s`, or all of `s` where it is shorter.
pub open spec fn last_n(s: Seq<Message>, k: nat) -> Seq<Message> {
    if s.len() <= k {
        s
    } else {
        s.subrange(s.len() - k, s.len() as int)
    }
}

/// What is stored of `messages` under the bound `max_history`: the most
/// recent non-system messages, at most `max_history` of them, oldest first.
pub open spec fn retained(messages: Seq<Message>, max_history: nat) -> Seq<Message> {
    last_n(without_system(messages), max_history)
}

/// The messages to persist after an exchange: system messages dropped, then
/// only the trailing `max_history` of the rest kept, in their order.
pub fn messages_to_keep(messages: &Vec<Message>, max_history: usize) -> (r: Vec<Message>)
    ensures
        r@ == retained(messages@, max_history as nat),
{
    let mut kept: Vec<Message> = Vec::new();
    let mut i: usize = 0;
    while i < messages.len()
        invariant
            i <= messages.len(),
            kept@ == without_system(messages@.subrange(0, i as int)),
        decreases messages.len() - i,
    {
        proof {
            let p = messages@.subrange(0, i as int + 1);
            assert(p.drop_last() =~= messages@.subrange(0, i as int));
            reveal(Seq::filter);
        }
        let m = &messages[i];
        if !m.is_system() {
            kept.push(m.copy());
        }
        i = i + 1;
    }
    proof {
        assert(messages@.subrange(0, messages.len() as int) =~= messages@);
    }
    let n = kept.len();
    let start: usize = if n <= max_history { 0 } else { n - max_history };
    let mut r: Vec<Message> = Vec::new();
    let mut j: usize = start;
    while j < n
        invariant
            start <= j <= n,
            n == kept.len(),
            r@ == kept@.subrange(start as int, j as int),
        decreases n - j,
    {
        r.push(kept[j].copy());
        proof {
            assert(r@ =~= kept@.subrange(start as int, j as int + 1));
        }
        j = j + 1;
    }
    proof {
        assert(r@ =~= last_n(kept@, max_history as nat));
    }
    r
}

/// Whatever is stored has at most `max_history` entries: exactly as many as
/// there are non-system messages when that is fewer, and it is the tail of
/// those messages of that length, in their order.
pub proof fn lemma_retained_is_bounded_suffix(messages: Seq<Message>, max_history: nat)
    ensures
        ({
            let ns = without_system(messages);
            let r = retained(messages, max_history);
            &&& r.len() == if ns.len() <= max_history { ns.len() } else { max_history }
            &&& r == ns.subrange(ns.len() - r.len(), ns.len() as int)
        }),
{
    let ns = without_system(messages);
    assert(ns.subrange(0, ns.len() as int) =~= ns);
}

/// A bound of zero stores nothing, whatever the messages.
pub proof fn lemma_zero_bound_stores_nothing(messages: Seq<Message>)
    ensures
        retained(messages, 0) == Seq::<Message>::empty(),
{
    assert(retained(messages, 0) =~= Seq::<Message>::empty());
}

/// No system message is ever stored.
pub proof fn lemma_retained_has_no_system(messages: Seq<Message>, max_history: nat)
    ensures
        forall|i: int|
            0 <= i < retained(messages, max_history).len()
                ==> #[trigger] retained(messages, max_history)[i].role@ != system_role(),
{
    let ns = without_system(messages);
    broadcast use vstd::seq_lib::group_filter_ensures;
    let r = retained(messages, max_history);
    assert forall|i: int| 0 <= i < r.len() implies #[trigger] r[i].role@ != system_role() by {
        if ns.len() > max_history {
            assert(r[i] == ns[ns.len() - max_history + i]);
        }
    }
}

proof fn lemma_filter_keeps_all(s: Seq<Message>)
    requires
        forall|i: int| 0 <= i < s.len() ==> #[trigger] s[i].role@ != system_role(),
    ensures
        without_system(s) == s,
    decreases s.len(),
{
    reveal(Seq::filter);
    if s.len() > 0 {
        lemma_filter_keeps_all(s.drop_last());
        assert(s.drop_last().push(s.last()) =~= s);
    } else {
        assert(without_system(s) =~= s);
    }
}

/// Storing what was stored again, under the same bound, changes nothing:
/// a loaded history saved back unchanged is the same history.
pub proof fn lemma_retained_is_stable(messages: Seq<Message>, max_history: nat)
    ensures
        retained(retained(messages, max_history), max_history) == retained(
            messages,
            max_history,
        ),
{
    let r = retained(messages, max_history);
    lemma_retained_has_no_system(messages, max_history);
    lemma_filter_keeps_all(r);
    lemma_retained_is_bounded_suffix(messages, max_history);
}

/// A request made of the system message, the prior history and the new
/// turns of this exchange, none of them system messages, is stored as the
/// most recent `max_history` turns of the prior history followed by the new
/// ones: the oldest turns are the first to go.
pub proof fn lemma_exchange_extends_history(
    system: Message,
    prior: Seq<Message>,
    new_turns: Seq<Message>,
    max_history: nat,
)
    requires
        system.role@ == system_role(),
        forall|i: int| 0 <= i < prior.len() ==> #[trigger] prior[i].role@ != system_role(),
        forall|i: int| 0 <= i < new_turns.len() ==> #[trigger] new_turns[i].role@ != system_role(),
    ensures
        retained(seq![system] + prior + new_turns, max_history) == last_n(
            prior + new_turns,
            max_history,
        ),
{
    let rest = prior + new_turns;
    assert forall|i: int| 0 <= i < rest.len() implies #[trigger] rest[i].role@ != system_role() by {
        if i >= prior.len() {
            assert(rest[i] == new_turns[i - prior.len()]);
        }
    }
    lemma_filter_keeps_all(rest);
    assert(seq![system] + prior + new_turns =~= seq![system] + rest);
    rest.lemma_filter_prepend(system, |m: Message| m.role@ != system_role());
    assert(Seq::<Message>::empty() + rest =~= rest);
}

} // verus!

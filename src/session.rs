use vstd::prelude::*;
use crate::completion::CompletionError;
use crate::history::{messages_to_keep, retained};
use crate::message::{Message, assistant_role, system_role, user_role};
use crate::text::{text_of, concat, join_words, joined, trim, trimmed};

verus! {

/// The query text of one invocation: an explicit query wins, then the free
/// words joined by spaces, each written after `Query: ` and trimmed; with
/// neither, memory mode asks with an empty query and otherwise there is no
/// work (`None`).
pub open spec fn query_text(query: Option<Seq<char>>, words: Seq<Seq<char>>, memory: bool) -> Option<
    Seq<char>,
> {
    match query {
        Some(q) => Some("Query: "@ + trimmed(q)),
        None => if words.len() > 0 {
            Some("Query: "@ + trimmed(joined(words)))
        } else if memory {
            Some(Seq::empty())
        } else {
            None
        },
    }
}

/// The input text of one invocation: piped data, trimmed, after `Input: `;
/// nothing where no data was piped or the data is blank.
pub open spec fn input_text(piped: Option<Seq<char>>) -> Seq<char> {
    match piped {
        Some(b) => if trimmed(b).len() == 0 {
            Seq::empty()
        } else {
            "Input: "@ + trimmed(b)
        },
        None => Seq::empty(),
    }
}

/// The content of the new user turn, or `None` where query and input are
/// both blank and no user turn is sent.
pub open spec fn user_turn(query: Seq<char>, input: Seq<char>) -> Option<Seq<char>> {
    if trimmed(query).len() == 0 && trimmed(input).len() == 0 {
        None
    } else {
        Some(trimmed(query + "\n\n"@ + input))
    }
}

/// The history that a request carries: none where `prior` is `None`.
pub open spec fn prior_history(prior: Option<Vec<Message>>) -> Seq<Message> {
    match prior {
        Some(v) => v@,
        None => Seq::empty(),
    }
}

/// Decides the query text; `None` means that nothing was asked and the
/// usage text is due.
pub fn compose_query(query: &Option<String>, words: &Vec<String>, memory: bool) -> (r: Option<
    String,
>)
    ensures
        text_of(r) == query_text(
            text_of(*query),
            words@.map_values(|w: String| w@),
            memory,
        ),
{
    match query {
        Some(q) => {
            let t = trim(q.as_str());
            Some(concat("Query: ", t.as_str()))
        },
        None => {
            if words.len() > 0 {
                let j = join_words(words);
                let t = trim(j.as_str());
                Some(concat("Query: ", t.as_str()))
            } else if memory {
                Some(String::new())
            } else {
                None
            }
        },
    }
}

/// The input text from what was piped in, if anything; blank data counts
/// as none.
pub fn compose_input(piped: &Option<String>) -> (r: String)
    ensures
        r@ == input_text(text_of(*piped)),
{
    match piped {
        Some(b) => {
            let t = trim(b.as_str());
            if t.as_str().unicode_len() == 0 {
                String::new()
            } else {
                concat("Input: ", t.as_str())
            }
        },
        None => String::new(),
    }
}

/// The content of the new user turn, if one is sent.
pub fn compose_user_turn(query: &str, input: &str) -> (r: Option<String>)
    ensures
        text_of(r) == user_turn(query@, input@),
{
    let q = trim(query);
    let i = trim(input);
    if q.as_str().unicode_len() == 0 && i.as_str().unicode_len() == 0 {
        None
    } else {
        let a = concat(query, "\n\n");
        let b = concat(a.as_str(), input);
        Some(trim(b.as_str()))
    }
}

/// The messages sent for one invocation: the system message with
/// `system_prompt`, then the prior history (none where `prior` is `None`),
/// then the user turn that `query` and `input` make, if any.
pub fn build_request(system_prompt: &str, prior: Option<Vec<Message>>, query: &str, input: &str) -> (r:
    Vec<Message>)
    ensures
        ({
            let p = prior_history(prior);
            &&& r@.len() == 1 + p.len() + if user_turn(query@, input@) is Some { 1int } else { 0 }
            &&& r@[0].role@ == system_role()
            &&& r@[0].content@ == system_prompt@
            &&& r@.subrange(1, 1 + p.len() as int) == p
            &&& match user_turn(query@, input@) {
                Some(c) => r@.last().role@ == user_role() && r@.last().content@ == c,
                None => true,
            }
        }),
{
    let mut r: Vec<Message> = Vec::new();
    r.push(Message::new("system", system_prompt));
    let ghost p = prior_history(prior);
    match prior {
        Some(mut v) => {
            r.append(&mut v);
        },
        None => {},
    }
    assert(r@.subrange(1, 1 + p.len() as int) =~= p);
    match compose_user_turn(query, input) {
        Some(c) => {
            r.push(Message::new("user", c.as_str()));
            assert(r@.subrange(1, 1 + p.len() as int) =~= p);
        },
        None => {},
    }
    r
}

/// What to store once the completion is done: nothing (`None`) when memory
/// mode is off or no reply came; otherwise the request with the assistant's
/// reply appended, cut down to the most recent `max_history` non-system
/// messages.
pub fn history_after_reply(
    memory: bool,
    messages: Vec<Message>,
    reply: &Result<String, CompletionError>,
    max_history: usize,
) -> (r: Option<Vec<Message>>)
    ensures
        r is Some <==> memory && reply is Ok,
        match r {
            Some(h) => exists|answer: Message|
                answer.role@ == assistant_role() && answer.content@ == reply->Ok_0@ && h@
                    == retained(messages@.push(answer), max_history as nat),
            None => true,
        },
{
    match reply {
        Ok(text) => {
            if memory {
                let mut all = messages;
                let answer = Message::new("assistant", text.as_str());
                all.push(answer);
                let h = messages_to_keep(&all, max_history);
                Some(h)
            } else {
                None
            }
        },
        Err(_) => None,
    }
}

} // verus!

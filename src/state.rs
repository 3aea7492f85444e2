//! The continuation state: prior turns that the gateway hands to the client
//! in response metadata and reads back from the next request.

use vstd::prelude::*;
use crate::message::{Role, Message, MessageView, role_text, role_of_text, message_views, lemma_role_text_round_trip};

verus! {

/// The metadata key under which the continuation state travels.
pub const STATE_KEY: &'static str = "x-curve-state";

/// A role name and a content, as the state blob holds them.
pub type PairView = (Seq<char>, Seq<char>);

/// The JSON text that serde_json writes for a list of string pairs.
pub uninterp spec fn pairs_json(p: Seq<PairView>) -> Seq<char>;

pub open spec fn pair_views(v: Seq<(String, String)>) -> Seq<PairView> {
    v.map_values(|x: (String, String)| (x.0@, x.1@))
}

/// What serde_json::from_str reads from a text as a list of string pairs;
/// `None` where it reports an error.
pub uninterp spec fn pairs_parsed(s: Seq<char>) -> Option<Seq<PairView>>;

/// Relies on serde_json::to_string: writes each pair as a two-string JSON
/// array. Serialising strings and tuples of them does not fail.
#[verifier::external_body]
fn pairs_to_json(pairs: &Vec<(String, String)>) -> (r: Option<String>)
    ensures
        r is Some,
        r is Some ==> r.unwrap()@ == pairs_json(pair_views(pairs@)),
{
    serde_json::to_string(pairs).ok()
}

/// Relies on serde_json::from_str: reads back what serde_json::to_string wrote
/// for a list of string pairs.
#[verifier::external_body]
fn pairs_from_json(s: &str) -> (r: Option<Vec<(String, String)>>)
    ensures
        pairs_parsed(s@) == (if r is Some { Some(pair_views(r.unwrap()@)) } else { None::<Seq<PairView>> }),
        forall|p: Seq<PairView>| s@ == #[trigger] pairs_json(p) ==> r is Some && pair_views(r.unwrap()@) == p,
{
    serde_json::from_str(s).ok()
}

/// The pairs that stand for a list of messages.
pub open spec fn pairs_of(ms: Seq<MessageView>) -> Seq<PairView> {
    ms.map_values(|m: MessageView| (role_text(m.0), m.1))
}

/// The messages that a list of pairs stands for; `None` where a role name
/// is unknown.
pub open spec fn messages_of(ps: Seq<PairView>) -> Option<Seq<MessageView>>
    decreases ps.len(),
{
    if ps.len() == 0 {
        Some(Seq::empty())
    } else {
        match (messages_of(ps.drop_last()), role_of_text(ps.last().0)) {
            (Some(front), Some(role)) => Some(front.push((role, ps.last().1))),
            _ => None,
        }
    }
}

/// The state text written for a list of messages.
pub open spec fn state_text(ms: Seq<MessageView>) -> Seq<char> {
    pairs_json(pairs_of(ms))
}

/// Messages turned into pairs and back keep their roles and contents.
pub proof fn lemma_state_round_trip(ms: Seq<MessageView>)
    ensures
        messages_of(pairs_of(ms)) == Some(ms),
    decreases ms.len(),
{
    if ms.len() > 0 {
        let front = ms.drop_last();
        lemma_state_round_trip(front);
        assert(pairs_of(ms).drop_last() =~= pairs_of(front));
        lemma_role_text_round_trip(ms.last().0);
        assert(front.push(ms.last()) =~= ms);
    } else {
        assert(pairs_of(ms) =~= Seq::<PairView>::empty());
    }
}

/// Why a state blob could not be read.
#[derive(Clone, Copy, Debug, PartialEq, Eq, Structural)]
pub enum StateError {
    /// The text is not a JSON list of string pairs.
    Malformed,
    /// A pair names a role outside the four known ones.
    UnknownRole,
}

/// Writes the state for a list of messages.
pub fn encode_state(msgs: &Vec<Message>) -> (r: String)
    ensures
        r@ == state_text(message_views(msgs@)),
{
    let mut pairs: Vec<(String, String)> = Vec::new();
    let mut i: usize = 0;
    while i < msgs.len()
        invariant
            i <= msgs@.len(),
            pair_views(pairs@) =~= pairs_of(message_views(msgs@.take(i as int))),
        decreases msgs@.len() - i,
    {
        let m = &msgs[i];
        let name = m.role.name();
        let ghost before = pairs@;
        pairs.push((name.to_owned(), m.content.clone()));
        assert(pairs@ =~= before.push(pairs@.last()));
        assert(pair_views(pairs@) =~= pair_views(before).push((role_text(m.role), m.content@)));
        i = i + 1;
        assert(message_views(msgs@.take(i as int)) =~= message_views(msgs@.take(i as int - 1)).push(msgs@[i - 1]@));
    }
    assert(msgs@.take(msgs@.len() as int) =~= msgs@);
    match pairs_to_json(&pairs) {
        Some(text) => text,
        None => String::new(),
    }
}

/// The messages a state text stands for; `None` where it is not a list of
/// string pairs or names an unknown role.
pub open spec fn state_messages(s: Seq<char>) -> Option<Seq<MessageView>> {
    match pairs_parsed(s) {
        Some(p) => messages_of(p),
        None => None,
    }
}

/// Reads a state blob back into messages. Text written by `encode_state`
/// always reads back to the messages it was written from.
pub fn decode_state(s: &str) -> (r: Result<Vec<Message>, StateError>)
    ensures
        forall|ms: Seq<MessageView>| s@ == #[trigger] state_text(ms) ==> (r matches Ok(v) && message_views(v@) == ms),
        match r {
            Ok(v) => state_messages(s@) == Some(message_views(v@)),
            Err(StateError::Malformed) => pairs_parsed(s@) is None,
            Err(StateError::UnknownRole) => pairs_parsed(s@) is Some && state_messages(s@) is None,
        },
{
    let pairs = match pairs_from_json(s) {
        Some(p) => p,
        None => return Err(StateError::Malformed),
    };
    let ghost pv = pair_views(pairs@);
    let mut out: Vec<Message> = Vec::new();
    let mut i: usize = 0;
    while i < pairs.len()
        invariant
            i <= pairs@.len(),
            pv == pair_views(pairs@),
            forall|p: Seq<PairView>| s@ == #[trigger] pairs_json(p) ==> pv == p,
            pairs_parsed(s@) == Some(pv),
            messages_of(pv.take(i as int)) == Some(message_views(out@)),
        decreases pairs@.len() - i,
    {
        assert(pv.take(i as int + 1).drop_last() =~= pv.take(i as int));
        let role = match Role::from_name(pairs[i].0.as_str()) {
            Some(r) => r,
            None => {
                proof {
                    assert(pv.take(i as int + 1).last() == pv[i as int]);
                    assert(pv[i as int].0 == pairs@[i as int].0@);
                    assert(messages_of(pv.take(i as int + 1)) is None);
                    lemma_messages_of_prefix_none(pv, i as int + 1);
                    assert forall|ms: Seq<MessageView>| s@ == #[trigger] state_text(ms) implies false by {
                        assert(s@ == pairs_json(pairs_of(ms)));
                        assert(pv == pairs_of(ms));
                        lemma_state_round_trip(ms);
                    }
                }
                return Err(StateError::UnknownRole);
            },
        };
        out.push(Message::new(role, pairs[i].1.clone()));
        assert(message_views(out@) =~= message_views(out@.drop_last()).push(out@.last()@));
        i = i + 1;
    }
    assert(pv.take(pairs@.len() as int) =~= pv);
    proof {
        assert forall|ms: Seq<MessageView>| s@ == #[trigger] state_text(ms) implies (message_views(out@) == ms) by {
            lemma_state_round_trip(ms);
        }
    }
    Ok(out)
}

/// A prefix that names an unknown role makes the whole list unreadable.
proof fn lemma_messages_of_prefix_none(ps: Seq<PairView>, n: int)
    requires
        0 <= n <= ps.len(),
        messages_of(ps.take(n)) is None,
    ensures
        messages_of(ps) is None,
    decreases ps.len() - n,
{
    if n < ps.len() {
        assert(ps.take(n + 1).drop_last() =~= ps.take(n));
        lemma_messages_of_prefix_none(ps, n + 1);
    } else {
        assert(ps.take(n) =~= ps);
    }
}

} // verus!

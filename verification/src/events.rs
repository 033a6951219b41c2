//! Rendering of emitted events: one line per event, the emitting address's
//! label followed by the event's indexed topics, resolved where possible
//! and joined with a fixed separator.

use vstd::prelude::*;

use crate::bytes::copy_bytes;
use crate::directory::{label_spec, AddressDirectory};
use crate::hexfmt::{hex_string_prefixed, hex_with_prefix};
use crate::resolver::{lookup_spec, ResolutionMap, ResolvedNameModel};
use crate::style::Span;

verus! {

/// One event emitted during execution.
pub struct EventRecord {
    pub address: [u8; 20],
    pub indexed_topics: Vec<[u8; 32]>,
}

/// A rendered event: the emitting address's label and the joined topic
/// labels.
pub struct RenderedEvent {
    pub label: Span,
    pub topics_text: String,
}

/// The label of one topic: its resolved name when resolution is enabled
/// and an answer is at hand, else the raw prefixed hex.
pub open spec fn topic_label_spec(
    topic: Seq<u8>,
    resolve: bool,
    answers: Seq<ResolvedNameModel>,
) -> Seq<char> {
    if !resolve {
        hex_with_prefix(topic)
    } else {
        match lookup_spec(answers, topic) {
            Some(name) => name,
            None => hex_with_prefix(topic),
        }
    }
}

/// The labels of all topics of an event, in order.
pub open spec fn topic_labels_spec(
    topics: Seq<[u8; 32]>,
    resolve: bool,
    answers: Seq<ResolvedNameModel>,
) -> Seq<Seq<char>> {
    Seq::new(topics.len(), |i: int| topic_label_spec(topics[i]@, resolve, answers))
}

/// Texts joined by a separator: empty for none, the single text alone,
/// else each further text preceded by the separator.
pub open spec fn join_spec(parts: Seq<Seq<char>>, sep: Seq<char>) -> Seq<char>
    decreases parts.len(),
{
    if parts.len() == 0 {
        Seq::empty()
    } else if parts.len() == 1 {
        parts[0]
    } else {
        parts[0] + sep + join_spec(parts.drop_first(), sep)
    }
}

/// Joining one more text appends the separator and that text.
proof fn lemma_join_push(parts: Seq<Seq<char>>, x: Seq<char>, sep: Seq<char>)
    ensures
        join_spec(parts.push(x), sep) == if parts.len() == 0 {
            x
        } else {
            join_spec(parts, sep) + sep + x
        },
    decreases parts.len(),
{
    let p = parts.push(x);
    if parts.len() == 0 {
        assert(p.len() == 1);
        assert(p[0] == x);
    } else {
        assert(p.drop_first() =~= parts.drop_first().push(x));
        lemma_join_push(parts.drop_first(), x, sep);
        if parts.len() == 1 {
            assert(parts.drop_first().len() == 0);
            assert(join_spec(p, sep) =~= join_spec(parts, sep) + sep + x);
        } else {
            assert(join_spec(p, sep) =~= join_spec(parts, sep) + sep + x);
        }
    }
}

/// Renders one event. Resolution answers come from `answers`; a topic
/// without one renders as raw hex, as does every topic when resolution is
/// disabled.
#[verifier::loop_isolation(false)]
pub fn print_event(
    event: &EventRecord,
    resolve_hashes: bool,
    dir: &AddressDirectory,
    answers: &ResolutionMap,
) -> (r: RenderedEvent)
    ensures
        r.label@ == label_spec(dir.entries@, event.address@),
        r.topics_text@ == join_spec(
            topic_labels_spec(
                event.indexed_topics@,
                resolve_hashes,
                answers.entries.deep_view(),
            ),
            ", "@,
        ),
{
    let ghost labels = topic_labels_spec(
        event.indexed_topics@,
        resolve_hashes,
        answers.entries.deep_view(),
    );
    let label = dir.display_name(&event.address);
    let mut topics_text = String::new();
    let n = event.indexed_topics.len();
    let mut i: usize = 0;
    while i < n
        invariant
            n == event.indexed_topics@.len(),
            i <= n,
            topics_text@ == join_spec(labels.take(i as int), ", "@),
        decreases n - i,
    {
        let topic = &event.indexed_topics[i];
        let topic_label: String = if !resolve_hashes {
            hex_string_prefixed(topic.as_slice())
        } else {
            match answers.lookup(topic.as_slice()) {
                Some(name) => name,
                None => hex_string_prefixed(topic.as_slice()),
            }
        };
        assert(topic_label@ == labels[i as int]);
        if i > 0 {
            topics_text.append(", ");
        }
        topics_text.append(topic_label.as_str());
        proof {
            assert(labels.take(i as int + 1) =~= labels.take(i as int).push(labels[i as int]));
            lemma_join_push(labels.take(i as int), labels[i as int], ", "@);
        }
        i = i + 1;
    }
    proof {
        assert(labels.take(n as int) =~= labels);
    }
    RenderedEvent { label, topics_text }
}

/// The topics a render of this event would try to resolve: all of them, in
/// order, when resolution is enabled; none otherwise.
pub open spec fn event_requests_spec(topics: Seq<[u8; 32]>, resolve: bool) -> Seq<Seq<u8>> {
    if !resolve {
        Seq::empty()
    } else {
        Seq::new(topics.len(), |i: int| topics[i]@)
    }
}

/// Gathers the topics a render of this event would resolve. With
/// resolution disabled the result is empty: no resolver call is owed.
#[verifier::loop_isolation(false)]
pub fn collect_event_requests(event: &EventRecord, resolve_hashes: bool) -> (r: Vec<Vec<u8>>)
    ensures
        r.deep_view() == event_requests_spec(event.indexed_topics@, resolve_hashes),
        !resolve_hashes ==> r@.len() == 0,
{
    let mut out: Vec<Vec<u8>> = Vec::new();
    if !resolve_hashes {
        assert(out.deep_view() =~~= event_requests_spec(event.indexed_topics@, resolve_hashes));
        return out;
    }
    let n = event.indexed_topics.len();
    let mut i: usize = 0;
    while i < n
        invariant
            n == event.indexed_topics@.len(),
            i <= n,
            out.deep_view() =~~= event_requests_spec(event.indexed_topics@, true).take(i as int),
        decreases n - i,
    {
        let topic = &event.indexed_topics[i];
        let owned = copy_bytes(topic.as_slice());
        out.push(owned);
        proof {
            assert(out.deep_view() =~~= event_requests_spec(event.indexed_topics@, true).take(
                i as int + 1,
            ));
        }
        i = i + 1;
    }
    proof {
        assert(event_requests_spec(event.indexed_topics@, true).take(n as int)
            =~~= event_requests_spec(event.indexed_topics@, true));
    }
    out
}

/// With resolution disabled every topic renders as raw hex, whatever
/// answers are at hand.
pub proof fn lemma_topic_raw_when_disabled(topic: Seq<u8>, answers: Seq<ResolvedNameModel>)
    ensures
        topic_label_spec(topic, false, answers) == hex_with_prefix(topic),
{
}

/// A resolver that always fails leaves every topic raw: the rendered topic
/// text equals the resolution-disabled rendering.
pub proof fn lemma_event_failed_resolution_matches_disabled(
    topics: Seq<[u8; 32]>,
    answers: Seq<ResolvedNameModel>,
    other: Seq<ResolvedNameModel>,
    sep: Seq<char>,
)
    requires
        forall|sel: Seq<u8>| lookup_spec(answers, sel) is None,
    ensures
        join_spec(topic_labels_spec(topics, true, answers), sep) == join_spec(
            topic_labels_spec(topics, false, other),
            sep,
        ),
{
    assert(topic_labels_spec(topics, true, answers) =~= topic_labels_spec(topics, false, other));
}

} // verus!

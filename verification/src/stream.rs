//! The auto-input streamer.
//!
//! One long-lived worker consumes a queue of "current full response text"
//! values. For each value it emits only what is new: when the text emitted so
//! far is a prefix of the value, the emission is exactly the remaining
//! suffix; otherwise the producer restarted and the emission is the entire
//! value. Either way the accumulator is replaced by the full value, never
//! merged, so diffing is always against the latest full text and already
//! emitted content is never retyped. The driver binary owns the queue and the
//! task; the decision what to emit lives here.

use vstd::prelude::*;

use crate::text::{copy_bytes, is_prefix, suffix_from};

verus! {

/// What the streamer emits for one dequeued value, given the text emitted so
/// far: the new suffix on the incremental path, the whole value on the reset
/// path.
pub open spec fn emission_of(content: Seq<u8>, value: Seq<u8>) -> Seq<u8> {
    if content.is_prefix_of(value) {
        value.skip(content.len() as int)
    } else {
        value
    }
}

/// The emissions a streamer whose accumulator holds `content` produces for a
/// whole queue of values, in order.
pub open spec fn emissions_from(content: Seq<u8>, values: Seq<Seq<u8>>) -> Seq<Seq<u8>>
    decreases values.len(),
{
    if values.len() == 0 {
        Seq::empty()
    } else {
        seq![emission_of(content, values[0])] + emissions_from(values[0], values.skip(1))
    }
}

/// All the given emissions, concatenated in order.
pub open spec fn concat_all(es: Seq<Seq<u8>>) -> Seq<u8>
    decreases es.len(),
{
    if es.len() == 0 {
        Seq::empty()
    } else {
        es[0] + concat_all(es.skip(1))
    }
}

/// The full text emitted so far for one logical response stream. Exactly one
/// instance exists per worker, created lazily on first use and living for the
/// process lifetime.
#[derive(Debug)]
pub struct StreamState {
    pub content: Vec<u8>,
}

impl View for StreamState {
    type V = Seq<u8>;

    open spec fn view(&self) -> Seq<u8> {
        self.content@
    }
}

impl StreamState {
    /// A fresh stream has emitted nothing.
    pub fn new() -> (s: StreamState)
        ensures
            s@ == Seq::<u8>::empty(),
    {
        StreamState { content: Vec::new() }
    }

    /// Decide the emission for one dequeued full-response value and replace
    /// the accumulator with that value. The emission is the new suffix when
    /// the text emitted so far is a prefix of the value, and the entire value
    /// otherwise.
    pub fn next_emission(&mut self, value: Vec<u8>) -> (emission: Vec<u8>)
        ensures
            final(self)@ == value@,
            emission@ == emission_of(old(self)@, value@),
            old(self)@.is_prefix_of(value@) ==> emission@ == value@.skip(old(self)@.len() as int),
            !old(self)@.is_prefix_of(value@) ==> emission@ == value@,
    {
        let emission: Vec<u8> = if is_prefix(&self.content, &value) {
            suffix_from(&value, self.content.len())
        } else {
            copy_bytes(&value)
        };
        self.content = value;
        emission
    }

    /// Consume a whole queue of full-response values in arrival order — the
    /// worker's loop — and return the emissions in that same order.
    pub fn drain_queue(&mut self, values: &Vec<Vec<u8>>) -> (emissions: Vec<Vec<u8>>)
        ensures
            seq_views(emissions@) == emissions_from(old(self)@, seq_views(values@)),
            final(self)@ == last_content(old(self)@, seq_views(values@)),
    {
        let ghost init: Seq<u8> = self@;
        let mut emissions: Vec<Vec<u8>> = Vec::new();
        let mut k: usize = 0;
        proof {
            assert(seq_views(values@).take(0) =~= Seq::<Seq<u8>>::empty());
            assert(seq_views(emissions@) =~= Seq::<Seq<u8>>::empty());
        }
        while k < values.len()
            invariant
                k <= values@.len(),
                self@ == last_content(init, seq_views(values@).take(k as int)),
                seq_views(emissions@) == emissions_from(init, seq_views(values@).take(k as int)),
            decreases values@.len() - k,
        {
            let ghost consumed = seq_views(values@).take(k as int);
            let value = copy_bytes(&values[k]);
            let emission = self.next_emission(value);
            emissions.push(emission);
            proof {
                lemma_emissions_from_snoc(init, consumed, values@[k as int]@);
                assert(seq_views(values@).take(k as int + 1) =~= consumed.push(
                    values@[k as int]@,
                ));
                assert(seq_views(emissions@) =~= emissions_from(init, consumed).push(
                    emission_of(last_content(init, consumed), values@[k as int]@),
                ));
            }
            k = k + 1;
        }
        proof {
            assert(seq_views(values@).take(values@.len() as int) =~= seq_views(values@));
        }
        emissions
    }
}

/// The views of a queue of byte strings.
pub open spec fn seq_views(vs: Seq<Vec<u8>>) -> Seq<Seq<u8>> {
    vs.map_values(|v: Vec<u8>| v@)
}

/// What the accumulator holds once a whole queue has been consumed.
pub open spec fn last_content(content: Seq<u8>, values: Seq<Seq<u8>>) -> Seq<u8> {
    if values.len() == 0 {
        content
    } else {
        values.last()
    }
}

/// Consuming one more value appends one more emission.
proof fn lemma_emissions_from_snoc(content: Seq<u8>, values: Seq<Seq<u8>>, v: Seq<u8>)
    ensures
        emissions_from(content, values.push(v)) == emissions_from(content, values).push(
            emission_of(last_content(content, values), v),
        ),
    decreases values.len(),
{
    let whole = values.push(v);
    if values.len() == 0 {
        assert(whole[0] == v);
        assert(whole.skip(1) =~= Seq::<Seq<u8>>::empty());
        assert(emissions_from(v, whole.skip(1)) == Seq::<Seq<u8>>::empty());
        assert(emissions_from(content, whole) =~= seq![emission_of(content, v)]);
        assert(emissions_from(content, values).push(emission_of(content, v)) =~= seq![
            emission_of(content, v),
        ]);
    } else {
        assert(whole[0] == values[0]);
        assert(whole.skip(1) =~= values.skip(1).push(v));
        lemma_emissions_from_snoc(values[0], values.skip(1), v);
        if values.skip(1).len() == 0 {
            assert(values.last() == values[0]);
        } else {
            assert(values.skip(1).last() == values.last());
        }
        assert(last_content(values[0], values.skip(1)) == last_content(content, values));
        assert(seq![emission_of(content, values[0])] + emissions_from(values[0], values.skip(1))
            .push(emission_of(last_content(content, values), v)) =~= (seq![
            emission_of(content, values[0]),
        ] + emissions_from(values[0], values.skip(1))).push(
            emission_of(last_content(content, values), v),
        ));
    }
}

/// Concatenating a prefix with the tail it cuts off restores the whole.
proof fn lemma_prefix_concat(a: Seq<u8>, b: Seq<u8>)
    requires
        a.is_prefix_of(b),
    ensures
        a + b.skip(a.len() as int) == b,
{
    assert(a + b.skip(a.len() as int) =~= b);
}

/// Concatenation of emissions, one peeled off the front.
proof fn lemma_concat_all_cons(e: Seq<u8>, es: Seq<Seq<u8>>)
    ensures
        concat_all(seq![e] + es) == e + concat_all(es),
{
    let s = seq![e] + es;
    assert(s[0] == e);
    assert(s.skip(1) =~= es);
}

/// There is one emission per queued value.
pub proof fn lemma_emissions_len(content: Seq<u8>, values: Seq<Seq<u8>>)
    ensures
        emissions_from(content, values).len() == values.len(),
    decreases values.len(),
{
    if values.len() > 0 {
        lemma_emissions_len(values[0], values.skip(1));
    }
}

/// Law: over a queue of values in which each value extends the one before it
/// (and the first extends the text already emitted), the streamer emits
/// exactly the missing pieces: prepending the prior content to all emissions
/// yields the last value, and every emission is precisely the suffix its
/// value added.
pub proof fn lemma_incremental_chain(content: Seq<u8>, values: Seq<Seq<u8>>)
    requires
        values.len() > 0,
        content.is_prefix_of(values[0]),
        forall|i: int| 0 <= i < values.len() - 1 ==> (#[trigger] values[i]).is_prefix_of(
            values[i + 1],
        ),
    ensures
        content + concat_all(emissions_from(content, values)) == values.last(),
        emissions_from(content, values)[0] == values[0].skip(content.len() as int),
        forall|i: int| 1 <= i < values.len() ==> #[trigger] emissions_from(content, values)[i]
            == values[i].skip(values[i - 1].len() as int),
    decreases values.len(),
{
    lemma_emissions_len(content, values);
    let e0 = emission_of(content, values[0]);
    let es = emissions_from(content, values);
    assert(e0 == values[0].skip(content.len() as int));
    lemma_prefix_concat(content, values[0]);
    if values.len() == 1 {
        assert(values.skip(1) =~= Seq::<Seq<u8>>::empty());
        assert(es == seq![e0] + emissions_from(values[0], values.skip(1)));
        assert(es =~= seq![e0]);
        lemma_concat_all_cons(e0, Seq::empty());
        assert(seq![e0] + Seq::<Seq<u8>>::empty() =~= seq![e0]);
        assert(concat_all(seq![e0]) == e0 + concat_all(Seq::<Seq<u8>>::empty()));
        assert(concat_all(Seq::<Seq<u8>>::empty()) == Seq::<u8>::empty());
        assert(e0 + Seq::<u8>::empty() =~= e0);
        assert(content + concat_all(es) == content + e0);
        assert(values.last() == values[0]);
    } else {
        let rest = values.skip(1);
        assert(rest.len() == values.len() - 1);
        assert forall|i: int| 0 <= i < rest.len() - 1 implies (#[trigger] rest[i]).is_prefix_of(
            rest[i + 1],
        ) by {
            assert(rest[i] == values[i + 1]);
            assert(rest[i + 1] == values[i + 2]);
            assert(values[i + 1].is_prefix_of(values[i + 2]));
        }
        assert(rest[0] == values[1]);
        assert(values[0].is_prefix_of(values[1]));
        lemma_incremental_chain(values[0], rest);
        let rest_es = emissions_from(values[0], rest);
        lemma_emissions_len(values[0], rest);
        assert(es == seq![e0] + rest_es);
        lemma_concat_all_cons(e0, rest_es);
        assert(content + (e0 + concat_all(rest_es)) =~= (content + e0) + concat_all(rest_es));
        assert(content + e0 == values[0]);
        assert(values[0] + concat_all(rest_es) == rest.last());
        assert(rest.last() == values.last());
        // Emission indices: position 0 is e0; every later position i comes
        // from the recursive call at position i - 1.
        assert(es[0] == e0);
        assert forall|i: int| 1 <= i < values.len() implies #[trigger] es[i] == values[i].skip(
            values[i - 1].len() as int,
        ) by {
            assert(es[i] == rest_es[i - 1]);
            if i == 1 {
                assert(rest_es[0] == rest[0].skip(values[0].len() as int));
            } else {
                assert(rest_es[i - 1] == rest[i - 1].skip(rest[i - 2].len() as int));
                assert(rest[i - 1] == values[i]);
                assert(rest[i - 2] == values[i - 1]);
            }
        }
    }
}

/// Law: a fresh stream fed a queue of values in which each value extends the
/// one before it emits, in total, exactly the final value.
pub proof fn lemma_stream_total(values: Seq<Seq<u8>>)
    requires
        values.len() > 0,
        forall|i: int| 0 <= i < values.len() - 1 ==> (#[trigger] values[i]).is_prefix_of(
            values[i + 1],
        ),
    ensures
        concat_all(emissions_from(Seq::empty(), values)) == values.last(),
{
    let empty = Seq::<u8>::empty();
    assert(empty.is_prefix_of(values[0])) by {
        assert(empty =~= values[0].subrange(0, 0));
    }
    lemma_incremental_chain(empty, values);
    assert(empty + concat_all(emissions_from(empty, values)) =~= concat_all(
        emissions_from(empty, values),
    ));
}

} // verus!

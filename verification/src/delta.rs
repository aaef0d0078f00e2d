use vstd::prelude::*;

verus! {

/// The mathematical value of a `ProviderDelta`.
#[verifier::ext_equal]
pub ghost struct DeltaView {
    pub id: u64,
    pub fragment: Option<Seq<char>>,
    pub finish: bool,
}

/// One incremental unit of a streamed completion response: the stream it
/// belongs to, the optional text fragment it carries, and whether it is the
/// terminal finish marker. Deltas of one stream share one identifier; deltas
/// of different streams are structurally incompatible and cannot be merged.
pub struct ProviderDelta {
    pub id: u64,
    pub fragment: Option<String>,
    pub finish: bool,
}

impl View for ProviderDelta {
    type V = DeltaView;

    open spec fn view(&self) -> DeltaView {
        DeltaView {
            id: self.id,
            fragment: match self.fragment {
                Some(f) => Some(f@),
                None => None,
            },
            finish: self.finish,
        }
    }
}

/// The mathematical values of a sequence of deltas, in order.
pub open spec fn delta_views(deltas: Seq<ProviderDelta>) -> Seq<DeltaView> {
    deltas.map_values(|d: ProviderDelta| d@)
}

/// The text a single delta contributes: its fragment, or nothing.
pub open spec fn fragment_text(delta: DeltaView) -> Seq<char> {
    match delta.fragment {
        Some(f) => f,
        None => Seq::<char>::empty(),
    }
}

/// The full text of a delta stream: every fragment, concatenated in arrival
/// order.
pub open spec fn stream_text(deltas: Seq<DeltaView>) -> Seq<char>
    decreases deltas.len(),
{
    if deltas.len() == 0 {
        Seq::<char>::empty()
    } else {
        stream_text(deltas.drop_last()) + fragment_text(deltas.last())
    }
}

/// Whether the deltas all belong to one stream and so merge into one final
/// completion.
pub open spec fn mergeable(deltas: Seq<DeltaView>) -> bool {
    forall|i: int| 0 <= i < deltas.len() ==> (#[trigger] deltas[i].id) == deltas[0].id
}

/// Helper for `absorbed_len`: scanning from position `i`, the number of
/// deltas the merge loop consumes before it stops — all of them, or
/// everything up to and including the first incompatible one.
pub open spec fn absorbed_upto(deltas: Seq<DeltaView>, i: int) -> int
    decreases deltas.len() - i,
{
    if i < 0 || i >= deltas.len() {
        deltas.len() as int
    } else if deltas[i].id != deltas[0].id {
        i + 1
    } else {
        absorbed_upto(deltas, i + 1)
    }
}

/// How many deltas the merge loop consumes: all of them when they are
/// mergeable, otherwise everything up to and including the first
/// incompatible delta (whose fragment is still pushed before the merge is
/// attempted).
pub open spec fn absorbed_len(deltas: Seq<DeltaView>) -> int {
    if deltas.len() == 0 {
        0
    } else {
        absorbed_upto(deltas, 1)
    }
}

/// Extending a prefix of the stream by one delta extends the stream text by
/// that delta's fragment.
pub proof fn lemma_stream_text_take_step(deltas: Seq<DeltaView>, i: int)
    requires
        0 <= i < deltas.len(),
    ensures
        stream_text(deltas.take(i + 1)) == stream_text(deltas.take(i))
            + fragment_text(deltas[i]),
{
    assert(deltas.take(i + 1).drop_last() =~= deltas.take(i));
    assert(deltas.take(i + 1).last() == deltas[i]);
}

/// While no incompatible delta has been seen, the scan has not stopped yet.
pub proof fn lemma_absorbed_upto_skip(deltas: Seq<DeltaView>, from: int, to: int)
    requires
        0 <= from <= to <= deltas.len(),
        forall|j: int| from <= j < to ==> (#[trigger] deltas[j].id) == deltas[0].id,
    ensures
        absorbed_upto(deltas, from) == absorbed_upto(deltas, to),
    decreases to - from,
{
    if from < to {
        lemma_absorbed_upto_skip(deltas, from + 1, to);
    }
}

/// A mergeable stream is absorbed whole.
pub proof fn lemma_absorbed_len_mergeable(deltas: Seq<DeltaView>)
    requires
        mergeable(deltas),
    ensures
        absorbed_len(deltas) == deltas.len(),
{
    if deltas.len() > 0 {
        lemma_absorbed_upto_skip(deltas, 1, deltas.len() as int);
    }
}

/// When the first incompatible delta stands at position `i`, the merge loop
/// absorbs exactly the deltas up to and including it.
pub proof fn lemma_absorbed_len_conflict(deltas: Seq<DeltaView>, i: int)
    requires
        1 <= i < deltas.len(),
        forall|j: int| 0 <= j < i ==> (#[trigger] deltas[j].id) == deltas[0].id,
        deltas[i].id != deltas[0].id,
    ensures
        absorbed_len(deltas) == i + 1,
{
    lemma_absorbed_upto_skip(deltas, 1, i);
}

} // verus!

//! The recursive keybinding table and the sequence matcher.
//!
//! A [`Keybindings`] value maps ordered sequences of key combinations to
//! abstract editor events. The table is a strictly owned tree: a
//! [`Sequence`] is an association list with unique keys, and a [`KeyNode`]
//! is either a terminal event or a nested table for the next key. The
//! mathematical model is [`NodeV`]: the same tree with `Map` tables.
//!
//! A [`PartialKeySequence`] is the stateful cursor that walks the table one
//! key at a time, reporting a pending prefix, a complete match, or a
//! cancellation carrying the full key history for lossless replay.

use vstd::prelude::*;

verus! {

use crate::events::{EditCommand, EventV, ReedlineEvent, clone_event, edit_bind, event_view};
use crate::keys::{KeyCode, KeyCombination, KeyModifiers};

/// Outcome of advancing the sequence matcher by one key.
#[derive(Debug)]
pub enum KeySequenceResult {
    /// Still matching a prefix of some binding.
    Pending,
    /// A complete binding matched; the matcher is consumed.
    Matched(ReedlineEvent),
    /// No binding matches; the whole consumed key history is handed back
    /// so the caller can reinterpret every key individually.
    Cancelled(Vec<KeyCombination>),
}

/// Mathematical view of [`KeySequenceResult`].
pub enum KeySequenceResultV {
    Pending,
    Matched(EventV),
    Cancelled(Seq<KeyCombination>),
}

impl View for KeySequenceResult {
    type V = KeySequenceResultV;

    open spec fn view(&self) -> KeySequenceResultV {
        match self {
            KeySequenceResult::Pending => KeySequenceResultV::Pending,
            KeySequenceResult::Matched(e) => KeySequenceResultV::Matched(event_view(*e)),
            KeySequenceResult::Cancelled(keys) => KeySequenceResultV::Cancelled(keys@),
        }
    }
}

/// A node of the keybinding tree: a terminal event or a nested table.
#[derive(Debug)]
pub enum KeyNode {
    Sequence(Sequence),
    Event(ReedlineEvent),
}

/// One level of the keybinding tree: a mapping from key combinations to
/// nodes. Keys are unique (see [`Sequence::wf`]); insertion order carries
/// no meaning.
#[derive(Debug)]
pub struct Sequence {
    pub entries: Vec<(KeyCombination, KeyNode)>,
}

/// Mathematical view of a [`KeyNode`]: tables become `Map`s.
pub enum NodeV {
    Event(EventV),
    Table(Map<KeyCombination, NodeV>),
}

pub open spec fn node_view(n: KeyNode) -> NodeV
    decreases n,
{
    match n {
        KeyNode::Event(e) => NodeV::Event(event_view(e)),
        KeyNode::Sequence(s) => NodeV::Table(entries_view(s.entries@)),
    }
}

pub open spec fn entries_view(es: Seq<(KeyCombination, KeyNode)>) -> Map<KeyCombination, NodeV>
    decreases es,
{
    if es.len() == 0 {
        Map::empty()
    } else {
        entries_view(es.drop_last()).insert(es.last().0, node_view(es.last().1))
    }
}

impl View for KeyNode {
    type V = NodeV;

    open spec fn view(&self) -> NodeV {
        node_view(*self)
    }
}

impl View for Sequence {
    type V = Map<KeyCombination, NodeV>;

    open spec fn view(&self) -> Map<KeyCombination, NodeV> {
        entries_view(self.entries@)
    }
}

/// Well-formedness of one table level: unique keys, well-formed subtrees.
pub open spec fn entries_wf(es: Seq<(KeyCombination, KeyNode)>) -> bool
    decreases es,
{
    &&& forall|i: int, j: int| 0 <= i < j < es.len() ==> (#[trigger] es[i]).0 != (#[trigger] es[j]).0
    &&& forall|i: int| 0 <= i < es.len() ==> node_wf((#[trigger] es[i]).1)
}

/// Well-formedness of a whole subtree.
pub open spec fn node_wf(n: KeyNode) -> bool
    decreases n,
{
    match n {
        KeyNode::Event(_) => true,
        KeyNode::Sequence(s) => entries_wf(s.entries@),
    }
}

impl Sequence {
    pub open spec fn wf(self) -> bool {
        entries_wf(self.entries@)
    }
}

/// Height of a subtree; the termination measure for tree recursion.
pub open spec fn node_height(n: KeyNode) -> nat
    decreases n,
{
    match n {
        KeyNode::Event(_) => 0,
        KeyNode::Sequence(s) => 1 + entries_height(s.entries@),
    }
}

pub open spec fn entries_height(es: Seq<(KeyCombination, KeyNode)>) -> nat
    decreases es,
{
    if es.len() == 0 {
        0
    } else {
        let h = node_height(es.last().1);
        let rest = entries_height(es.drop_last());
        if h > rest {
            h
        } else {
            rest
        }
    }
}

pub proof fn lemma_entries_height(es: Seq<(KeyCombination, KeyNode)>, i: int)
    requires
        0 <= i < es.len(),
    ensures
        node_height(es[i].1) <= entries_height(es),
    decreases es.len(),
{
    if i < es.len() - 1 {
        lemma_entries_height(es.drop_last(), i);
        assert(es.drop_last()[i] == es[i]);
    }
}

/// The view of a well-formed table holds each listed binding.
pub proof fn lemma_entries_view_index(es: Seq<(KeyCombination, KeyNode)>, i: int)
    requires
        0 <= i < es.len(),
        forall|x: int, y: int| 0 <= x < y < es.len() ==> (#[trigger] es[x]).0 != (#[trigger] es[y]).0,
    ensures
        entries_view(es).contains_key(es[i].0),
        entries_view(es)[es[i].0] == node_view(es[i].1),
    decreases es.len(),
{
    if i < es.len() - 1 {
        lemma_entries_view_index(es.drop_last(), i);
        assert(es.drop_last()[i] == es[i]);
        assert(es[es.len() - 1].0 != es[i].0);
    }
}

/// A key listed nowhere is absent from the view.
pub proof fn lemma_entries_view_absent(es: Seq<(KeyCombination, KeyNode)>, kc: KeyCombination)
    requires
        forall|i: int| 0 <= i < es.len() ==> (#[trigger] es[i]).0 != kc,
    ensures
        !entries_view(es).contains_key(kc),
    decreases es.len(),
{
    if es.len() > 0 {
        lemma_entries_view_absent(es.drop_last(), kc);
    }
}

/// Two entry lists with equal keys and equal subtree views have the same view.
pub proof fn lemma_entries_view_congruent(
    es1: Seq<(KeyCombination, KeyNode)>,
    es2: Seq<(KeyCombination, KeyNode)>,
)
    requires
        es1.len() == es2.len(),
        forall|i: int|
            0 <= i < es1.len() ==> (#[trigger] es1[i]).0 == (#[trigger] es2[i]).0 && node_view(
                es1[i].1,
            ) == node_view(es2[i].1),
    ensures
        entries_view(es1) == entries_view(es2),
    decreases es1.len(),
{
    if es1.len() > 0 {
        lemma_entries_view_congruent(es1.drop_last(), es2.drop_last());
        assert(es1.last().0 == es2.last().0 && node_view(es1.last().1) == node_view(
            es2.last().1,
        ));
    }
}

/// Position of `kc` in one table level, if bound there.
fn find_index(entries: &Vec<(KeyCombination, KeyNode)>, kc: KeyCombination) -> (r: Option<usize>)
    ensures
        match r {
            Some(i) => i < entries@.len() && entries@[i as int].0 == kc,
            None => forall|i: int| 0 <= i < entries@.len() ==> (#[trigger] entries@[i]).0 != kc,
        },
{
    let mut i: usize = 0;
    while i < entries.len()
        invariant
            i <= entries@.len(),
            forall|j: int| 0 <= j < i ==> (#[trigger] entries@[j]).0 != kc,
        decreases entries@.len() - i,
    {
        if entries[i].0 == kc {
            return Some(i);
        }
        i = i + 1;
    }
    None
}

/// Deep copy of a subtree, with the same view and well-formedness.
#[verifier::loop_isolation(false)]
fn clone_node(n: &KeyNode) -> (r: KeyNode)
    ensures
        r@ == n@,
        node_wf(*n) ==> node_wf(r),
    decreases *n,
{
    match n {
        KeyNode::Event(e) => KeyNode::Event(clone_event(e)),
        KeyNode::Sequence(s) => {
            let mut entries: Vec<(KeyCombination, KeyNode)> = Vec::new();
            let mut i: usize = 0;
            while i < s.entries.len()
                invariant
                    i <= s.entries@.len(),
                    entries@.len() == i,
                    forall|j: int|
                        0 <= j < i ==> (#[trigger] entries@[j]).0 == s.entries@[j].0 && node_view(
                            entries@[j].1,
                        ) == node_view(s.entries@[j].1),
                    entries_wf(s.entries@) ==> entries_wf(entries@),
                decreases s.entries@.len() - i,
            {
                proof {
                    assert(n->Sequence_0 == *s);
                    assert(decreases_to!(*n => n->Sequence_0.entries@[i as int].1));
                }
                let c = clone_node(&s.entries[i].1);
                let key = s.entries[i].0;
                proof {
                    if entries_wf(s.entries@) {
                        assert(node_wf(s.entries@[i as int].1));
                    }
                }
                entries.push((key, c));
                i = i + 1;
            }
            proof {
                lemma_entries_view_congruent(entries@, s.entries@);
            }
            KeyNode::Sequence(Sequence { entries })
        },
    }
}

/// Tracks completion of a key sequence: the current subtree cursor plus the
/// ordered history of consumed keys, kept for lossless replay on
/// cancellation.
#[derive(Debug)]
pub struct PartialKeySequence {
    pub sequence: Sequence,
    pub history: Vec<KeyCombination>,
}

impl PartialKeySequence {
    pub open spec fn wf(self) -> bool {
        self.sequence.wf()
    }

    /// Fresh matcher over `sequence`, with an empty history.
    pub fn new(sequence: Sequence) -> (r: Self)
        ensures
            r.sequence@ == sequence@,
            r.history@ == Seq::<KeyCombination>::empty(),
            sequence.wf() ==> r.wf(),
    {
        Self { sequence, history: Vec::new() }
    }

    /// Consume one key. The key joins the history; then it is looked up in
    /// the current subtree: a terminal event is a match, a nested table
    /// replaces the cursor and the matcher stays pending, and an unbound key
    /// cancels the matcher, handing back the whole history.
    pub fn advance(&mut self, kc: KeyCombination) -> (r: KeySequenceResult)
        requires
            old(self).wf(),
        ensures
            final(self).wf(),
            old(self).sequence@.contains_key(kc) && old(self).sequence@[kc] is Event ==> {
                &&& r@ == KeySequenceResultV::Matched(old(self).sequence@[kc]->Event_0)
                &&& final(self).history@ == old(self).history@.push(kc)
            },
            old(self).sequence@.contains_key(kc) && old(self).sequence@[kc] is Table ==> {
                &&& r@ == KeySequenceResultV::Pending
                &&& final(self).sequence@ == old(self).sequence@[kc]->Table_0
                &&& final(self).history@ == old(self).history@.push(kc)
            },
            !old(self).sequence@.contains_key(kc) ==> {
                &&& r@ == KeySequenceResultV::Cancelled(old(self).history@.push(kc))
                &&& final(self).history@.len() == 0
            },
    {
        self.history.push(kc);
        match find_index(&self.sequence.entries, kc) {
            Some(i) => {
                proof {
                    lemma_entries_view_index(self.sequence.entries@, i as int);
                }
                let (_, node) = self.sequence.entries.remove(i);
                match node {
                    KeyNode::Event(reedline_event) => KeySequenceResult::Matched(reedline_event),
                    KeyNode::Sequence(sequence) => {
                        self.sequence = sequence;
                        KeySequenceResult::Pending
                    },
                }
            },
            None => {
                proof {
                    lemma_entries_view_absent(self.sequence.entries@, kc);
                }
                let mut history: Vec<KeyCombination> = Vec::new();
                core::mem::swap(&mut history, &mut self.history);
                KeySequenceResult::Cancelled(history)
            },
        }
    }

    /// Give up the match and hand back the consumed key history.
    pub fn cancel(self) -> (r: Vec<KeyCombination>)
        ensures
            r@ == self.history@,
    {
        self.history
    }
}

/// The tree bound to an ordered, possibly empty tail of a key path: each key
/// wraps the rest in a one-entry table, and the final node is the event.
pub open spec fn node_of_path(path: Seq<KeyCombination>, ev: EventV) -> NodeV
    decreases path.len(),
{
    if path.len() == 0 {
        NodeV::Event(ev)
    } else {
        NodeV::Table(Map::empty().insert(path[0], node_of_path(path.drop_first(), ev)))
    }
}

/// Structural merge of two subtree views. Where both sides are tables the
/// merge recurses key by key; where either side is a leaf, the new
/// registration (`b`) wins.
pub open spec fn merge_v(a: NodeV, b: NodeV) -> NodeV
    decreases b,
{
    match (a, b) {
        (NodeV::Table(ma), NodeV::Table(mb)) => NodeV::Table(
            Map::new(
                |k: KeyCombination| ma.contains_key(k) || mb.contains_key(k),
                |k: KeyCombination|
                    if mb.contains_key(k) {
                        if ma.contains_key(k) {
                            merge_v(ma[k], mb[k])
                        } else {
                            mb[k]
                        }
                    } else {
                        ma[k]
                    },
            ),
        ),
        (_, other) => other,
    }
}

/// The merged table: keys of both sides, with shared keys merged recursively.
pub open spec fn merged_tables(
    ma: Map<KeyCombination, NodeV>,
    mb: Map<KeyCombination, NodeV>,
) -> Map<KeyCombination, NodeV> {
    merge_v(NodeV::Table(ma), NodeV::Table(mb))->Table_0
}

/// Merging an empty table changes nothing.
pub proof fn lemma_merged_tables_empty(ma: Map<KeyCombination, NodeV>)
    ensures
        merged_tables(ma, Map::empty()) == ma,
{
    assert(merged_tables(ma, Map::empty()) =~= ma);
}

/// Merging one more binding updates the merged table at exactly that key.
pub proof fn lemma_merged_tables_insert(
    ma: Map<KeyCombination, NodeV>,
    mb: Map<KeyCombination, NodeV>,
    k: KeyCombination,
    v: NodeV,
)
    requires
        !mb.contains_key(k),
    ensures
        merged_tables(ma, mb.insert(k, v)) == merged_tables(ma, mb).insert(
            k,
            if ma.contains_key(k) {
                merge_v(ma[k], v)
            } else {
                v
            },
        ),
{
    assert(merged_tables(ma, mb.insert(k, v)) =~= merged_tables(ma, mb).insert(
        k,
        if ma.contains_key(k) {
            merge_v(ma[k], v)
        } else {
            v
        },
    ));
}

/// Replacing the node at position `i` updates the view at that entry's key.
pub proof fn lemma_entries_view_update(es: Seq<(KeyCombination, KeyNode)>, i: int, v: KeyNode)
    requires
        0 <= i < es.len(),
        forall|x: int, y: int| 0 <= x < y < es.len() ==> (#[trigger] es[x]).0 != (#[trigger] es[y]).0,
    ensures
        entries_view(es.update(i, (es[i].0, v))) == entries_view(es).insert(es[i].0, node_view(v)),
    decreases es.len(),
{
    let es2 = es.update(i, (es[i].0, v));
    if i == es.len() - 1 {
        assert(es2.drop_last() =~= es.drop_last());
        assert(entries_view(es2) == entries_view(es.drop_last()).insert(es[i].0, node_view(v)));
    } else {
        assert(es2.drop_last() =~= es.drop_last().update(i, (es[i].0, v)));
        assert(es.drop_last()[i] == es[i]);
        lemma_entries_view_update(es.drop_last(), i, v);
        let ki = es[i].0;
        let kl = es.last().0;
        assert(ki != kl);
        assert(es2.last() == es.last());
        assert(entries_view(es2) == entries_view(es.drop_last()).insert(ki, node_view(v)).insert(
            kl,
            node_view(es.last().1),
        ));
        assert(entries_view(es.drop_last()).insert(ki, node_view(v)).insert(
            kl,
            node_view(es.last().1),
        ) =~= entries_view(es).insert(ki, node_view(v)));
    }
}

/// Prepending a fresh key binds it, leaving the rest of the view unchanged.
pub proof fn lemma_entries_view_prepend(
    p: (KeyCombination, KeyNode),
    es: Seq<(KeyCombination, KeyNode)>,
)
    requires
        forall|i: int| 0 <= i < es.len() ==> (#[trigger] es[i]).0 != p.0,
    ensures
        entries_view(seq![p] + es) == entries_view(es).insert(p.0, node_view(p.1)),
    decreases es.len(),
{
    let full = seq![p] + es;
    if es.len() == 0 {
        assert(full.drop_last() =~= Seq::<(KeyCombination, KeyNode)>::empty());
        assert(full.last() == p);
        assert(es =~= Seq::<(KeyCombination, KeyNode)>::empty());
        assert(entries_view(Seq::<(KeyCombination, KeyNode)>::empty())
            == Map::<KeyCombination, NodeV>::empty());
        assert(entries_view(full) == Map::<KeyCombination, NodeV>::empty().insert(
            p.0,
            node_view(p.1),
        ));
        assert(entries_view(full) =~= entries_view(es).insert(p.0, node_view(p.1)));
    } else {
        assert(full.drop_last() =~= seq![p] + es.drop_last());
        assert(full.last() == es.last());
        lemma_entries_view_prepend(p, es.drop_last());
        assert(entries_view(full) == entries_view(es.drop_last()).insert(p.0, node_view(p.1)).insert(
            es.last().0,
            node_view(es.last().1),
        ));
        assert(es.last().0 != p.0);
        assert(entries_view(es.drop_last()).insert(p.0, node_view(p.1)).insert(
            es.last().0,
            node_view(es.last().1),
        ) =~= entries_view(es).insert(p.0, node_view(p.1)));
    }
}

impl KeyNode {
    /// Builds the chain of one-entry tables for a registration path, ending
    /// in the event leaf.
    #[verifier::loop_isolation(false)]
    fn new(key_combinations: Vec<KeyCombination>, command: ReedlineEvent) -> (r: KeyNode)
        ensures
            r@ == node_of_path(key_combinations@, command@),
            node_wf(r),
    {
        let ghost path = key_combinations@;
        let ghost ev = command@;
        let mut prev = KeyNode::Event(command);
        let mut i: usize = key_combinations.len();
        while i > 0
            invariant
                i <= path.len(),
                node_view(prev) == node_of_path(path.subrange(i as int, path.len() as int), ev),
                node_wf(prev),
            decreases i,
        {
            i = i - 1;
            let kc = key_combinations[i];
            let mut entries: Vec<(KeyCombination, KeyNode)> = Vec::new();
            entries.push((kc, prev));
            proof {
                let sub = path.subrange(i as int, path.len() as int);
                assert(sub[0] == path[i as int]);
                assert(sub.drop_first() =~= path.subrange(i + 1, path.len() as int));
                assert(entries@.drop_last() =~= Seq::<(KeyCombination, KeyNode)>::empty());
                assert(entries_view(Seq::<(KeyCombination, KeyNode)>::empty())
                    == Map::<KeyCombination, NodeV>::empty());
                assert(entries@.last() == (kc, prev));
                assert(entries_view(entries@) == Map::<KeyCombination, NodeV>::empty().insert(
                    kc,
                    node_view(prev),
                ));
                assert(node_of_path(sub, ev) == NodeV::Table(
                    Map::empty().insert(sub[0], node_of_path(sub.drop_first(), ev)),
                ));
            }
            prev = KeyNode::Sequence(Sequence { entries });
        }
        proof {
            assert(path.subrange(0, path.len() as int) =~= path);
        }
        prev
    }

    /// Structural merge of `other` into `self`: at each shared key, two
    /// tables merge recursively; where either side is a leaf, the new
    /// registration wins.
    #[verifier::loop_isolation(false)]
    fn merge(&mut self, other: KeyNode)
        requires
            node_wf(*old(self)),
            node_wf(other),
        ensures
            node_wf(*final(self)),
            final(self)@ == merge_v(old(self)@, other@),
        decreases node_height(other),
    {
        let ghost bv = other@;
        let ghost b_height = node_height(other);
        let mut cur = KeyNode::Event(ReedlineEvent::NoOp);
        core::mem::swap(&mut cur, self);
        let self_is_table = matches!(cur, KeyNode::Sequence(_));
        let other_is_table = matches!(other, KeyNode::Sequence(_));
        if !self_is_table || !other_is_table {
            *self = other;
            return ;
        }
        match (cur, other) {
            (KeyNode::Sequence(mut sa), KeyNode::Sequence(sb)) => {
                let ghost ma = entries_view(sa.entries@);
                let ghost mb = entries_view(sb.entries@);
                let mut bs = sb.entries;
                let ghost es0 = bs@;
                proof {
                    assert(bs@ =~= es0.subrange(0, bs@.len() as int));
                    lemma_merged_tables_empty(ma);
                    assert(entries_view(es0.subrange(es0.len() as int, es0.len() as int))
                        =~= Map::<KeyCombination, NodeV>::empty());
                }
                while bs.len() > 0
                    invariant
                        bs@ =~= es0.subrange(0, bs@.len() as int),
                        bs@.len() <= es0.len(),
                        entries_wf(sa.entries@),
                        entries_view(sa.entries@) == merged_tables(
                            ma,
                            entries_view(es0.subrange(bs@.len() as int, es0.len() as int)),
                        ),
                    decreases bs@.len(),
                {
                    let ghost j = bs@.len() - 1;
                    let ghost processed = entries_view(es0.subrange(j + 1, es0.len() as int));
                    let popped = bs.pop().unwrap();
                    let (k, vb) = popped;
                    proof {
                        assert(es0.subrange(0, j + 1).last() == es0[j]);
                        assert((k, vb) == es0[j]);
                        assert(bs@ =~= es0.subrange(0, j));
                        assert(node_wf(es0[j].1));
                        // the popped key is fresh among the already processed ones
                        assert forall|x: int| j + 1 <= x < es0.len() implies (#[trigger] es0[x]).0
                            != k by {}
                        assert forall|x: int|
                            0 <= x < es0.subrange(j + 1, es0.len() as int).len() implies (
                        #[trigger] es0.subrange(j + 1, es0.len() as int)[x]).0 != k by {
                            assert(es0.subrange(j + 1, es0.len() as int)[x] == es0[j + 1 + x]);
                        }
                        lemma_entries_view_absent(es0.subrange(j + 1, es0.len() as int), k);
                        assert(seq![(k, vb)] + es0.subrange(j + 1, es0.len() as int) =~= es0.subrange(
                            j,
                            es0.len() as int,
                        ));
                        lemma_entries_view_prepend((k, vb), es0.subrange(j + 1, es0.len() as int));
                        lemma_merged_tables_insert(ma, processed, k, node_view(vb));
                        lemma_entries_height(es0, j);
                    }
                    match find_index(&sa.entries, k) {
                        Some(i) => {
                            proof {
                                lemma_entries_view_index(sa.entries@, i as int);
                                lemma_entries_view_absent(
                                    es0.subrange(j + 1, es0.len() as int),
                                    k,
                                );
                                // the key was already bound, so it comes from the left table
                                assert(merged_tables(ma, processed).contains_key(k));
                                assert(ma.contains_key(k));
                                assert(node_view(sa.entries@[i as int].1) == ma[k]);
                            }
                            let ghost es_before = sa.entries@;
                            let (k2, mut va) = sa.entries.remove(i);
                            va.merge(vb);
                            sa.entries.insert(i, (k2, va));
                            proof {
                                assert(sa.entries@ =~= es_before.update(i as int, (k2, va)));
                                lemma_entries_view_update(es_before, i as int, va);
                            }
                        },
                        None => {
                            proof {
                                lemma_entries_view_absent(sa.entries@, k);
                                assert(!ma.contains_key(k));
                            }
                            let ghost es_before = sa.entries@;
                            sa.entries.push((k, vb));
                            proof {
                                assert(sa.entries@.drop_last() =~= es_before);
                                assert(sa.entries@.last() == (k, vb));
                            }
                        },
                    }
                }
                proof {
                    assert(es0.subrange(0, es0.len() as int) =~= es0);
                    assert(entries_view(sa.entries@) == merged_tables(ma, mb));
                }
                *self = KeyNode::Sequence(sa);
            },
            (a, o) => {
                proof {
                    // the early return above covers every case where either
                    // side is a leaf
                    assert(false);
                }
                *self = o;
            },
        }
    }
}

/// A table after one registration: the path's first key is bound to the
/// path's remaining tree, merged with whatever that key held before.
pub open spec fn table_add(
    m: Map<KeyCombination, NodeV>,
    path: Seq<KeyCombination>,
    ev: EventV,
) -> Map<KeyCombination, NodeV>
    recommends
        path.len() > 0,
{
    let n = node_of_path(path.drop_first(), ev);
    m.insert(
        path[0],
        if m.contains_key(path[0]) {
            merge_v(m[path[0]], n)
        } else {
            n
        },
    )
}

/// Whether `p` is a (not necessarily proper) prefix of `q`.
pub open spec fn is_prefix_of(p: Seq<KeyCombination>, q: Seq<KeyCombination>) -> bool {
    p.len() <= q.len() && p == q.subrange(0, p.len() as int)
}

/// The event a path of keys resolves to in a subtree, if any: the path is
/// followed key by key through nested tables and must end exactly on an
/// event leaf.
pub open spec fn resolve_node(n: NodeV, path: Seq<KeyCombination>) -> Option<EventV>
    decreases path.len(),
{
    match n {
        NodeV::Event(ev) => if path.len() == 0 {
            Some(ev)
        } else {
            None
        },
        NodeV::Table(m) => if path.len() == 0 {
            None
        } else if m.contains_key(path[0]) {
            resolve_node(m[path[0]], path.drop_first())
        } else {
            None
        },
    }
}

/// The cursor table a fresh matcher reaches after consuming `keys` with
/// every step still pending, if the walk stays inside nested tables.
pub open spec fn walk_prefix(m: Map<KeyCombination, NodeV>, keys: Seq<KeyCombination>) -> Option<
    Map<KeyCombination, NodeV>,
>
    decreases keys.len(),
{
    if keys.len() == 0 {
        Some(m)
    } else if m.contains_key(keys[0]) && m[keys[0]] is Table {
        walk_prefix(m[keys[0]]->Table_0, keys.drop_first())
    } else {
        None
    }
}

/// The registration path itself resolves to its event.
pub proof fn lemma_node_of_path_resolves(path: Seq<KeyCombination>, ev: EventV)
    ensures
        resolve_node(node_of_path(path, ev), path) == Some(ev),
    decreases path.len(),
{
    if path.len() > 0 {
        lemma_node_of_path_resolves(path.drop_first(), ev);
    }
}

/// Merging a registration into any subtree makes its path resolve to the
/// new event: the new registration wins along its own path.
pub proof fn lemma_merge_resolves(a: NodeV, path: Seq<KeyCombination>, ev: EventV)
    ensures
        resolve_node(merge_v(a, node_of_path(path, ev)), path) == Some(ev),
    decreases path.len(),
{
    if path.len() == 0 {
        assert(merge_v(a, node_of_path(path, ev)) == NodeV::Event(ev));
    } else {
        let sub = node_of_path(path.drop_first(), ev);
        let mb = Map::empty().insert(path[0], sub);
        assert(node_of_path(path, ev) == NodeV::Table(mb));
        match a {
            NodeV::Table(ma) => {
                let merged = merge_v(a, NodeV::Table(mb))->Table_0;
                assert(merged.contains_key(path[0]));
                if ma.contains_key(path[0]) {
                    assert(merged[path[0]] == merge_v(ma[path[0]], sub));
                    lemma_merge_resolves(ma[path[0]], path.drop_first(), ev);
                } else {
                    assert(merged[path[0]] == sub);
                    lemma_node_of_path_resolves(path.drop_first(), ev);
                }
            },
            NodeV::Event(_) => {
                assert(merge_v(a, NodeV::Table(mb)) == NodeV::Table(mb));
                lemma_node_of_path_resolves(path, ev);
            },
        }
    }
}

/// Merging a registration preserves the resolution of every path that
/// neither extends the new path nor is extended by it.
pub proof fn lemma_merge_preserves_disjoint(
    a: NodeV,
    path: Seq<KeyCombination>,
    ev: EventV,
    q: Seq<KeyCombination>,
)
    requires
        resolve_node(a, q) is Some,
        !is_prefix_of(path, q),
        !is_prefix_of(q, path),
    ensures
        resolve_node(merge_v(a, node_of_path(path, ev)), q) == resolve_node(a, q),
    decreases q.len(),
{
    if path.len() == 0 {
        assert(path =~= q.subrange(0, 0));
        assert(is_prefix_of(path, q));
    } else if q.len() == 0 {
        assert(q =~= path.subrange(0, 0));
        assert(is_prefix_of(q, path));
    } else {
        // both paths are nonempty, and `a` must be a table holding q[0]
        let ma = a->Table_0;
        let sub = node_of_path(path.drop_first(), ev);
        let mb = Map::empty().insert(path[0], sub);
        assert(node_of_path(path, ev) == NodeV::Table(mb));
        let merged = merge_v(a, NodeV::Table(mb))->Table_0;
        if q[0] != path[0] {
            assert(merged.contains_key(q[0]) && merged[q[0]] == ma[q[0]]);
        } else {
            // shared first key: the tails are still prefix-free
            assert(merged[q[0]] == merge_v(ma[q[0]], sub));
            let p1 = path.drop_first();
            let q1 = q.drop_first();
            assert(!is_prefix_of(p1, q1)) by {
                if is_prefix_of(p1, q1) {
                    assert forall|i: int| 0 <= i < path.len() implies path[i] == q.subrange(
                        0,
                        path.len() as int,
                    )[i] by {
                        if i > 0 {
                            assert(p1[i - 1] == q1.subrange(0, p1.len() as int)[i - 1]);
                            assert(q1[i - 1] == q[i]);
                        }
                    }
                    assert(path =~= q.subrange(0, path.len() as int));
                }
            }
            assert(!is_prefix_of(q1, p1)) by {
                if is_prefix_of(q1, p1) {
                    assert forall|i: int| 0 <= i < q.len() implies q[i] == path.subrange(
                        0,
                        q.len() as int,
                    )[i] by {
                        if i > 0 {
                            assert(q1[i - 1] == p1.subrange(0, q1.len() as int)[i - 1]);
                            assert(p1[i - 1] == path[i]);
                        }
                    }
                    assert(q =~= path.subrange(0, q.len() as int));
                }
            }
            lemma_merge_preserves_disjoint(ma[q[0]], p1, ev, q1);
        }
    }
}

/// One registration, seen at the table level, is a merge at the first key.
pub proof fn lemma_table_add_is_merge(
    m: Map<KeyCombination, NodeV>,
    path: Seq<KeyCombination>,
    ev: EventV,
)
    requires
        path.len() > 0,
    ensures
        NodeV::Table(table_add(m, path, ev)) == merge_v(NodeV::Table(m), node_of_path(path, ev)),
{
    let sub = node_of_path(path.drop_first(), ev);
    let mb = Map::empty().insert(path[0], sub);
    assert(node_of_path(path, ev) == NodeV::Table(mb));
    let merged = merge_v(NodeV::Table(m), NodeV::Table(mb))->Table_0;
    assert(table_add(m, path, ev) =~= merged);
}

/// Registering a single-key binding binds that key to the event leaf,
/// whatever the key held before and whatever else the table holds.
pub proof fn lemma_single_key_binding(
    m: Map<KeyCombination, NodeV>,
    kc: KeyCombination,
    ev: EventV,
)
    ensures
        table_add(m, seq![kc], ev) == m.insert(kc, NodeV::Event(ev)),
{
    assert(seq![kc].drop_first() =~= Seq::<KeyCombination>::empty());
    assert(node_of_path(seq![kc].drop_first(), ev) == NodeV::Event(ev));
}

/// Law: after a registration the registered path resolves to its event,
/// independent of the table's prior contents (the single-key case is the
/// immediate-dispatch law: the matcher reports a match on that exact key).
pub proof fn lemma_register_resolves(
    m: Map<KeyCombination, NodeV>,
    path: Seq<KeyCombination>,
    ev: EventV,
)
    requires
        path.len() > 0,
    ensures
        resolve_node(NodeV::Table(table_add(m, path, ev)), path) == Some(ev),
{
    lemma_table_add_is_merge(m, path, ev);
    lemma_merge_resolves(NodeV::Table(m), path, ev);
}

/// Law: merging preserves existing leaves. A registration leaves every
/// previously resolvable path untouched unless one path is a prefix of the
/// other; in particular two bindings sharing a proper prefix coexist.
pub proof fn lemma_register_preserves(
    m: Map<KeyCombination, NodeV>,
    path: Seq<KeyCombination>,
    ev: EventV,
    q: Seq<KeyCombination>,
)
    requires
        path.len() > 0,
        resolve_node(NodeV::Table(m), q) is Some,
        !is_prefix_of(path, q),
        !is_prefix_of(q, path),
    ensures
        resolve_node(NodeV::Table(table_add(m, path, ev)), q) == resolve_node(NodeV::Table(m), q),
{
    lemma_table_add_is_merge(m, path, ev);
    lemma_merge_preserves_disjoint(NodeV::Table(m), path, ev, q);
}

/// Law: a bound multi-key path is matched exactly. Every proper prefix of
/// the path keeps the matcher pending (the walk reaches a nested cursor
/// table), and in the cursor reached by all but the last key, the last key
/// is bound to the event leaf, so the final key reports the match.
pub proof fn lemma_full_sequence_matches(
    m: Map<KeyCombination, NodeV>,
    path: Seq<KeyCombination>,
    ev: EventV,
)
    requires
        path.len() >= 1,
        resolve_node(NodeV::Table(m), path) == Some(ev),
    ensures
        forall|i: int| 0 <= i < path.len() ==> walk_prefix(m, #[trigger] path.subrange(0, i)) is Some,
        ({
            let cursor = walk_prefix(m, path.subrange(0, path.len() - 1));
            &&& cursor is Some
            &&& cursor->Some_0.contains_key(path.last())
            &&& cursor->Some_0[path.last()] == NodeV::Event(ev)
        }),
    decreases path.len(),
{
    assert(path.subrange(0, 0) =~= Seq::<KeyCombination>::empty());
    if path.len() == 1 {
        assert(path.drop_first().len() == 0);
        assert(forall|i: int|
            0 <= i < path.len() ==> path.subrange(0, i) =~= Seq::<KeyCombination>::empty());
        assert(m.contains_key(path[0]));
        assert(m[path[0]] is Event) by {
            if m[path[0]] is Table {
                assert(resolve_node(m[path[0]], path.drop_first()) is None);
            }
        }
        assert(path.last() == path[0]);
        assert(path.subrange(0, path.len() - 1) =~= Seq::<KeyCombination>::empty());
        assert(walk_prefix(m, path.subrange(0, path.len() - 1)) == Some(m));
    } else {
        let m2 = m[path[0]]->Table_0;
        let tail = path.drop_first();
        assert(m[path[0]] is Table) by {
            if m[path[0]] is Event {
                assert(resolve_node(m[path[0]], tail) is None);
            }
        }
        lemma_full_sequence_matches(m2, tail, ev);
        assert forall|i: int| 0 <= i < path.len() implies walk_prefix(
            m,
            #[trigger] path.subrange(0, i),
        ) is Some by {
            if i > 0 {
                let pre = path.subrange(0, i);
                assert(pre[0] == path[0]);
                assert(pre.drop_first() =~= tail.subrange(0, i - 1));
                assert(walk_prefix(m, pre) == walk_prefix(m2, tail.subrange(0, i - 1)));
            }
        }
        let pre = path.subrange(0, path.len() - 1);
        assert(pre[0] == path[0]);
        assert(pre.drop_first() =~= tail.subrange(0, tail.len() - 1));
        assert(walk_prefix(m, pre) == walk_prefix(m2, tail.subrange(0, tail.len() - 1)));
        assert(tail.last() == path.last());
    }
}

/// Main definition of editor keybindings.
#[derive(Debug)]
pub struct Keybindings {
    /// Defines a keybinding for an editor event.
    pub bindings: Sequence,
}

impl View for Keybindings {
    type V = Map<KeyCombination, NodeV>;

    open spec fn view(&self) -> Map<KeyCombination, NodeV> {
        self.bindings@
    }
}

impl Default for Keybindings {
    fn default() -> (r: Self)
        ensures
            r@ == Map::<KeyCombination, NodeV>::empty(),
            r.wf(),
    {
        Self::new()
    }
}

impl Keybindings {
    pub open spec fn wf(self) -> bool {
        self.bindings.wf()
    }

    /// New keybindings table with nothing bound.
    pub fn new() -> (r: Self)
        ensures
            r@ == Map::<KeyCombination, NodeV>::empty(),
            r.wf(),
    {
        Self { bindings: Sequence { entries: Vec::new() } }
    }

    /// Defines an empty keybinding object.
    pub fn empty() -> (r: Self)
        ensures
            r@ == Map::<KeyCombination, NodeV>::empty(),
            r.wf(),
    {
        Self::new()
    }

    /// Adds a keybinding for the path `start_key_combination` followed by
    /// `key_combinations`, merging into (not replacing) existing branches.
    ///
    /// Registering an `UntilFound` event with no alternatives is a
    /// configuration error, so callers must not pass one.
    pub fn add_binding(
        &mut self,
        start_key_combination: KeyCombination,
        key_combinations: Vec<KeyCombination>,
        command: ReedlineEvent,
    )
        requires
            old(self).wf(),
            !(command@ matches EventV::UntilFound(alternatives) && alternatives.len() == 0),
        ensures
            final(self).wf(),
            final(self)@ == table_add(
                old(self)@,
                seq![start_key_combination] + key_combinations@,
                command@,
            ),
    {
        let ghost path = seq![start_key_combination] + key_combinations@;
        proof {
            assert(path[0] == start_key_combination);
            assert(path.drop_first() =~= key_combinations@);
        }
        let key_node = KeyNode::new(key_combinations, command);
        match find_index(&self.bindings.entries, start_key_combination) {
            Some(i) => {
                proof {
                    lemma_entries_view_index(self.bindings.entries@, i as int);
                }
                let ghost es_before = self.bindings.entries@;
                let (k2, mut node) = self.bindings.entries.remove(i);
                node.merge(key_node);
                self.bindings.entries.insert(i, (k2, node));
                proof {
                    assert(self.bindings.entries@ =~= es_before.update(i as int, (k2, node)));
                    lemma_entries_view_update(es_before, i as int, node);
                }
            },
            None => {
                proof {
                    lemma_entries_view_absent(self.bindings.entries@, start_key_combination);
                }
                let ghost es_before = self.bindings.entries@;
                self.bindings.entries.push((start_key_combination, key_node));
                proof {
                    assert(self.bindings.entries@.drop_last() =~= es_before);
                    assert(self.bindings.entries@.last() == (start_key_combination, key_node));
                }
            },
        }
    }

    /// Registers a single-key binding; the table view gains exactly one
    /// event leaf at that key.
    pub fn bind_single(&mut self, modifier: KeyModifiers, key_code: KeyCode, command: ReedlineEvent)
        requires
            old(self).wf(),
            !(command@ matches EventV::UntilFound(alternatives) && alternatives.len() == 0),
        ensures
            final(self).wf(),
            final(self)@ == old(self)@.insert(
                combo(modifier, key_code),
                NodeV::Event(command@),
            ),
    {
        let ghost ev = command@;
        let kc = KeyCombination { modifier, key_code };
        self.add_binding(kc, Vec::new(), command);
        proof {
            assert(seq![kc] + Seq::<KeyCombination>::empty() =~= seq![kc]);
            lemma_single_key_binding(old(self)@, kc, ev);
        }
    }

    /// Find the node bound to a single key at the root of the table.
    pub fn find_binding(&self, modifier: KeyModifiers, key_code: KeyCode) -> (r: Option<KeyNode>)
        requires
            self.wf(),
        ensures
            ({
                let combo = KeyCombination { modifier, key_code };
                match r {
                    Some(node) => self@.contains_key(combo) && node@ == self@[combo] && node_wf(
                        node,
                    ),
                    None => !self@.contains_key(combo),
                }
            }),
    {
        let key_combo = KeyCombination { modifier, key_code };
        match find_index(&self.bindings.entries, key_combo) {
            Some(i) => {
                proof {
                    lemma_entries_view_index(self.bindings.entries@, i as int);
                }
                Some(clone_node(&self.bindings.entries[i].1))
            },
            None => {
                proof {
                    lemma_entries_view_absent(self.bindings.entries@, key_combo);
                }
                None
            },
        }
    }
}

/// The matcher state a driver may hold between keys: the cursor table and
/// the consumed key history.
pub open spec fn partial_view(p: Option<PartialKeySequence>) -> Option<
    (Map<KeyCombination, NodeV>, Seq<KeyCombination>),
> {
    match p {
        Some(ps) => Some((ps.sequence@, ps.history@)),
        None => None,
    }
}

/// Shorthand for a key combination in table specifications.
pub open spec fn combo(modifier: KeyModifiers, key_code: KeyCode) -> KeyCombination {
    KeyCombination { modifier, key_code }
}

/// The events a cancelled key history replays: a plain or shift-modified
/// character key inserts its literal character (only where the caller
/// allows literal insertion — a modal driver does so only in its insert
/// mode); every other key is looked up again as a single top-level binding,
/// where only event leaves apply (a nested table cannot legitimately
/// reappear here, and a key bound to one is swallowed).
pub open spec fn replay_keys(
    table: Map<KeyCombination, NodeV>,
    keys: Seq<KeyCombination>,
    insert_literals: bool,
) -> Seq<EventV>
    decreases keys.len(),
{
    if keys.len() == 0 {
        Seq::empty()
    } else {
        let kc = keys[0];
        let rest = replay_keys(table, keys.drop_first(), insert_literals);
        if kc.key_code is Char && (kc.modifier == KeyModifiers::spec_none() || kc.modifier
            == KeyModifiers::spec_shift()) {
            if insert_literals {
                seq![EventV::Edit(seq![EditCommand::InsertChar(kc.key_code->Char_0)])] + rest
            } else {
                rest
            }
        } else {
            let lk = combo(kc.modifier, crate::keys::spec_lower_key_code(kc.key_code));
            if table.contains_key(lk) && table[lk] is Event {
                seq![table[lk]->Event_0] + rest
            } else {
                rest
            }
        }
    }
}

/// Law: a cancelled replay of plain or shift-modified character keys, where
/// literal insertion is allowed, inserts exactly the literal characters of
/// the buffered keys, in order — whatever the table holds.
pub proof fn lemma_replay_literal_chars(
    table: Map<KeyCombination, NodeV>,
    keys: Seq<KeyCombination>,
)
    requires
        forall|i: int|
            0 <= i < keys.len() ==> (#[trigger] keys[i]).key_code is Char && (keys[i].modifier
                == KeyModifiers::spec_none() || keys[i].modifier == KeyModifiers::spec_shift()),
    ensures
        replay_keys(table, keys, true).len() == keys.len(),
        forall|i: int|
            0 <= i < keys.len() ==> replay_keys(table, keys, true)[i] == EventV::Edit(
                seq![EditCommand::InsertChar((#[trigger] keys[i]).key_code->Char_0)],
            ),
    decreases keys.len(),
{
    if keys.len() > 0 {
        lemma_replay_literal_chars(table, keys.drop_first());
        assert(keys[0].key_code is Char && (keys[0].modifier == KeyModifiers::spec_none()
            || keys[0].modifier == KeyModifiers::spec_shift()));
        assert(replay_keys(table, keys, true) == seq![
            EventV::Edit(seq![EditCommand::InsertChar(keys[0].key_code->Char_0)]),
        ] + replay_keys(table, keys.drop_first(), true));
        assert forall|i: int|
            0 <= i < keys.len() implies replay_keys(table, keys, true)[i] == EventV::Edit(
            seq![EditCommand::InsertChar((#[trigger] keys[i]).key_code->Char_0)],
        ) by {
            if i > 0 {
                assert(replay_keys(table, keys, true)[i] == replay_keys(
                    table,
                    keys.drop_first(),
                    true,
                )[i - 1]);
                assert(keys.drop_first()[i - 1] == keys[i]);
            }
        }
    }
}

/// An ordered two-alternative chain.
pub fn until_found2(a: ReedlineEvent, b: ReedlineEvent) -> (r: ReedlineEvent)
    ensures
        r@ == EventV::UntilFound(seq![a@, b@]),
{
    let ghost av = a@;
    let ghost bv = b@;
    let alternatives = vec![a, b];
    proof {
        crate::events::lemma_events_view(alternatives@);
        assert(crate::events::events_view(alternatives@) =~= seq![av, bv]);
    }
    ReedlineEvent::UntilFound(alternatives)
}

/// An ordered three-alternative chain.
pub fn until_found3(a: ReedlineEvent, b: ReedlineEvent, c: ReedlineEvent) -> (r: ReedlineEvent)
    ensures
        r@ == EventV::UntilFound(seq![a@, b@, c@]),
{
    let ghost av = a@;
    let ghost bv = b@;
    let ghost cv = c@;
    let alternatives = vec![a, b, c];
    proof {
        crate::events::lemma_events_view(alternatives@);
        assert(crate::events::events_view(alternatives@) =~= seq![av, bv, cv]);
    }
    ReedlineEvent::UntilFound(alternatives)
}

/// The basic special bindings: `Esc`, `Ctrl-C`, `Ctrl-D`, `Ctrl-L`,
/// `Ctrl-R`, and `Ctrl-O` for the external editor.
pub open spec fn control_bindings(m: Map<KeyCombination, NodeV>) -> Map<KeyCombination, NodeV> {
    m.insert(combo(KeyModifiers::spec_none(), KeyCode::Esc), NodeV::Event(EventV::Esc)).insert(
        combo(KeyModifiers::spec_control(), KeyCode::Char('c')),
        NodeV::Event(EventV::CtrlC),
    ).insert(combo(KeyModifiers::spec_control(), KeyCode::Char('d')), NodeV::Event(EventV::CtrlD))
        .insert(
        combo(KeyModifiers::spec_control(), KeyCode::Char('l')),
        NodeV::Event(EventV::ClearScreen),
    ).insert(
        combo(KeyModifiers::spec_control(), KeyCode::Char('r')),
        NodeV::Event(EventV::SearchHistory),
    ).insert(
        combo(KeyModifiers::spec_control(), KeyCode::Char('o')),
        NodeV::Event(EventV::OpenEditor),
    )
}

/// Add the basic special keybindings
///
/// `Ctrl-C`, `Ctrl-D`, `Ctrl-O`, `Ctrl-R`
/// + `Esc`
/// + `Ctrl-O` to open the external editor
pub fn add_common_control_bindings(kb: &mut Keybindings)
    requires
        old(kb).wf(),
    ensures
        final(kb).wf(),
        final(kb)@ == control_bindings(old(kb)@),
{
    kb.bind_single(KeyModifiers::none(), KeyCode::Esc, ReedlineEvent::Esc);
    kb.bind_single(KeyModifiers::control(), KeyCode::Char('c'), ReedlineEvent::CtrlC);
    kb.bind_single(KeyModifiers::control(), KeyCode::Char('d'), ReedlineEvent::CtrlD);
    kb.bind_single(KeyModifiers::control(), KeyCode::Char('l'), ReedlineEvent::ClearScreen);
    kb.bind_single(KeyModifiers::control(), KeyCode::Char('r'), ReedlineEvent::SearchHistory);
    kb.bind_single(KeyModifiers::control(), KeyCode::Char('o'), ReedlineEvent::OpenEditor);
}

/// The arrow navigation bindings and their `Ctrl` variants.
pub open spec fn navigation_bindings(m: Map<KeyCombination, NodeV>) -> Map<KeyCombination, NodeV> {
    m.insert(
        combo(KeyModifiers::spec_none(), KeyCode::Up),
        NodeV::Event(EventV::UntilFound(seq![EventV::MenuUp, EventV::Up])),
    ).insert(
        combo(KeyModifiers::spec_none(), KeyCode::Down),
        NodeV::Event(EventV::UntilFound(seq![EventV::MenuDown, EventV::Down])),
    ).insert(
        combo(KeyModifiers::spec_none(), KeyCode::Left),
        NodeV::Event(EventV::UntilFound(seq![EventV::MenuLeft, EventV::Left])),
    ).insert(
        combo(KeyModifiers::spec_none(), KeyCode::Right),
        NodeV::Event(
            EventV::UntilFound(seq![EventV::HistoryHintComplete, EventV::MenuRight, EventV::Right]),
        ),
    ).insert(
        combo(KeyModifiers::spec_control(), KeyCode::Left),
        NodeV::Event(EventV::Edit(seq![EditCommand::MoveWordLeft { select: false }])),
    ).insert(
        combo(KeyModifiers::spec_control(), KeyCode::Right),
        NodeV::Event(
            EventV::UntilFound(
                seq![
                    EventV::HistoryHintWordComplete,
                    EventV::Edit(seq![EditCommand::MoveWordRight { select: false }]),
                ],
            ),
        ),
    ).insert(
        combo(KeyModifiers::spec_none(), KeyCode::Home),
        NodeV::Event(EventV::Edit(seq![EditCommand::MoveToLineStart { select: false }])),
    ).insert(
        combo(KeyModifiers::spec_control(), KeyCode::Char('a')),
        NodeV::Event(EventV::Edit(seq![EditCommand::MoveToLineStart { select: false }])),
    ).insert(
        combo(KeyModifiers::spec_none(), KeyCode::End),
        NodeV::Event(
            EventV::UntilFound(
                seq![
                    EventV::HistoryHintComplete,
                    EventV::Edit(seq![EditCommand::MoveToLineEnd { select: false }]),
                ],
            ),
        ),
    ).insert(
        combo(KeyModifiers::spec_control(), KeyCode::Char('e')),
        NodeV::Event(
            EventV::UntilFound(
                seq![
                    EventV::HistoryHintComplete,
                    EventV::Edit(seq![EditCommand::MoveToLineEnd { select: false }]),
                ],
            ),
        ),
    ).insert(
        combo(KeyModifiers::spec_control(), KeyCode::Home),
        NodeV::Event(EventV::Edit(seq![EditCommand::MoveToStart { select: false }])),
    ).insert(
        combo(KeyModifiers::spec_control(), KeyCode::End),
        NodeV::Event(EventV::Edit(seq![EditCommand::MoveToEnd { select: false }])),
    ).insert(
        combo(KeyModifiers::spec_control(), KeyCode::Char('p')),
        NodeV::Event(EventV::UntilFound(seq![EventV::MenuUp, EventV::Up])),
    ).insert(
        combo(KeyModifiers::spec_control(), KeyCode::Char('n')),
        NodeV::Event(EventV::UntilFound(seq![EventV::MenuDown, EventV::Down])),
    )
}

/// Add the arrow navigation and its `Ctrl` variants
pub fn add_common_navigation_bindings(kb: &mut Keybindings)
    requires
        old(kb).wf(),
    ensures
        final(kb).wf(),
        final(kb)@ == navigation_bindings(old(kb)@),
{
    // Arrow keys without modifier
    kb.bind_single(
        KeyModifiers::none(),
        KeyCode::Up,
        until_found2(ReedlineEvent::MenuUp, ReedlineEvent::Up),
    );
    kb.bind_single(
        KeyModifiers::none(),
        KeyCode::Down,
        until_found2(ReedlineEvent::MenuDown, ReedlineEvent::Down),
    );
    kb.bind_single(
        KeyModifiers::none(),
        KeyCode::Left,
        until_found2(ReedlineEvent::MenuLeft, ReedlineEvent::Left),
    );
    kb.bind_single(
        KeyModifiers::none(),
        KeyCode::Right,
        until_found3(
            ReedlineEvent::HistoryHintComplete,
            ReedlineEvent::MenuRight,
            ReedlineEvent::Right,
        ),
    );
    // Ctrl Left and Right
    kb.bind_single(
        KeyModifiers::control(),
        KeyCode::Left,
        edit_bind(EditCommand::MoveWordLeft { select: false }),
    );
    kb.bind_single(
        KeyModifiers::control(),
        KeyCode::Right,
        until_found2(
            ReedlineEvent::HistoryHintWordComplete,
            edit_bind(EditCommand::MoveWordRight { select: false }),
        ),
    );
    // Home/End & Ctrl-a/Ctrl-e
    kb.bind_single(
        KeyModifiers::none(),
        KeyCode::Home,
        edit_bind(EditCommand::MoveToLineStart { select: false }),
    );
    kb.bind_single(
        KeyModifiers::control(),
        KeyCode::Char('a'),
        edit_bind(EditCommand::MoveToLineStart { select: false }),
    );
    kb.bind_single(
        KeyModifiers::none(),
        KeyCode::End,
        until_found2(
            ReedlineEvent::HistoryHintComplete,
            edit_bind(EditCommand::MoveToLineEnd { select: false }),
        ),
    );
    kb.bind_single(
        KeyModifiers::control(),
        KeyCode::Char('e'),
        until_found2(
            ReedlineEvent::HistoryHintComplete,
            edit_bind(EditCommand::MoveToLineEnd { select: false }),
        ),
    );
    // Ctrl Home/End
    kb.bind_single(
        KeyModifiers::control(),
        KeyCode::Home,
        edit_bind(EditCommand::MoveToStart { select: false }),
    );
    kb.bind_single(
        KeyModifiers::control(),
        KeyCode::End,
        edit_bind(EditCommand::MoveToEnd { select: false }),
    );
    // Emacs-style arrows
    kb.bind_single(
        KeyModifiers::control(),
        KeyCode::Char('p'),
        until_found2(ReedlineEvent::MenuUp, ReedlineEvent::Up),
    );
    kb.bind_single(
        KeyModifiers::control(),
        KeyCode::Char('n'),
        until_found2(ReedlineEvent::MenuDown, ReedlineEvent::Down),
    );
}

/// The basic editing bindings: `Delete`, `Backspace`, their word variants,
/// and the newline/enter keys.
pub open spec fn edit_bindings(m: Map<KeyCombination, NodeV>) -> Map<KeyCombination, NodeV> {
    m.insert(
        combo(KeyModifiers::spec_none(), KeyCode::Backspace),
        NodeV::Event(EventV::Edit(seq![EditCommand::Backspace])),
    ).insert(
        combo(KeyModifiers::spec_none(), KeyCode::Delete),
        NodeV::Event(EventV::Edit(seq![EditCommand::Delete])),
    ).insert(
        combo(KeyModifiers::spec_control(), KeyCode::Backspace),
        NodeV::Event(EventV::Edit(seq![EditCommand::BackspaceWord])),
    ).insert(
        combo(KeyModifiers::spec_control(), KeyCode::Delete),
        NodeV::Event(EventV::Edit(seq![EditCommand::DeleteWord])),
    ).insert(
        combo(KeyModifiers::spec_control(), KeyCode::Char('h')),
        NodeV::Event(EventV::Edit(seq![EditCommand::Backspace])),
    ).insert(
        combo(KeyModifiers::spec_control(), KeyCode::Char('w')),
        NodeV::Event(EventV::Edit(seq![EditCommand::BackspaceWord])),
    ).insert(
        combo(KeyModifiers::spec_alt(), KeyCode::Enter),
        NodeV::Event(EventV::Edit(seq![EditCommand::InsertNewline])),
    ).insert(
        combo(KeyModifiers::spec_shift(), KeyCode::Enter),
        NodeV::Event(EventV::Edit(seq![EditCommand::InsertNewline])),
    ).insert(combo(KeyModifiers::spec_control(), KeyCode::Char('j')), NodeV::Event(EventV::Enter))
}

/// Add basic functionality to edit
///
/// `Delete`, `Backspace` and the basic variants do delete words
pub fn add_common_edit_bindings(kb: &mut Keybindings)
    requires
        old(kb).wf(),
    ensures
        final(kb).wf(),
        final(kb)@ == edit_bindings(old(kb)@),
{
    kb.bind_single(KeyModifiers::none(), KeyCode::Backspace, edit_bind(EditCommand::Backspace));
    kb.bind_single(KeyModifiers::none(), KeyCode::Delete, edit_bind(EditCommand::Delete));
    kb.bind_single(
        KeyModifiers::control(),
        KeyCode::Backspace,
        edit_bind(EditCommand::BackspaceWord),
    );
    kb.bind_single(KeyModifiers::control(), KeyCode::Delete, edit_bind(EditCommand::DeleteWord));
    // Base commands should not affect the cut buffer
    kb.bind_single(KeyModifiers::control(), KeyCode::Char('h'), edit_bind(EditCommand::Backspace));
    kb.bind_single(
        KeyModifiers::control(),
        KeyCode::Char('w'),
        edit_bind(EditCommand::BackspaceWord),
    );
    kb.bind_single(KeyModifiers::alt(), KeyCode::Enter, edit_bind(EditCommand::InsertNewline));
    kb.bind_single(KeyModifiers::shift(), KeyCode::Enter, edit_bind(EditCommand::InsertNewline));
    kb.bind_single(KeyModifiers::control(), KeyCode::Char('j'), ReedlineEvent::Enter);
}

/// The selection bindings: shift-modified movement extends the selection.
pub open spec fn selection_bindings(m: Map<KeyCombination, NodeV>) -> Map<KeyCombination, NodeV> {
    m.insert(
        combo(KeyModifiers::spec_shift(), KeyCode::Left),
        NodeV::Event(EventV::Edit(seq![EditCommand::MoveLeft { select: true }])),
    ).insert(
        combo(KeyModifiers::spec_shift(), KeyCode::Right),
        NodeV::Event(EventV::Edit(seq![EditCommand::MoveRight { select: true }])),
    ).insert(
        combo(KeyModifiers::spec_shift().spec_union(KeyModifiers::spec_control()), KeyCode::Left),
        NodeV::Event(EventV::Edit(seq![EditCommand::MoveWordLeft { select: true }])),
    ).insert(
        combo(KeyModifiers::spec_shift().spec_union(KeyModifiers::spec_control()), KeyCode::Right),
        NodeV::Event(EventV::Edit(seq![EditCommand::MoveWordRight { select: true }])),
    ).insert(
        combo(KeyModifiers::spec_shift(), KeyCode::End),
        NodeV::Event(EventV::Edit(seq![EditCommand::MoveToLineEnd { select: true }])),
    ).insert(
        combo(KeyModifiers::spec_shift().spec_union(KeyModifiers::spec_control()), KeyCode::End),
        NodeV::Event(EventV::Edit(seq![EditCommand::MoveToEnd { select: true }])),
    ).insert(
        combo(KeyModifiers::spec_shift(), KeyCode::Home),
        NodeV::Event(EventV::Edit(seq![EditCommand::MoveToLineStart { select: true }])),
    ).insert(
        combo(KeyModifiers::spec_shift().spec_union(KeyModifiers::spec_control()), KeyCode::Home),
        NodeV::Event(EventV::Edit(seq![EditCommand::MoveToStart { select: true }])),
    ).insert(
        combo(
            KeyModifiers::spec_control().spec_union(KeyModifiers::spec_shift()),
            KeyCode::Char('a'),
        ),
        NodeV::Event(EventV::Edit(seq![EditCommand::SelectAll])),
    )
}

/// Add the bindings that extend or act on the selection.
pub fn add_common_selection_bindings(kb: &mut Keybindings)
    requires
        old(kb).wf(),
    ensures
        final(kb).wf(),
        final(kb)@ == selection_bindings(old(kb)@),
{
    kb.bind_single(
        KeyModifiers::shift(),
        KeyCode::Left,
        edit_bind(EditCommand::MoveLeft { select: true }),
    );
    kb.bind_single(
        KeyModifiers::shift(),
        KeyCode::Right,
        edit_bind(EditCommand::MoveRight { select: true }),
    );
    kb.bind_single(
        KeyModifiers::shift().union(KeyModifiers::control()),
        KeyCode::Left,
        edit_bind(EditCommand::MoveWordLeft { select: true }),
    );
    kb.bind_single(
        KeyModifiers::shift().union(KeyModifiers::control()),
        KeyCode::Right,
        edit_bind(EditCommand::MoveWordRight { select: true }),
    );
    kb.bind_single(
        KeyModifiers::shift(),
        KeyCode::End,
        edit_bind(EditCommand::MoveToLineEnd { select: true }),
    );
    kb.bind_single(
        KeyModifiers::shift().union(KeyModifiers::control()),
        KeyCode::End,
        edit_bind(EditCommand::MoveToEnd { select: true }),
    );
    kb.bind_single(
        KeyModifiers::shift(),
        KeyCode::Home,
        edit_bind(EditCommand::MoveToLineStart { select: true }),
    );
    kb.bind_single(
        KeyModifiers::shift().union(KeyModifiers::control()),
        KeyCode::Home,
        edit_bind(EditCommand::MoveToStart { select: true }),
    );
    kb.bind_single(
        KeyModifiers::control().union(KeyModifiers::shift()),
        KeyCode::Char('a'),
        edit_bind(EditCommand::SelectAll),
    );
}

} // verus!

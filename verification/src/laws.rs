//! Laws of the library, stated over the same specification functions the
//! executable functions are proved against.

use vstd::prelude::*;
use crate::builder::{
    action_step, apply_mod, build_action_spec, builder_init, seq_ci, steps_from, BuilderV,
};
use crate::model::{ActionV, ClsnBox, ClsnV, ElementV, Interpolate};
use crate::nodes::{ModifierV, NodeV};
use crate::errors::{ModifierName, ParseErrorV};
use crate::{actions_from, parse_spec};

verus! {

/// Determinism: the parse result is a function of the document alone, so
/// two results of parsing the same text are the same mapping.
pub proof fn lemma_parse_deterministic(
    d: Seq<char>,
    m1: Map<u64, ActionV>,
    m2: Map<u64, ActionV>,
)
    requires
        parse_spec(d) == Ok::<Map<u64, ActionV>, ParseErrorV>(m1),
        parse_spec(d) == Ok::<Map<u64, ActionV>, ParseErrorV>(m2),
    ensures
        m1 == m2,
{
}

/// The builder's invariant: the loop-start index never exceeds the
/// element count.
pub open spec fn builder_wf(b: BuilderV) -> bool {
    0 <= b.loop_start <= b.elements.len()
}

proof fn lemma_step_wf(b: BuilderV, n: NodeV)
    requires
        builder_wf(b),
    ensures
        action_step(b, n) is Ok ==> builder_wf(action_step(b, n)->Ok_0),
{
}

proof fn lemma_steps_wf(b: BuilderV, nodes: Seq<NodeV>, i: int)
    requires
        builder_wf(b),
    ensures
        steps_from(b, nodes, i) is Ok ==> builder_wf(steps_from(b, nodes, i)->Ok_0),
    decreases nodes.len() - i,
{
    if 0 <= i < nodes.len() {
        match action_step(b, nodes[i]) {
            Ok(b2) => {
                lemma_step_wf(b, nodes[i]);
                lemma_steps_wf(b2, nodes, i + 1);
            },
            Err(_) => {},
        }
    }
}

/// Every action a block builds is well-formed:
/// `0 <= loop_start <= elements.len()`.
pub proof fn lemma_built_action_wf(nodes: Seq<NodeV>)
    ensures
        build_action_spec(nodes) is Ok ==> build_action_spec(nodes)->Ok_0.wf(),
{
    lemma_steps_wf(builder_init(), nodes, 0);
}

proof fn lemma_actions_from_wf(m0: Map<u64, ActionV>, bs: Seq<Seq<NodeV>>, i: int)
    requires
        forall|k: u64| m0.contains_key(k) ==> (#[trigger] m0[k]).wf(),
        actions_from(m0, bs, i) is Ok,
    ensures
        forall|k: u64|
            actions_from(m0, bs, i)->Ok_0.contains_key(k) ==> (#[trigger] actions_from(
                m0,
                bs,
                i,
            )->Ok_0[k]).wf(),
    decreases bs.len() - i,
{
    if 0 <= i < bs.len() {
        match build_action_spec(bs[i]) {
            Ok(a) => {
                lemma_built_action_wf(bs[i]);
                lemma_actions_from_wf(m0.insert(a.number, a), bs, i + 1);
            },
            Err(_) => {},
        }
    }
}

/// Invariant of every produced action: for every key of a parse result,
/// `0 <= loop_start <= elements.len()`.
pub proof fn lemma_loop_start_in_range(d: Seq<char>, m: Map<u64, ActionV>, k: u64)
    requires
        parse_spec(d) == Ok::<Map<u64, ActionV>, ParseErrorV>(m),
        m.contains_key(k),
    ensures
        m[k].wf(),
{
    match crate::syntax::recognize_spec(d) {
        Ok(blocks) => {
            lemma_actions_from_wf(Map::empty(), blocks, 0);
            assert(actions_from(Map::empty(), blocks, 0) == Ok::<Map<u64, ActionV>, ParseErrorV>(
                m,
            ));
            assert(actions_from(Map::empty(), blocks, 0)->Ok_0[k].wf());
        },
        Err(_) => {},
    }
}

/// One-shot consumption: a `clsn1` declaration followed by two appended
/// elements attaches its boxes only to the first of the two; the second
/// carries the persistent default, if any, else nothing.
pub proof fn lemma_one_shot_clsn1(b: BuilderV, bs: Seq<ClsnBox>, e1: ElementV, e2: ElementV)
    requires
        e1.clsn1 is None,
        e2.clsn1 is None,
    ensures
        ({
            let b3 = b.with_clsn(ClsnV::Clsn1(bs)).with_element(e1).with_element(e2);
            let n = b.elements.len() as int;
            &&& b3.elements.len() == n + 2
            &&& b3.elements[n].clsn1 == Some(ClsnV::Clsn1(bs))
            &&& b3.elements[n + 1].clsn1 == b.default1
        }),
{
}

/// Appends a sequence of elements to the builder, in order.
pub open spec fn append_all(b: BuilderV, es: Seq<ElementV>) -> BuilderV
    decreases es.len(),
{
    if es.len() == 0 {
        b
    } else {
        append_all(b.with_element(es[0]), es.drop_first())
    }
}

proof fn lemma_append_all_default2(b: BuilderV, es: Seq<ElementV>, c: ClsnV)
    requires
        b.pending2 is None,
        b.default2 == Some(c),
        forall|i: int| 0 <= i < es.len() ==> (#[trigger] es[i]).clsn2 is None,
    ensures
        append_all(b, es).elements.len() == b.elements.len() + es.len(),
        forall|i: int|
            0 <= i < b.elements.len() ==> #[trigger] append_all(b, es).elements[i]
                == b.elements[i],
        forall|i: int|
            b.elements.len() <= i < b.elements.len() + es.len() ==> (#[trigger] append_all(
                b,
                es,
            ).elements[i]).clsn2 == Some(c),
    decreases es.len(),
{
    if es.len() > 0 {
        let b2 = b.with_element(es[0]);
        assert(b2.elements.last().clsn2 == Some(c));
        assert(forall|i: int|
            0 <= i < es.drop_first().len() ==> (#[trigger] es.drop_first()[i]).clsn2 is None);
        lemma_append_all_default2(b2, es.drop_first(), c);
        assert(forall|i: int|
            b.elements.len() <= i < b.elements.len() + es.len() ==> append_all(
                b,
                es,
            ).elements[i].clsn2 == Some(c)) by {
            assert(append_all(b, es) == append_all(b2, es.drop_first()));
            assert forall|i: int|
                b.elements.len() <= i < b.elements.len() + es.len() implies (
            #[trigger] append_all(b, es).elements[i]).clsn2 == Some(c) by {
                if i == b.elements.len() {
                    assert(append_all(b2, es.drop_first()).elements[i] == b2.elements[i]);
                }
            }
        }
    }
}

/// Default persistence: after a `clsn2default` declaration, every element
/// appended while no further clsn2 declaration occurs carries an
/// identical copy of the default's boxes.
pub proof fn lemma_default_persistence(b: BuilderV, bs: Seq<ClsnBox>, es: Seq<ElementV>)
    requires
        b.pending2 is None,
        forall|i: int| 0 <= i < es.len() ==> (#[trigger] es[i]).clsn2 is None,
    ensures
        ({
            let bn = append_all(b.with_clsn(ClsnV::Clsn2Default(bs)), es);
            &&& bn.elements.len() == b.elements.len() + es.len()
            &&& forall|i: int|
                b.elements.len() <= i < b.elements.len() + es.len() ==> (
                #[trigger] bn.elements[i]).clsn2 == Some(ClsnV::Clsn2Default(bs))
        }),
{
    lemma_append_all_default2(b.with_clsn(ClsnV::Clsn2Default(bs)), es, ClsnV::Clsn2Default(bs));
}

/// The element index an interpolation keyframe carries.
pub open spec fn interp_index(i: Interpolate) -> usize {
    match i {
        Interpolate::Offset(k) => k,
        Interpolate::Blend(k) => k,
        Interpolate::Scale(k) => k,
        Interpolate::Angle(k) => k,
    }
}

/// Interpolation indexing: a directive seen when the builder holds `k`
/// elements appends a keyframe carrying index `k`, and appends nothing
/// else.
pub proof fn lemma_interpolation_index(b: BuilderV, tok: Seq<char>)
    requires
        b.elements.len() <= usize::MAX,
        action_step(b, NodeV::Interpolation(tok)) is Ok,
    ensures
        ({
            let b2 = action_step(b, NodeV::Interpolation(tok))->Ok_0;
            &&& b2.elements == b.elements
            &&& b2.interpolates is Some
            &&& b2.interpolates->Some_0.len() > 0
            &&& interp_index(b2.interpolates->Some_0.last()) == b.elements.len()
        }),
{
}

/// Rejection: a blend token that matches none of the recognized
/// spellings (`A`, `A1`, `S`, case-insensitively) and was not decomposed
/// by the recognizer as an `AS` pair makes its element fail with
/// `InvalidModifierValue` carrying that token — never a silently
/// defaulted blend.
pub proof fn lemma_blend_rejection(e: ElementV, text: Seq<char>)
    requires
        !seq_ci(text, seq!['a']),
        !seq_ci(text, seq!['a', '1']),
        !seq_ci(text, seq!['s']),
    ensures
        apply_mod(e, ModifierV::BlendMod { text, nums: None }) == Err::<ElementV, ParseErrorV>(
            ParseErrorV::InvalidModifierValue { modifier: ModifierName::Blend, text },
        ),
{
}

proof fn lemma_actions_from_preserves(
    m0: Map<u64, ActionV>,
    bs: Seq<Seq<NodeV>>,
    i: int,
    key: u64,
)
    requires
        actions_from(m0, bs, i) is Ok,
        m0.contains_key(key),
        forall|k: int|
            i <= k < bs.len() && (#[trigger] build_action_spec(bs[k])) is Ok
                ==> build_action_spec(bs[k])->Ok_0.number != key,
    ensures
        actions_from(m0, bs, i)->Ok_0.contains_key(key),
        actions_from(m0, bs, i)->Ok_0[key] == m0[key],
    decreases bs.len() - i,
{
    if 0 <= i < bs.len() {
        match build_action_spec(bs[i]) {
            Ok(a) => {
                lemma_actions_from_preserves(m0.insert(a.number, a), bs, i + 1, key);
            },
            Err(_) => {},
        }
    }
}

/// Replacement on duplicate numbers: when a parse succeeds, the entry for
/// a block's number is that block's action whenever no later block
/// declares the same number — so of several blocks sharing a number, the
/// last one's action is the one returned.
pub proof fn lemma_duplicate_number_overwrite(
    m0: Map<u64, ActionV>,
    bs: Seq<Seq<NodeV>>,
    i: int,
    j: int,
)
    requires
        0 <= i <= j < bs.len(),
        actions_from(m0, bs, i) is Ok,
        build_action_spec(bs[j]) is Ok,
        forall|k: int|
            j < k < bs.len() && (#[trigger] build_action_spec(bs[k])) is Ok
                ==> build_action_spec(bs[k])->Ok_0.number != build_action_spec(bs[j])->Ok_0.number,
    ensures
        ({
            let a = build_action_spec(bs[j])->Ok_0;
            &&& actions_from(m0, bs, i)->Ok_0.contains_key(a.number)
            &&& actions_from(m0, bs, i)->Ok_0[a.number] == a
        }),
    decreases j - i,
{
    let a = build_action_spec(bs[j])->Ok_0;
    if i == j {
        lemma_actions_from_preserves(m0.insert(a.number, a), bs, i + 1, a.number);
    } else {
        match build_action_spec(bs[i]) {
            Ok(ai) => {
                lemma_duplicate_number_overwrite(m0.insert(ai.number, ai), bs, i + 1, j);
            },
            Err(_) => {},
        }
    }
}

} // verus!

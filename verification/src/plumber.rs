//! The uniform plumber: a depth-first walk over a resolved uniform tree
//! that emits a sequence of events, assigns GPU binding slots, and batches
//! per-scope draw submissions.
//!
//! At every tree level all non-bundle siblings are emitted first, in their
//! original order, before any bundle sibling is entered; bundle siblings
//! are then each bracketed in `EnterScope`/`LeaveScope`, in original order.

use crate::uniforms::ResolvedHolderModel;
use crate::uniforms::ResolvedShaderUniformHolder;
use crate::uniforms::ResolvedShaderUniformValue;
use crate::uniforms::ResolvedValueModel;
use crate::uniforms::resolved_bundle_model;
use crate::uniforms::resolved_value_model;
use vstd::prelude::*;

verus! {

broadcast use vstd::std_specs::vec::group_vec_axioms;

/// One step of a plumbing traversal, as seen by an event consumer.
pub enum PlumberEvent {
    SetUniform { name: String, value: ResolvedShaderUniformValue },
    EnterScope,
    LeaveScope,
}

/// Mathematical model of a traversal event.
pub enum EventModel {
    SetUniform { name: Seq<char>, value: ResolvedValueModel },
    EnterScope,
    LeaveScope,
}

pub open spec fn event_model(e: PlumberEvent) -> EventModel {
    match e {
        PlumberEvent::SetUniform { name, value } => EventModel::SetUniform {
            name: name@,
            value: resolved_value_model(value),
        },
        PlumberEvent::EnterScope => EventModel::EnterScope,
        PlumberEvent::LeaveScope => EventModel::LeaveScope,
    }
}

impl View for PlumberEvent {
    type V = EventModel;

    open spec fn view(&self) -> EventModel {
        event_model(*self)
    }
}

pub open spec fn events_model(es: Seq<PlumberEvent>) -> Seq<EventModel> {
    es.map_values(|e: PlumberEvent| event_model(e))
}

/// Whether a resolved value opens a nested scope (a bundle, literal or
/// fetched from an asset reference) rather than standing for one leaf.
pub open spec fn is_bundle_model(v: ResolvedValueModel) -> bool {
    v matches ResolvedValueModel::Bundle(_) || v matches ResolvedValueModel::BundleAsset(_)
}

/// The children of a bundle-shaped resolved value.
pub open spec fn children_model(v: ResolvedValueModel) -> Seq<ResolvedHolderModel> {
    match v {
        ResolvedValueModel::Bundle(cs) => cs,
        ResolvedValueModel::BundleAsset(cs) => cs,
        _ => Seq::empty(),
    }
}

pub fn is_bundle_value(v: &ResolvedShaderUniformValue) -> (r: bool)
    ensures
        r == is_bundle_model(resolved_value_model(*v)),
{
    match v {
        ResolvedShaderUniformValue::Bundle(_) => true,
        ResolvedShaderUniformValue::BundleAsset(_) => true,
        _ => false,
    }
}

pub open spec fn set_uniform_event(h: ResolvedHolderModel) -> EventModel {
    EventModel::SetUniform { name: h.name, value: h.value }
}

/// The `SetUniform` events of one tree level: the non-bundle siblings, in
/// their original order.
pub open spec fn leaf_events_model(us: Seq<ResolvedHolderModel>) -> Seq<EventModel> {
    us.filter(|h: ResolvedHolderModel| !is_bundle_model(h.value)).map_values(
        |h: ResolvedHolderModel| set_uniform_event(h),
    )
}

/// The scope spans of one tree level: every bundle sibling, in original
/// order, bracketed in `EnterScope`/`LeaveScope` around its own traversal.
pub open spec fn scope_events_model(us: Seq<ResolvedHolderModel>) -> Seq<EventModel>
    decreases us, 0int,
{
    if us.len() == 0 {
        Seq::empty()
    } else {
        let head = if is_bundle_model(us[0].value) {
            seq![EventModel::EnterScope] + plumb_events_model(children_model(us[0].value)) + seq![
                EventModel::LeaveScope,
            ]
        } else {
            Seq::empty()
        };
        head + scope_events_model(us.drop_first())
    }
}

/// The full event sequence of one tree level: all leaves first, then all
/// scope spans.
pub open spec fn plumb_events_model(us: Seq<ResolvedHolderModel>) -> Seq<EventModel>
    decreases us, 1int,
{
    leaf_events_model(us) + scope_events_model(us)
}

/// Clones a leaf (non-bundle) resolved value.
fn clone_leaf_value(v: &ResolvedShaderUniformValue) -> (r: ResolvedShaderUniformValue)
    requires
        !is_bundle_model(resolved_value_model(*v)),
    ensures
        resolved_value_model(r) == resolved_value_model(*v),
{
    match v {
        ResolvedShaderUniformValue::Float32Bits(b) => ResolvedShaderUniformValue::Float32Bits(*b),
        ResolvedShaderUniformValue::Uint32(x) => ResolvedShaderUniformValue::Uint32(*x),
        ResolvedShaderUniformValue::Int32(x) => ResolvedShaderUniformValue::Int32(*x),
        ResolvedShaderUniformValue::Ivec2(x, y) => ResolvedShaderUniformValue::Ivec2(*x, *y),
        ResolvedShaderUniformValue::Float32AssetBits(b) => ResolvedShaderUniformValue::Float32AssetBits(
            *b,
        ),
        ResolvedShaderUniformValue::Uint32Asset(x) => ResolvedShaderUniformValue::Uint32Asset(*x),
        ResolvedShaderUniformValue::UsizeAsset(x) => ResolvedShaderUniformValue::UsizeAsset(*x),
        ResolvedShaderUniformValue::TextureAsset(t) => ResolvedShaderUniformValue::TextureAsset(*t),
        ResolvedShaderUniformValue::BufferAsset(b) => ResolvedShaderUniformValue::BufferAsset(*b),
        ResolvedShaderUniformValue::Bundle(_) => ResolvedShaderUniformValue::Uint32(0),
        ResolvedShaderUniformValue::BundleAsset(_) => ResolvedShaderUniformValue::Uint32(0),
    }
}

proof fn lemma_events_model_push(es: Seq<PlumberEvent>, e: PlumberEvent)
    ensures
        events_model(es.push(e)) == events_model(es).push(event_model(e)),
{
    assert(events_model(es.push(e)) =~= events_model(es).push(event_model(e)));
}

proof fn lemma_events_model_add(a: Seq<PlumberEvent>, b: Seq<PlumberEvent>)
    ensures
        events_model(a + b) == events_model(a) + events_model(b),
{
    assert(events_model(a + b) =~= events_model(a) + events_model(b));
}

/// One leaf step of the ordering rule: extending a level by one sibling
/// appends its `SetUniform` event exactly when the sibling is a leaf.
proof fn lemma_leaf_events_step(m: Seq<ResolvedHolderModel>, i: int)
    requires
        0 <= i < m.len(),
    ensures
        leaf_events_model(m.take(i + 1)) == if is_bundle_model(m[i].value) {
            leaf_events_model(m.take(i))
        } else {
            leaf_events_model(m.take(i)).push(set_uniform_event(m[i]))
        },
{
    reveal(Seq::filter);
    let pred = |h: ResolvedHolderModel| !is_bundle_model(h.value);
    let f = |h: ResolvedHolderModel| set_uniform_event(h);
    assert(m.take(i + 1).drop_last() =~= m.take(i));
    assert(m.take(i + 1).last() == m[i]);
    if is_bundle_model(m[i].value) {
        assert(m.take(i + 1).filter(pred) == m.take(i).filter(pred));
    } else {
        assert(m.take(i + 1).filter(pred) == m.take(i).filter(pred).push(m[i]));
        assert(m.take(i).filter(pred).push(m[i]).map_values(f) =~= m.take(i).filter(pred)
            .map_values(f).push(f(m[i])));
    }
}

/// Produces the event sequence of a depth-first plumbing traversal of
/// `uniforms`: at each level all non-bundle siblings first, in original
/// order, then each bundle sibling bracketed in `EnterScope`/`LeaveScope`.
pub fn plumb_events(uniforms: &Vec<ResolvedShaderUniformHolder>) -> (events: Vec<PlumberEvent>)
    ensures
        events_model(events@) == plumb_events_model(resolved_bundle_model(*uniforms)),
    decreases *uniforms, 0int,
{
    let ghost m = resolved_bundle_model(*uniforms);
    let mut events: Vec<PlumberEvent> = Vec::new();
    let n = uniforms.len();
    let mut i: usize = 0;
    proof {
        reveal(Seq::filter);
        assert(m.take(0) =~= Seq::empty());
        assert(leaf_events_model(Seq::empty()) =~= Seq::empty());
    }
    while i < n
        invariant
            0 <= i <= n,
            n == uniforms.len(),
            m == resolved_bundle_model(*uniforms),
            events_model(events@) == leaf_events_model(m.take(i as int)),
        decreases n - i,
    {
        let h = &uniforms[i];
        if !is_bundle_value(&h.value) {
            let e = PlumberEvent::SetUniform { name: h.name.clone(), value: clone_leaf_value(&h.value) };
            proof {
                lemma_events_model_push(events@, e);
            }
            events.push(e);
        }
        proof {
            lemma_leaf_events_step(m, i as int);
        }
        i = i + 1;
    }
    proof {
        assert(m.take(n as int) =~= m);
    }
    let mut j: usize = 0;
    proof {
        assert(m.skip(0) =~= m);
    }
    while j < n
        invariant
            0 <= j <= n,
            n == uniforms.len(),
            m == resolved_bundle_model(*uniforms),
            events_model(events@) + scope_events_model(m.skip(j as int)) == plumb_events_model(m),
        decreases n - j,
    {
        let ghost tail = m.skip(j as int);
        let ghost evs0 = events@;
        proof {
            assert(tail[0] == m[j as int]);
            assert(tail.drop_first() =~= m.skip(j as int + 1));
        }
        match &uniforms[j].value {
            ResolvedShaderUniformValue::Bundle(cs) => {
                proof {
                    assert(decreases_to!(*uniforms => uniforms@[j as int]));
                    assert(decreases_to!(*uniforms => *cs));
                }
                push_scope_span(&mut events, cs);
            },
            ResolvedShaderUniformValue::BundleAsset(cs) => {
                proof {
                    assert(decreases_to!(*uniforms => uniforms@[j as int]));
                    assert(decreases_to!(*uniforms => *cs));
                }
                push_scope_span(&mut events, cs);
            },
            _ => {
            },
        }
        proof {
            assert(events_model(events@) + scope_events_model(m.skip(j as int + 1))
                =~= events_model(evs0) + scope_events_model(m.skip(j as int)));
        }
        j = j + 1;
    }
    proof {
        assert(m.skip(n as int) =~= Seq::empty());
        assert(events_model(events@) + Seq::<EventModel>::empty() =~= events_model(events@));
    }
    events
}

/// Appends one scope span: `EnterScope`, the traversal of `cs`, `LeaveScope`.
fn push_scope_span(events: &mut Vec<PlumberEvent>, cs: &Vec<ResolvedShaderUniformHolder>)
    ensures
        events_model(final(events)@) == events_model(old(events)@) + seq![EventModel::EnterScope]
            + plumb_events_model(resolved_bundle_model(*cs)) + seq![EventModel::LeaveScope],
    decreases *cs, 1int,
{
    proof {
        lemma_events_model_push(events@, PlumberEvent::EnterScope);
    }
    events.push(PlumberEvent::EnterScope);
    let mut sub = plumb_events(cs);
    proof {
        lemma_events_model_add(events@, sub@);
    }
    events.append(&mut sub);
    proof {
        lemma_events_model_push(events@, PlumberEvent::LeaveScope);
    }
    events.push(PlumberEvent::LeaveScope);
    proof {
        assert(events_model(final(events)@) =~= events_model(old(events)@) + seq![
            EventModel::EnterScope,
        ] + plumb_events_model(resolved_bundle_model(*cs)) + seq![EventModel::LeaveScope]);
    }
}

} // verus!

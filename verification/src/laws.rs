//! Laws of the plumbing traversal and the binding machine, stated over
//! the same models that the executable functions' contracts use.

use crate::plumber::EventModel;
use crate::binding::GpuCommand;
use crate::binding::PlumberModel;
use crate::binding::ScopeFrame;
use crate::binding::bind_model;
use crate::binding::count_set_events;
use crate::binding::frame_draws;
use crate::binding::mesh_index_buffer_name;
use crate::binding::mesh_index_count_name;
use crate::binding::run_model;
use crate::binding::step_model;
use crate::binding::warning_unsupported;
use crate::plumber::children_model;
use crate::plumber::is_bundle_model;
use crate::plumber::leaf_events_model;
use crate::plumber::plumb_events_model;
use crate::plumber::scope_events_model;
use crate::plumber::set_uniform_event;
use crate::reflection::BindingKind;
use crate::reflection::ShaderUniformReflection;
use crate::reflection::lookup_entries;
use crate::uniforms::ResolvedHolderModel;
use crate::uniforms::ResolvedValueModel;
use vstd::prelude::*;

verus! {

/// Ordering law: at every tree level, the traversal emits the
/// `SetUniform` events of all non-bundle siblings first, in their original
/// relative order, and only then the scope spans of the bundle siblings,
/// in their original relative order.
pub proof fn lemma_ordering_law(us: Seq<ResolvedHolderModel>)
    ensures
        plumb_events_model(us) == leaf_events_model(us) + scope_events_model(us),
        leaf_events_model(us).len() == us.filter(
            |h: ResolvedHolderModel| !is_bundle_model(h.value),
        ).len(),
        forall|i: int|
            0 <= i < leaf_events_model(us).len() ==> leaf_events_model(us)[i]
                == set_uniform_event(
                us.filter(|h: ResolvedHolderModel| !is_bundle_model(h.value))[i],
            ),
        forall|i: int|
            0 <= i < leaf_events_model(us).len() ==> leaf_events_model(us)[i] is SetUniform,
        scope_events_model(us).len() > 0 ==> scope_events_model(us)[0] is EnterScope,
{
    let leaves = us.filter(|h: ResolvedHolderModel| !is_bundle_model(h.value));
    assert(forall|i: int|
        0 <= i < leaves.len() ==> leaf_events_model(us)[i] == set_uniform_event(leaves[i]));
    lemma_scope_events_head(us);
}

/// The scope part of a level, when non-empty, opens with `EnterScope`.
proof fn lemma_scope_events_head(us: Seq<ResolvedHolderModel>)
    ensures
        scope_events_model(us).len() > 0 ==> scope_events_model(us)[0] is EnterScope,
    decreases us,
{
    if us.len() > 0 {
        if !is_bundle_model(us[0].value) {
            lemma_scope_events_head(us.drop_first());
            assert(scope_events_model(us) =~= scope_events_model(us.drop_first()));
        }
    }
}

pub open spec fn count_enter_events(es: Seq<EventModel>) -> nat
    decreases es.len(),
{
    if es.len() == 0 {
        0
    } else {
        count_enter_events(es.drop_last()) + (if es.last() is EnterScope {
            1nat
        } else {
            0nat
        })
    }
}

pub open spec fn count_leave_events(es: Seq<EventModel>) -> nat
    decreases es.len(),
{
    if es.len() == 0 {
        0
    } else {
        count_leave_events(es.drop_last()) + (if es.last() is LeaveScope {
            1nat
        } else {
            0nat
        })
    }
}

proof fn lemma_run_one(
    s: PlumberModel,
    refl: Seq<(String, ShaderUniformReflection)>,
    e: EventModel,
)
    ensures
        run_model(s, refl, seq![e]) == step_model(s, refl, e),
{
    let es = seq![e];
    assert(es.drop_last() =~= Seq::<EventModel>::empty());
    assert(run_model(s, refl, Seq::<EventModel>::empty()) == s);
    assert(es.last() == e);
}

proof fn lemma_counts_one(e: EventModel)
    ensures
        count_enter_events(seq![e]) == (if e is EnterScope {
            1nat
        } else {
            0nat
        }),
        count_leave_events(seq![e]) == (if e is LeaveScope {
            1nat
        } else {
            0nat
        }),
{
    let es = seq![e];
    assert(es.drop_last() =~= Seq::<EventModel>::empty());
    assert(count_enter_events(Seq::<EventModel>::empty()) == 0);
    assert(count_leave_events(Seq::<EventModel>::empty()) == 0);
    assert(es.last() == e);
}

proof fn lemma_counts_add(a: Seq<EventModel>, b: Seq<EventModel>)
    ensures
        count_enter_events(a + b) == count_enter_events(a) + count_enter_events(b),
        count_leave_events(a + b) == count_leave_events(a) + count_leave_events(b),
        count_set_events(a + b) == count_set_events(a) + count_set_events(b),
    decreases b.len(),
{
    if b.len() == 0 {
        assert(a + b =~= a);
    } else {
        assert((a + b).drop_last() =~= a + b.drop_last());
        assert((a + b).last() == b.last());
        lemma_counts_add(a, b.drop_last());
    }
}

proof fn lemma_counts_all_set(es: Seq<EventModel>)
    requires
        forall|i: int| 0 <= i < es.len() ==> es[i] is SetUniform,
    ensures
        count_enter_events(es) == 0,
        count_leave_events(es) == 0,
    decreases es.len(),
{
    if es.len() > 0 {
        lemma_counts_all_set(es.drop_last());
    }
}

/// Scope balance, first half: a traversal's event sequence holds as many
/// `EnterScope` as `LeaveScope` events.
pub proof fn lemma_scope_balance_events(us: Seq<ResolvedHolderModel>)
    ensures
        count_enter_events(plumb_events_model(us)) == count_leave_events(plumb_events_model(us)),
    decreases us, 1int,
{
    lemma_ordering_law(us);
    lemma_counts_all_set(leaf_events_model(us));
    lemma_counts_add(leaf_events_model(us), scope_events_model(us));
    lemma_scope_balance_scope_part(us);
}

proof fn lemma_scope_balance_scope_part(us: Seq<ResolvedHolderModel>)
    ensures
        count_enter_events(scope_events_model(us)) == count_leave_events(scope_events_model(us)),
    decreases us, 0int,
{
    if us.len() > 0 {
        lemma_scope_balance_scope_part(us.drop_first());
        if is_bundle_model(us[0].value) {
            let enter = seq![EventModel::EnterScope];
            let leave = seq![EventModel::LeaveScope];
            let inner = plumb_events_model(children_model(us[0].value));
            lemma_scope_balance_events(children_model(us[0].value));
            lemma_counts_one(EventModel::EnterScope);
            lemma_counts_one(EventModel::LeaveScope);
            lemma_counts_add(enter, inner);
            lemma_counts_add(enter + inner, leave);
            lemma_counts_add(enter + inner + leave, scope_events_model(us.drop_first()));
        } else {
            assert(scope_events_model(us) =~= Seq::<EventModel>::empty() + scope_events_model(
                us.drop_first(),
            ));
            lemma_counts_add(Seq::empty(), scope_events_model(us.drop_first()));
        }
    }
}

/// Running the machine over two sequences in turn is running it over
/// their concatenation.
pub proof fn lemma_run_add(
    s: PlumberModel,
    refl: Seq<(String, ShaderUniformReflection)>,
    a: Seq<EventModel>,
    b: Seq<EventModel>,
)
    ensures
        run_model(s, refl, a + b) == run_model(run_model(s, refl, a), refl, b),
    decreases b.len(),
{
    if b.len() == 0 {
        assert(a + b =~= a);
    } else {
        assert((a + b).drop_last() =~= a + b.drop_last());
        assert((a + b).last() == b.last());
        lemma_run_add(s, refl, a, b.drop_last());
    }
}

/// A `SetUniform` step never changes the scope stack's depth nor any
/// frame below the innermost one.
proof fn lemma_bind_scopes(
    s: PlumberModel,
    refl: Seq<(String, ShaderUniformReflection)>,
    name: Seq<char>,
    value: ResolvedValueModel,
)
    ensures
        bind_model(s, refl, name, value).scopes.len() == s.scopes.len(),
        forall|i: int|
            0 <= i < s.scopes.len() - 1 ==> bind_model(s, refl, name, value).scopes[i]
                == s.scopes[i],
{
}

proof fn lemma_run_all_set_scopes(
    s: PlumberModel,
    refl: Seq<(String, ShaderUniformReflection)>,
    es: Seq<EventModel>,
)
    requires
        forall|i: int| 0 <= i < es.len() ==> es[i] is SetUniform,
    ensures
        run_model(s, refl, es).scopes.len() == s.scopes.len(),
        forall|i: int|
            0 <= i < s.scopes.len() - 1 ==> run_model(s, refl, es).scopes[i] == s.scopes[i],
    decreases es.len(),
{
    if es.len() > 0 {
        lemma_run_all_set_scopes(s, refl, es.drop_last());
        let s1 = run_model(s, refl, es.drop_last());
        match es.last() {
            EventModel::SetUniform { name, value } => {
                lemma_bind_scopes(s1, refl, name, value);
            },
            _ => {
            },
        }
    }
}

/// Scope balance, second half, traversal form: running the machine over a
/// whole traversal restores the scope stack's depth, and every frame below
/// the innermost one is untouched.
pub proof fn lemma_plumb_scopes(
    s: PlumberModel,
    refl: Seq<(String, ShaderUniformReflection)>,
    us: Seq<ResolvedHolderModel>,
)
    ensures
        run_model(s, refl, plumb_events_model(us)).scopes.len() == s.scopes.len(),
        forall|i: int|
            0 <= i < s.scopes.len() - 1 ==> run_model(s, refl, plumb_events_model(us)).scopes[i]
                == s.scopes[i],
    decreases us, 1int,
{
    lemma_ordering_law(us);
    lemma_run_add(s, refl, leaf_events_model(us), scope_events_model(us));
    lemma_run_all_set_scopes(s, refl, leaf_events_model(us));
    let s1 = run_model(s, refl, leaf_events_model(us));
    lemma_scope_part_scopes(s1, refl, us);
}

/// The scope spans of one level leave the scope stack exactly as found.
proof fn lemma_scope_part_scopes(
    s: PlumberModel,
    refl: Seq<(String, ShaderUniformReflection)>,
    us: Seq<ResolvedHolderModel>,
)
    ensures
        run_model(s, refl, scope_events_model(us)).scopes == s.scopes,
    decreases us, 0int,
{
    if us.len() == 0 {
    } else {
        if is_bundle_model(us[0].value) {
            let enter = seq![EventModel::EnterScope];
            let leave = seq![EventModel::LeaveScope];
            let inner = plumb_events_model(children_model(us[0].value));
            let head = enter + inner + leave;
            lemma_run_add(s, refl, head, scope_events_model(us.drop_first()));
            lemma_run_add(s, refl, enter + inner, leave);
            lemma_run_add(s, refl, enter, inner);
            lemma_run_one(s, refl, EventModel::EnterScope);
            let s_a = run_model(s, refl, enter);
            assert(s_a.scopes =~= s.scopes.push(
                ScopeFrame { index_buffer: None, index_count: None },
            ));
            lemma_plumb_scopes(s_a, refl, children_model(us[0].value));
            let s_b = run_model(s_a, refl, inner);
            lemma_run_one(s_b, refl, EventModel::LeaveScope);
            let s_c = run_model(s_b, refl, leave);
            assert(s_c == step_model(s_b, refl, EventModel::LeaveScope));
            assert(s_a.scopes.len() == s.scopes.len() + 1);
            assert(s_b.scopes.len() == s_a.scopes.len());
            assert(forall|i: int| 0 <= i < s.scopes.len() ==> s_b.scopes[i] == s_a.scopes[i]);
            assert(s_c.scopes == s_b.scopes.drop_last());
            assert(s_c.scopes =~= s.scopes);
            lemma_scope_part_scopes(s_c, refl, us.drop_first());
        } else {
            assert(scope_events_model(us) =~= scope_events_model(us.drop_first()));
            lemma_scope_part_scopes(s, refl, us.drop_first());
        }
    }
}

/// Scope balance law: a traversal's events hold as many `EnterScope` as
/// `LeaveScope`, in no prefix have more scopes closed than opened, and
/// running the machine over them from an empty scope stack ends with an
/// empty scope stack.
pub proof fn lemma_scope_balance(
    s: PlumberModel,
    refl: Seq<(String, ShaderUniformReflection)>,
    us: Seq<ResolvedHolderModel>,
)
    ensures
        count_enter_events(plumb_events_model(us)) == count_leave_events(plumb_events_model(us)),
        prefix_balanced(plumb_events_model(us)),
        run_model(s, refl, plumb_events_model(us)).scopes.len() == s.scopes.len(),
        s.scopes.len() == 0 ==> run_model(s, refl, plumb_events_model(us)).scopes
            == Seq::<ScopeFrame>::empty(),
{
    lemma_scope_balance_events(us);
    lemma_prefix_balance_plumb(us);
    lemma_plumb_scopes(s, refl, us);
    if s.scopes.len() == 0 {
        assert(run_model(s, refl, plumb_events_model(us)).scopes =~= Seq::<ScopeFrame>::empty());
    }
}

/// The image unit a command consumes, if it consumes one.
pub open spec fn image_bind_unit(c: GpuCommand) -> Option<u32> {
    match c {
        GpuCommand::BindImageTexture { unit, .. } => Some(unit),
        GpuCommand::BindSampledTexture { unit, .. } => Some(unit),
        GpuCommand::BindTextureBuffer { unit, .. } => Some(unit),
        _ => None,
    }
}

/// The uniform-block unit a command consumes, if it consumes one.
pub open spec fn ubo_bind_unit(c: GpuCommand) -> Option<u32> {
    match c {
        GpuCommand::BindBufferBase { block: crate::binding::BlockKind::UniformBlock, unit, .. } => Some(
            unit,
        ),
        _ => None,
    }
}

/// The storage-block unit a command consumes, if it consumes one.
pub open spec fn ssbo_bind_unit(c: GpuCommand) -> Option<u32> {
    match c {
        GpuCommand::BindBufferBase { block: crate::binding::BlockKind::StorageBlock, unit, .. } => Some(
            unit,
        ),
        _ => None,
    }
}

/// Every unit already handed out lies below the cursor of its kind, and
/// the cursors fit the unit type.
pub open spec fn units_consistent(s: PlumberModel) -> bool {
    &&& 0 <= s.image_unit <= u32::MAX
    &&& 0 <= s.ubo_unit <= u32::MAX
    &&& 0 <= s.ssbo_unit <= u32::MAX
    &&& forall|i: int|
        0 <= i < s.commands.len() ==> (image_bind_unit(#[trigger] s.commands[i]) matches Some(u)
            ==> (u as int) < s.image_unit)
    &&& forall|i: int|
        0 <= i < s.commands.len() ==> (ubo_bind_unit(#[trigger] s.commands[i]) matches Some(u)
            ==> (u as int) < s.ubo_unit)
    &&& forall|i: int|
        0 <= i < s.commands.len() ==> (ssbo_bind_unit(#[trigger] s.commands[i]) matches Some(u)
            ==> (u as int) < s.ssbo_unit)
}

/// No two commands consume the same unit of the same kind.
pub open spec fn units_distinct(cs: Seq<GpuCommand>) -> bool {
    &&& forall|i: int, j: int|
        #![trigger cs[i], cs[j]]
        0 <= i < j < cs.len() ==> !(image_bind_unit(cs[i]) is Some && image_bind_unit(cs[i])
            == image_bind_unit(cs[j]))
    &&& forall|i: int, j: int|
        #![trigger cs[i], cs[j]]
        0 <= i < j < cs.len() ==> !(ubo_bind_unit(cs[i]) is Some && ubo_bind_unit(cs[i])
            == ubo_bind_unit(cs[j]))
    &&& forall|i: int, j: int|
        #![trigger cs[i], cs[j]]
        0 <= i < j < cs.len() ==> !(ssbo_bind_unit(cs[i]) is Some && ssbo_bind_unit(cs[i])
            == ssbo_bind_unit(cs[j]))
}

/// The cursors never move past the number of `SetUniform` events run.
pub proof fn lemma_run_units_bound(
    s: PlumberModel,
    refl: Seq<(String, ShaderUniformReflection)>,
    es: Seq<EventModel>,
)
    ensures
        run_model(s, refl, es).image_unit <= s.image_unit + count_set_events(es),
        run_model(s, refl, es).ubo_unit <= s.ubo_unit + count_set_events(es),
        run_model(s, refl, es).ssbo_unit <= s.ssbo_unit + count_set_events(es),
        run_model(s, refl, es).image_unit >= s.image_unit,
        run_model(s, refl, es).ubo_unit >= s.ubo_unit,
        run_model(s, refl, es).ssbo_unit >= s.ssbo_unit,
    decreases es.len(),
{
    if es.len() > 0 {
        lemma_run_units_bound(s, refl, es.drop_last());
        crate::binding::lemma_step_units(run_model(s, refl, es.drop_last()), refl, es.last());
    }
}

proof fn lemma_step_slots(
    s: PlumberModel,
    refl: Seq<(String, ShaderUniformReflection)>,
    e: EventModel,
)
    requires
        units_consistent(s),
        units_distinct(s.commands),
        e is SetUniform ==> s.image_unit + 1 <= u32::MAX && s.ubo_unit + 1 <= u32::MAX
            && s.ssbo_unit + 1 <= u32::MAX,
    ensures
        units_consistent(step_model(s, refl, e)),
        units_distinct(step_model(s, refl, e).commands),
        step_model(s, refl, e).commands.len() >= s.commands.len(),
        forall|i: int|
            0 <= i < s.commands.len() ==> step_model(s, refl, e).commands[i] == s.commands[i],
{
    let r = step_model(s, refl, e);
    crate::binding::lemma_step_units(s, refl, e);
    assert(forall|i: int|
        s.commands.len() <= i < r.commands.len() ==> (image_bind_unit(#[trigger] r.commands[i])
            matches Some(u) ==> (u as int) >= s.image_unit));
    assert(forall|i: int|
        s.commands.len() <= i < r.commands.len() ==> (ubo_bind_unit(#[trigger] r.commands[i])
            matches Some(u) ==> (u as int) >= s.ubo_unit));
    assert(forall|i: int|
        s.commands.len() <= i < r.commands.len() ==> (ssbo_bind_unit(#[trigger] r.commands[i])
            matches Some(u) ==> (u as int) >= s.ssbo_unit));
}

/// Monotone slots law: across one run the three unit counters never
/// decrease, every unit already handed out stays below its counter, and no
/// unit of any kind is handed out twice; commands already emitted are
/// only appended to.
pub proof fn lemma_monotone_slots(
    s: PlumberModel,
    refl: Seq<(String, ShaderUniformReflection)>,
    es: Seq<EventModel>,
)
    requires
        units_consistent(s),
        units_distinct(s.commands),
        s.image_unit + count_set_events(es) <= u32::MAX,
        s.ubo_unit + count_set_events(es) <= u32::MAX,
        s.ssbo_unit + count_set_events(es) <= u32::MAX,
    ensures
        run_model(s, refl, es).image_unit >= s.image_unit,
        run_model(s, refl, es).ubo_unit >= s.ubo_unit,
        run_model(s, refl, es).ssbo_unit >= s.ssbo_unit,
        units_consistent(run_model(s, refl, es)),
        units_distinct(run_model(s, refl, es).commands),
        run_model(s, refl, es).commands.len() >= s.commands.len(),
        forall|i: int|
            0 <= i < s.commands.len() ==> run_model(s, refl, es).commands[i] == s.commands[i],
    decreases es.len(),
{
    if es.len() > 0 {
        lemma_monotone_slots(s, refl, es.drop_last());
        let s1 = run_model(s, refl, es.drop_last());
        lemma_run_units_bound(s, refl, es.drop_last());
        lemma_step_slots(s1, refl, es.last());
    }
}

/// Draw emission law: a closing scope with a recorded index count and a
/// recorded index buffer issues exactly one indexed draw; with a count but
/// no buffer, exactly one non-indexed draw over that count; with no count,
/// no draw at all.
pub proof fn lemma_draw_emission(s: PlumberModel, refl: Seq<(String, ShaderUniformReflection)>)
    requires
        s.scopes.len() > 0,
    ensures
        step_model(s, refl, EventModel::LeaveScope).commands == s.commands + frame_draws(
            s.scopes.last(),
        ),
        step_model(s, refl, EventModel::LeaveScope).scopes == s.scopes.drop_last(),
        s.scopes.last() matches ScopeFrame { index_buffer: Some(b), index_count: Some(c) }
            ==> frame_draws(s.scopes.last()) == seq![
            GpuCommand::DrawElements { index_buffer: b, index_count: c },
        ],
        s.scopes.last() matches ScopeFrame { index_buffer: None, index_count: Some(c) }
            ==> frame_draws(s.scopes.last()) == seq![GpuCommand::DrawArrays { vertex_count: c }],
        s.scopes.last().index_count is None ==> frame_draws(s.scopes.last())
            == Seq::<GpuCommand>::empty(),
{
}

/// Unsupported descriptor law: binding a non-bundle value against a name
/// whose reflected kind is unsupported records one warning, moves no unit
/// counter, touches no scope frame, and hands out no unit and no draw; the
/// traversal goes on.
pub proof fn lemma_unsupported_descriptor(
    s: PlumberModel,
    refl: Seq<(String, ShaderUniformReflection)>,
    name: Seq<char>,
    value: ResolvedValueModel,
)
    requires
        lookup_entries(refl, name) matches Some(d) && d.kind is Unsupported,
        !is_bundle_model(value),
        name != mesh_index_count_name(),
        name != mesh_index_buffer_name(),
    ensures
        bind_model(s, refl, name, value).image_unit == s.image_unit,
        bind_model(s, refl, name, value).ubo_unit == s.ubo_unit,
        bind_model(s, refl, name, value).ssbo_unit == s.ssbo_unit,
        bind_model(s, refl, name, value).scopes == s.scopes,
        bind_model(s, refl, name, value).warnings == s.warnings.push(warning_unsupported(name)),
        forall|i: int|
            s.commands.len() <= i < bind_model(s, refl, name, value).commands.len() ==> {
                &&& image_bind_unit(#[trigger] bind_model(s, refl, name, value).commands[i])
                    is None
                &&& ubo_bind_unit(bind_model(s, refl, name, value).commands[i]) is None
                &&& ssbo_bind_unit(bind_model(s, refl, name, value).commands[i]) is None
                &&& !(bind_model(s, refl, name, value).commands[i] is DrawElements)
                &&& !(bind_model(s, refl, name, value).commands[i] is DrawArrays)
            },
{
}

/// In every prefix of an event sequence, scopes close no more often than
/// they open.
pub open spec fn prefix_balanced(es: Seq<EventModel>) -> bool {
    forall|k: int|
        0 <= k <= es.len() ==> count_leave_events(#[trigger] es.take(k)) <= count_enter_events(
            es.take(k),
        )
}

proof fn lemma_prefix_balanced_all_set(es: Seq<EventModel>)
    requires
        forall|i: int| 0 <= i < es.len() ==> es[i] is SetUniform,
    ensures
        prefix_balanced(es),
{
    assert forall|k: int| 0 <= k <= es.len() implies count_leave_events(#[trigger] es.take(k))
        <= count_enter_events(es.take(k)) by {
        lemma_counts_all_set(es.take(k));
    }
}

/// Concatenation keeps every prefix balanced when the first part never
/// dips below balance and ends at or above it.
proof fn lemma_prefix_balanced_add(a: Seq<EventModel>, b: Seq<EventModel>)
    requires
        prefix_balanced(a),
        prefix_balanced(b),
    ensures
        prefix_balanced(a + b),
{
    assert(a.take(a.len() as int) =~= a);
    assert forall|k: int| 0 <= k <= (a + b).len() implies count_leave_events(
        #[trigger] (a + b).take(k),
    ) <= count_enter_events((a + b).take(k)) by {
        if k <= a.len() {
            assert((a + b).take(k) =~= a.take(k));
        } else {
            let j = k - a.len();
            assert((a + b).take(k) =~= a + b.take(j));
            lemma_counts_add(a, b.take(j));
            assert(count_leave_events(b.take(j)) <= count_enter_events(b.take(j)));
        }
    }
}

/// One scope span keeps every prefix balanced: the opening `EnterScope`
/// covers the closing `LeaveScope`, and the traversal inside is balanced
/// on its own.
proof fn lemma_prefix_balanced_span(inner: Seq<EventModel>)
    requires
        prefix_balanced(inner),
    ensures
        prefix_balanced(seq![EventModel::EnterScope] + inner + seq![EventModel::LeaveScope]),
{
    let enter = seq![EventModel::EnterScope];
    let leave = seq![EventModel::LeaveScope];
    let span = enter + inner + leave;
    lemma_counts_one(EventModel::EnterScope);
    lemma_counts_one(EventModel::LeaveScope);
    assert(inner.take(inner.len() as int) =~= inner);
    assert forall|k: int| 0 <= k <= span.len() implies count_leave_events(#[trigger] span.take(k))
        <= count_enter_events(span.take(k)) by {
        if k == 0 {
            assert(span.take(0) =~= Seq::<EventModel>::empty());
            assert(count_leave_events(Seq::<EventModel>::empty()) == 0);
            assert(count_enter_events(Seq::<EventModel>::empty()) == 0);
        } else if k <= 1 + inner.len() {
            assert(span.take(k) =~= enter + inner.take(k - 1));
            lemma_counts_add(enter, inner.take(k - 1));
            assert(count_leave_events(inner.take(k - 1)) <= count_enter_events(inner.take(k - 1)));
        } else {
            assert(span.take(k) =~= span);
            lemma_counts_add(enter + inner, leave);
            lemma_counts_add(enter, inner);
        }
    }
}

/// Every-prefix scope balance of a traversal's events: at no point of the
/// sequence have more scopes closed than opened.
pub proof fn lemma_prefix_balance_plumb(us: Seq<ResolvedHolderModel>)
    ensures
        prefix_balanced(plumb_events_model(us)),
    decreases us, 1int,
{
    lemma_ordering_law(us);
    lemma_prefix_balanced_all_set(leaf_events_model(us));
    lemma_prefix_balance_scope_part(us);
    lemma_prefix_balanced_add(leaf_events_model(us), scope_events_model(us));
}

proof fn lemma_prefix_balance_scope_part(us: Seq<ResolvedHolderModel>)
    ensures
        prefix_balanced(scope_events_model(us)),
    decreases us, 0int,
{
    if us.len() == 0 {
        assert forall|k: int| 0 <= k <= scope_events_model(us).len() implies count_leave_events(
            #[trigger] scope_events_model(us).take(k),
        ) <= count_enter_events(scope_events_model(us).take(k)) by {
            assert(scope_events_model(us).take(k) =~= Seq::<EventModel>::empty());
            assert(count_leave_events(Seq::<EventModel>::empty()) == 0);
            assert(count_enter_events(Seq::<EventModel>::empty()) == 0);
        }
    } else {
        lemma_prefix_balance_scope_part(us.drop_first());
        if is_bundle_model(us[0].value) {
            let inner = plumb_events_model(children_model(us[0].value));
            lemma_prefix_balance_plumb(children_model(us[0].value));
            lemma_prefix_balanced_span(inner);
            lemma_prefix_balanced_add(
                seq![EventModel::EnterScope] + inner + seq![EventModel::LeaveScope],
                scope_events_model(us.drop_first()),
            );
        } else {
            assert(scope_events_model(us) =~= scope_events_model(us.drop_first()));
        }
    }
}

} // verus!

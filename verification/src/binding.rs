//! The binding machine: consumes plumbing events, assigns GPU binding
//! slots from a cursor of monotone unit counters, collects warnings for
//! names that cannot be bound, and batches one draw per scope.
//!
//! Two reserved uniform names are intercepted instead of being bound:
//! `mesh_index_buf` records a scope's index buffer and `mesh_index_count`
//! its index count.  When a scope closes with a recorded index count it
//! issues exactly one draw: indexed if a buffer was recorded, otherwise a
//! plain array draw over that vertex count.

use crate::plumber::EventModel;
use crate::plumber::PlumberEvent;
use crate::plumber::events_model;
use crate::plumber::plumb_events_model;
use crate::uniforms::ResolvedShaderUniformHolder;
use crate::uniforms::resolved_bundle_model;
use crate::reflection::BindingKind;
use crate::reflection::ShaderReflection;
use crate::reflection::ShaderUniformReflection;
use crate::reflection::lookup_entries;
use crate::uniforms::ResolvedShaderUniformValue;
use crate::uniforms::ResolvedValueModel;
use vstd::prelude::*;
use vstd::string::StringExecFns;

verus! {

broadcast use vstd::std_specs::vec::group_vec_axioms;

/// Reserved uniform name that records a scope's index buffer.
pub open spec fn mesh_index_buffer_name() -> Seq<char> {
    "mesh_index_buf"@
}

/// Reserved uniform name that records a scope's index count.
pub open spec fn mesh_index_count_name() -> Seq<char> {
    "mesh_index_count"@
}

/// The three monotone binding-slot counters threaded through one
/// traversal: never reset or reused within it.
#[derive(Clone, Copy, Debug, PartialEq, Eq, Structural)]
pub struct BindingCursor {
    pub image_unit: u32,
    pub ubo_unit: u32,
    pub ssbo_unit: u32,
}

/// Per-scope accumulator for batched mesh submission.
#[derive(Clone, Copy, Debug, PartialEq, Eq)]
pub struct ScopeFrame {
    pub index_buffer: Option<u32>,
    pub index_count: Option<u32>,
}

/// Which block-binding table a buffer is bound into.
#[derive(Clone, Copy, Debug, PartialEq, Eq, Structural)]
pub enum BlockKind {
    UniformBlock,
    StorageBlock,
}

/// A scalar value written directly to a reflected location.
#[derive(Clone, Copy, Debug, PartialEq, Eq, Structural)]
pub enum ScalarValue {
    Float32Bits(u32),
    Uint32(u32),
    Int32(i32),
    Ivec2(i32, i32),
}

/// One order-sensitive graphics-API primitive emitted by the machine.
#[derive(Clone, Copy, Debug, PartialEq, Eq)]
pub enum GpuCommand {
    BindImageTexture { unit: u32, texture_id: u32, location: i32, format: u32 },
    BindSampledTexture { unit: u32, texture_id: u32, sampler_id: u32, location: i32 },
    BindTextureBuffer { unit: u32, texture_id: u32, location: i32 },
    BindBufferBase { block: BlockKind, unit: u32, buffer_id: u32 },
    SetScalar { location: i32, value: ScalarValue },
    SetTextureSize { location: i32, width: u32, height: u32 },
    DrawElements { index_buffer: u32, index_count: u32 },
    DrawArrays { vertex_count: u32 },
    DispatchCompute { groups_x: u32, groups_y: u32, groups_z: u32 },
    UnbindImageUnits { first_units: u32 },
}

/// Mathematical model of a machine state.
#[verifier::ext_equal]
pub struct PlumberModel {
    pub image_unit: int,
    pub ubo_unit: int,
    pub ssbo_unit: int,
    pub scopes: Seq<ScopeFrame>,
    pub warnings: Seq<Seq<char>>,
    pub commands: Seq<GpuCommand>,
}

pub open spec fn warnings_model(ws: Seq<String>) -> Seq<Seq<char>> {
    ws.map_values(|w: String| w@)
}

/// The uniform plumber: binding cursor, scope stack, collected warnings
/// and the commands emitted so far.
pub struct ShaderUniformPlumber {
    pub cursor: BindingCursor,
    pub scope_stack: Vec<ScopeFrame>,
    pub warnings: Vec<String>,
    pub commands: Vec<GpuCommand>,
}

impl View for ShaderUniformPlumber {
    type V = PlumberModel;

    open spec fn view(&self) -> PlumberModel {
        PlumberModel {
            image_unit: self.cursor.image_unit as int,
            ubo_unit: self.cursor.ubo_unit as int,
            ssbo_unit: self.cursor.ssbo_unit as int,
            scopes: self.scope_stack@,
            warnings: warnings_model(self.warnings@),
            commands: self.commands@,
        }
    }
}

pub open spec fn with_command(s: PlumberModel, c: GpuCommand) -> PlumberModel {
    PlumberModel { commands: s.commands.push(c), ..s }
}

pub open spec fn with_warning(s: PlumberModel, w: Seq<char>) -> PlumberModel {
    PlumberModel { warnings: s.warnings.push(w), ..s }
}

pub open spec fn warning_not_found(name: Seq<char>) -> Seq<char> {
    "Shader uniform not found: "@ + name
}

pub open spec fn warning_unsupported(name: Seq<char>) -> Seq<char> {
    "unsupported binding kind for uniform: "@ + name
}

pub open spec fn warning_no_texture_alias(name: Seq<char>) -> Seq<char> {
    "buffer has no texture buffer alias: "@ + name
}

/// Updates the innermost scope frame, if any; outside every scope the
/// write is dropped.
pub open spec fn with_top_frame(s: PlumberModel, f: ScopeFrame) -> PlumberModel {
    if s.scopes.len() == 0 {
        s
    } else {
        PlumberModel { scopes: s.scopes.update(s.scopes.len() - 1, f), ..s }
    }
}

/// The draws a closing scope issues: exactly one indexed draw when both
/// an index count and an index buffer were recorded, one non-indexed draw
/// when only a count was recorded, none otherwise.
pub open spec fn frame_draws(f: ScopeFrame) -> Seq<GpuCommand> {
    match f.index_count {
        Some(c) => match f.index_buffer {
            Some(b) => seq![GpuCommand::DrawElements { index_buffer: b, index_count: c }],
            None => seq![GpuCommand::DrawArrays { vertex_count: c }],
        },
        None => Seq::empty(),
    }
}

/// The scalar payload written for a leaf value bound at a scalar location.
pub open spec fn scalar_payload(value: ResolvedValueModel) -> ScalarValue {
    match value {
        ResolvedValueModel::Float32Bits(b) => ScalarValue::Float32Bits(b),
        ResolvedValueModel::Float32AssetBits(b) => ScalarValue::Float32Bits(b),
        ResolvedValueModel::Uint32(x) => ScalarValue::Uint32(x),
        ResolvedValueModel::Uint32Asset(x) => ScalarValue::Uint32(x),
        ResolvedValueModel::Int32(x) => ScalarValue::Int32(x),
        ResolvedValueModel::Ivec2(x, y) => ScalarValue::Ivec2(x, y),
        ResolvedValueModel::UsizeAsset(x) => ScalarValue::Int32(x as i32),
        _ => ScalarValue::Uint32(0),
    }
}

/// Binding one texture asset: an optional companion `<name>_size` write,
/// then one image unit for a storage image or a sampler, or a warning.
pub open spec fn bind_texture_model(
    s: PlumberModel,
    refl: Seq<(String, ShaderUniformReflection)>,
    name: Seq<char>,
    t: crate::uniforms::TextureHandle,
) -> PlumberModel {
    let s1 = match lookup_entries(refl, name + "_size"@) {
        Some(d) => with_command(
            s,
            GpuCommand::SetTextureSize { location: d.location, width: t.width, height: t.height },
        ),
        None => s,
    };
    match lookup_entries(refl, name) {
        None => with_warning(s1, warning_not_found(name)),
        Some(d) => match d.kind {
            BindingKind::StorageImage2d => PlumberModel {
                image_unit: s1.image_unit + 1,
                commands: s1.commands.push(
                    GpuCommand::BindImageTexture {
                        unit: s1.image_unit as u32,
                        texture_id: t.texture_id,
                        location: d.location,
                        format: t.format,
                    },
                ),
                ..s1
            },
            BindingKind::Sampler2d => PlumberModel {
                image_unit: s1.image_unit + 1,
                commands: s1.commands.push(
                    GpuCommand::BindSampledTexture {
                        unit: s1.image_unit as u32,
                        texture_id: t.texture_id,
                        sampler_id: t.sampler_id,
                        location: d.location,
                    },
                ),
                ..s1
            },
            _ => with_warning(s1, warning_unsupported(name)),
        },
    }
}

/// Binding one buffer asset: one UBO unit, one SSBO unit, or one image
/// unit through its texture-buffer alias, or a warning.
pub open spec fn bind_buffer_model(
    s: PlumberModel,
    refl: Seq<(String, ShaderUniformReflection)>,
    name: Seq<char>,
    b: crate::uniforms::BufferHandle,
) -> PlumberModel {
    match lookup_entries(refl, name) {
        None => with_warning(s, warning_not_found(name)),
        Some(d) => match d.kind {
            BindingKind::UniformBlock => PlumberModel {
                ubo_unit: s.ubo_unit + 1,
                commands: s.commands.push(
                    GpuCommand::BindBufferBase {
                        block: BlockKind::UniformBlock,
                        unit: s.ubo_unit as u32,
                        buffer_id: b.buffer_id,
                    },
                ),
                ..s
            },
            BindingKind::StorageBlock => PlumberModel {
                ssbo_unit: s.ssbo_unit + 1,
                commands: s.commands.push(
                    GpuCommand::BindBufferBase {
                        block: BlockKind::StorageBlock,
                        unit: s.ssbo_unit as u32,
                        buffer_id: b.buffer_id,
                    },
                ),
                ..s
            },
            BindingKind::SamplerBuffer => match b.texture_id {
                Some(tex) => PlumberModel {
                    image_unit: s.image_unit + 1,
                    commands: s.commands.push(
                        GpuCommand::BindTextureBuffer {
                            unit: s.image_unit as u32,
                            texture_id: tex,
                            location: d.location,
                        },
                    ),
                    ..s
                },
                None => with_warning(s, warning_no_texture_alias(name)),
            },
            _ => with_warning(s, warning_unsupported(name)),
        },
    }
}

/// Binding one scalar leaf: written to its reflected location, no unit
/// consumed; any other reflected kind is a warning.
pub open spec fn bind_scalar_model(
    s: PlumberModel,
    refl: Seq<(String, ShaderUniformReflection)>,
    name: Seq<char>,
    value: ResolvedValueModel,
) -> PlumberModel {
    match lookup_entries(refl, name) {
        None => with_warning(s, warning_not_found(name)),
        Some(d) => match d.kind {
            BindingKind::ScalarLocation => with_command(
                s,
                GpuCommand::SetScalar { location: d.location, value: scalar_payload(value) },
            ),
            _ => with_warning(s, warning_unsupported(name)),
        },
    }
}

/// Handling of one `SetUniform` event: the two reserved names populate
/// the innermost scope frame and are not passed through to binding; every
/// other name is bound according to its reflected kind.
pub open spec fn bind_model(
    s: PlumberModel,
    refl: Seq<(String, ShaderUniformReflection)>,
    name: Seq<char>,
    value: ResolvedValueModel,
) -> PlumberModel {
    match value {
        ResolvedValueModel::Uint32(c) => {
            if name == mesh_index_count_name() {
                if s.scopes.len() == 0 {
                    s
                } else {
                    with_top_frame(s, ScopeFrame { index_count: Some(c), ..s.scopes.last() })
                }
            } else {
                bind_scalar_model(s, refl, name, value)
            }
        },
        ResolvedValueModel::BufferAsset(b) => {
            if name == mesh_index_buffer_name() {
                if s.scopes.len() == 0 {
                    s
                } else {
                    with_top_frame(
                        s,
                        ScopeFrame { index_buffer: Some(b.buffer_id), ..s.scopes.last() },
                    )
                }
            } else {
                bind_buffer_model(s, refl, name, b)
            }
        },
        ResolvedValueModel::TextureAsset(t) => bind_texture_model(s, refl, name, t),
        ResolvedValueModel::Bundle(_) => s,
        ResolvedValueModel::BundleAsset(_) => s,
        _ => bind_scalar_model(s, refl, name, value),
    }
}

/// One machine step per traversal event.
pub open spec fn step_model(
    s: PlumberModel,
    refl: Seq<(String, ShaderUniformReflection)>,
    e: EventModel,
) -> PlumberModel {
    match e {
        EventModel::SetUniform { name, value } => bind_model(s, refl, name, value),
        EventModel::EnterScope => PlumberModel {
            scopes: s.scopes.push(ScopeFrame { index_buffer: None, index_count: None }),
            ..s
        },
        EventModel::LeaveScope => {
            if s.scopes.len() == 0 {
                s
            } else {
                PlumberModel {
                    scopes: s.scopes.drop_last(),
                    commands: s.commands + frame_draws(s.scopes.last()),
                    ..s
                }
            }
        },
    }
}

/// Running the machine over a whole event sequence.
pub open spec fn run_model(
    s: PlumberModel,
    refl: Seq<(String, ShaderUniformReflection)>,
    es: Seq<EventModel>,
) -> PlumberModel
    decreases es.len(),
{
    if es.len() == 0 {
        s
    } else {
        step_model(run_model(s, refl, es.drop_last()), refl, es.last())
    }
}

/// How many `SetUniform` events a sequence holds; each machine step
/// consumes at most one binding unit of each kind per such event.
pub open spec fn count_set_events(es: Seq<EventModel>) -> nat
    decreases es.len(),
{
    if es.len() == 0 {
        0
    } else {
        count_set_events(es.drop_last()) + (if es.last() is SetUniform {
            1nat
        } else {
            0nat
        })
    }
}

pub open spec fn initial_model() -> PlumberModel {
    PlumberModel {
        image_unit: 0,
        ubo_unit: 0,
        ssbo_unit: 0,
        scopes: Seq::empty(),
        warnings: Seq::empty(),
        commands: Seq::empty(),
    }
}

impl Default for ShaderUniformPlumber {
    fn default() -> (r: Self)
        ensures
            r@ == initial_model(),
    {
        Self::new()
    }
}

impl ShaderUniformPlumber {
    /// A fresh machine: all cursors zero, no open scope, nothing emitted.
    pub fn new() -> (r: Self)
        ensures
            r@ == initial_model(),
    {
        let r = ShaderUniformPlumber {
            cursor: BindingCursor { image_unit: 0, ubo_unit: 0, ssbo_unit: 0 },
            scope_stack: Vec::new(),
            warnings: Vec::new(),
            commands: Vec::new(),
        };
        proof {
            assert(r@ =~= initial_model());
        }
        r
    }

    fn push_warning(&mut self, w: String)
        ensures
            final(self)@ == with_warning(old(self)@, w@),
    {
        self.warnings.push(w);
        proof {
            assert(warnings_model(self.warnings@) =~= warnings_model(old(self).warnings@).push(w@));
            assert(final(self)@ =~= with_warning(old(self)@, w@));
        }
    }

    fn push_command(&mut self, c: GpuCommand)
        ensures
            final(self)@ == with_command(old(self)@, c),
    {
        self.commands.push(c);
        proof {
            assert(final(self)@ =~= with_command(old(self)@, c));
        }
    }

    /// Records an index count in the innermost scope frame; dropped when
    /// no scope is open.
    fn set_top_index_count(&mut self, c: u32)
        ensures
            final(self)@ == (if old(self)@.scopes.len() == 0 {
                old(self)@
            } else {
                with_top_frame(
                    old(self)@,
                    ScopeFrame { index_count: Some(c), ..old(self)@.scopes.last() },
                )
            }),
    {
        if self.scope_stack.len() > 0 {
            let f = match self.scope_stack.pop() {
                Some(f) => f,
                None => ScopeFrame { index_buffer: None, index_count: None },
            };
            self.scope_stack.push(ScopeFrame { index_buffer: f.index_buffer, index_count: Some(c) });
            proof {
                assert(self.scope_stack@ =~= old(self)@.scopes.update(
                    old(self)@.scopes.len() - 1,
                    ScopeFrame { index_count: Some(c), ..old(self)@.scopes.last() },
                ));
                assert(final(self)@ =~= with_top_frame(
                    old(self)@,
                    ScopeFrame { index_count: Some(c), ..old(self)@.scopes.last() },
                ));
            }
        }
    }

    /// Records an index buffer in the innermost scope frame; dropped when
    /// no scope is open.
    fn set_top_index_buffer(&mut self, b: u32)
        ensures
            final(self)@ == (if old(self)@.scopes.len() == 0 {
                old(self)@
            } else {
                with_top_frame(
                    old(self)@,
                    ScopeFrame { index_buffer: Some(b), ..old(self)@.scopes.last() },
                )
            }),
    {
        if self.scope_stack.len() > 0 {
            let f = match self.scope_stack.pop() {
                Some(f) => f,
                None => ScopeFrame { index_buffer: None, index_count: None },
            };
            self.scope_stack.push(ScopeFrame { index_buffer: Some(b), index_count: f.index_count });
            proof {
                assert(self.scope_stack@ =~= old(self)@.scopes.update(
                    old(self)@.scopes.len() - 1,
                    ScopeFrame { index_buffer: Some(b), ..old(self)@.scopes.last() },
                ));
                assert(final(self)@ =~= with_top_frame(
                    old(self)@,
                    ScopeFrame { index_buffer: Some(b), ..old(self)@.scopes.last() },
                ));
            }
        }
    }

    fn warn_not_found(&mut self, name: &String)
        ensures
            final(self)@ == with_warning(old(self)@, warning_not_found(name@)),
    {
        let w = String::from_str("Shader uniform not found: ").concat(name.as_str());
        self.push_warning(w);
    }

    fn warn_unsupported(&mut self, name: &String)
        ensures
            final(self)@ == with_warning(old(self)@, warning_unsupported(name@)),
    {
        let w = String::from_str("unsupported binding kind for uniform: ").concat(name.as_str());
        self.push_warning(w);
    }

    fn bind_scalar(
        &mut self,
        reflection: &ShaderReflection,
        name: &String,
        payload: ScalarValue,
        Ghost(vm): Ghost<ResolvedValueModel>,
    )
        requires
            payload == scalar_payload(vm),
        ensures
            final(self)@ == bind_scalar_model(old(self)@, reflection.uniforms@, name@, vm),
    {
        match reflection.lookup(name) {
            None => self.warn_not_found(name),
            Some(d) => {
                match d.kind {
                    BindingKind::ScalarLocation => self.push_command(
                        GpuCommand::SetScalar { location: d.location, value: payload },
                    ),
                    _ => self.warn_unsupported(name),
                }
            },
        }
    }

    fn bind_texture(
        &mut self,
        reflection: &ShaderReflection,
        name: &String,
        t: crate::uniforms::TextureHandle,
    )
        requires
            old(self).cursor.image_unit < u32::MAX,
        ensures
            final(self)@ == bind_texture_model(old(self)@, reflection.uniforms@, name@, t),
    {
        let size_name = name.clone().concat("_size");
        match reflection.lookup(&size_name) {
            Some(d) => self.push_command(
                GpuCommand::SetTextureSize { location: d.location, width: t.width, height: t.height },
            ),
            None => {
            },
        }
        match reflection.lookup(name) {
            None => self.warn_not_found(name),
            Some(d) => {
                match d.kind {
                    BindingKind::StorageImage2d => {
                        self.push_command(
                            GpuCommand::BindImageTexture {
                                unit: self.cursor.image_unit,
                                texture_id: t.texture_id,
                                location: d.location,
                                format: t.format,
                            },
                        );
                        self.cursor.image_unit = self.cursor.image_unit + 1;
                    },
                    BindingKind::Sampler2d => {
                        self.push_command(
                            GpuCommand::BindSampledTexture {
                                unit: self.cursor.image_unit,
                                texture_id: t.texture_id,
                                sampler_id: t.sampler_id,
                                location: d.location,
                            },
                        );
                        self.cursor.image_unit = self.cursor.image_unit + 1;
                    },
                    _ => self.warn_unsupported(name),
                }
            },
        }
        proof {
            assert(final(self)@ =~= bind_texture_model(old(self)@, reflection.uniforms@, name@, t));
        }
    }

    fn bind_buffer(
        &mut self,
        reflection: &ShaderReflection,
        name: &String,
        b: crate::uniforms::BufferHandle,
    )
        requires
            old(self).cursor.image_unit < u32::MAX,
            old(self).cursor.ubo_unit < u32::MAX,
            old(self).cursor.ssbo_unit < u32::MAX,
        ensures
            final(self)@ == bind_buffer_model(old(self)@, reflection.uniforms@, name@, b),
    {
        match reflection.lookup(name) {
            None => self.warn_not_found(name),
            Some(d) => {
                match d.kind {
                    BindingKind::UniformBlock => {
                        self.push_command(
                            GpuCommand::BindBufferBase {
                                block: BlockKind::UniformBlock,
                                unit: self.cursor.ubo_unit,
                                buffer_id: b.buffer_id,
                            },
                        );
                        self.cursor.ubo_unit = self.cursor.ubo_unit + 1;
                    },
                    BindingKind::StorageBlock => {
                        self.push_command(
                            GpuCommand::BindBufferBase {
                                block: BlockKind::StorageBlock,
                                unit: self.cursor.ssbo_unit,
                                buffer_id: b.buffer_id,
                            },
                        );
                        self.cursor.ssbo_unit = self.cursor.ssbo_unit + 1;
                    },
                    BindingKind::SamplerBuffer => {
                        match b.texture_id {
                            Some(tex) => {
                                self.push_command(
                                    GpuCommand::BindTextureBuffer {
                                        unit: self.cursor.image_unit,
                                        texture_id: tex,
                                        location: d.location,
                                    },
                                );
                                self.cursor.image_unit = self.cursor.image_unit + 1;
                            },
                            None => {
                                let w = String::from_str(
                                    "buffer has no texture buffer alias: ",
                                ).concat(name.as_str());
                                self.push_warning(w);
                            },
                        }
                    },
                    _ => self.warn_unsupported(name),
                }
            },
        }
        proof {
            assert(final(self)@ =~= bind_buffer_model(old(self)@, reflection.uniforms@, name@, b));
        }
    }

    fn apply_set_uniform(
        &mut self,
        reflection: &ShaderReflection,
        name: &String,
        value: &ResolvedShaderUniformValue,
    )
        requires
            old(self).cursor.image_unit < u32::MAX,
            old(self).cursor.ubo_unit < u32::MAX,
            old(self).cursor.ssbo_unit < u32::MAX,
        ensures
            final(self)@ == bind_model(
                old(self)@,
                reflection.uniforms@,
                name@,
                crate::uniforms::resolved_value_model(*value),
            ),
    {
        match value {
            ResolvedShaderUniformValue::Uint32(c) => {
                let key = String::from_str("mesh_index_count");
                if *name == key {
                    self.set_top_index_count(*c);
                } else {
                    self.bind_scalar(
                        reflection,
                        name,
                        ScalarValue::Uint32(*c),
                        Ghost(ResolvedValueModel::Uint32(*c)),
                    );
                }
            },
            ResolvedShaderUniformValue::BufferAsset(b) => {
                let key = String::from_str("mesh_index_buf");
                if *name == key {
                    self.set_top_index_buffer(b.buffer_id);
                } else {
                    self.bind_buffer(reflection, name, *b);
                }
            },
            ResolvedShaderUniformValue::TextureAsset(t) => {
                self.bind_texture(reflection, name, *t);
            },
            ResolvedShaderUniformValue::Bundle(_) => {
            },
            ResolvedShaderUniformValue::BundleAsset(_) => {
            },
            ResolvedShaderUniformValue::Float32Bits(x) => {
                self.bind_scalar(
                    reflection,
                    name,
                    ScalarValue::Float32Bits(*x),
                    Ghost(ResolvedValueModel::Float32Bits(*x)),
                );
            },
            ResolvedShaderUniformValue::Float32AssetBits(x) => {
                self.bind_scalar(
                    reflection,
                    name,
                    ScalarValue::Float32Bits(*x),
                    Ghost(ResolvedValueModel::Float32AssetBits(*x)),
                );
            },
            ResolvedShaderUniformValue::Int32(x) => {
                self.bind_scalar(
                    reflection,
                    name,
                    ScalarValue::Int32(*x),
                    Ghost(ResolvedValueModel::Int32(*x)),
                );
            },
            ResolvedShaderUniformValue::Ivec2(x, y) => {
                self.bind_scalar(
                    reflection,
                    name,
                    ScalarValue::Ivec2(*x, *y),
                    Ghost(ResolvedValueModel::Ivec2(*x, *y)),
                );
            },
            ResolvedShaderUniformValue::Uint32Asset(x) => {
                self.bind_scalar(
                    reflection,
                    name,
                    ScalarValue::Uint32(*x),
                    Ghost(ResolvedValueModel::Uint32Asset(*x)),
                );
            },
            ResolvedShaderUniformValue::UsizeAsset(x) => {
                self.bind_scalar(
                    reflection,
                    name,
                    ScalarValue::Int32(#[verifier::truncate] (*x as i32)),
                    Ghost(ResolvedValueModel::UsizeAsset(*x)),
                );
            },
        }
    }

    /// One machine step per traversal event.
    pub fn step(&mut self, reflection: &ShaderReflection, event: &PlumberEvent)
        requires
            event@ is SetUniform ==> old(self).cursor.image_unit < u32::MAX && old(
                self,
            ).cursor.ubo_unit < u32::MAX && old(self).cursor.ssbo_unit < u32::MAX,
        ensures
            final(self)@ == step_model(old(self)@, reflection.uniforms@, event@),
    {
        match event {
            PlumberEvent::SetUniform { name, value } => {
                self.apply_set_uniform(reflection, name, value);
            },
            PlumberEvent::EnterScope => {
                self.scope_stack.push(ScopeFrame { index_buffer: None, index_count: None });
                proof {
                    assert(final(self)@ =~= step_model(
                        old(self)@,
                        reflection.uniforms@,
                        event@,
                    ));
                }
            },
            PlumberEvent::LeaveScope => {
                if self.scope_stack.len() > 0 {
                    let f = match self.scope_stack.pop() {
                        Some(f) => f,
                        None => ScopeFrame { index_buffer: None, index_count: None },
                    };
                    match f.index_count {
                        Some(c) => {
                            match f.index_buffer {
                                Some(b) => self.commands.push(
                                    GpuCommand::DrawElements { index_buffer: b, index_count: c },
                                ),
                                None => self.commands.push(GpuCommand::DrawArrays { vertex_count: c }),
                            }
                        },
                        None => {
                        },
                    }
                }
                proof {
                    assert(final(self)@ =~= step_model(
                        old(self)@,
                        reflection.uniforms@,
                        event@,
                    ));
                }
            },
        }
    }

    /// Runs the machine over a whole event sequence, in order.
    pub fn run(&mut self, reflection: &ShaderReflection, events: &Vec<PlumberEvent>)
        requires
            old(self).cursor.image_unit + count_set_events(events_model(events@)) <= u32::MAX,
            old(self).cursor.ubo_unit + count_set_events(events_model(events@)) <= u32::MAX,
            old(self).cursor.ssbo_unit + count_set_events(events_model(events@)) <= u32::MAX,
        ensures
            final(self)@ == run_model(old(self)@, reflection.uniforms@, events_model(events@)),
    {
        let ghost s0 = self@;
        let ghost es = events_model(events@);
        let n = events.len();
        let mut i: usize = 0;
        proof {
            assert(es.take(0) =~= Seq::empty());
        }
        while i < n
            invariant
                0 <= i <= n,
                n == events.len(),
                es == events_model(events@),
                s0.image_unit + count_set_events(es) <= u32::MAX,
                s0.ubo_unit + count_set_events(es) <= u32::MAX,
                s0.ssbo_unit + count_set_events(es) <= u32::MAX,
                self@ == run_model(s0, reflection.uniforms@, es.take(i as int)),
                self@.image_unit <= s0.image_unit + count_set_events(es.take(i as int)),
                self@.ubo_unit <= s0.ubo_unit + count_set_events(es.take(i as int)),
                self@.ssbo_unit <= s0.ssbo_unit + count_set_events(es.take(i as int)),
            decreases n - i,
        {
            proof {
                assert(es.take(i as int + 1).drop_last() =~= es.take(i as int));
                assert(es.take(i as int + 1).last() == es[i as int]);
                lemma_count_take_le(es, i as int + 1);
            }
            self.step(reflection, &events[i]);
            proof {
                lemma_step_units(
                    run_model(s0, reflection.uniforms@, es.take(i as int)),
                    reflection.uniforms@,
                    es[i as int],
                );
            }
            i = i + 1;
        }
        proof {
            assert(es.take(n as int) =~= es);
        }
    }

    /// Plumbs a resolved uniform bundle: produces the depth-first event
    /// sequence and runs the binding machine over it.
    pub fn plumb(&mut self, reflection: &ShaderReflection, uniforms: &Vec<ResolvedShaderUniformHolder>)
        requires
            old(self).cursor.image_unit + count_set_events(
                plumb_events_model(resolved_bundle_model(*uniforms)),
            ) <= u32::MAX,
            old(self).cursor.ubo_unit + count_set_events(
                plumb_events_model(resolved_bundle_model(*uniforms)),
            ) <= u32::MAX,
            old(self).cursor.ssbo_unit + count_set_events(
                plumb_events_model(resolved_bundle_model(*uniforms)),
            ) <= u32::MAX,
        ensures
            final(self)@ == run_model(
                old(self)@,
                reflection.uniforms@,
                plumb_events_model(resolved_bundle_model(*uniforms)),
            ),
    {
        let events = crate::plumber::plumb_events(uniforms);
        self.run(reflection, &events);
    }
}

/// A prefix never holds more `SetUniform` events than the whole sequence.
pub proof fn lemma_count_take_le(es: Seq<EventModel>, k: int)
    requires
        0 <= k <= es.len(),
    ensures
        count_set_events(es.take(k)) <= count_set_events(es),
    decreases es.len(),
{
    if k == es.len() {
        assert(es.take(k) =~= es);
    } else {
        assert(es.drop_last().take(k) =~= es.take(k));
        lemma_count_take_le(es.drop_last(), k);
    }
}

/// One step consumes at most one unit of each kind, and only on a
/// `SetUniform` event; units never decrease.
pub proof fn lemma_step_units(
    s: PlumberModel,
    refl: Seq<(String, ShaderUniformReflection)>,
    e: EventModel,
)
    ensures
        step_model(s, refl, e).image_unit <= s.image_unit + (if e is SetUniform {
            1int
        } else {
            0int
        }),
        step_model(s, refl, e).ubo_unit <= s.ubo_unit + (if e is SetUniform {
            1int
        } else {
            0int
        }),
        step_model(s, refl, e).ssbo_unit <= s.ssbo_unit + (if e is SetUniform {
            1int
        } else {
            0int
        }),
        step_model(s, refl, e).image_unit >= s.image_unit,
        step_model(s, refl, e).ubo_unit >= s.ubo_unit,
        step_model(s, refl, e).ssbo_unit >= s.ssbo_unit,
{
}

} // verus!

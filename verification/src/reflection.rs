//! Shader reflection: the mapping from declared uniform names to binding
//! descriptors, as reported by the shader compiler's reflection facility.
//!
//! Each declared binding is classified into one of a closed set of
//! supported kinds, or marked unsupported.  Binding a value against an
//! unsupported or missing name is never fatal: the plumber records a
//! warning and goes on.

use self::RawDescriptorKind as K;
use spirv_reflect::types::descriptor::ReflectDescriptorType as T;
use vstd::prelude::*;
use vstd::string::StringExecFns;

verus! {

broadcast use vstd::std_specs::vec::group_vec_axioms;

/// The closed set of binding kinds the plumber knows how to bind, plus
/// `Unsupported` for everything else the reflector may report.
#[derive(Clone, Copy, Debug, PartialEq, Eq, Structural)]
pub enum BindingKind {
    Sampler2d,
    StorageImage2d,
    UniformBlock,
    StorageBlock,
    SamplerBuffer,
    ScalarLocation,
    Unsupported,
}

/// Descriptor of one declared uniform: its kind and its reflected location
/// (for scalar uniforms) or declared binding point.
#[derive(Clone, Copy, Debug, PartialEq, Eq, Structural)]
pub struct ShaderUniformReflection {
    pub location: i32,
    pub kind: BindingKind,
}

/// Reflection of one compiled shader: declared uniform names with their
/// binding descriptors.  Lookup returns the first entry with the given
/// name.
pub struct ShaderReflection {
    pub uniforms: Vec<(String, ShaderUniformReflection)>,
}

/// First-match lookup among reflection entries.
pub open spec fn lookup_entries(
    entries: Seq<(String, ShaderUniformReflection)>,
    name: Seq<char>,
) -> Option<ShaderUniformReflection>
    decreases entries.len(),
{
    if entries.len() == 0 {
        None
    } else if entries[0].0@ == name {
        Some(entries[0].1)
    } else {
        lookup_entries(entries.drop_first(), name)
    }
}

impl ShaderReflection {
    /// The descriptor under which `name` was declared, if any.
    pub open spec fn spec_lookup(&self, name: Seq<char>) -> Option<ShaderUniformReflection> {
        lookup_entries(self.uniforms@, name)
    }

    pub fn lookup(&self, name: &String) -> (r: Option<ShaderUniformReflection>)
        ensures
            r == self.spec_lookup(name@),
    {
        let n = self.uniforms.len();
        let mut i: usize = 0;
        proof {
            assert(self.uniforms@.skip(0) =~= self.uniforms@);
        }
        while i < n
            invariant
                0 <= i <= n,
                n == self.uniforms.len(),
                lookup_entries(self.uniforms@.skip(i as int), name@) == self.spec_lookup(name@),
            decreases n - i,
        {
            let entry = &self.uniforms[i];
            proof {
                assert(self.uniforms@.skip(i as int)[0] == self.uniforms@[i as int]);
            }
            if entry.0 == *name {
                return Some(entry.1);
            }
            proof {
                assert(self.uniforms@.skip(i as int).drop_first() =~= self.uniforms@.skip(
                    i as int + 1,
                ));
            }
            i = i + 1;
        }
        proof {
            assert(self.uniforms@.skip(n as int) =~= Seq::empty());
        }
        None
    }
}

/// Error of the reflection boundary: the reflector could not parse the
/// binary.
#[derive(Clone, Debug)]
pub struct ReflectionError {
    pub message: String,
}

/// The descriptor kinds the external reflector reports, mirrored one to
/// one so that classification happens in verified code.
#[derive(Clone, Copy, Debug, PartialEq, Eq, Structural)]
pub enum RawDescriptorKind {
    Undefined,
    Sampler,
    CombinedImageSampler,
    SampledImage,
    StorageImage,
    UniformTexelBuffer,
    StorageTexelBuffer,
    UniformBuffer,
    StorageBuffer,
    UniformBufferDynamic,
    StorageBufferDynamic,
    InputAttachment,
    AccelerationStructure,
}

/// One declared binding as the external reflector reports it.
#[derive(Clone, Debug)]
pub struct RawBinding {
    pub name: String,
    pub set: u32,
    pub binding: u32,
    pub count: u32,
    pub kind: RawDescriptorKind,
}

/// Mathematical model of a reported binding.
pub struct RawBindingModel {
    pub name: Seq<char>,
    pub set: u32,
    pub binding: u32,
    pub count: u32,
    pub kind: RawDescriptorKind,
}

pub open spec fn raw_binding_model(b: RawBinding) -> RawBindingModel {
    RawBindingModel { name: b.name@, set: b.set, binding: b.binding, count: b.count, kind: b.kind }
}

impl View for RawBinding {
    type V = RawBindingModel;

    open spec fn view(&self) -> RawBindingModel {
        raw_binding_model(*self)
    }
}

pub open spec fn raw_bindings_model(bs: Seq<RawBinding>) -> Seq<RawBindingModel> {
    bs.map_values(|b: RawBinding| raw_binding_model(b))
}

/// What the external reflector reports for a given SPIR-V module, for the
/// entry point `main`: a function of the binary alone.
pub uninterp spec fn reflected_bindings_of(code: Seq<u32>) -> Seq<RawBindingModel>;

/// Whether the external reflector can parse a given SPIR-V module: a
/// function of the binary alone.  Reflection fails exactly when it cannot.
pub uninterp spec fn reflects_ok(code: Seq<u32>) -> bool;

#[verifier::external_type_specification]
#[verifier::external_body]
pub struct ExReflectDescriptorBinding(spirv_reflect::types::descriptor::ReflectDescriptorBinding);

/// Relies on spirv_reflect's ReflectDescriptorBinding record: mirrors one
/// reported binding of the descriptor set `set` into plain values, one
/// match arm per descriptor kind, moving fields only.
#[verifier::external_body]
fn raw_binding_from(
    set: u32,
    b: &spirv_reflect::types::descriptor::ReflectDescriptorBinding,
) -> RawBinding {
    let kind = match b.descriptor_type {
        T::Undefined => K::Undefined, T::Sampler => K::Sampler,
        T::CombinedImageSampler => K::CombinedImageSampler, T::SampledImage => K::SampledImage,
        T::StorageImage => K::StorageImage, T::UniformTexelBuffer => K::UniformTexelBuffer,
        T::StorageTexelBuffer => K::StorageTexelBuffer, T::UniformBuffer => K::UniformBuffer,
        T::StorageBuffer => K::StorageBuffer, T::UniformBufferDynamic => K::UniformBufferDynamic,
        T::StorageBufferDynamic => K::StorageBufferDynamic, T::InputAttachment => K::InputAttachment,
        T::AccelerationStructureNV => K::AccelerationStructure,
    };
    RawBinding { name: b.name.clone(), set, binding: b.binding, count: b.count, kind }
}

/// Relies on spirv_reflect::ShaderModule::load_u32_data, which parses the
/// binary and fails when it cannot, and on enumerate_descriptor_sets for
/// the entry point `main`: the parsed module's declared descriptor
/// bindings, flattened in set order, each mirrored into plain values.
/// Both whether the parse succeeds and what it reports are functions of
/// the binary alone.
#[verifier::external_body]
fn reflect_spirv_bindings(code: &Vec<u32>) -> (r: Result<Vec<RawBinding>, ReflectionError>)
    ensures
        r is Ok <==> reflects_ok(code@),
        r matches Ok(bs) ==> raw_bindings_model(bs@) == reflected_bindings_of(code@),
{
    let m = match spirv_reflect::ShaderModule::load_u32_data(code) {
        Ok(m) => m,
        Err(e) => return Err(ReflectionError { message: format!("SPIR-V reflection error: {}", e) }),
    };
    let sets = match m.enumerate_descriptor_sets(Some("main")) {
        Ok(s) => s,
        Err(e) => return Err(ReflectionError { message: format!("SPIR-V reflection error: {}", e) }),
    };
    Ok(sets.iter().flat_map(|ds| ds.bindings.iter().map(|b| raw_binding_from(ds.set, b))).collect())
}

/// Reflects a SPIR-V binary into the reported bindings; fatal exactly
/// when the reflector cannot parse the binary.
pub fn reflect_spirv_shader(code: &Vec<u32>) -> (r: Result<Vec<RawBinding>, ReflectionError>)
    ensures
        r is Ok <==> reflects_ok(code@),
        r matches Ok(bs) ==> raw_bindings_model(bs@) == reflected_bindings_of(code@),
{
    reflect_spirv_bindings(code)
}

/// Classification of a reported descriptor kind into the closed set of
/// supported binding kinds.
pub open spec fn classify_kind_spec(k: RawDescriptorKind) -> BindingKind {
    match k {
        RawDescriptorKind::UniformBuffer => BindingKind::UniformBlock,
        RawDescriptorKind::StorageImage => BindingKind::StorageImage2d,
        RawDescriptorKind::StorageBuffer => BindingKind::StorageBlock,
        RawDescriptorKind::CombinedImageSampler => BindingKind::Sampler2d,
        RawDescriptorKind::SampledImage => BindingKind::Sampler2d,
        RawDescriptorKind::UniformTexelBuffer => BindingKind::SamplerBuffer,
        _ => BindingKind::Unsupported,
    }
}

pub fn classify_kind(k: RawDescriptorKind) -> (r: BindingKind)
    ensures
        r == classify_kind_spec(k),
{
    match k {
        RawDescriptorKind::UniformBuffer => BindingKind::UniformBlock,
        RawDescriptorKind::StorageImage => BindingKind::StorageImage2d,
        RawDescriptorKind::StorageBuffer => BindingKind::StorageBlock,
        RawDescriptorKind::CombinedImageSampler => BindingKind::Sampler2d,
        RawDescriptorKind::SampledImage => BindingKind::Sampler2d,
        RawDescriptorKind::UniformTexelBuffer => BindingKind::SamplerBuffer,
        _ => BindingKind::Unsupported,
    }
}

/// The reflection entry a reported binding turns into: its declared
/// binding point as the location, its kind classified.
pub open spec fn reflection_entry_spec(b: RawBindingModel) -> (Seq<char>, ShaderUniformReflection) {
    (b.name, ShaderUniformReflection { location: b.binding as i32, kind: classify_kind_spec(b.kind) })
}

pub open spec fn reflection_entries_model(
    entries: Seq<(String, ShaderUniformReflection)>,
) -> Seq<(Seq<char>, ShaderUniformReflection)> {
    entries.map_values(|e: (String, ShaderUniformReflection)| (e.0@, e.1))
}

/// Builds the usable reflection from the reported bindings: one entry per
/// binding, in reported order, unsupported kinds kept and marked.
pub fn build_shader_reflection(bindings: &Vec<RawBinding>) -> (r: ShaderReflection)
    ensures
        reflection_entries_model(r.uniforms@) == raw_bindings_model(bindings@).map_values(
            |b: RawBindingModel| reflection_entry_spec(b),
        ),
{
    let mut uniforms: Vec<(String, ShaderUniformReflection)> = Vec::new();
    let n = bindings.len();
    let mut i: usize = 0;
    while i < n
        invariant
            0 <= i <= n,
            n == bindings.len(),
            reflection_entries_model(uniforms@) == raw_bindings_model(bindings@).map_values(
                |b: RawBindingModel| reflection_entry_spec(b),
            ).take(i as int),
        decreases n - i,
    {
        let b = &bindings[i];
        let kind = classify_kind(b.kind);
        let location = if b.binding <= i32::MAX as u32 {
            b.binding as i32
        } else {
            #[verifier::truncate] (b.binding as i32)
        };
        uniforms.push((b.name.clone(), ShaderUniformReflection { location, kind }));
        proof {
            let full = raw_bindings_model(bindings@).map_values(
                |bm: RawBindingModel| reflection_entry_spec(bm),
            );
            assert(reflection_entries_model(uniforms@) =~= full.take(i as int).push(full[i as int]));
            assert(full.take(i as int).push(full[i as int]) =~= full.take(i as int + 1));
        }
        i = i + 1;
    }
    proof {
        let full = raw_bindings_model(bindings@).map_values(
            |bm: RawBindingModel| reflection_entry_spec(bm),
        );
        assert(full.take(n as int) =~= full);
    }
    ShaderReflection { uniforms }
}

/// Reflects a SPIR-V binary straight into the usable reflection mapping;
/// fatal exactly when the reflector cannot parse the binary.
pub fn reflect_shader(code: &Vec<u32>) -> (r: Result<ShaderReflection, ReflectionError>)
    ensures
        r is Ok <==> reflects_ok(code@),
        r matches Ok(refl) ==> reflection_entries_model(refl.uniforms@) == reflected_bindings_of(
            code@,
        ).map_values(|b: RawBindingModel| reflection_entry_spec(b)),
{
    match reflect_spirv_shader(code) {
        Ok(bindings) => Ok(build_shader_reflection(&bindings)),
        Err(e) => Err(e),
    }
}

/// A compiled compute shader as the library sees it: its display name and
/// the reflection of its declared bindings.  The pipeline object that the
/// graphics device builds from the same binary lives with the caller that
/// owns the device.
pub struct ComputeShader {
    pub name: String,
    pub reflection: ShaderReflection,
}

/// Builds the library's view of a compiled compute shader from its SPIR-V
/// binary; fatal exactly when the reflector cannot parse the binary.
pub fn shader_from_spirv(name: String, code: &Vec<u32>) -> (r: Result<
    ComputeShader,
    ReflectionError,
>)
    ensures
        r is Ok <==> reflects_ok(code@),
        r matches Ok(cs) ==> cs.name@ == name@ && reflection_entries_model(cs.reflection.uniforms@)
            == reflected_bindings_of(code@).map_values(
            |b: RawBindingModel| reflection_entry_spec(b),
        ),
{
    match reflect_shader(code) {
        Ok(reflection) => Ok(ComputeShader { name, reflection }),
        Err(e) => Err(e),
    }
}

/// The descriptor types that get a slot in a compute pipeline's
/// descriptor-set layout.
#[derive(Clone, Copy, Debug, PartialEq, Eq, Structural)]
pub enum LayoutDescriptorType {
    UniformBuffer,
    StorageImage,
}

/// One descriptor-set layout entry handed to the device.
#[derive(Clone, Copy, Debug, PartialEq, Eq, Structural)]
pub struct DescriptorSetLayoutBinding {
    pub binding: u32,
    pub count: u32,
    pub descriptor: LayoutDescriptorType,
}

/// The layout entry one reported binding contributes, if any: uniform
/// buffers and storage images get a slot, everything else none.
pub open spec fn layout_entry_of(b: RawBindingModel) -> Seq<DescriptorSetLayoutBinding> {
    match b.kind {
        RawDescriptorKind::UniformBuffer => seq![
            DescriptorSetLayoutBinding {
                binding: b.binding,
                count: b.count,
                descriptor: LayoutDescriptorType::UniformBuffer,
            },
        ],
        RawDescriptorKind::StorageImage => seq![
            DescriptorSetLayoutBinding {
                binding: b.binding,
                count: b.count,
                descriptor: LayoutDescriptorType::StorageImage,
            },
        ],
        _ => Seq::empty(),
    }
}

pub open spec fn layout_entries_spec(
    bs: Seq<RawBindingModel>,
) -> Seq<DescriptorSetLayoutBinding>
    decreases bs.len(),
{
    if bs.len() == 0 {
        Seq::empty()
    } else {
        layout_entries_spec(bs.drop_last()) + layout_entry_of(bs.last())
    }
}

/// The descriptor-set layout entries of a compute pipeline, in reported
/// order: one per uniform-buffer or storage-image binding, none for the
/// other kinds.  The device object built from them stays with the caller
/// that owns the device.
pub fn generate_descriptor_set_layout(bindings: &Vec<RawBinding>) -> (r: Vec<
    DescriptorSetLayoutBinding,
>)
    ensures
        r@ == layout_entries_spec(raw_bindings_model(bindings@)),
{
    let ghost bm = raw_bindings_model(bindings@);
    let mut out: Vec<DescriptorSetLayoutBinding> = Vec::new();
    let n = bindings.len();
    let mut i: usize = 0;
    proof {
        assert(bm.take(0) =~= Seq::<RawBindingModel>::empty());
    }
    while i < n
        invariant
            0 <= i <= n,
            n == bindings.len(),
            bm == raw_bindings_model(bindings@),
            out@ == layout_entries_spec(bm.take(i as int)),
        decreases n - i,
    {
        proof {
            assert(bm.take(i as int + 1).drop_last() =~= bm.take(i as int));
            assert(bm.take(i as int + 1).last() == bm[i as int]);
        }
        let b = &bindings[i];
        match b.kind {
            RawDescriptorKind::UniformBuffer => {
                out.push(
                    DescriptorSetLayoutBinding {
                        binding: b.binding,
                        count: b.count,
                        descriptor: LayoutDescriptorType::UniformBuffer,
                    },
                );
            },
            RawDescriptorKind::StorageImage => {
                out.push(
                    DescriptorSetLayoutBinding {
                        binding: b.binding,
                        count: b.count,
                        descriptor: LayoutDescriptorType::StorageImage,
                    },
                );
            },
            _ => {
            },
        }
        proof {
            assert(out@ =~= layout_entries_spec(bm.take(i as int)) + layout_entry_of(
                bm[i as int],
            ));
        }
        i = i + 1;
    }
    proof {
        assert(bm.take(n as int) =~= bm);
    }
    out
}

} // verus!

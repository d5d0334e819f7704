use rendertoy::binding::GpuCommand;
use rendertoy::dispatch::{compute_tex_commands, raster_tex_commands, div_ceil_u32, TextureKey};
use rendertoy::reflection::{
    build_shader_reflection, classify_kind, generate_descriptor_set_layout, reflect_spirv_shader,
    shader_from_spirv, BindingKind, DescriptorSetLayoutBinding, LayoutDescriptorType, RawBinding,
    RawDescriptorKind, ShaderReflection, ShaderUniformReflection,
};
use rendertoy::binding::{BindingCursor, ScalarValue};
use rendertoy::uniforms::{ResolvedShaderUniformHolder, ResolvedShaderUniformValue};

fn refl(entries: Vec<(&str, i32, BindingKind)>) -> ShaderReflection {
    ShaderReflection {
        uniforms: entries
            .into_iter()
            .map(|(n, loc, kind)| {
                (n.to_string(), ShaderUniformReflection { location: loc, kind })
            })
            .collect(),
    }
}

/// A minimal hand-assembled SPIR-V compute module with entry point `main`
/// and no declared bindings.
fn tiny_spirv_module() -> Vec<u32> {
    let mut w: Vec<u32> = vec![0x07230203, 0x00010000, 0, 5, 0];
    // OpCapability Shader
    w.extend([(2 << 16) | 17, 1]);
    // OpMemoryModel Logical GLSL450
    w.extend([(3 << 16) | 14, 0, 1]);
    // OpEntryPoint GLCompute %1 "main"
    w.extend([(5 << 16) | 15, 5, 1, 0x6E69616D, 0]);
    // OpExecutionMode %1 LocalSize 1 1 1
    w.extend([(6 << 16) | 16, 1, 17, 1, 1, 1]);
    // %2 = OpTypeVoid
    w.extend([(2 << 16) | 19, 2]);
    // %3 = OpTypeFunction %2
    w.extend([(3 << 16) | 33, 3, 2]);
    // %1 = OpFunction %2 None %3
    w.extend([(5 << 16) | 54, 2, 1, 0, 3]);
    // OpLabel %4
    w.extend([(2 << 16) | 248, 4]);
    // OpReturn; OpFunctionEnd
    w.extend([(1 << 16) | 253, (1 << 16) | 56]);
    w
}

#[test]
fn reflect_accepts_a_valid_module() {
    let code = tiny_spirv_module();
    let bindings = reflect_spirv_shader(&code).expect("valid module reflects");
    assert_eq!(bindings.len(), 0);
}

#[test]
fn shader_from_spirv_keeps_the_name() {
    let code = tiny_spirv_module();
    let cs = shader_from_spirv("tiny".to_string(), &code).expect("valid module");
    assert_eq!(cs.name, "tiny");
    assert!(cs.reflection.lookup(&"globals".to_string()).is_none());
}

#[test]
fn reported_bindings_build_the_usable_mapping() {
    let bindings = vec![
        RawBinding {
            name: "globals".to_string(),
            set: 0,
            binding: 3,
            count: 1,
            kind: RawDescriptorKind::UniformBuffer,
        },
        RawBinding {
            name: "outputTex".to_string(),
            set: 0,
            binding: 0,
            count: 1,
            kind: RawDescriptorKind::StorageImage,
        },
        RawBinding {
            name: "oddity".to_string(),
            set: 1,
            binding: 2,
            count: 1,
            kind: RawDescriptorKind::InputAttachment,
        },
    ];
    let refl = build_shader_reflection(&bindings);
    let g = refl.lookup(&"globals".to_string()).expect("present");
    assert_eq!(g.kind, BindingKind::UniformBlock);
    assert_eq!(g.location, 3);
    let t = refl.lookup(&"outputTex".to_string()).expect("present");
    assert_eq!(t.kind, BindingKind::StorageImage2d);
    assert_eq!(t.location, 0);
    let o = refl.lookup(&"oddity".to_string()).expect("present");
    assert_eq!(o.kind, BindingKind::Unsupported);
}

#[test]
fn unparsable_binary_is_a_reflection_error() {
    let garbage: Vec<u32> = vec![1, 2, 3, 4];
    assert!(reflect_spirv_shader(&garbage).is_err());
}

#[test]
fn descriptor_kinds_classify_into_the_closed_set() {
    assert_eq!(classify_kind(RawDescriptorKind::UniformBuffer), BindingKind::UniformBlock);
    assert_eq!(classify_kind(RawDescriptorKind::StorageImage), BindingKind::StorageImage2d);
    assert_eq!(classify_kind(RawDescriptorKind::StorageBuffer), BindingKind::StorageBlock);
    assert_eq!(classify_kind(RawDescriptorKind::CombinedImageSampler), BindingKind::Sampler2d);
    assert_eq!(classify_kind(RawDescriptorKind::SampledImage), BindingKind::Sampler2d);
    assert_eq!(classify_kind(RawDescriptorKind::UniformTexelBuffer), BindingKind::SamplerBuffer);
    assert_eq!(classify_kind(RawDescriptorKind::Sampler), BindingKind::Unsupported);
    assert_eq!(classify_kind(RawDescriptorKind::InputAttachment), BindingKind::Unsupported);
    assert_eq!(classify_kind(RawDescriptorKind::Undefined), BindingKind::Unsupported);
}

#[test]
fn reflection_lookup_takes_first_entry() {
    let r = refl(vec![
        ("n", 1, BindingKind::ScalarLocation),
        ("n", 2, BindingKind::UniformBlock),
    ]);
    let d = r.lookup(&"n".to_string()).expect("present");
    assert_eq!(d.location, 1);
    assert!(r.lookup(&"missing".to_string()).is_none());
}

#[test]
fn ceiling_division_sizes_dispatches() {
    assert_eq!(div_ceil_u32(7, 4), 2);
    assert_eq!(div_ceil_u32(8, 4), 2);
    assert_eq!(div_ceil_u32(9, 4), 3);
    assert_eq!(div_ceil_u32(0, 4), 0);
    assert_eq!(div_ceil_u32(1, 1), 1);
}

#[test]
fn compute_dispatch_command_order() {
    let r = refl(vec![
        ("outputTex", 0, BindingKind::StorageImage2d),
        ("outputTex_size", 1, BindingKind::ScalarLocation),
    ]);
    let uniforms: Vec<ResolvedShaderUniformHolder> = vec![];
    let key = TextureKey { width: 7, height: 5, format: 9 };
    let plumber = compute_tex_commands(&r, &uniforms, key, 42, (4, 4));
    assert_eq!(
        plumber.commands,
        vec![
            GpuCommand::BindImageTexture { unit: 0, texture_id: 42, location: 0, format: 9 },
            GpuCommand::SetTextureSize { location: 1, width: 7, height: 5 },
            GpuCommand::DispatchCompute { groups_x: 2, groups_y: 2, groups_z: 1 },
            GpuCommand::UnbindImageUnits { first_units: 1 },
        ]
    );
    assert!(plumber.warnings.is_empty());
}

#[test]
fn raster_draw_command_order() {
    let r = refl(vec![("outputTex_size", 2, BindingKind::ScalarLocation)]);
    let uniforms = vec![ResolvedShaderUniformHolder {
        name: "mesh".to_string(),
        value: ResolvedShaderUniformValue::Bundle(vec![ResolvedShaderUniformHolder {
            name: "mesh_index_count".to_string(),
            value: ResolvedShaderUniformValue::Uint32(36),
        }]),
    }];
    let key = TextureKey { width: 640, height: 480, format: 3 };
    let plumber = raster_tex_commands(&r, &uniforms, key);
    assert_eq!(
        plumber.commands,
        vec![
            GpuCommand::SetTextureSize { location: 2, width: 640, height: 480 },
            GpuCommand::DrawArrays { vertex_count: 36 },
            GpuCommand::UnbindImageUnits { first_units: 1 },
        ]
    );
    assert_eq!(plumber.scope_stack.len(), 0);
}

#[test]
fn layout_entries_keep_supported_bindings_only() {
    let bindings = vec![
        RawBinding {
            name: "globals".to_string(),
            set: 0,
            binding: 1,
            count: 1,
            kind: RawDescriptorKind::UniformBuffer,
        },
        RawBinding {
            name: "samp".to_string(),
            set: 0,
            binding: 2,
            count: 1,
            kind: RawDescriptorKind::Sampler,
        },
        RawBinding {
            name: "img".to_string(),
            set: 0,
            binding: 4,
            count: 2,
            kind: RawDescriptorKind::StorageImage,
        },
    ];
    let layout = generate_descriptor_set_layout(&bindings);
    assert_eq!(
        layout,
        vec![
            DescriptorSetLayoutBinding {
                binding: 1,
                count: 1,
                descriptor: LayoutDescriptorType::UniformBuffer,
            },
            DescriptorSetLayoutBinding {
                binding: 4,
                count: 2,
                descriptor: LayoutDescriptorType::StorageImage,
            },
        ]
    );
}

#[test]
fn compute_dispatch_binds_output_even_when_unreflected() {
    // The implicit output image is bound unconditionally, continuing the
    // cursor; an undeclared name gets the sentinel location.
    let r = refl(vec![]);
    let uniforms: Vec<ResolvedShaderUniformHolder> = vec![];
    let key = TextureKey { width: 16, height: 16, format: 2 };
    let plumber = compute_tex_commands(&r, &uniforms, key, 7, (8, 8));
    assert_eq!(
        plumber.commands,
        vec![
            GpuCommand::BindImageTexture { unit: 0, texture_id: 7, location: -1, format: 2 },
            GpuCommand::DispatchCompute { groups_x: 2, groups_y: 2, groups_z: 1 },
            GpuCommand::UnbindImageUnits { first_units: 1 },
        ]
    );
    assert!(plumber.warnings.is_empty());
}

#[test]
fn raster_scenario_draws_once_with_no_units() {
    // A scalar leaf next to a mesh bundle with an index count: one
    // non-indexed draw of 36 vertices, and the plumbed uniforms consume no
    // image, UBO or SSBO unit — only the output slot holds image unit 0.
    let r = refl(vec![
        ("a", 0, BindingKind::ScalarLocation),
        ("outputTex_size", 2, BindingKind::ScalarLocation),
    ]);
    let uniforms = vec![
        ResolvedShaderUniformHolder {
            name: "a".to_string(),
            value: ResolvedShaderUniformValue::Float32Bits(1.0f32.to_bits()),
        },
        ResolvedShaderUniformHolder {
            name: "mesh".to_string(),
            value: ResolvedShaderUniformValue::Bundle(vec![ResolvedShaderUniformHolder {
                name: "mesh_index_count".to_string(),
                value: ResolvedShaderUniformValue::Uint32(36),
            }]),
        },
    ];
    let key = TextureKey { width: 320, height: 200, format: 3 };
    let plumber = raster_tex_commands(&r, &uniforms, key);
    assert_eq!(
        plumber.commands,
        vec![
            GpuCommand::SetTextureSize { location: 2, width: 320, height: 200 },
            GpuCommand::SetScalar { location: 0, value: ScalarValue::Float32Bits(1.0f32.to_bits()) },
            GpuCommand::DrawArrays { vertex_count: 36 },
            GpuCommand::UnbindImageUnits { first_units: 1 },
        ]
    );
    let draws = plumber
        .commands
        .iter()
        .filter(|c| matches!(c, GpuCommand::DrawArrays { .. } | GpuCommand::DrawElements { .. }))
        .count();
    assert_eq!(draws, 1);
    assert_eq!(
        plumber.cursor,
        BindingCursor { image_unit: 1, ubo_unit: 0, ssbo_unit: 0 }
    );
}

use rendertoy::binding::{
    BindingCursor, BlockKind, GpuCommand, ScalarValue, ScopeFrame, ShaderUniformPlumber,
};
use rendertoy::plumber::{plumb_events, PlumberEvent};
use rendertoy::reflection::{BindingKind, ShaderReflection, ShaderUniformReflection};
use rendertoy::uniforms::{
    BufferHandle, ResolvedShaderUniformHolder, ResolvedShaderUniformValue, TextureHandle,
};

fn refl(entries: Vec<(&str, i32, BindingKind)>) -> ShaderReflection {
    ShaderReflection {
        uniforms: entries
            .into_iter()
            .map(|(n, loc, kind)| {
                (n.to_string(), ShaderUniformReflection { location: loc, kind })
            })
            .collect(),
    }
}

fn holder(name: &str, value: ResolvedShaderUniformValue) -> ResolvedShaderUniformHolder {
    ResolvedShaderUniformHolder { name: name.to_string(), value }
}

fn tex(id: u32) -> TextureHandle {
    TextureHandle { texture_id: id, sampler_id: 77, width: 64, height: 32, format: 9 }
}

#[test]
fn ordering_leaves_before_bundles() {
    // Leaves and bundles interleaved: all leaves must come first, in
    // order, then the scopes in order.
    let us = vec![
        holder("bundle_one", ResolvedShaderUniformValue::Bundle(vec![holder(
            "inner",
            ResolvedShaderUniformValue::Uint32(7),
        )])),
        holder("a", ResolvedShaderUniformValue::Uint32(1)),
        holder("bundle_two", ResolvedShaderUniformValue::BundleAsset(vec![])),
        holder("b", ResolvedShaderUniformValue::Int32(-2)),
    ];
    let events = plumb_events(&us);
    let shape: Vec<String> = events
        .iter()
        .map(|e| match e {
            PlumberEvent::SetUniform { name, .. } => format!("set:{}", name),
            PlumberEvent::EnterScope => "enter".to_string(),
            PlumberEvent::LeaveScope => "leave".to_string(),
        })
        .collect();
    assert_eq!(
        shape,
        vec!["set:a", "set:b", "enter", "set:inner", "leave", "enter", "leave"]
    );
}

#[test]
fn scope_balance_empty_stack_at_end() {
    let us = vec![
        holder("outer", ResolvedShaderUniformValue::Bundle(vec![
            holder("mid", ResolvedShaderUniformValue::Bundle(vec![holder(
                "x",
                ResolvedShaderUniformValue::Uint32(3),
            )])),
        ])),
    ];
    let events = plumb_events(&us);
    let enters = events
        .iter()
        .filter(|e| matches!(e, PlumberEvent::EnterScope))
        .count();
    let leaves = events
        .iter()
        .filter(|e| matches!(e, PlumberEvent::LeaveScope))
        .count();
    assert_eq!(enters, 2);
    assert_eq!(enters, leaves);

    let r = refl(vec![("x", 4, BindingKind::ScalarLocation)]);
    let mut plumber = ShaderUniformPlumber::new();
    plumber.plumb(&r, &us);
    assert_eq!(plumber.scope_stack.len(), 0);
}

#[test]
fn monotone_units_across_depths() {
    // Two textures at different nesting depths get distinct, increasing
    // image units; a UBO and an SSBO use their own counters.
    let r = refl(vec![
        ("t1", 0, BindingKind::Sampler2d),
        ("t2", 1, BindingKind::StorageImage2d),
        ("ubo", 2, BindingKind::UniformBlock),
        ("ssbo", 3, BindingKind::StorageBlock),
    ]);
    let us = vec![
        holder("t1", ResolvedShaderUniformValue::TextureAsset(tex(10))),
        holder(
            "ubo",
            ResolvedShaderUniformValue::BufferAsset(BufferHandle {
                buffer_id: 20,
                texture_id: None,
            }),
        ),
        holder("inner", ResolvedShaderUniformValue::Bundle(vec![
            holder("t2", ResolvedShaderUniformValue::TextureAsset(tex(11))),
            holder(
                "ssbo",
                ResolvedShaderUniformValue::BufferAsset(BufferHandle {
                    buffer_id: 21,
                    texture_id: None,
                }),
            ),
        ])),
    ];
    let mut plumber = ShaderUniformPlumber::new();
    plumber.plumb(&r, &us);
    assert_eq!(
        plumber.cursor,
        BindingCursor { image_unit: 2, ubo_unit: 1, ssbo_unit: 1 }
    );
    let image_units: Vec<u32> = plumber
        .commands
        .iter()
        .filter_map(|c| match c {
            GpuCommand::BindSampledTexture { unit, .. } => Some(*unit),
            GpuCommand::BindImageTexture { unit, .. } => Some(*unit),
            _ => None,
        })
        .collect();
    assert_eq!(image_units, vec![0, 1]);
    assert!(plumber.commands.contains(&GpuCommand::BindBufferBase {
        block: BlockKind::UniformBlock,
        unit: 0,
        buffer_id: 20,
    }));
    assert!(plumber.commands.contains(&GpuCommand::BindBufferBase {
        block: BlockKind::StorageBlock,
        unit: 0,
        buffer_id: 21,
    }));
    assert!(plumber.warnings.is_empty());
}

#[test]
fn draw_emission_indexed_nonindexed_and_none() {
    let r = refl(vec![]);
    // Indexed: both reserved names recorded inside the scope.
    let mut p = ShaderUniformPlumber::new();
    p.step(&r, &PlumberEvent::EnterScope);
    p.step(
        &r,
        &PlumberEvent::SetUniform {
            name: "mesh_index_buf".to_string(),
            value: ResolvedShaderUniformValue::BufferAsset(BufferHandle {
                buffer_id: 42,
                texture_id: None,
            }),
        },
    );
    p.step(
        &r,
        &PlumberEvent::SetUniform {
            name: "mesh_index_count".to_string(),
            value: ResolvedShaderUniformValue::Uint32(36),
        },
    );
    p.step(&r, &PlumberEvent::LeaveScope);
    assert_eq!(
        p.commands,
        vec![GpuCommand::DrawElements { index_buffer: 42, index_count: 36 }]
    );
    assert!(p.warnings.is_empty());

    // Count but no buffer: one non-indexed draw.
    let mut p = ShaderUniformPlumber::new();
    p.step(&r, &PlumberEvent::EnterScope);
    p.step(
        &r,
        &PlumberEvent::SetUniform {
            name: "mesh_index_count".to_string(),
            value: ResolvedShaderUniformValue::Uint32(9),
        },
    );
    p.step(&r, &PlumberEvent::LeaveScope);
    assert_eq!(p.commands, vec![GpuCommand::DrawArrays { vertex_count: 9 }]);

    // Neither: no draw.
    let mut p = ShaderUniformPlumber::new();
    p.step(&r, &PlumberEvent::EnterScope);
    p.step(&r, &PlumberEvent::LeaveScope);
    assert!(p.commands.is_empty());
}

#[test]
fn nested_scopes_draw_independently() {
    let r = refl(vec![]);
    let us = vec![holder("outer", ResolvedShaderUniformValue::Bundle(vec![
        holder("mesh_index_count", ResolvedShaderUniformValue::Uint32(6)),
        holder("inner", ResolvedShaderUniformValue::Bundle(vec![holder(
            "mesh_index_count",
            ResolvedShaderUniformValue::Uint32(3),
        )])),
    ]))];
    let mut plumber = ShaderUniformPlumber::new();
    plumber.plumb(&r, &us);
    assert_eq!(
        plumber.commands,
        vec![
            GpuCommand::DrawArrays { vertex_count: 3 },
            GpuCommand::DrawArrays { vertex_count: 6 },
        ]
    );
}

#[test]
fn unsupported_descriptor_warns_and_goes_on() {
    let r = refl(vec![
        ("weird", 5, BindingKind::Unsupported),
        ("after", 6, BindingKind::ScalarLocation),
    ]);
    let us = vec![
        holder("weird", ResolvedShaderUniformValue::Uint32(5)),
        holder("after", ResolvedShaderUniformValue::Uint32(8)),
    ];
    let mut plumber = ShaderUniformPlumber::new();
    plumber.plumb(&r, &us);
    assert_eq!(
        plumber.cursor,
        BindingCursor { image_unit: 0, ubo_unit: 0, ssbo_unit: 0 }
    );
    assert_eq!(plumber.warnings.len(), 1);
    assert_eq!(plumber.warnings[0], "unsupported binding kind for uniform: weird");
    // The traversal went on: the later uniform was still bound.
    assert_eq!(
        plumber.commands,
        vec![GpuCommand::SetScalar { location: 6, value: ScalarValue::Uint32(8) }]
    );
}

#[test]
fn missing_name_warns() {
    let r = refl(vec![]);
    let us = vec![holder("ghostly", ResolvedShaderUniformValue::Int32(-1))];
    let mut plumber = ShaderUniformPlumber::new();
    plumber.plumb(&r, &us);
    assert_eq!(plumber.warnings, vec!["Shader uniform not found: ghostly".to_string()]);
    assert!(plumber.commands.is_empty());
}

#[test]
fn texture_size_companion_is_written() {
    let r = refl(vec![
        ("t", 0, BindingKind::StorageImage2d),
        ("t_size", 1, BindingKind::ScalarLocation),
    ]);
    let us = vec![holder("t", ResolvedShaderUniformValue::TextureAsset(tex(5)))];
    let mut plumber = ShaderUniformPlumber::new();
    plumber.plumb(&r, &us);
    assert_eq!(
        plumber.commands,
        vec![
            GpuCommand::SetTextureSize { location: 1, width: 64, height: 32 },
            GpuCommand::BindImageTexture { unit: 0, texture_id: 5, location: 0, format: 9 },
        ]
    );
}

#[test]
fn sampler_buffer_uses_texture_alias() {
    let r = refl(vec![("buf", 3, BindingKind::SamplerBuffer)]);
    let us = vec![holder(
        "buf",
        ResolvedShaderUniformValue::BufferAsset(BufferHandle {
            buffer_id: 50,
            texture_id: Some(51),
        }),
    )];
    let mut plumber = ShaderUniformPlumber::new();
    plumber.plumb(&r, &us);
    assert_eq!(
        plumber.commands,
        vec![GpuCommand::BindTextureBuffer { unit: 0, texture_id: 51, location: 3 }]
    );
    assert_eq!(plumber.cursor.image_unit, 1);

    // Without the alias: a warning, nothing bound.
    let us = vec![holder(
        "buf",
        ResolvedShaderUniformValue::BufferAsset(BufferHandle { buffer_id: 50, texture_id: None }),
    )];
    let mut plumber = ShaderUniformPlumber::new();
    plumber.plumb(&r, &us);
    assert!(plumber.commands.is_empty());
    assert_eq!(plumber.warnings, vec!["buffer has no texture buffer alias: buf".to_string()]);
}

#[test]
fn reserved_names_not_passed_through() {
    // Even when the reflection declares the reserved names, they populate
    // the scope frame and are not bound.
    let r = refl(vec![
        ("mesh_index_count", 0, BindingKind::ScalarLocation),
        ("mesh_index_buf", 1, BindingKind::UniformBlock),
    ]);
    let us = vec![holder("mesh", ResolvedShaderUniformValue::Bundle(vec![
        holder(
            "mesh_index_buf",
            ResolvedShaderUniformValue::BufferAsset(BufferHandle {
                buffer_id: 8,
                texture_id: None,
            }),
        ),
        holder("mesh_index_count", ResolvedShaderUniformValue::Uint32(12)),
    ]))];
    let mut plumber = ShaderUniformPlumber::new();
    plumber.plumb(&r, &us);
    assert_eq!(
        plumber.commands,
        vec![GpuCommand::DrawElements { index_buffer: 8, index_count: 12 }]
    );
    assert_eq!(plumber.cursor.ubo_unit, 0);
    assert!(plumber.warnings.is_empty());
}

#[test]
fn scope_frames_default_empty() {
    let f = ScopeFrame { index_buffer: None, index_count: None };
    assert_eq!(f.index_buffer, None);
    assert_eq!(f.index_count, None);
}

#[test]
fn empty_bundle_plumbs_to_nothing() {
    let r = refl(vec![]);
    let us: Vec<ResolvedShaderUniformHolder> = vec![];
    assert!(plumb_events(&us).is_empty());
    let mut plumber = ShaderUniformPlumber::default();
    plumber.plumb(&r, &us);
    assert!(plumber.commands.is_empty());
    assert!(plumber.warnings.is_empty());
    assert_eq!(
        plumber.cursor,
        BindingCursor { image_unit: 0, ubo_unit: 0, ssbo_unit: 0 }
    );
}

#[test]
fn largest_index_count_draws() {
    let r = refl(vec![]);
    let us = vec![holder("mesh", ResolvedShaderUniformValue::Bundle(vec![holder(
        "mesh_index_count",
        ResolvedShaderUniformValue::Uint32(u32::MAX),
    )]))];
    let mut plumber = ShaderUniformPlumber::new();
    plumber.plumb(&r, &us);
    assert_eq!(plumber.commands, vec![GpuCommand::DrawArrays { vertex_count: u32::MAX }]);
}

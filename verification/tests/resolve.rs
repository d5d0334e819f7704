use rendertoy::binding::{BindingCursor, GpuCommand, ScalarValue, ShaderUniformPlumber};
use rendertoy::plumber::{plumb_events, PlumberEvent};
use rendertoy::reflection::{BindingKind, ShaderReflection, ShaderUniformReflection};
use rendertoy::resolver::{collect_asset_refs, resolve, AssetStore, FetchedAsset, ResolutionError};
use rendertoy::uniforms::{
    AssetRef, BufferHandle, ResolvedShaderUniformValue, ShaderUniformHolder, ShaderUniformValue,
    TextureHandle,
};

fn refl(entries: Vec<(&str, i32, BindingKind)>) -> ShaderReflection {
    ShaderReflection {
        uniforms: entries
            .into_iter()
            .map(|(n, loc, kind)| {
                (n.to_string(), ShaderUniformReflection { location: loc, kind })
            })
            .collect(),
    }
}

#[test]
fn resolve_and_plumb_scenario() {
    // A float literal next to a nested bundle that records an index count:
    // resolution keeps the shape, plumbing emits the leaf first, then the
    // scope, and the closing scope issues one non-indexed draw of 36
    // vertices with no binding unit consumed.
    let raw = vec![
        ShaderUniformHolder::new("a", ShaderUniformValue::Float32Bits(1.0f32.to_bits())),
        ShaderUniformHolder::new(
            "mesh",
            ShaderUniformValue::Bundle(vec![ShaderUniformHolder::new(
                "mesh_index_count",
                ShaderUniformValue::Uint32(36),
            )]),
        ),
    ];
    let store = AssetStore::new();
    let resolved = resolve(&store, &raw).expect("resolution succeeds");

    assert_eq!(resolved.len(), 2);
    assert_eq!(resolved[0].name(), "a");
    assert!(matches!(
        resolved[0].value(),
        ResolvedShaderUniformValue::Float32Bits(b) if *b == 1.0f32.to_bits()
    ));
    assert_eq!(resolved[1].name(), "mesh");
    match resolved[1].value() {
        ResolvedShaderUniformValue::Bundle(children) => {
            assert_eq!(children.len(), 1);
            assert_eq!(children[0].name(), "mesh_index_count");
            assert!(matches!(
                children[0].value(),
                ResolvedShaderUniformValue::Uint32(36)
            ));
        }
        _ => panic!("bundle shape lost"),
    }

    let events = plumb_events(&resolved);
    assert!(matches!(&events[0], PlumberEvent::SetUniform { name, .. } if name == "a"));
    assert!(matches!(&events[1], PlumberEvent::EnterScope));
    assert!(
        matches!(&events[2], PlumberEvent::SetUniform { name, .. } if name == "mesh_index_count")
    );
    assert!(matches!(&events[3], PlumberEvent::LeaveScope));
    assert_eq!(events.len(), 4);

    let r = refl(vec![("a", 0, BindingKind::ScalarLocation)]);
    let mut plumber = ShaderUniformPlumber::new();
    plumber.plumb(&r, &resolved);
    assert_eq!(
        plumber.commands,
        vec![
            GpuCommand::SetScalar {
                location: 0,
                value: ScalarValue::Float32Bits(1.0f32.to_bits()),
            },
            GpuCommand::DrawArrays { vertex_count: 36 },
        ]
    );
    assert_eq!(
        plumber.cursor,
        BindingCursor { image_unit: 0, ubo_unit: 0, ssbo_unit: 0 }
    );
    assert!(plumber.warnings.is_empty());
}

#[test]
fn fail_fast_on_failing_sibling() {
    // Three sibling asset references; the middle one is missing from the
    // store: the whole resolution returns that failure and no partial
    // bundle is observable.
    let raw = vec![
        ShaderUniformHolder::new("x", ShaderUniformValue::Uint32Asset(AssetRef { id: 1 })),
        ShaderUniformHolder::new("y", ShaderUniformValue::Uint32Asset(AssetRef { id: 2 })),
        ShaderUniformHolder::new("z", ShaderUniformValue::Uint32Asset(AssetRef { id: 3 })),
    ];
    let mut store = AssetStore::new();
    store.insert(1, FetchedAsset::Uint32(10));
    store.insert(3, FetchedAsset::Uint32(30));
    let r = resolve(&store, &raw);
    match r {
        Err(ResolutionError::MissingAsset { id }) => assert_eq!(id, 2),
        _ => panic!("expected the missing middle sibling to fail the resolve"),
    }
}

#[test]
fn literals_pass_through_and_references_fetch() {
    let raw = vec![
        ShaderUniformHolder::new("lit", ShaderUniformValue::Int32(-5)),
        ShaderUniformHolder::new("f", ShaderUniformValue::Float32Asset(AssetRef { id: 7 })),
        ShaderUniformHolder::new("t", ShaderUniformValue::TextureAsset(AssetRef { id: 8 })),
        ShaderUniformHolder::new("b", ShaderUniformValue::BufferAsset(AssetRef { id: 9 })),
        ShaderUniformHolder::new("n", ShaderUniformValue::UsizeAsset(AssetRef { id: 10 })),
    ];
    let mut store = AssetStore::new();
    store.insert(7, FetchedAsset::Float32Bits(2.5f32.to_bits()));
    store.insert(
        8,
        FetchedAsset::Texture(TextureHandle {
            texture_id: 3,
            sampler_id: 4,
            width: 16,
            height: 16,
            format: 1,
        }),
    );
    store.insert(9, FetchedAsset::Buffer(BufferHandle { buffer_id: 6, texture_id: Some(2) }));
    store.insert(10, FetchedAsset::Usize(123));
    let resolved = resolve(&store, &raw).expect("all fetches present");
    assert!(matches!(resolved[0].value(), ResolvedShaderUniformValue::Int32(-5)));
    assert!(matches!(
        resolved[1].value(),
        ResolvedShaderUniformValue::Float32AssetBits(b) if *b == 2.5f32.to_bits()
    ));
    assert!(matches!(
        resolved[2].value(),
        ResolvedShaderUniformValue::TextureAsset(t) if t.texture_id == 3
    ));
    assert!(matches!(
        resolved[3].value(),
        ResolvedShaderUniformValue::BufferAsset(b) if b.buffer_id == 6
    ));
    assert!(matches!(resolved[4].value(), ResolvedShaderUniformValue::UsizeAsset(123)));
}

#[test]
fn wrong_kind_is_reported() {
    let raw = vec![ShaderUniformHolder::new(
        "f",
        ShaderUniformValue::Float32Asset(AssetRef { id: 1 }),
    )];
    let mut store = AssetStore::new();
    store.insert(1, FetchedAsset::Uint32(5));
    assert!(matches!(
        resolve(&store, &raw),
        Err(ResolutionError::WrongKind { id: 1 })
    ));
}

#[test]
fn bundle_asset_resolves_recursively() {
    let raw = vec![ShaderUniformHolder::new(
        "group",
        ShaderUniformValue::BundleAsset(AssetRef { id: 1 }),
    )];
    let mut store = AssetStore::new();
    store.insert(
        1,
        FetchedAsset::Bundle(vec![ShaderUniformHolder::new(
            "inner",
            ShaderUniformValue::Uint32Asset(AssetRef { id: 2 }),
        )]),
    );
    store.insert(2, FetchedAsset::Uint32(99));
    let resolved = resolve(&store, &raw).expect("nested fetch present");
    match resolved[0].value() {
        ResolvedShaderUniformValue::BundleAsset(children) => {
            assert_eq!(children.len(), 1);
            assert!(matches!(
                children[0].value(),
                ResolvedShaderUniformValue::Uint32Asset(99)
            ));
        }
        _ => panic!("bundle asset did not resolve into a bundle"),
    }
}

#[test]
fn cyclic_bundle_reference_is_an_error() {
    // A bundle asset whose fetched bundle references itself: the chain is
    // longer than the store and is reported, not followed forever.
    let raw = vec![ShaderUniformHolder::new(
        "loop_group",
        ShaderUniformValue::BundleAsset(AssetRef { id: 1 }),
    )];
    let mut store = AssetStore::new();
    store.insert(
        1,
        FetchedAsset::Bundle(vec![ShaderUniformHolder::new(
            "again",
            ShaderUniformValue::BundleAsset(AssetRef { id: 1 }),
        )]),
    );
    assert!(matches!(
        resolve(&store, &raw),
        Err(ResolutionError::RecursiveBundle { id: 1 })
    ));
}

#[test]
fn holder_resolve_keeps_name_and_hash_matters_only_for_raw() {
    let h = ShaderUniformHolder::new("v", ShaderUniformValue::Uint32(3));
    let store = AssetStore::new();
    let r = h.resolve(&store).expect("literal resolves");
    assert_eq!(r.name(), "v");
    assert!(matches!(r.value(), ResolvedShaderUniformValue::Uint32(3)));
}

#[test]
fn store_lookup_takes_first_match() {
    let mut store = AssetStore::new();
    store.insert(1, FetchedAsset::Uint32(10));
    store.insert(1, FetchedAsset::Uint32(20));
    let raw = vec![ShaderUniformHolder::new(
        "x",
        ShaderUniformValue::Uint32Asset(AssetRef { id: 1 }),
    )];
    let resolved = resolve(&store, &raw).expect("present");
    assert!(matches!(resolved[0].value(), ResolvedShaderUniformValue::Uint32Asset(10)));
}

#[test]
fn fingerprints_are_stable_and_shallow() {
    let a1 = ShaderUniformHolder::new("a", ShaderUniformValue::Uint32(1));
    let a2 = ShaderUniformHolder::new("a", ShaderUniformValue::Uint32(1));
    assert_eq!(a1.shallow_hash(), a2.shallow_hash());

    let b = ShaderUniformHolder::new("a", ShaderUniformValue::Uint32(2));
    assert_ne!(a1.shallow_hash(), b.shallow_hash());

    // A reference is fingerprinted by its key, not by the fetched content.
    let r1 = ShaderUniformHolder::new("r", ShaderUniformValue::BundleAsset(AssetRef { id: 4 }));
    let r2 = ShaderUniformHolder::new("r", ShaderUniformValue::BundleAsset(AssetRef { id: 4 }));
    assert_eq!(r1.shallow_hash(), r2.shallow_hash());

    // Bundle children contribute their names and values.
    let c1 = ShaderUniformHolder::new(
        "g",
        ShaderUniformValue::Bundle(vec![ShaderUniformHolder::new(
            "x",
            ShaderUniformValue::Uint32(1),
        )]),
    );
    let c2 = ShaderUniformHolder::new(
        "g",
        ShaderUniformValue::Bundle(vec![ShaderUniformHolder::new(
            "y",
            ShaderUniformValue::Uint32(1),
        )]),
    );
    assert_ne!(c1.shallow_hash(), c2.shallow_hash());
}

#[test]
fn fetch_plan_lists_references_in_tree_order() {
    let raw = vec![
        ShaderUniformHolder::new("lit", ShaderUniformValue::Uint32(1)),
        ShaderUniformHolder::new("t", ShaderUniformValue::TextureAsset(AssetRef { id: 5 })),
        ShaderUniformHolder::new(
            "group",
            ShaderUniformValue::Bundle(vec![
                ShaderUniformHolder::new("f", ShaderUniformValue::Float32Asset(AssetRef { id: 2 })),
                ShaderUniformHolder::new("b", ShaderUniformValue::BundleAsset(AssetRef { id: 9 })),
            ]),
        ),
        ShaderUniformHolder::new("u", ShaderUniformValue::Uint32Asset(AssetRef { id: 7 })),
    ];
    assert_eq!(collect_asset_refs(&raw), vec![5, 2, 9, 7]);
}

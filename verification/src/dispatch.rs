//! Dispatch and draw orchestration: the ordered command sequences of one
//! compute dispatch or one raster draw.
//!
//! A compute dispatch plumbs the resolved uniforms, binds one implicit
//! output image continuing the same cursor, sizes the dispatch by ceiling
//! division of the target resolution by the declared work-group size, and
//! unbinds every image unit handed out.  A raster draw writes the output
//! size, plumbs the uniforms — whose scope machine issues the batched
//! draws — and unbinds likewise; the transient render targets and the
//! fixed-function state stay with the caller that owns the context.

use crate::binding::GpuCommand;
use crate::binding::PlumberModel;
use crate::binding::ShaderUniformPlumber;
use crate::binding::count_set_events;
use crate::binding::initial_model;
use crate::binding::run_model;
use crate::binding::with_command;
use crate::plumber::plumb_events_model;
use crate::reflection::ShaderReflection;
use crate::reflection::ShaderUniformReflection;
use crate::reflection::lookup_entries;
use crate::uniforms::ResolvedHolderModel;
use crate::uniforms::ResolvedShaderUniformHolder;
use crate::uniforms::resolved_bundle_model;
use vstd::prelude::*;
use vstd::string::StringExecFns;

verus! {

/// The shape of a render target: extent and pixel format.
#[derive(Clone, Copy, Debug, PartialEq, Eq, Structural)]
pub struct TextureKey {
    pub width: u32,
    pub height: u32,
    pub format: u32,
}

pub open spec fn div_ceil_spec(a: int, b: int) -> int {
    (a + b - 1) / b
}

/// Ceiling division, for sizing a dispatch by its work-group size.
pub fn div_ceil_u32(a: u32, b: u32) -> (r: u32)
    requires
        b > 0,
    ensures
        r == div_ceil_spec(a as int, b as int),
{
    let q = ((a as u64) + (b as u64) - 1) / (b as u64);
    proof {
        assert(q <= a as u64) by (nonlinear_arith)
            requires
                q == ((a as u64) + (b as u64) - 1) as int / (b as u64) as int,
                b > 0,
        ;
    }
    q as u32
}

/// The implicit output-image binding of a compute dispatch: always one
/// more image unit on the same cursor — a reflection that does not declare
/// `outputTex` yields the sentinel location -1, which the device API
/// ignores — plus the output's size companion, then the dispatch itself
/// and the final unbind pass.
pub open spec fn dispatch_tail_model(
    s: PlumberModel,
    refl: Seq<(String, ShaderUniformReflection)>,
    key: TextureKey,
    output_texture_id: u32,
    work_group: (u32, u32),
) -> PlumberModel {
    let loc: i32 = match lookup_entries(refl, "outputTex"@) {
        Some(d) => d.location,
        None => -1i32,
    };
    let s1 = PlumberModel {
        image_unit: s.image_unit + 1,
        commands: s.commands.push(
            GpuCommand::BindImageTexture {
                unit: s.image_unit as u32,
                texture_id: output_texture_id,
                location: loc,
                format: key.format,
            },
        ),
        ..s
    };
    let s2 = match lookup_entries(refl, "outputTex_size"@) {
        Some(d) => with_command(
            s1,
            GpuCommand::SetTextureSize { location: d.location, width: key.width, height: key.height },
        ),
        None => s1,
    };
    let s3 = with_command(
        s2,
        GpuCommand::DispatchCompute {
            groups_x: div_ceil_spec(key.width as int, work_group.0 as int) as u32,
            groups_y: div_ceil_spec(key.height as int, work_group.1 as int) as u32,
            groups_z: 1,
        },
    );
    with_command(s3, GpuCommand::UnbindImageUnits { first_units: s3.image_unit as u32 })
}

/// The whole machine state of one compute dispatch over `us`.
pub open spec fn compute_tex_model(
    refl: Seq<(String, ShaderUniformReflection)>,
    us: Seq<ResolvedHolderModel>,
    key: TextureKey,
    output_texture_id: u32,
    work_group: (u32, u32),
) -> PlumberModel {
    dispatch_tail_model(
        run_model(initial_model(), refl, plumb_events_model(us)),
        refl,
        key,
        output_texture_id,
        work_group,
    )
}

/// Generates the ordered command sequence of one compute dispatch: plumb
/// the resolved uniforms from a fresh cursor, bind the output image on the
/// next image unit of the same cursor, write the output size where the
/// shader declares it, dispatch by ceiling-divided resolution, unbind all
/// image units handed out.
pub fn compute_tex_commands(
    reflection: &ShaderReflection,
    uniforms: &Vec<ResolvedShaderUniformHolder>,
    key: TextureKey,
    output_texture_id: u32,
    work_group: (u32, u32),
) -> (r: ShaderUniformPlumber)
    requires
        work_group.0 > 0,
        work_group.1 > 0,
        count_set_events(plumb_events_model(resolved_bundle_model(*uniforms))) < u32::MAX,
    ensures
        r@ == compute_tex_model(
            reflection.uniforms@,
            resolved_bundle_model(*uniforms),
            key,
            output_texture_id,
            work_group,
        ),
{
    let mut plumber = ShaderUniformPlumber::new();
    plumber.plumb(reflection, uniforms);
    proof {
        crate::laws::lemma_run_units_bound(
            initial_model(),
            reflection.uniforms@,
            plumb_events_model(resolved_bundle_model(*uniforms)),
        );
    }
    let out_name = String::from_str("outputTex");
    let location = match reflection.lookup(&out_name) {
        Some(d) => d.location,
        None => -1,
    };
    plumber.commands.push(
        GpuCommand::BindImageTexture {
            unit: plumber.cursor.image_unit,
            texture_id: output_texture_id,
            location,
            format: key.format,
        },
    );
    plumber.cursor.image_unit = plumber.cursor.image_unit + 1;
    let size_name = String::from_str("outputTex_size");
    match reflection.lookup(&size_name) {
        Some(d) => {
            plumber.commands.push(
                GpuCommand::SetTextureSize {
                    location: d.location,
                    width: key.width,
                    height: key.height,
                },
            );
        },
        None => {
        },
    }
    plumber.commands.push(
        GpuCommand::DispatchCompute {
            groups_x: div_ceil_u32(key.width, work_group.0),
            groups_y: div_ceil_u32(key.height, work_group.1),
            groups_z: 1,
        },
    );
    plumber.commands.push(
        GpuCommand::UnbindImageUnits { first_units: plumber.cursor.image_unit },
    );
    proof {
        assert(plumber@ =~= compute_tex_model(
            reflection.uniforms@,
            resolved_bundle_model(*uniforms),
            key,
            output_texture_id,
            work_group,
        ));
    }
    plumber
}

/// The machine state a raster draw starts from: the output size written
/// where the shader declares it, and the first image unit held by the
/// output texture's slot.
pub open spec fn raster_prelude_model(
    refl: Seq<(String, ShaderUniformReflection)>,
    key: TextureKey,
) -> PlumberModel {
    let s1 = match lookup_entries(refl, "outputTex_size"@) {
        Some(d) => with_command(
            initial_model(),
            GpuCommand::SetTextureSize { location: d.location, width: key.width, height: key.height },
        ),
        None => initial_model(),
    };
    PlumberModel { image_unit: 1, ..s1 }
}

/// The whole machine state of one raster draw over `us`: the scope
/// machine inside the run issues the batched draws.
pub open spec fn raster_tex_model(
    refl: Seq<(String, ShaderUniformReflection)>,
    us: Seq<ResolvedHolderModel>,
    key: TextureKey,
) -> PlumberModel {
    let s = run_model(raster_prelude_model(refl, key), refl, plumb_events_model(us));
    with_command(s, GpuCommand::UnbindImageUnits { first_units: s.image_unit as u32 })
}

/// Generates the ordered command sequence of one raster draw.
pub fn raster_tex_commands(
    reflection: &ShaderReflection,
    uniforms: &Vec<ResolvedShaderUniformHolder>,
    key: TextureKey,
) -> (r: ShaderUniformPlumber)
    requires
        count_set_events(plumb_events_model(resolved_bundle_model(*uniforms))) < u32::MAX - 1,
    ensures
        r@ == raster_tex_model(reflection.uniforms@, resolved_bundle_model(*uniforms), key),
{
    let mut plumber = ShaderUniformPlumber::new();
    let size_name = String::from_str("outputTex_size");
    match reflection.lookup(&size_name) {
        Some(d) => {
            plumber.commands.push(
                GpuCommand::SetTextureSize {
                    location: d.location,
                    width: key.width,
                    height: key.height,
                },
            );
        },
        None => {
        },
    }
    plumber.cursor.image_unit = 1;
    proof {
        assert(plumber@ =~= raster_prelude_model(reflection.uniforms@, key));
        crate::laws::lemma_run_units_bound(
            raster_prelude_model(reflection.uniforms@, key),
            reflection.uniforms@,
            plumb_events_model(resolved_bundle_model(*uniforms)),
        );
    }
    plumber.plumb(reflection, uniforms);
    plumber.commands.push(
        GpuCommand::UnbindImageUnits { first_units: plumber.cursor.image_unit },
    );
    proof {
        assert(plumber@ =~= raster_tex_model(
            reflection.uniforms@,
            resolved_bundle_model(*uniforms),
            key,
        ));
    }
    plumber
}

} // verus!

//! The uniform value model: a tree of named values that mixes literal
//! scalars, references to externally computed assets, and nested bundles.
//!
//! Raw values (`ShaderUniformValue`) may contain asset references; resolved
//! values (`ResolvedShaderUniformValue`) mirror them with every reference
//! replaced by its fetched concrete value.  Scalars that are floating-point
//! on the GPU side are carried as their IEEE-754 bit patterns, so that the
//! model stays purely integral.

use vstd::prelude::*;
use vstd::string::StrSliceExecFns;
use vstd::string::StringExecFns;

verus! {

broadcast use vstd::std_specs::vec::group_vec_axioms;

/// Identifies an externally computed asset in the surrounding dependency
/// graph.  The graph addresses assets by a stable integer key.
#[derive(Clone, Copy, Debug, PartialEq, Eq, Structural)]
pub struct AssetRef {
    pub id: u64,
}

/// Handle record for a fetched texture asset.
#[derive(Clone, Copy, Debug, PartialEq, Eq, Structural)]
pub struct TextureHandle {
    pub texture_id: u32,
    pub sampler_id: u32,
    pub width: u32,
    pub height: u32,
    pub format: u32,
}

/// Handle record for a fetched buffer asset.  `texture_id` is present when
/// the buffer also has a texture-buffer alias that samplers can read.
#[derive(Clone, Copy, Debug, PartialEq, Eq)]
pub struct BufferHandle {
    pub buffer_id: u32,
    pub texture_id: Option<u32>,
}

/// A raw uniform value: scalar literals, asset references, or a nested
/// bundle of named values.  `Float32Bits` carries the bit pattern of a
/// 32-bit float literal.
#[derive(Debug)]
pub enum ShaderUniformValue {
    Float32Bits(u32),
    Uint32(u32),
    Int32(i32),
    Ivec2(i32, i32),
    Bundle(Vec<ShaderUniformHolder>),
    Float32Asset(AssetRef),
    Uint32Asset(AssetRef),
    UsizeAsset(AssetRef),
    TextureAsset(AssetRef),
    BufferAsset(AssetRef),
    BundleAsset(AssetRef),
}

/// A named raw uniform value together with its shallow content fingerprint.
#[derive(Debug)]
pub struct ShaderUniformHolder {
    pub name: String,
    pub value: ShaderUniformValue,
    pub shallow_hash: u64,
}

pub type ShaderUniformBundle = Vec<ShaderUniformHolder>;

/// A resolved uniform value: every asset reference of the raw form has been
/// replaced by the fetched concrete value.
pub enum ResolvedShaderUniformValue {
    Float32Bits(u32),
    Uint32(u32),
    Int32(i32),
    Ivec2(i32, i32),
    Bundle(Vec<ResolvedShaderUniformHolder>),
    Float32AssetBits(u32),
    Uint32Asset(u32),
    UsizeAsset(usize),
    TextureAsset(TextureHandle),
    BufferAsset(BufferHandle),
    BundleAsset(Vec<ResolvedShaderUniformHolder>),
}

/// A named resolved uniform value.
pub struct ResolvedShaderUniformHolder {
    pub name: String,
    pub value: ResolvedShaderUniformValue,
}

pub type ResolvedShaderUniformBundle = Vec<ResolvedShaderUniformHolder>;

/// Mathematical model of a raw uniform value.
pub enum UniformValueModel {
    Float32Bits(u32),
    Uint32(u32),
    Int32(i32),
    Ivec2(i32, i32),
    Bundle(Seq<UniformHolderModel>),
    Float32Asset(u64),
    Uint32Asset(u64),
    UsizeAsset(u64),
    TextureAsset(u64),
    BufferAsset(u64),
    BundleAsset(u64),
}

/// Mathematical model of a named raw uniform value.
pub struct UniformHolderModel {
    pub name: Seq<char>,
    pub value: UniformValueModel,
    pub shallow_hash: u64,
}

/// Mathematical model of a resolved uniform value.
pub enum ResolvedValueModel {
    Float32Bits(u32),
    Uint32(u32),
    Int32(i32),
    Ivec2(i32, i32),
    Bundle(Seq<ResolvedHolderModel>),
    Float32AssetBits(u32),
    Uint32Asset(u32),
    UsizeAsset(usize),
    TextureAsset(TextureHandle),
    BufferAsset(BufferHandle),
    BundleAsset(Seq<ResolvedHolderModel>),
}

/// Mathematical model of a named resolved uniform value.
pub struct ResolvedHolderModel {
    pub name: Seq<char>,
    pub value: ResolvedValueModel,
}

pub open spec fn holder_model(h: ShaderUniformHolder) -> UniformHolderModel
    decreases h,
{
    UniformHolderModel { name: h.name@, value: value_model(h.value), shallow_hash: h.shallow_hash }
}

pub open spec fn bundle_model(us: Vec<ShaderUniformHolder>) -> Seq<UniformHolderModel>
    decreases us,
{
    Seq::new(
        us.len() as nat,
        |i: int|
            if 0 <= i < us.len() {
                holder_model(us[i])
            } else {
                arbitrary()
            },
    )
}

pub open spec fn value_model(v: ShaderUniformValue) -> UniformValueModel
    decreases v,
{
    match v {
        ShaderUniformValue::Float32Bits(b) => UniformValueModel::Float32Bits(b),
        ShaderUniformValue::Uint32(x) => UniformValueModel::Uint32(x),
        ShaderUniformValue::Int32(x) => UniformValueModel::Int32(x),
        ShaderUniformValue::Ivec2(x, y) => UniformValueModel::Ivec2(x, y),
        ShaderUniformValue::Bundle(us) => UniformValueModel::Bundle(bundle_model(us)),
        ShaderUniformValue::Float32Asset(r) => UniformValueModel::Float32Asset(r.id),
        ShaderUniformValue::Uint32Asset(r) => UniformValueModel::Uint32Asset(r.id),
        ShaderUniformValue::UsizeAsset(r) => UniformValueModel::UsizeAsset(r.id),
        ShaderUniformValue::TextureAsset(r) => UniformValueModel::TextureAsset(r.id),
        ShaderUniformValue::BufferAsset(r) => UniformValueModel::BufferAsset(r.id),
        ShaderUniformValue::BundleAsset(r) => UniformValueModel::BundleAsset(r.id),
    }
}

pub open spec fn resolved_holder_model(h: ResolvedShaderUniformHolder) -> ResolvedHolderModel
    decreases h,
{
    ResolvedHolderModel { name: h.name@, value: resolved_value_model(h.value) }
}

pub open spec fn resolved_bundle_model(
    us: Vec<ResolvedShaderUniformHolder>,
) -> Seq<ResolvedHolderModel>
    decreases us,
{
    Seq::new(
        us.len() as nat,
        |i: int|
            if 0 <= i < us.len() {
                resolved_holder_model(us[i])
            } else {
                arbitrary()
            },
    )
}

pub open spec fn resolved_value_model(v: ResolvedShaderUniformValue) -> ResolvedValueModel
    decreases v,
{
    match v {
        ResolvedShaderUniformValue::Float32Bits(b) => ResolvedValueModel::Float32Bits(b),
        ResolvedShaderUniformValue::Uint32(x) => ResolvedValueModel::Uint32(x),
        ResolvedShaderUniformValue::Int32(x) => ResolvedValueModel::Int32(x),
        ResolvedShaderUniformValue::Ivec2(x, y) => ResolvedValueModel::Ivec2(x, y),
        ResolvedShaderUniformValue::Bundle(us) => ResolvedValueModel::Bundle(
            resolved_bundle_model(us),
        ),
        ResolvedShaderUniformValue::Float32AssetBits(b) => ResolvedValueModel::Float32AssetBits(b),
        ResolvedShaderUniformValue::Uint32Asset(x) => ResolvedValueModel::Uint32Asset(x),
        ResolvedShaderUniformValue::UsizeAsset(x) => ResolvedValueModel::UsizeAsset(x),
        ResolvedShaderUniformValue::TextureAsset(t) => ResolvedValueModel::TextureAsset(t),
        ResolvedShaderUniformValue::BufferAsset(b) => ResolvedValueModel::BufferAsset(b),
        ResolvedShaderUniformValue::BundleAsset(us) => ResolvedValueModel::BundleAsset(
            resolved_bundle_model(us),
        ),
    }
}

/// Model of a sequence of resolved holders, independent of any vector.
pub open spec fn resolved_seq_model(
    us: Seq<ResolvedShaderUniformHolder>,
) -> Seq<ResolvedHolderModel> {
    Seq::new(us.len(), |i: int| resolved_holder_model(us[i]))
}

impl View for ShaderUniformHolder {
    type V = UniformHolderModel;

    open spec fn view(&self) -> UniformHolderModel {
        holder_model(*self)
    }
}

impl View for ShaderUniformValue {
    type V = UniformValueModel;

    open spec fn view(&self) -> UniformValueModel {
        value_model(*self)
    }
}

impl View for ResolvedShaderUniformHolder {
    type V = ResolvedHolderModel;

    open spec fn view(&self) -> ResolvedHolderModel {
        resolved_holder_model(*self)
    }
}

impl View for ResolvedShaderUniformValue {
    type V = ResolvedValueModel;

    open spec fn view(&self) -> ResolvedValueModel {
        resolved_value_model(*self)
    }
}

impl ShaderUniformHolder {
    /// The name under which the value is plumbed; empty for anonymous
    /// bundle children.
    pub fn name(&self) -> (r: &String)
        ensures
            r@ == self@.name,
    {
        &self.name
    }

    pub fn value(&self) -> (r: &ShaderUniformValue)
        ensures
            r@ == self@.value,
    {
        &self.value
    }

    /// The shallow content fingerprint recorded at construction.
    pub fn shallow_hash(&self) -> (r: u64)
        ensures
            r == self@.shallow_hash,
    {
        self.shallow_hash
    }
}

impl ResolvedShaderUniformHolder {
    pub fn name(&self) -> (r: &String)
        ensures
            r@ == self@.name,
    {
        &self.name
    }

    pub fn value(&self) -> (r: &ResolvedShaderUniformValue)
        ensures
            r@ == self@.value,
    {
        &self.value
    }
}

/// Seed and multiplier of the fingerprint mix, the common 64-bit FNV-1a
/// parameters.
pub const FINGERPRINT_SEED: u64 = 0xcbf29ce484222325;

pub const FINGERPRINT_PRIME: u64 = 0x100000001b3;

/// One fingerprint mixing step.
pub open spec fn mix64(h: u64, x: u64) -> u64 {
    vstd::wrapping::u64_specs::wrapping_mul(h ^ x, FINGERPRINT_PRIME)
}

/// Mixes a string into the fingerprint, one character at a time.
pub open spec fn mix_chars(h: u64, s: Seq<char>) -> u64
    decreases s.len(),
{
    if s.len() == 0 {
        h
    } else {
        mix_chars(mix64(h, s[0] as u64), s.drop_first())
    }
}

/// The shallow content fingerprint of a raw value: a stable hash over the
/// value's own tag and payload, reference keys as keys (never the fetched
/// content), and bundle children by name and value.
pub open spec fn fingerprint_value(h: u64, v: UniformValueModel) -> u64
    decreases v, 1int,
{
    match v {
        UniformValueModel::Float32Bits(b) => mix64(mix64(h, 1), b as u64),
        UniformValueModel::Uint32(x) => mix64(mix64(h, 2), x as u64),
        UniformValueModel::Int32(x) => mix64(mix64(h, 3), x as u64),
        UniformValueModel::Ivec2(x, y) => mix64(mix64(mix64(h, 4), x as u64), y as u64),
        UniformValueModel::Bundle(us) => fingerprint_bundle(mix64(h, 5), us),
        UniformValueModel::Float32Asset(id) => mix64(mix64(h, 6), id),
        UniformValueModel::Uint32Asset(id) => mix64(mix64(h, 7), id),
        UniformValueModel::UsizeAsset(id) => mix64(mix64(h, 8), id),
        UniformValueModel::TextureAsset(id) => mix64(mix64(h, 9), id),
        UniformValueModel::BufferAsset(id) => mix64(mix64(h, 10), id),
        UniformValueModel::BundleAsset(id) => mix64(mix64(h, 11), id),
    }
}

pub open spec fn fingerprint_holder(h: u64, x: UniformHolderModel) -> u64
    decreases x, 2int,
{
    fingerprint_value(mix_chars(mix64(h, 12), x.name), x.value)
}

pub open spec fn fingerprint_bundle(h: u64, us: Seq<UniformHolderModel>) -> u64
    decreases us, 0int,
{
    if us.len() == 0 {
        h
    } else {
        fingerprint_bundle(fingerprint_holder(h, us[0]), us.drop_first())
    }
}

pub open spec fn fingerprint(v: UniformValueModel) -> u64 {
    fingerprint_value(FINGERPRINT_SEED, v)
}

fn mix64_exec(h: u64, x: u64) -> (r: u64)
    ensures
        r == mix64(h, x),
{
    (h ^ x).wrapping_mul(FINGERPRINT_PRIME)
}

fn mix_str(h: u64, s: &str) -> (r: u64)
    ensures
        r == mix_chars(h, s@),
{
    let n = s.unicode_len();
    let mut acc = h;
    let mut i: usize = 0;
    proof {
        assert(s@.skip(0) =~= s@);
    }
    while i < n
        invariant
            0 <= i <= n,
            n == s@.len(),
            mix_chars(acc, s@.skip(i as int)) == mix_chars(h, s@),
        decreases n - i,
    {
        let c = s.get_char(i);
        proof {
            assert(s@.skip(i as int)[0] == s@[i as int]);
            assert(s@.skip(i as int).drop_first() =~= s@.skip(i as int + 1));
        }
        acc = mix64_exec(acc, c as u64);
        i = i + 1;
    }
    proof {
        assert(s@.skip(n as int) =~= Seq::<char>::empty());
    }
    acc
}

fn fingerprint_value_exec(h: u64, v: &ShaderUniformValue) -> (r: u64)
    ensures
        r == fingerprint_value(h, value_model(*v)),
    decreases *v, 1int,
{
    match v {
        ShaderUniformValue::Float32Bits(b) => mix64_exec(mix64_exec(h, 1), *b as u64),
        ShaderUniformValue::Uint32(x) => mix64_exec(mix64_exec(h, 2), *x as u64),
        ShaderUniformValue::Int32(x) => mix64_exec(
            mix64_exec(h, 3),
            #[verifier::truncate] (*x as u64),
        ),
        ShaderUniformValue::Ivec2(x, y) => mix64_exec(
            mix64_exec(mix64_exec(h, 4), #[verifier::truncate] (*x as u64)),
            #[verifier::truncate] (*y as u64),
        ),
        ShaderUniformValue::Bundle(us) => {
            proof {
                assert(decreases_to!(*v => *us));
            }
            fingerprint_bundle_exec(mix64_exec(h, 5), us)
        },
        ShaderUniformValue::Float32Asset(a) => mix64_exec(mix64_exec(h, 6), a.id),
        ShaderUniformValue::Uint32Asset(a) => mix64_exec(mix64_exec(h, 7), a.id),
        ShaderUniformValue::UsizeAsset(a) => mix64_exec(mix64_exec(h, 8), a.id),
        ShaderUniformValue::TextureAsset(a) => mix64_exec(mix64_exec(h, 9), a.id),
        ShaderUniformValue::BufferAsset(a) => mix64_exec(mix64_exec(h, 10), a.id),
        ShaderUniformValue::BundleAsset(a) => mix64_exec(mix64_exec(h, 11), a.id),
    }
}

fn fingerprint_holder_exec(h: u64, x: &ShaderUniformHolder) -> (r: u64)
    ensures
        r == fingerprint_holder(h, holder_model(*x)),
    decreases *x, 2int,
{
    fingerprint_value_exec(mix_str(mix64_exec(h, 12), x.name.as_str()), &x.value)
}

fn fingerprint_bundle_exec(h: u64, us: &Vec<ShaderUniformHolder>) -> (r: u64)
    ensures
        r == fingerprint_bundle(h, bundle_model(*us)),
    decreases *us, 0int,
{
    let ghost m = bundle_model(*us);
    let n = us.len();
    let mut acc = h;
    let mut i: usize = 0;
    proof {
        assert(m.skip(0) =~= m);
    }
    while i < n
        invariant
            0 <= i <= n,
            n == us.len(),
            m == bundle_model(*us),
            fingerprint_bundle(acc, m.skip(i as int)) == fingerprint_bundle(h, m),
        decreases n - i,
    {
        proof {
            assert(m.skip(i as int)[0] == m[i as int]);
            assert(m.skip(i as int).drop_first() =~= m.skip(i as int + 1));
            assert(decreases_to!(*us => us@[i as int]));
        }
        acc = fingerprint_holder_exec(acc, &us[i]);
        i = i + 1;
    }
    proof {
        assert(m.skip(n as int) =~= Seq::<UniformHolderModel>::empty());
    }
    acc
}

impl ShaderUniformHolder {
    /// Builds a named holder, recording the value's shallow fingerprint.
    pub fn from_name_value(name: &str, value: ShaderUniformValue) -> (r: ShaderUniformHolder)
        ensures
            r@.name == name@,
            r@.value == value_model(value),
            r@.shallow_hash == fingerprint(value_model(value)),
    {
        let shallow_hash = fingerprint_value_exec(FINGERPRINT_SEED, &value);
        ShaderUniformHolder { name: String::from_str(name), value, shallow_hash }
    }

    /// Builds a named holder; anonymous bundle children carry the empty
    /// name.
    pub fn new(name: &str, value: ShaderUniformValue) -> (r: ShaderUniformHolder)
        ensures
            r@.name == name@,
            r@.value == value_model(value),
            r@.shallow_hash == fingerprint(value_model(value)),
    {
        Self::from_name_value(name, value)
    }
}

} // verus!

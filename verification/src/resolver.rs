//! Resolution of a raw uniform tree against an asset store.
//!
//! The surrounding dependency graph fetches assets concurrently; what the
//! library verifies is the resolution itself: literals pass through
//! unchanged, asset references are replaced by the fetched value of the
//! right kind, nested bundles recurse, and the resolved tree has the same
//! shape and order as the raw tree.  Resolution is fail-fast: the first
//! failing reference, in tree order, fails the whole call and no partial
//! resolved tree is produced.
//!
//! A fetched bundle may itself hold further asset references.  Any acyclic
//! chain of bundle fetches visits distinct store keys, so a chain longer
//! than the store is necessarily cyclic and resolution reports it as an
//! error instead of recursing forever.

use crate::uniforms::BufferHandle;
use crate::uniforms::ResolvedHolderModel;
use crate::uniforms::ResolvedShaderUniformHolder;
use crate::uniforms::ResolvedShaderUniformValue;
use crate::uniforms::ResolvedValueModel;
use crate::uniforms::ShaderUniformHolder;
use crate::uniforms::ShaderUniformValue;
use crate::uniforms::TextureHandle;
use crate::uniforms::UniformHolderModel;
use crate::uniforms::UniformValueModel;
use crate::uniforms::bundle_model;
use crate::uniforms::resolved_seq_model;
use crate::uniforms::holder_model;
use crate::uniforms::value_model;
use vstd::prelude::*;

verus! {

broadcast use vstd::std_specs::vec::group_vec_axioms;

/// Why a resolution failed.
#[derive(Clone, Copy, Debug, PartialEq, Eq, Structural)]
pub enum ResolutionError {
    /// The store holds nothing under the referenced key.
    MissingAsset { id: u64 },
    /// The store holds a value of another kind than the reference asks for.
    WrongKind { id: u64 },
    /// A chain of bundle fetches longer than the store: necessarily cyclic.
    RecursiveBundle { id: u64 },
}

/// A value fetched from the asset store.  A fetched bundle is a raw
/// bundle: it may hold further references and is resolved in turn.
pub enum FetchedAsset {
    Float32Bits(u32),
    Uint32(u32),
    Usize(usize),
    Texture(TextureHandle),
    Buffer(BufferHandle),
    Bundle(Vec<ShaderUniformHolder>),
}

/// Mathematical model of a fetched value.
pub enum FetchedModel {
    Float32Bits(u32),
    Uint32(u32),
    Usize(usize),
    Texture(TextureHandle),
    Buffer(BufferHandle),
    Bundle(Seq<UniformHolderModel>),
}

pub open spec fn fetched_model(a: FetchedAsset) -> FetchedModel {
    match a {
        FetchedAsset::Float32Bits(b) => FetchedModel::Float32Bits(b),
        FetchedAsset::Uint32(x) => FetchedModel::Uint32(x),
        FetchedAsset::Usize(x) => FetchedModel::Usize(x),
        FetchedAsset::Texture(t) => FetchedModel::Texture(t),
        FetchedAsset::Buffer(b) => FetchedModel::Buffer(b),
        FetchedAsset::Bundle(us) => FetchedModel::Bundle(bundle_model(us)),
    }
}

impl View for FetchedAsset {
    type V = FetchedModel;

    open spec fn view(&self) -> FetchedModel {
        fetched_model(*self)
    }
}

/// The asset store: fetched values keyed by asset id; lookup returns the
/// first entry with the given key.
pub struct AssetStore {
    pub entries: Vec<(u64, FetchedAsset)>,
}

pub open spec fn store_model(entries: Seq<(u64, FetchedAsset)>) -> Seq<(u64, FetchedModel)> {
    entries.map_values(|p: (u64, FetchedAsset)| (p.0, fetched_model(p.1)))
}

/// First-match lookup in the store.
pub open spec fn lookup_asset(s: Seq<(u64, FetchedModel)>, id: u64) -> Option<FetchedModel>
    decreases s.len(),
{
    if s.len() == 0 {
        None
    } else if s[0].0 == id {
        Some(s[0].1)
    } else {
        lookup_asset(s.drop_first(), id)
    }
}

impl AssetStore {
    pub open spec fn model(&self) -> Seq<(u64, FetchedModel)> {
        store_model(self.entries@)
    }

    pub fn new() -> (r: Self)
        ensures
            r.model() == Seq::<(u64, FetchedModel)>::empty(),
    {
        let r = AssetStore { entries: Vec::new() };
        proof {
            assert(r.model() =~= Seq::<(u64, FetchedModel)>::empty());
        }
        r
    }

    /// Puts a fetched value into the store under `id`; an earlier entry
    /// under the same key keeps priority, as lookup takes the first match.
    pub fn insert(&mut self, id: u64, value: FetchedAsset)
        ensures
            final(self).model() == old(self).model().push((id, value@)),
    {
        self.entries.push((id, value));
        proof {
            assert(final(self).model() =~= old(self).model().push((id, value@)));
        }
    }

    pub fn get(&self, id: u64) -> (r: Option<&FetchedAsset>)
        ensures
            match r {
                Some(a) => lookup_asset(self.model(), id) == Some(a@),
                None => lookup_asset(self.model(), id) is None,
            },
    {
        let n = self.entries.len();
        let mut i: usize = 0;
        proof {
            assert(self.model().skip(0) =~= self.model());
        }
        while i < n
            invariant
                0 <= i <= n,
                n == self.entries.len(),
                lookup_asset(self.model().skip(i as int), id) == lookup_asset(self.model(), id),
            decreases n - i,
        {
            proof {
                assert(self.model().skip(i as int)[0] == self.model()[i as int]);
            }
            if self.entries[i].0 == id {
                return Some(&self.entries[i].1);
            }
            proof {
                assert(self.model().skip(i as int).drop_first() =~= self.model().skip(i as int + 1));
            }
            i = i + 1;
        }
        proof {
            assert(self.model().skip(n as int) =~= Seq::<(u64, FetchedModel)>::empty());
        }
        None
    }
}

/// Resolution of one raw value, as a function of the store's contents.
pub open spec fn resolve_value_spec(
    v: UniformValueModel,
    store: Seq<(u64, FetchedModel)>,
    fuel: nat,
) -> Result<ResolvedValueModel, ResolutionError>
    decreases fuel, v, 1int,
{
    match v {
        UniformValueModel::Float32Bits(b) => Ok(ResolvedValueModel::Float32Bits(b)),
        UniformValueModel::Uint32(x) => Ok(ResolvedValueModel::Uint32(x)),
        UniformValueModel::Int32(x) => Ok(ResolvedValueModel::Int32(x)),
        UniformValueModel::Ivec2(x, y) => Ok(ResolvedValueModel::Ivec2(x, y)),
        UniformValueModel::Bundle(us) => match resolve_bundle_spec(us, store, fuel) {
            Ok(rs) => Ok(ResolvedValueModel::Bundle(rs)),
            Err(e) => Err(e),
        },
        UniformValueModel::Float32Asset(id) => match lookup_asset(store, id) {
            Some(FetchedModel::Float32Bits(b)) => Ok(ResolvedValueModel::Float32AssetBits(b)),
            Some(_) => Err(ResolutionError::WrongKind { id }),
            None => Err(ResolutionError::MissingAsset { id }),
        },
        UniformValueModel::Uint32Asset(id) => match lookup_asset(store, id) {
            Some(FetchedModel::Uint32(x)) => Ok(ResolvedValueModel::Uint32Asset(x)),
            Some(_) => Err(ResolutionError::WrongKind { id }),
            None => Err(ResolutionError::MissingAsset { id }),
        },
        UniformValueModel::UsizeAsset(id) => match lookup_asset(store, id) {
            Some(FetchedModel::Usize(x)) => Ok(ResolvedValueModel::UsizeAsset(x)),
            Some(_) => Err(ResolutionError::WrongKind { id }),
            None => Err(ResolutionError::MissingAsset { id }),
        },
        UniformValueModel::TextureAsset(id) => match lookup_asset(store, id) {
            Some(FetchedModel::Texture(t)) => Ok(ResolvedValueModel::TextureAsset(t)),
            Some(_) => Err(ResolutionError::WrongKind { id }),
            None => Err(ResolutionError::MissingAsset { id }),
        },
        UniformValueModel::BufferAsset(id) => match lookup_asset(store, id) {
            Some(FetchedModel::Buffer(b)) => Ok(ResolvedValueModel::BufferAsset(b)),
            Some(_) => Err(ResolutionError::WrongKind { id }),
            None => Err(ResolutionError::MissingAsset { id }),
        },
        UniformValueModel::BundleAsset(id) => match lookup_asset(store, id) {
            Some(FetchedModel::Bundle(us)) => {
                if fuel == 0 {
                    Err(ResolutionError::RecursiveBundle { id })
                } else {
                    match resolve_bundle_spec(us, store, (fuel - 1) as nat) {
                        Ok(rs) => Ok(ResolvedValueModel::BundleAsset(rs)),
                        Err(e) => Err(e),
                    }
                }
            },
            Some(_) => Err(ResolutionError::WrongKind { id }),
            None => Err(ResolutionError::MissingAsset { id }),
        },
    }
}

/// Resolution of one named raw value.
pub open spec fn resolve_holder_spec(
    h: UniformHolderModel,
    store: Seq<(u64, FetchedModel)>,
    fuel: nat,
) -> Result<ResolvedHolderModel, ResolutionError>
    decreases fuel, h, 2int,
{
    match resolve_value_spec(h.value, store, fuel) {
        Ok(v) => Ok(ResolvedHolderModel { name: h.name, value: v }),
        Err(e) => Err(e),
    }
}

/// Resolution of a whole level, in order, fail-fast: the result is the
/// first error in tree order, or the resolved level with the same length
/// and order as the raw one.
pub open spec fn resolve_bundle_spec(
    us: Seq<UniformHolderModel>,
    store: Seq<(u64, FetchedModel)>,
    fuel: nat,
) -> Result<Seq<ResolvedHolderModel>, ResolutionError>
    decreases fuel, us, 0int,
{
    if us.len() == 0 {
        Ok(Seq::empty())
    } else {
        match resolve_holder_spec(us[0], store, fuel) {
            Err(e) => Err(e),
            Ok(h) => match resolve_bundle_spec(us.drop_first(), store, fuel) {
                Err(e) => Err(e),
                Ok(rest) => Ok(seq![h] + rest),
            },
        }
    }
}

pub open spec fn value_result_model(
    r: Result<ResolvedShaderUniformValue, ResolutionError>,
) -> Result<ResolvedValueModel, ResolutionError> {
    match r {
        Ok(v) => Ok(crate::uniforms::resolved_value_model(v)),
        Err(e) => Err(e),
    }
}

pub open spec fn holder_result_model(
    r: Result<ResolvedShaderUniformHolder, ResolutionError>,
) -> Result<ResolvedHolderModel, ResolutionError> {
    match r {
        Ok(h) => Ok(crate::uniforms::resolved_holder_model(h)),
        Err(e) => Err(e),
    }
}

pub open spec fn bundle_result_model(
    r: Result<Vec<ResolvedShaderUniformHolder>, ResolutionError>,
) -> Result<Seq<ResolvedHolderModel>, ResolutionError> {
    match r {
        Ok(us) => Ok(crate::uniforms::resolved_bundle_model(us)),
        Err(e) => Err(e),
    }
}

/// Resolves one raw value against the store.
fn resolve_value(v: &ShaderUniformValue, store: &AssetStore, fuel: usize) -> (r: Result<
    ResolvedShaderUniformValue,
    ResolutionError,
>)
    ensures
        value_result_model(r) == resolve_value_spec(value_model(*v), store.model(), fuel as nat),
    decreases fuel, *v, 1int,
{
    match v {
        ShaderUniformValue::Float32Bits(b) => Ok(ResolvedShaderUniformValue::Float32Bits(*b)),
        ShaderUniformValue::Uint32(x) => Ok(ResolvedShaderUniformValue::Uint32(*x)),
        ShaderUniformValue::Int32(x) => Ok(ResolvedShaderUniformValue::Int32(*x)),
        ShaderUniformValue::Ivec2(x, y) => Ok(ResolvedShaderUniformValue::Ivec2(*x, *y)),
        ShaderUniformValue::Bundle(us) => {
            proof {
                assert(decreases_to!(*v => *us));
            }
            match resolve_bundle_fuel(us, store, fuel) {
                Ok(rs) => Ok(ResolvedShaderUniformValue::Bundle(rs)),
                Err(e) => Err(e),
            }
        },
        ShaderUniformValue::Float32Asset(a) => match store.get(a.id) {
            Some(FetchedAsset::Float32Bits(b)) => Ok(
                ResolvedShaderUniformValue::Float32AssetBits(*b),
            ),
            Some(_) => Err(ResolutionError::WrongKind { id: a.id }),
            None => Err(ResolutionError::MissingAsset { id: a.id }),
        },
        ShaderUniformValue::Uint32Asset(a) => match store.get(a.id) {
            Some(FetchedAsset::Uint32(x)) => Ok(ResolvedShaderUniformValue::Uint32Asset(*x)),
            Some(_) => Err(ResolutionError::WrongKind { id: a.id }),
            None => Err(ResolutionError::MissingAsset { id: a.id }),
        },
        ShaderUniformValue::UsizeAsset(a) => match store.get(a.id) {
            Some(FetchedAsset::Usize(x)) => Ok(ResolvedShaderUniformValue::UsizeAsset(*x)),
            Some(_) => Err(ResolutionError::WrongKind { id: a.id }),
            None => Err(ResolutionError::MissingAsset { id: a.id }),
        },
        ShaderUniformValue::TextureAsset(a) => match store.get(a.id) {
            Some(FetchedAsset::Texture(t)) => Ok(ResolvedShaderUniformValue::TextureAsset(*t)),
            Some(_) => Err(ResolutionError::WrongKind { id: a.id }),
            None => Err(ResolutionError::MissingAsset { id: a.id }),
        },
        ShaderUniformValue::BufferAsset(a) => match store.get(a.id) {
            Some(FetchedAsset::Buffer(b)) => Ok(ResolvedShaderUniformValue::BufferAsset(*b)),
            Some(_) => Err(ResolutionError::WrongKind { id: a.id }),
            None => Err(ResolutionError::MissingAsset { id: a.id }),
        },
        ShaderUniformValue::BundleAsset(a) => match store.get(a.id) {
            Some(FetchedAsset::Bundle(us)) => {
                if fuel == 0 {
                    Err(ResolutionError::RecursiveBundle { id: a.id })
                } else {
                    match resolve_bundle_fuel(us, store, fuel - 1) {
                        Ok(rs) => Ok(ResolvedShaderUniformValue::BundleAsset(rs)),
                        Err(e) => Err(e),
                    }
                }
            },
            Some(_) => Err(ResolutionError::WrongKind { id: a.id }),
            None => Err(ResolutionError::MissingAsset { id: a.id }),
        },
    }
}

/// Resolves one named raw value against the store.
fn resolve_holder(h: &ShaderUniformHolder, store: &AssetStore, fuel: usize) -> (r: Result<
    ResolvedShaderUniformHolder,
    ResolutionError,
>)
    ensures
        holder_result_model(r) == resolve_holder_spec(holder_model(*h), store.model(), fuel as nat),
    decreases fuel, *h, 2int,
{
    match resolve_value(&h.value, store, fuel) {
        Ok(v) => Ok(ResolvedShaderUniformHolder { name: h.name.clone(), value: v }),
        Err(e) => Err(e),
    }
}

/// Resolves a whole level, in order, fail-fast.
fn resolve_bundle_fuel(us: &Vec<ShaderUniformHolder>, store: &AssetStore, fuel: usize) -> (r:
    Result<Vec<ResolvedShaderUniformHolder>, ResolutionError>)
    ensures
        bundle_result_model(r) == resolve_bundle_spec(bundle_model(*us), store.model(), fuel as nat),
    decreases fuel, *us, 0int,
{
    let ghost m = bundle_model(*us);
    let ghost sm = store.model();
    let mut out: Vec<ResolvedShaderUniformHolder> = Vec::new();
    let n = us.len();
    let mut i: usize = 0;
    proof {
        assert(m.skip(0) =~= m);
        assert(resolved_seq_model(out@) =~= Seq::<ResolvedHolderModel>::empty());
    }
    while i < n
        invariant
            0 <= i <= n,
            n == us.len(),
            m == bundle_model(*us),
            sm == store.model(),
            resolve_bundle_spec(m, sm, fuel as nat) == match resolve_bundle_spec(
                m.skip(i as int),
                sm,
                fuel as nat,
            ) {
                Ok(rest) => Ok::<_, ResolutionError>(resolved_seq_model(out@) + rest),
                Err(e) => Err(e),
            },
        decreases n - i,
    {
        let ghost tail = m.skip(i as int);
        proof {
            assert(tail[0] == m[i as int]);
            assert(tail.drop_first() =~= m.skip(i as int + 1));
            assert(decreases_to!(*us => us@[i as int]));
        }
        match resolve_holder(&us[i], store, fuel) {
            Ok(h) => {
                let ghost out0 = out@;
                let ghost hm = crate::uniforms::resolved_holder_model(h);
                out.push(h);
                proof {
                    assert(resolved_seq_model(out@) =~= resolved_seq_model(out0).push(hm));
                    let rnext = resolve_bundle_spec(m.skip(i as int + 1), sm, fuel as nat);
                    if rnext is Ok {
                        let rest = rnext->Ok_0;
                        assert(resolved_seq_model(out@) + rest =~= resolved_seq_model(out0) + (
                        seq![hm] + rest));
                    }
                }
            },
            Err(e) => {
                return Err(e);
            },
        }
        i = i + 1;
    }
    proof {
        assert(m.skip(n as int) =~= Seq::<UniformHolderModel>::empty());
        assert(resolved_seq_model(out@) + Seq::<ResolvedHolderModel>::empty() =~= crate::uniforms::resolved_bundle_model(out));
    }
    Ok(out)
}

impl ShaderUniformHolder {
    /// Resolves this named value against the store.  The fuel for nested
    /// bundle fetches is the store's size: any longer fetch chain repeats
    /// a key and is reported as a recursive bundle.
    pub fn resolve(&self, store: &AssetStore) -> (r: Result<
        ResolvedShaderUniformHolder,
        ResolutionError,
    >)
        ensures
            holder_result_model(r) == resolve_holder_spec(
                holder_model(*self),
                store.model(),
                store.entries@.len() as nat,
            ),
    {
        resolve_holder(self, store, store.entries.len())
    }
}

/// Resolves a raw uniform bundle against the store, fail-fast, preserving
/// length and order.
pub fn resolve(store: &AssetStore, uniforms: &Vec<ShaderUniformHolder>) -> (r: Result<
    Vec<ResolvedShaderUniformHolder>,
    ResolutionError,
>)
    ensures
        bundle_result_model(r) == resolve_bundle_spec(
            bundle_model(*uniforms),
            store.model(),
            store.entries@.len() as nat,
        ),
{
    resolve_bundle_fuel(uniforms, store, store.entries.len())
}

/// Fail-fast law: when the first failing sibling of a level is at `i`,
/// the whole level's resolution returns that very failure; the `Result`
/// carries no partial resolved bundle.
pub proof fn lemma_fail_fast(
    us: Seq<UniformHolderModel>,
    store: Seq<(u64, FetchedModel)>,
    fuel: nat,
    i: int,
)
    requires
        0 <= i < us.len(),
        resolve_holder_spec(us[i], store, fuel) is Err,
        forall|j: int| 0 <= j < i ==> resolve_holder_spec(us[j], store, fuel) is Ok,
    ensures
        resolve_bundle_spec(us, store, fuel) == Err::<Seq<ResolvedHolderModel>, ResolutionError>(
            resolve_holder_spec(us[i], store, fuel)->Err_0,
        ),
    decreases i,
{
    if i == 0 {
    } else {
        assert(resolve_holder_spec(us[0], store, fuel) is Ok);
        assert(forall|j: int|
            0 <= j < i - 1 ==> us.drop_first()[j] == us[j + 1]
                && resolve_holder_spec(us.drop_first()[j], store, fuel) is Ok);
        assert(us.drop_first()[i - 1] == us[i]);
        lemma_fail_fast(us.drop_first(), store, fuel, i - 1);
    }
}

/// Deep shape agreement between a raw value and its resolved form: every
/// scalar keeps its payload, every reference resolves to its own kind,
/// and a literal bundle keeps its children's number, order and names,
/// recursively.
pub open spec fn value_shape_ok(v: UniformValueModel, r: ResolvedValueModel) -> bool
    decreases v, 1int,
{
    match v {
        UniformValueModel::Float32Bits(b) => r == ResolvedValueModel::Float32Bits(b),
        UniformValueModel::Uint32(x) => r == ResolvedValueModel::Uint32(x),
        UniformValueModel::Int32(x) => r == ResolvedValueModel::Int32(x),
        UniformValueModel::Ivec2(x, y) => r == ResolvedValueModel::Ivec2(x, y),
        UniformValueModel::Bundle(us) => match r {
            ResolvedValueModel::Bundle(rs) => bundle_shape_ok(us, rs),
            _ => false,
        },
        UniformValueModel::Float32Asset(_) => r is Float32AssetBits,
        UniformValueModel::Uint32Asset(_) => r is Uint32Asset,
        UniformValueModel::UsizeAsset(_) => r is UsizeAsset,
        UniformValueModel::TextureAsset(_) => r is TextureAsset,
        UniformValueModel::BufferAsset(_) => r is BufferAsset,
        UniformValueModel::BundleAsset(_) => r is BundleAsset,
    }
}

pub open spec fn bundle_shape_ok(
    us: Seq<UniformHolderModel>,
    rs: Seq<ResolvedHolderModel>,
) -> bool
    decreases us, 0int,
{
    &&& rs.len() == us.len()
    &&& (us.len() == 0 || {
        &&& rs[0].name == us[0].name
        &&& value_shape_ok(us[0].value, rs[0].value)
        &&& bundle_shape_ok(us.drop_first(), rs.drop_first())
    })
}

proof fn lemma_value_shape(v: UniformValueModel, store: Seq<(u64, FetchedModel)>, fuel: nat)
    requires
        resolve_value_spec(v, store, fuel) is Ok,
    ensures
        value_shape_ok(v, resolve_value_spec(v, store, fuel)->Ok_0),
    decreases fuel, v, 1int,
{
    match v {
        UniformValueModel::Bundle(us) => {
            lemma_bundle_shape(us, store, fuel);
        },
        _ => {
        },
    }
}

proof fn lemma_bundle_shape(
    us: Seq<UniformHolderModel>,
    store: Seq<(u64, FetchedModel)>,
    fuel: nat,
)
    requires
        resolve_bundle_spec(us, store, fuel) is Ok,
    ensures
        bundle_shape_ok(us, resolve_bundle_spec(us, store, fuel)->Ok_0),
    decreases fuel, us, 0int,
{
    if us.len() > 0 {
        lemma_value_shape(us[0].value, store, fuel);
        lemma_bundle_shape(us.drop_first(), store, fuel);
        let h = resolve_holder_spec(us[0], store, fuel)->Ok_0;
        let rest = resolve_bundle_spec(us.drop_first(), store, fuel)->Ok_0;
        assert(resolve_bundle_spec(us, store, fuel)->Ok_0 == seq![h] + rest);
        assert((seq![h] + rest)[0] == h);
        assert((seq![h] + rest).drop_first() =~= rest);
    }
}

/// Shape preservation law, deep form: a successful resolution returns a
/// tree of the same shape as the raw one — same number of children in the
/// same order under the same names at every literal level, every scalar
/// kept, every reference replaced by a value of its own kind.
pub proof fn lemma_resolution_shape(
    us: Seq<UniformHolderModel>,
    store: Seq<(u64, FetchedModel)>,
    fuel: nat,
)
    requires
        resolve_bundle_spec(us, store, fuel) is Ok,
    ensures
        bundle_shape_ok(us, resolve_bundle_spec(us, store, fuel)->Ok_0),
{
    lemma_bundle_shape(us, store, fuel);
}

/// The asset keys a raw level mentions, in tree order: the fetch plan of
/// one fan-out.  Keys behind a bundle reference are known only once that
/// bundle is fetched.
pub open spec fn refs_of_value(v: UniformValueModel) -> Seq<u64>
    decreases v, 1int,
{
    match v {
        UniformValueModel::Float32Bits(_) => Seq::empty(),
        UniformValueModel::Uint32(_) => Seq::empty(),
        UniformValueModel::Int32(_) => Seq::empty(),
        UniformValueModel::Ivec2(_, _) => Seq::empty(),
        UniformValueModel::Bundle(us) => refs_of_bundle(us),
        UniformValueModel::Float32Asset(id) => seq![id],
        UniformValueModel::Uint32Asset(id) => seq![id],
        UniformValueModel::UsizeAsset(id) => seq![id],
        UniformValueModel::TextureAsset(id) => seq![id],
        UniformValueModel::BufferAsset(id) => seq![id],
        UniformValueModel::BundleAsset(id) => seq![id],
    }
}

pub open spec fn refs_of_bundle(us: Seq<UniformHolderModel>) -> Seq<u64>
    decreases us, 0int,
{
    if us.len() == 0 {
        Seq::empty()
    } else {
        refs_of_value(us[0].value) + refs_of_bundle(us.drop_first())
    }
}

fn push_refs_value(out: &mut Vec<u64>, v: &ShaderUniformValue)
    ensures
        final(out)@ == old(out)@ + refs_of_value(value_model(*v)),
    decreases *v, 1int,
{
    match v {
        ShaderUniformValue::Float32Bits(_) => {
        },
        ShaderUniformValue::Uint32(_) => {
        },
        ShaderUniformValue::Int32(_) => {
        },
        ShaderUniformValue::Ivec2(_, _) => {
        },
        ShaderUniformValue::Bundle(us) => {
            proof {
                assert(decreases_to!(*v => *us));
            }
            push_refs_bundle(out, us);
        },
        ShaderUniformValue::Float32Asset(a) => out.push(a.id),
        ShaderUniformValue::Uint32Asset(a) => out.push(a.id),
        ShaderUniformValue::UsizeAsset(a) => out.push(a.id),
        ShaderUniformValue::TextureAsset(a) => out.push(a.id),
        ShaderUniformValue::BufferAsset(a) => out.push(a.id),
        ShaderUniformValue::BundleAsset(a) => out.push(a.id),
    }
    proof {
        assert(final(out)@ =~= old(out)@ + refs_of_value(value_model(*v)));
    }
}

fn push_refs_bundle(out: &mut Vec<u64>, us: &Vec<ShaderUniformHolder>)
    ensures
        final(out)@ == old(out)@ + refs_of_bundle(bundle_model(*us)),
    decreases *us, 0int,
{
    let ghost m = bundle_model(*us);
    let n = us.len();
    let mut i: usize = 0;
    proof {
        assert(m.skip(0) =~= m);
    }
    while i < n
        invariant
            0 <= i <= n,
            n == us.len(),
            m == bundle_model(*us),
            out@ + refs_of_bundle(m.skip(i as int)) == old(out)@ + refs_of_bundle(m),
        decreases n - i,
    {
        let ghost before = out@;
        proof {
            assert(m.skip(i as int)[0] == m[i as int]);
            assert(m.skip(i as int).drop_first() =~= m.skip(i as int + 1));
            assert(decreases_to!(*us => us@[i as int]));
            assert(decreases_to!(*us => us@[i as int].value));
        }
        push_refs_value(out, &us[i].value);
        proof {
            assert(out@ + refs_of_bundle(m.skip(i as int + 1)) =~= before + refs_of_bundle(
                m.skip(i as int),
            ));
        }
        i = i + 1;
    }
    proof {
        assert(m.skip(n as int) =~= Seq::<UniformHolderModel>::empty());
        assert(out@ + Seq::<u64>::empty() =~= out@);
    }
}

/// The fetch plan of a raw bundle: every asset key it mentions, in tree
/// order.
pub fn collect_asset_refs(us: &Vec<ShaderUniformHolder>) -> (r: Vec<u64>)
    ensures
        r@ == refs_of_bundle(bundle_model(*us)),
{
    let mut out: Vec<u64> = Vec::new();
    push_refs_bundle(&mut out, us);
    proof {
        assert(Seq::<u64>::empty() + refs_of_bundle(bundle_model(*us)) =~= refs_of_bundle(
            bundle_model(*us),
        ));
    }
    out
}

} // verus!

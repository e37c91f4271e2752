//! The hash maps of the optimizer, keyed by binding with the Fx hasher.

use vstd::prelude::*;

use fxhash::FxHashMap;

use crate::ast::{Expr, Id, IdView, id_view};
use crate::optimizer::VarUsageInfo;

verus! {

/// The hasher of `fxhash`; its state is not read here.
#[verifier::external_type_specification]
#[verifier::external_body]
pub struct ExFxHasher(fxhash::FxHasher);

/// The hasher builder of std that `FxHashMap` is made with; not read here.
#[verifier::external_type_specification]
#[verifier::external_body]
#[verifier::reject_recursive_types(H)]
pub struct ExBuildHasherDefault<H>(std::hash::BuildHasherDefault<H>);

/// A map from bindings to the expressions that stand for them.
pub type InlineMap = FxHashMap<Id, Box<Expr>>;

/// A map from bindings to what the analysis found about them.
pub type UsageMap = FxHashMap<Id, VarUsageInfo>;

/// What a map of expressions to inline holds: for each binding (by name and
/// syntax context), the expression that stands for it.
pub uninterp spec fn inline_map_contents(m: InlineMap) -> Map<IdView, Expr>;

/// What a map of usage information holds, for each binding.
pub uninterp spec fn usage_map_contents(m: UsageMap) -> Map<IdView, VarUsageInfo>;

/// `FxHashMap::default` (std's `HashMap::default` with the Fx hasher): the
/// new map holds nothing.
#[verifier::external_body]
pub(crate) fn new_inline_map() -> (map: InlineMap)
    ensures
        inline_map_contents(map) =~= Map::empty(),
{
    InlineMap::default()
}

/// `HashMap::insert` on a map of expressions to inline: afterwards the map
/// holds `v` for the binding of `k` and is otherwise unchanged. Keys compare
/// by name and syntax context, which is how `(String, u32)` implements `Eq`
/// and `Hash`.
#[verifier::external_body]
pub(crate) fn inline_map_insert(m: &mut InlineMap, k: Id, v: Box<Expr>)
    ensures
        inline_map_contents(*final(m)) == inline_map_contents(*old(m)).insert(id_view(k), *v),
{
    m.insert(k, v);
}

/// `HashMap::get` on a map of expressions to inline: the expression held for
/// the binding of `k`, if any.
#[verifier::external_body]
pub(crate) fn inline_map_get<'a>(m: &'a InlineMap, k: &Id) -> (r: Option<&'a Box<Expr>>)
    ensures
        match r {
            Some(v) => inline_map_contents(*m).contains_key(id_view(*k)) && **v == inline_map_contents(
                *m,
            )[id_view(*k)],
            None => !inline_map_contents(*m).contains_key(id_view(*k)),
        },
{
    m.get(k)
}

/// `HashMap::get` on a map of usage information: the information held for the
/// binding of `k`, if any.
#[verifier::external_body]
pub(crate) fn usage_map_get<'a>(m: &'a UsageMap, k: &Id) -> (r: Option<&'a VarUsageInfo>)
    ensures
        match r {
            Some(v) => usage_map_contents(*m).contains_key(id_view(*k)) && *v == usage_map_contents(
                *m,
            )[id_view(*k)],
            None => !usage_map_contents(*m).contains_key(id_view(*k)),
        },
{
    m.get(k)
}

} // verus!

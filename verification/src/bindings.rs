//! The layout that the kernels are written against: which binding sets a
//! kernel expects at which index, and what each set binds.

use vstd::prelude::*;
use crate::registry::KernelKind;

verus! {

/// The binding sets that the kernels are written against.
#[derive(Clone, Copy, Debug, PartialEq, Eq, Hash, Structural)]
pub enum BindingSet {
    /// The move pass's per-frame parameters and the agents.
    Agents,
    /// The two field buffers, one read-only and one read-write.
    FieldPair,
    /// The static parameters.
    StaticParams,
    /// The update pass's per-frame parameters.
    UpdateParams,
    /// One field buffer, read-only, and the displayable texture.
    FieldToTexture,
}

/// How a kernel sees one binding of a set.
#[derive(Clone, Copy, Debug, PartialEq, Eq, Hash, Structural)]
pub enum BindingKind {
    /// A uniform buffer.
    Uniform,
    /// A storage buffer that is only read.
    StorageReadOnly,
    /// A storage buffer that is read and written.
    StorageReadWrite,
    /// A storage texture that is only written.
    TextureWriteOnly,
}

/// The bindings of `set`, by binding index.
pub open spec fn set_bindings(set: BindingSet) -> Seq<BindingKind> {
    match set {
        BindingSet::Agents => seq![BindingKind::Uniform, BindingKind::StorageReadWrite],
        BindingSet::FieldPair => seq![BindingKind::StorageReadOnly, BindingKind::StorageReadWrite],
        BindingSet::StaticParams => seq![BindingKind::Uniform],
        BindingSet::UpdateParams => seq![BindingKind::Uniform],
        BindingSet::FieldToTexture => seq![
            BindingKind::StorageReadOnly,
            BindingKind::TextureWriteOnly,
        ],
    }
}

/// The bindings of `set`, by binding index.
pub fn bindings(set: BindingSet) -> (kinds: Vec<BindingKind>)
    ensures
        kinds@ == set_bindings(set),
{
    let mut kinds: Vec<BindingKind> = Vec::new();
    match set {
        BindingSet::Agents => {
            kinds.push(BindingKind::Uniform);
            kinds.push(BindingKind::StorageReadWrite);
        },
        BindingSet::FieldPair => {
            kinds.push(BindingKind::StorageReadOnly);
            kinds.push(BindingKind::StorageReadWrite);
        },
        BindingSet::StaticParams => {
            kinds.push(BindingKind::Uniform);
        },
        BindingSet::UpdateParams => {
            kinds.push(BindingKind::Uniform);
        },
        BindingSet::FieldToTexture => {
            kinds.push(BindingKind::StorageReadOnly);
            kinds.push(BindingKind::TextureWriteOnly);
        },
    }
    kinds
}

/// The binding sets that a kernel of `kind` expects, by set index. A source
/// that replaces another is compiled against the same sets, so binding sets
/// made once stay good across reloads.
pub open spec fn binding_sets(kind: KernelKind) -> Seq<BindingSet> {
    match kind {
        KernelKind::Move => seq![BindingSet::Agents, BindingSet::FieldPair, BindingSet::StaticParams],
        KernelKind::Update => seq![
            BindingSet::UpdateParams,
            BindingSet::FieldPair,
            BindingSet::StaticParams,
        ],
        KernelKind::Convert => seq![
            BindingSet::FieldToTexture,
            BindingSet::StaticParams,
            BindingSet::Agents,
        ],
    }
}

/// The binding sets that a kernel of `kind` expects, by set index.
pub fn layout(kind: KernelKind) -> (sets: [BindingSet; 3])
    ensures
        sets@ == binding_sets(kind),
{
    let sets = match kind {
        KernelKind::Move => [BindingSet::Agents, BindingSet::FieldPair, BindingSet::StaticParams],
        KernelKind::Update => [
            BindingSet::UpdateParams,
            BindingSet::FieldPair,
            BindingSet::StaticParams,
        ],
        KernelKind::Convert => [
            BindingSet::FieldToTexture,
            BindingSet::StaticParams,
            BindingSet::Agents,
        ],
    };
    sets
}

} // verus!

//! Block kinds: the per-voxel state and the registry that catalogs every kind.

use vstd::prelude::*;
use crate::world::WorldError;

verus! {

/// Whether a block kind renders as an opaque surface or is skipped entirely.
#[derive(Clone, Copy, PartialEq, Eq, Structural, Debug)]
pub enum Visibility {
    Solid,
    Invisible,
}

/// What the renderer needs to know about a block kind.
#[derive(Clone, Copy, PartialEq, Eq, Debug)]
pub struct BlockProperties {
    pub display_name: &'static str,
    pub visibility: Visibility,
}

/// Identifies a registered block kind.
pub type BlockKindId = u8;

/// The most block kinds a registry can hold: identifiers run from 0 up to,
/// but not including, this number.
pub const MAX_BLOCK_KINDS: usize = 255;

/// The state of a single voxel.
#[derive(Clone, Copy, PartialEq, Eq, Structural, Debug)]
pub struct BlockState {
    pub id: BlockKindId,
}

/// An append-only catalog of block kinds. The identifier of a kind is its
/// position in the catalog, so identifiers are dense, start at 0 and are
/// never reissued.
pub struct BlockRegistry {
    props: Vec<BlockProperties>,
}

impl View for BlockRegistry {
    type V = Seq<BlockProperties>;

    /// The registered properties, in registration order.
    closed spec fn view(&self) -> Seq<BlockProperties> {
        self.props@
    }
}

impl BlockRegistry {
    #[verifier::type_invariant]
    spec fn within_capacity(self) -> bool {
        self.props@.len() <= MAX_BLOCK_KINDS
    }

    /// An empty registry.
    pub fn new() -> (registry: Self)
        ensures
            registry@ == Seq::<BlockProperties>::empty(),
    {
        BlockRegistry { props: Vec::new() }
    }

    /// The number of kinds registered so far.
    pub fn len(&self) -> (n: usize)
        ensures
            n == self@.len(),
            n <= MAX_BLOCK_KINDS,
    {
        proof {
            use_type_invariant(self);
        }
        self.props.len()
    }

    /// Appends `props` and returns its identifier, the number of kinds that
    /// were registered before. A full registry refuses and stays as it was.
    pub fn register(&mut self, props: BlockProperties) -> (r: Result<BlockKindId, WorldError>)
        ensures
            match r {
                Ok(id) => {
                    &&& old(self)@.len() < MAX_BLOCK_KINDS
                    &&& id == old(self)@.len()
                    &&& final(self)@ == old(self)@.push(props)
                },
                Err(e) => {
                    &&& old(self)@.len() == MAX_BLOCK_KINDS
                    &&& e == WorldError::RegistrationExhausted
                    &&& final(self)@ == old(self)@
                },
            },
    {
        proof {
            use_type_invariant(&*self);
        }
        let count = self.props.len();
        if count == MAX_BLOCK_KINDS {
            return Err(WorldError::RegistrationExhausted);
        }
        // The catalog is grown outside of `self` and put back afterwards, so
        // that the capacity bound holds of `self` at every step.
        let mut grown: Vec<BlockProperties> = Vec::new();
        core::mem::swap(&mut self.props, &mut grown);
        grown.push(props);
        core::mem::swap(&mut self.props, &mut grown);
        Ok(count as BlockKindId)
    }

    /// The properties registered under `kind`, or `IndexOutOfRange` when no
    /// kind has been registered under that identifier.
    pub fn properties_for(&self, kind: BlockKindId) -> (r: Result<&BlockProperties, WorldError>)
        ensures
            match r {
                Ok(props) => kind < self@.len() && *props == self@[kind as int],
                Err(e) => kind >= self@.len() && e == WorldError::IndexOutOfRange,
            },
    {
        let index = kind as usize;
        if index < self.props.len() {
            Ok(&self.props[index])
        } else {
            Err(WorldError::IndexOutOfRange)
        }
    }
}

/// What is registered stays registered, under the identifier it was given.
/// Take a catalog `before`, register `props` in it, then any further kinds
/// `later`: the catalog holds `props` at the identifier that its
/// registration returned, the length of `before`, and every kind of
/// `before` still at its own identifier.
pub proof fn lemma_registered_properties_persist(
    before: Seq<BlockProperties>,
    props: BlockProperties,
    later: Seq<BlockProperties>,
)
    ensures
        (before.push(props) + later)[before.len() as int] == props,
        forall|id: int| 0 <= id < before.len() ==> (before.push(props) + later)[id] == before[id],
{
}

} // verus!

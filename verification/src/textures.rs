//! The texture registry: which device texture stands behind which texture id.
//!
//! The entries live in an `imgui::Textures`, the map that the UI library
//! offers to renderers.

use crate::error::RenderError;
use imgui::Textures;
use vstd::prelude::*;

verus! {

/// What a draw command names its texture by.
pub type TextureId = usize;

/// A device texture, as the host names it. The registry stores handles; it
/// neither creates nor releases what they stand for.
pub type TextureHandle = usize;

/// The id of the font atlas texture. The registry never holds an entry for it.
pub const FONT_TEX_ID: usize = usize::MAX;

/// `imgui::Textures`, the UI library's map from texture ids to a renderer's
/// textures. Nothing is known of what is inside a value but what the
/// functions below say.
#[verifier::external_type_specification]
#[verifier::external_body]
#[verifier::reject_recursive_types(T)]
pub struct ExTextures<T>(imgui::Textures<T>);

/// The entries of an `imgui::Textures`: each registered id with its item.
pub uninterp spec fn registered(textures: Textures<usize>) -> Map<usize, usize>;

/// The id that an `imgui::Textures` hands out at its next `insert`.
pub uninterp spec fn next_id(textures: Textures<usize>) -> usize;

/// A map without entries.
pub open spec fn no_entries() -> Map<usize, usize> {
    Map::empty()
}

/// What a lookup in the entries gives.
pub open spec fn lookup(entries: Map<usize, usize>, id: usize) -> Option<usize> {
    if entries.contains_key(id) {
        Some(entries[id])
    } else {
        None
    }
}

/// `imgui::Textures::new`: no entries, and the first id it will hand out is 0.
#[verifier::external_body]
fn textures_new() -> (textures: Textures<usize>)
    ensures
        registered(textures) == no_entries(),
        next_id(textures) == 0,
{
    Textures::new()
}

/// `imgui::Textures::insert`: stores the item under the next id, returns that
/// id and moves the next id up by one. Where the next id is `usize::MAX` the
/// increment overflows; `requires` leaves that out.
#[verifier::external_body]
fn textures_insert(textures: &mut Textures<usize>, item: usize) -> (id: usize)
    requires
        next_id(*old(textures)) < usize::MAX,
    ensures
        id == next_id(*old(textures)),
        registered(*final(textures)) == registered(*old(textures)).insert(id, item),
        next_id(*final(textures)) == next_id(*old(textures)) + 1,
{
    textures.insert(item).id()
}

/// `imgui::Textures::get`: the item stored under the id, if there is one.
#[verifier::external_body]
fn textures_get(textures: &Textures<usize>, id: usize) -> (item: Option<usize>)
    ensures
        item == lookup(registered(*textures), id),
{
    textures.get(imgui::TextureId::new(id)).copied()
}

/// `imgui::Textures::remove`: takes the entry under the id out and returns its
/// item, if there was one. The next id stays.
#[verifier::external_body]
fn textures_remove(textures: &mut Textures<usize>, id: usize) -> (item: Option<usize>)
    ensures
        item == lookup(registered(*old(textures)), id),
        registered(*final(textures)) == registered(*old(textures)).remove(id),
        next_id(*final(textures)) == next_id(*old(textures)),
{
    textures.remove(imgui::TextureId::new(id))
}

/// Maps texture ids to device texture handles.
///
/// Ids are handed out in ascending order from 0, and every entry lies below
/// the next id to hand out. So the font atlas id, the largest there is, never
/// has an entry.
pub struct TextureRegistry {
    entries: Textures<usize>,
    issued: usize,
}

impl TextureRegistry {
    /// The invariant of every registry.
    #[verifier::type_invariant]
    pub closed spec fn wf(&self) -> bool {
        &&& self.issued == next_id(self.entries)
        &&& forall|id: usize| #[trigger] registered(self.entries).contains_key(id) ==> id < self.issued
    }

    /// The entries: each registered id with its handle.
    pub closed spec fn view(&self) -> Map<usize, usize> {
        registered(self.entries)
    }

    /// How many ids have been handed out, which is also the next id.
    pub closed spec fn issued(&self) -> nat {
        self.issued as nat
    }

    /// An empty registry.
    pub fn new() -> (registry: TextureRegistry)
        ensures
            registry.wf(),
            registry@ == no_entries(),
            registry.issued() == 0,
    {
        TextureRegistry { entries: textures_new(), issued: 0 }
    }

    /// Registers a handle under a fresh id and returns the id. Once every id
    /// below the font atlas id has been handed out, nothing is registered and
    /// `None` is returned.
    pub fn insert(&mut self, handle: TextureHandle) -> (id: Option<TextureId>)
        ensures
            final(self).wf(),
            id is Some <==> old(self).issued() < usize::MAX,
            id is Some ==> id->0 == old(self).issued(),
            id is Some ==> id->0 != FONT_TEX_ID,
            id is Some ==> !old(self)@.contains_key(id->0),
            id is Some ==> final(self)@ == old(self)@.insert(id->0, handle),
            id is Some ==> final(self).issued() == old(self).issued() + 1,
            id is None ==> final(self)@ == old(self)@,
            id is None ==> final(self).issued() == old(self).issued(),
    {
        proof {
            use_type_invariant(&*self);
        }
        if self.issued == usize::MAX {
            None
        } else {
            let mut current = TextureRegistry::new();
            std::mem::swap(self, &mut current);
            let TextureRegistry { mut entries, issued } = current;
            let id = textures_insert(&mut entries, handle);
            *self = TextureRegistry { entries, issued: issued + 1 };
            Some(id)
        }
    }

    /// Takes the entry of an id out of the registry and returns its handle,
    /// if it had one. The id is not handed out again.
    pub fn remove(&mut self, id: TextureId) -> (handle: Option<TextureHandle>)
        ensures
            final(self).wf(),
            handle == lookup(old(self)@, id),
            final(self)@ == old(self)@.remove(id),
            final(self).issued() == old(self).issued(),
    {
        proof {
            use_type_invariant(&*self);
        }
        let mut current = TextureRegistry::new();
        std::mem::swap(self, &mut current);
        let TextureRegistry { mut entries, issued } = current;
        let handle = textures_remove(&mut entries, id);
        *self = TextureRegistry { entries, issued };
        handle
    }

    /// The handle registered under an id. An id without an entry, the font
    /// atlas id among them, is an invalid texture reference.
    pub fn bind(&self, id: TextureId) -> (handle: Result<TextureHandle, RenderError>)
        ensures
            self.wf(),
            self@.contains_key(id) ==> handle == Ok::<usize, RenderError>(self@[id]),
            !self@.contains_key(id) ==> handle == Err::<usize, RenderError>(
                RenderError::InvalidTextureReference,
            ),
            id == FONT_TEX_ID ==> handle is Err,
    {
        proof {
            use_type_invariant(self);
        }
        match textures_get(&self.entries, id) {
            Some(handle) => Ok(handle),
            None => Err(RenderError::InvalidTextureReference),
        }
    }

    /// The font atlas id has no entry, and no id that is still to be handed
    /// out has one.
    pub proof fn lemma_unissued_ids_are_free(self, id: TextureId)
        requires
            self.wf(),
            id >= self.issued(),
        ensures
            !self@.contains_key(id),
            !self@.contains_key(FONT_TEX_ID),
            self.issued() <= usize::MAX,
    {
    }
}

} // verus!

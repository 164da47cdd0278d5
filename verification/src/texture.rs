//! The lazily filled GPU texture cache.
//!
//! The slot holds at most one texture at a time, keyed by the generation of
//! the decoded image it was created from. The GPU handle type is the host's
//! choice (the library never looks inside it): the slot only decides when a
//! fresh upload is owed and accounts for its outcome, so that at most one
//! upload happens per image generation.

use vstd::prelude::*;

verus! {

/// GPU texture creation failed (out of memory, invalid context, ...).
/// Non-fatal: the slot is left empty and the next draw retries the upload.
#[derive(Clone, Copy, Debug, PartialEq, Eq, Structural)]
pub struct UploadError;

/// The shared mutable slot holding at most one cached GPU texture, together
/// with the image generation it was created from. `T` is the host's texture
/// handle type.
///
/// The renderer association is by ownership, not by ambient lookup: the host
/// keeps one state container — and so one slot — per renderer context, and a
/// texture stored here was created against the context that draws it.
pub struct TextureSlot<T> {
    entry: Option<(u64, T)>,
}

impl<T> View for TextureSlot<T> {
    type V = Option<(u64, T)>;

    /// The cached texture, if any: the generation it was created from and the
    /// handle the host stored.
    closed spec fn view(&self) -> Option<(u64, T)> {
        self.entry
    }
}

/// The slot `m` holds a texture created from image generation `generation`.
pub open spec fn slot_holds<T>(m: Option<(u64, T)>, generation: u64) -> bool {
    m matches Some(p) && p.0 == generation
}

/// The slot contents after ensuring an upload for `generation`, when the host
/// contributed `uploaded` (its freshly created texture, or `None` when the
/// upload failed or was not attempted): a cache hit leaves the slot unchanged,
/// a miss stores the fresh texture, and a miss without one empties the slot.
pub open spec fn slot_after<T>(
    pre: Option<(u64, T)>,
    generation: u64,
    uploaded: Option<T>,
) -> Option<(u64, T)> {
    if slot_holds(pre, generation) {
        pre
    } else {
        match uploaded {
            Some(t) => Some((generation, t)),
            None => None,
        }
    }
}

impl<T> TextureSlot<T> {
    /// An empty slot: no texture uploaded yet.
    pub fn new() -> (r: TextureSlot<T>)
        ensures
            r@ is None,
    {
        TextureSlot { entry: None }
    }

    /// Whether the slot holds a texture created from `generation`.
    pub fn has(&self, generation: u64) -> (r: bool)
        ensures
            r == slot_holds(self@, generation),
    {
        match &self.entry {
            Some(p) => p.0 == generation,
            None => false,
        }
    }

    /// The cached handle, for the host to draw with.
    pub fn texture(&self) -> (r: Option<&T>)
        ensures
            r is Some <==> self@ is Some,
            r matches Some(t) ==> self@ matches Some(p) && *t == p.1,
    {
        match &self.entry {
            Some(p) => Some(&p.1),
            None => None,
        }
    }

    /// Make sure the slot holds a texture for the image generation
    /// `generation`.
    ///
    /// If it already does, nothing changes and no fresh texture is needed:
    /// `uploaded` is ignored. Otherwise the host's freshly created texture is
    /// stored; if the host could not supply one (`uploaded` is `None`, the
    /// upload failed), the slot is emptied and the error is handed back so
    /// that the next draw retries.
    pub fn ensure_uploaded(&mut self, generation: u64, uploaded: Option<T>) -> (r: Result<
        (),
        UploadError,
    >)
        ensures
            final(self)@ == slot_after(old(self)@, generation, uploaded),
            r is Ok <==> (slot_holds(old(self)@, generation) || uploaded is Some),
            r is Ok ==> slot_holds(final(self)@, generation),
            slot_holds(old(self)@, generation) ==> final(self)@ == old(self)@,
    {
        if self.has(generation) {
            Ok(())
        } else {
            match uploaded {
                Some(t) => {
                    self.entry = Some((generation, t));
                    Ok(())
                },
                None => {
                    self.entry = None;
                    Err(UploadError)
                },
            }
        }
    }
}

/// Ensuring the same generation twice performs exactly one upload: after a
/// first ensure-upload stored the fresh texture `t`, the slot holds a texture
/// for `generation`, and a second ensure-upload for the same generation needs
/// no fresh texture, changes nothing, and succeeds.
pub proof fn lemma_second_ensure_is_cache_hit<T>(
    pre: Option<(u64, T)>,
    generation: u64,
    t: T,
)
    ensures
        slot_holds(slot_after(pre, generation, Some(t)), generation),
        slot_after(slot_after(pre, generation, Some(t)), generation, None) == slot_after(
            pre,
            generation,
            Some(t),
        ),
{
}

} // verus!

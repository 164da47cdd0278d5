//! The long-lived per-instance state container and the per-tick frame
//! snapshot.
//!
//! The host owns the event loop and the GPU context; the container owns the
//! state in between. It is mutated only by explicit load requests ([`set`])
//! and by frame production ([`run`]), never implicitly. Decoding runs on the
//! host's background task: the container hands out a ticket per request and
//! accounts a completed decode only if its ticket is still the tracked one
//! (last request wins). Each successful swap starts a new image generation,
//! which keys the texture cache and the damage report.
//!
//! [`set`]: WallpaperState::set
//! [`run`]: WallpaperState::run

use vstd::prelude::*;

use crate::geometry::{full_rect, scaled_fits, spec_scaled, Extent, Rect};
use crate::image_data::{opt_image_view, DecodedImage, LoadError};
use crate::registry::{alloc_step, next_id, IdRegistry};
use crate::texture::{slot_after, slot_holds, TextureSlot, UploadError};

verus! {

/// How load requests are to be executed, chosen once at construction: decode
/// inline on the calling thread, or on a background task observed by polling.
/// The container's accounting is the same either way; the host reads the mode
/// to decide where to run the decode.
#[derive(Clone, Copy, Debug, PartialEq, Eq, Structural)]
pub enum LoadMode {
    /// `set` is followed by an inline decode: the caller blocks briefly.
    Blocking,
    /// `set` starts a background decode; `run` polls for its completion.
    Deferred,
}

/// What a frame's draw asks of the host: nothing, or one textured quad.
#[derive(Clone, Copy, Debug, PartialEq, Eq, Structural)]
pub enum DrawPlan {
    /// No image has ever been loaded: drawing is a no-op that succeeds.
    Skip,
    /// Blit the slot's texture once, covering `dest` — the whole target
    /// buffer — with no flip and full opacity.
    Blit { dest: Rect },
}

/// The long-lived state of one wallpaper instance: its id, the image most
/// recently decoded for it, the ticket of the in-flight load it tracks, and
/// the shared texture slot its frames fill lazily.
pub struct WallpaperState<T> {
    id: usize,
    mode: LoadMode,
    image: Option<DecodedImage>,
    generation: u64,
    pending: Option<u64>,
    next_ticket: u64,
    texture: TextureSlot<T>,
}

/// An immutable snapshot of what to draw this tick: the owning instance id,
/// the target area and buffer size, and the image current when the snapshot
/// was taken, with its generation.
pub struct WallpaperFrame {
    state_id: usize,
    logical_area: Rect,
    area: Rect,
    size: Extent,
    image: Option<DecodedImage>,
    generation: u64,
}

impl<T> WallpaperState<T> {
    /// The instance id this container was tagged with at construction.
    pub closed spec fn spec_id(&self) -> usize {
        self.id
    }

    /// The most recently completed decode's bitmap, if any load ever
    /// succeeded.
    pub closed spec fn spec_image(&self) -> Option<DecodedImage> {
        self.image
    }

    /// The image generation: 0 before any successful load, afterwards a
    /// value that changes with every image swap.
    pub closed spec fn spec_generation(&self) -> u64 {
        self.generation
    }

    /// The ticket of the in-flight load the container tracks, if one is
    /// pending.
    pub closed spec fn spec_pending(&self) -> Option<u64> {
        self.pending
    }

    /// The ticket the next load request will get.
    pub closed spec fn spec_next_ticket(&self) -> u64 {
        self.next_ticket
    }

    /// The loading mode chosen at construction.
    pub closed spec fn spec_mode(&self) -> LoadMode {
        self.mode
    }

    /// The texture slot, as contracts speak of it.
    pub closed spec fn spec_texture(&self) -> TextureSlot<T> {
        self.texture
    }

    /// Internal consistency: tickets grow, the tracked ticket is one that was
    /// handed out and not yet accounted, an image is present exactly after a
    /// first successful load, and any present image is a well-formed bitmap.
    pub closed spec fn wf(&self) -> bool {
        &&& (self.pending matches Some(t) ==> self.generation <= t && t < self.next_ticket)
        &&& self.generation <= self.next_ticket
        &&& (self.image is Some <==> self.generation > 0)
        &&& (self.image matches Some(img) ==> img.valid())
    }

    /// One load request: `ticket` is fresh and becomes the tracked load,
    /// superseding whatever was tracked before.
    pub closed spec fn set_step(pre: Self, post: Self, ticket: u64) -> bool {
        &&& pre.next_ticket < u64::MAX
        &&& ticket == pre.next_ticket
        &&& post == (WallpaperState {
            id: pre.id,
            mode: pre.mode,
            image: pre.image,
            generation: pre.generation,
            pending: Some(ticket),
            next_ticket: (pre.next_ticket + 1) as u64,
            texture: pre.texture,
        })
    }

    /// One completed decode, delivered with its ticket: if the ticket is the
    /// tracked one, a successful result replaces the image and starts a new
    /// generation while a failure keeps the previous image; a stale ticket
    /// changes nothing at all.
    pub closed spec fn check_step(
        pre: Self,
        ticket: u64,
        r: Result<DecodedImage, LoadError>,
        post: Self,
    ) -> bool {
        if pre.pending == Some(ticket) {
            match r {
                Ok(img) => post == (WallpaperState {
                    id: pre.id,
                    mode: pre.mode,
                    image: Some(img),
                    generation: (ticket + 1) as u64,
                    pending: None,
                    next_ticket: pre.next_ticket,
                    texture: pre.texture,
                }),
                Err(_) => post == (WallpaperState {
                    id: pre.id,
                    mode: pre.mode,
                    image: pre.image,
                    generation: pre.generation,
                    pending: None,
                    next_ticket: pre.next_ticket,
                    texture: pre.texture,
                }),
            }
        } else {
            post == pre
        }
    }

    /// Create a container for one wallpaper surface, tagged with a fresh
    /// instance id from the registry and configured with its loading mode.
    /// Nothing is loaded and no texture is cached yet.
    pub fn new(reg: &mut IdRegistry, mode: LoadMode) -> (r: WallpaperState<T>)
        requires
            old(reg).wf(),
            !old(reg).exhausted(),
        ensures
            final(reg).wf(),
            alloc_step(old(reg)@, r.spec_id(), final(reg)@),
            r.wf(),
            r.spec_mode() == mode,
            r.spec_image() is None,
            r.spec_generation() == 0,
            r.spec_pending() is None,
            r.spec_next_ticket() == 0,
            r.spec_texture()@ is None,
    {
        WallpaperState {
            id: next_id(reg),
            mode,
            image: None,
            generation: 0,
            pending: None,
            next_ticket: 0,
            texture: TextureSlot::new(),
        }
    }

    /// The loading mode chosen at construction: the host runs each decode
    /// inline or on a background task accordingly.
    pub fn load_mode(&self) -> (r: LoadMode)
        ensures
            r == self.spec_mode(),
    {
        self.mode
    }

    /// How many load requests were issued so far — the value the next ticket
    /// will have. The host checks it stays below `u64::MAX` before
    /// requesting another load.
    pub fn tickets_issued(&self) -> (r: u64)
        ensures
            r == self.spec_next_ticket(),
    {
        self.next_ticket
    }

    /// Mutable access to the cached-texture slot, for the host to hand to
    /// [`WallpaperFrame::draw`]. The slot is filled in place at draw time;
    /// nothing else of the container is touched through it.
    pub fn texture_slot(&mut self) -> (slot: &mut TextureSlot<T>)
        ensures
            *slot == old(self).spec_texture(),
            final(self).spec_texture() == *final(slot),
            final(self).spec_id() == old(self).spec_id(),
            final(self).spec_image() == old(self).spec_image(),
            final(self).spec_generation() == old(self).spec_generation(),
            final(self).spec_pending() == old(self).spec_pending(),
            final(self).spec_next_ticket() == old(self).spec_next_ticket(),
            old(self).wf() ==> final(self).wf(),
    {
        &mut self.texture
    }

    /// Track a new load request, superseding any still-pending one (last
    /// request wins; the superseded decode may still complete, and will be
    /// discarded). Returns the ticket the host must tag the decode's
    /// completion with. Never blocks: the decode itself is the host's
    /// background work.
    pub fn set(&mut self) -> (ticket: u64)
        requires
            old(self).wf(),
            old(self).spec_next_ticket() < u64::MAX,
        ensures
            final(self).wf(),
            Self::set_step(*old(self), *final(self), ticket),
            ticket == old(self).spec_next_ticket(),
            final(self).spec_pending() == Some(ticket),
            final(self).spec_next_ticket() == old(self).spec_next_ticket() + 1,
            final(self).spec_image() == old(self).spec_image(),
            final(self).spec_generation() == old(self).spec_generation(),
            final(self).spec_id() == old(self).spec_id(),
            final(self).spec_texture() == old(self).spec_texture(),
    {
        let ticket = self.next_ticket;
        self.pending = Some(ticket);
        self.next_ticket = self.next_ticket + 1;
        ticket
    }

    /// Account for a completed decode, tagged with the ticket [`set`]
    /// returned for it.
    ///
    /// If the ticket is the one currently tracked: a successful decode
    /// replaces the current image and starts a new generation; a failed one
    /// is discarded and the previously shown image, if any, is kept. A stale
    /// ticket — one superseded by a later request — is discarded outright,
    /// whatever it carries.
    ///
    /// [`set`]: WallpaperState::set
    pub fn check(&mut self, ticket: u64, result: Result<DecodedImage, LoadError>)
        requires
            old(self).wf(),
            result matches Ok(img) ==> img.valid(),
        ensures
            final(self).wf(),
            Self::check_step(*old(self), ticket, result, *final(self)),
            final(self).spec_id() == old(self).spec_id(),
            final(self).spec_next_ticket() == old(self).spec_next_ticket(),
            final(self).spec_texture() == old(self).spec_texture(),
            old(self).spec_pending() == Some(ticket) ==> final(self).spec_pending() is None,
            old(self).spec_pending() == Some(ticket) ==> (result matches Ok(img) ==> {
                &&& final(self).spec_image() == Some(img)
                &&& final(self).spec_generation() > old(self).spec_generation()
            }),
            (old(self).spec_pending() == Some(ticket) && result is Err) ==> {
                &&& final(self).spec_image() == old(self).spec_image()
                &&& final(self).spec_generation() == old(self).spec_generation()
            },
            old(self).spec_pending() != Some(ticket) ==> *final(self) == *old(self),
    {
        let applies = match &self.pending {
            Some(t) => *t == ticket,
            None => false,
        };
        if applies {
            self.pending = None;
            match result {
                Ok(img) => {
                    self.image = Some(img);
                    self.generation = ticket + 1;
                },
                Err(_) => {},
            }
        }
    }

    /// Produce the frame to draw this tick.
    ///
    /// First the poll outcome of the host's background decode, if it has one
    /// to deliver, is accounted exactly as [`check`] would. Then the
    /// caller-supplied logical `area` is converted to physical coordinates by
    /// the active `scale` factor, and an immutable snapshot of the current
    /// image and generation is returned.
    ///
    /// [`check`]: WallpaperState::check
    pub fn run(
        &mut self,
        poll: Option<(u64, Result<DecodedImage, LoadError>)>,
        area: Rect,
        size: Extent,
        scale: i32,
    ) -> (frame: WallpaperFrame)
        requires
            old(self).wf(),
            scaled_fits(area, scale as int),
            poll_result_valid(poll),
        ensures
            final(self).wf(),
            match poll {
                Some(p) => Self::check_step(*old(self), p.0, p.1, *final(self)),
                None => *final(self) == *old(self),
            },
            final(self).spec_id() == old(self).spec_id(),
            final(self).spec_next_ticket() == old(self).spec_next_ticket(),
            final(self).spec_texture() == old(self).spec_texture(),
            poll matches Some(p) ==> (old(self).spec_pending() == Some(p.0)
                ==> final(self).spec_pending() is None),
            poll matches Some(p) ==> (old(self).spec_pending() == Some(p.0)
                ==> (p.1 matches Ok(img) ==> {
                &&& final(self).spec_image() == Some(img)
                &&& final(self).spec_generation() > old(self).spec_generation()
            })),
            poll matches Some(p) ==> ((old(self).spec_pending() == Some(p.0) && p.1 is Err) ==> {
                &&& final(self).spec_image() == old(self).spec_image()
                &&& final(self).spec_generation() == old(self).spec_generation()
            }),
            poll matches Some(p) ==> (old(self).spec_pending() != Some(p.0) ==> *final(self)
                == *old(self)),
            frame.wf(),
            frame.spec_state_id() == final(self).spec_id(),
            opt_image_view(frame.spec_image()) == opt_image_view(final(self).spec_image()),
            frame.spec_image() is Some <==> final(self).spec_image() is Some,
            frame.spec_generation() == final(self).spec_generation(),
            frame.spec_logical_area() == area,
            frame.spec_area() == spec_scaled(area, scale as int),
            frame.spec_size() == size,
    {
        match poll {
            Some((ticket, result)) => self.check(ticket, result),
            None => {},
        }
        let physical = area.to_physical(scale);
        let image = match &self.image {
            Some(img) => Some(img.clone()),
            None => None,
        };
        WallpaperFrame {
            state_id: self.id,
            logical_area: area,
            area: physical,
            size,
            image,
            generation: self.generation,
        }
    }
}

/// A successful poll outcome carries a well-formed bitmap.
pub open spec fn poll_result_valid(poll: Option<(u64, Result<DecodedImage, LoadError>)>) -> bool {
    match poll {
        Some(p) => match p.1 {
            Ok(img) => img.valid(),
            Err(_) => true,
        },
        None => true,
    }
}

impl WallpaperFrame {
    /// The owning instance's id.
    pub closed spec fn spec_state_id(&self) -> usize {
        self.state_id
    }

    /// The caller-supplied target area, in logical coordinates.
    pub closed spec fn spec_logical_area(&self) -> Rect {
        self.logical_area
    }

    /// The target area converted to physical coordinates.
    pub closed spec fn spec_area(&self) -> Rect {
        self.area
    }

    /// The target buffer size.
    pub closed spec fn spec_size(&self) -> Extent {
        self.size
    }

    /// The image current when the snapshot was taken.
    pub closed spec fn spec_image(&self) -> Option<DecodedImage> {
        self.image
    }

    /// The generation of that image (0: never loaded).
    pub closed spec fn spec_generation(&self) -> u64 {
        self.generation
    }

    /// A frame carries an image exactly after a first successful load, and a
    /// well-formed one.
    pub closed spec fn wf(&self) -> bool {
        &&& (self.image is Some <==> self.generation > 0)
        &&& (self.image matches Some(img) ==> img.valid())
    }

    /// The owning instance id, for the host's damage and z-order bookkeeping.
    pub fn id(&self) -> (r: usize)
        ensures
            r == self.spec_state_id(),
    {
        self.state_id
    }

    /// The bounding rectangle of this element, in logical coordinates.
    pub fn geometry(&self) -> (r: Rect)
        ensures
            r == self.spec_logical_area(),
    {
        self.logical_area
    }

    /// The target area in physical coordinates.
    pub fn area(&self) -> (r: Rect)
        ensures
            r == self.spec_area(),
    {
        self.area
    }

    /// The target buffer size.
    pub fn size(&self) -> (r: Extent)
        ensures
            r == self.spec_size(),
    {
        self.size
    }

    /// The generation of the image this frame references. The host passes it
    /// back as `since` to [`accumulated_damage`] on the next frame.
    ///
    /// [`accumulated_damage`]: WallpaperFrame::accumulated_damage
    pub fn generation(&self) -> (r: u64)
        ensures
            r == self.spec_generation(),
    {
        self.generation
    }

    /// Wallpapers paint behind everything: a fixed lowest z-index.
    pub fn z_index(&self) -> (r: u8)
        ensures
            r == 0,
    {
        0
    }

    /// The bitmap the host must upload when a fresh texture is owed; absent
    /// exactly when the frame has no image.
    pub fn upload_source(&self) -> (r: Option<&DecodedImage>)
        ensures
            r is Some <==> self.spec_image() is Some,
            r matches Some(img) ==> self.spec_image() == Some(*img),
    {
        self.image.as_ref()
    }

    /// The regions that changed since the frame generation `since` the host
    /// last saw.
    ///
    /// A static wallpaper needs no repaint once shown: the damage is empty
    /// exactly when the same image generation was already current on the
    /// prior frame (or there is nothing to show at all), and is the full
    /// wallpaper geometry exactly on the frame where a new image first
    /// becomes current.
    pub fn accumulated_damage(&self, since: Option<u64>) -> (d: Vec<Rect>)
        ensures
            (d@.len() == 0) <==> (self.spec_image() is None || since == Some(
                self.spec_generation(),
            )),
            d@.len() != 0 ==> d@ == seq![self.spec_logical_area()],
    {
        let fresh = match since {
            Some(g) => g != self.generation,
            None => true,
        };
        if self.image.is_some() && fresh {
            let mut d: Vec<Rect> = Vec::new();
            d.push(self.logical_area);
            proof {
                assert(d@ =~= seq![self.spec_logical_area()]);
            }
            d
        } else {
            Vec::new()
        }
    }

    /// Whether drawing this frame needs the host to upload a fresh texture
    /// first: an image is present and the slot holds no texture of its
    /// generation.
    pub fn needs_upload<T>(&self, slot: &TextureSlot<T>) -> (r: bool)
        ensures
            r == (self.spec_image() is Some && !slot_holds(slot@, self.spec_generation())),
    {
        match &self.image {
            Some(_) => !slot.has(self.generation),
            None => false,
        }
    }

    /// Draw this frame: decide the one textured-quad blit the host must
    /// issue, ensuring the texture slot is filled first.
    ///
    /// With no image ever loaded this is a no-op that succeeds and touches
    /// nothing. Otherwise the slot is brought to this frame's generation —
    /// reusing the cached texture when it already matches, storing the host's
    /// freshly `uploaded` one when not — and the returned plan covers the
    /// whole target buffer, whatever sub-area was requested (the wallpaper
    /// fills its surface). When a fresh texture was owed but the host could
    /// not supply one, the slot is left empty and the error is handed back;
    /// the next draw retries.
    pub fn draw<T>(&self, slot: &mut TextureSlot<T>, uploaded: Option<T>) -> (r: Result<
        DrawPlan,
        UploadError,
    >)
        ensures
            self.spec_image() is None ==> r == Ok::<DrawPlan, UploadError>(DrawPlan::Skip)
                && final(slot)@ == old(slot)@,
            self.spec_image() is Some ==> final(slot)@ == slot_after(
                old(slot)@,
                self.spec_generation(),
                uploaded,
            ),
            self.spec_image() is Some ==> ((r is Ok) <==> (slot_holds(
                old(slot)@,
                self.spec_generation(),
            ) || uploaded is Some)),
            (self.spec_image() is Some && r is Ok) ==> r == Ok::<DrawPlan, UploadError>(
                (DrawPlan::Blit { dest: full_rect(self.spec_size()) }),
            ) && slot_holds(final(slot)@, self.spec_generation()),
            r is Err ==> r == Err::<DrawPlan, UploadError>(UploadError),
    {
        match &self.image {
            None => Ok(DrawPlan::Skip),
            Some(_) => {
                match slot.ensure_uploaded(self.generation, uploaded) {
                    Ok(()) => Ok(DrawPlan::Blit { dest: self.size.full() }),
                    Err(e) => Err(e),
                }
            },
        }
    }
}

/// Last request wins, delivered in order: when load A is requested and then
/// load B before A's decode finishes, and A's result arrives first, A is
/// discarded outright and the state afterwards reflects B's result — B's
/// bitmap on success, the image from before both requests on failure — never
/// A's.
pub proof fn lemma_last_request_wins<T>(
    s0: WallpaperState<T>,
    s1: WallpaperState<T>,
    s2: WallpaperState<T>,
    s3: WallpaperState<T>,
    s4: WallpaperState<T>,
    ta: u64,
    tb: u64,
    ra: Result<DecodedImage, LoadError>,
    rb: Result<DecodedImage, LoadError>,
)
    requires
        WallpaperState::set_step(s0, s1, ta),
        WallpaperState::set_step(s1, s2, tb),
        WallpaperState::check_step(s2, ta, ra, s3),
        WallpaperState::check_step(s3, tb, rb, s4),
    ensures
        s3 == s2,
        rb matches Ok(img) ==> s4.spec_image() == Some(img),
        rb is Err ==> s4.spec_image() == s0.spec_image(),
{
    assert(ta != tb);
}

/// Last request wins, delivered out of order: when B's result arrives first
/// and is accounted, A's later completion is discarded outright and changes
/// nothing.
pub proof fn lemma_last_request_wins_reordered<T>(
    s0: WallpaperState<T>,
    s1: WallpaperState<T>,
    s2: WallpaperState<T>,
    s3: WallpaperState<T>,
    s4: WallpaperState<T>,
    ta: u64,
    tb: u64,
    ra: Result<DecodedImage, LoadError>,
    rb: Result<DecodedImage, LoadError>,
)
    requires
        WallpaperState::set_step(s0, s1, ta),
        WallpaperState::set_step(s1, s2, tb),
        WallpaperState::check_step(s2, tb, rb, s3),
        WallpaperState::check_step(s3, ta, ra, s4),
    ensures
        s4 == s3,
        rb matches Ok(img) ==> s3.spec_image() == Some(img) && s4.spec_image() == Some(img),
        rb is Err ==> s4.spec_image() == s0.spec_image(),
{
    assert(ta != tb);
}

/// The image generation changes exactly when a fresh image becomes current:
/// accounting a completed decode starts a new generation if and only if it
/// was the tracked load and it succeeded. Together with
/// [`WallpaperFrame::accumulated_damage`]'s contract this makes the damage
/// report exact: empty once two consecutive frames reference the same
/// generation, non-empty exactly on the frame where a new image first became
/// current.
pub proof fn lemma_generation_tracks_fresh_images<T>(
    pre: WallpaperState<T>,
    ticket: u64,
    r: Result<DecodedImage, LoadError>,
    post: WallpaperState<T>,
)
    requires
        pre.wf(),
        WallpaperState::check_step(pre, ticket, r, post),
    ensures
        (post.spec_generation() != pre.spec_generation()) <==> (pre.spec_pending() == Some(ticket)
            && r is Ok),
        (pre.spec_pending() == Some(ticket) && r is Ok) ==> post.spec_image() is Some,
{
}

} // verus!

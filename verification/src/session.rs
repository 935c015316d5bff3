//! The preview session: which document is bound, which raster is on display,
//! the single-flight render pipeline with its supersession rule, and the
//! follow controller that retargets the binding when the host's active view
//! changes.
//!
//! Asynchrony is modelled with a generation counter. Submitting a render
//! advances the session's generation and tags the host's background render
//! with it; when a render finishes, its result is applied only if its tag
//! still equals the session's generation, so a newer submission silently
//! supersedes every older one. Subscriptions and raster images are resources
//! the host owns; the session names them by token and hands a token back
//! whenever the resource behind it must be released.

use vstd::prelude::*;
use crate::document::DocumentRef;
use crate::document::eligible;
use crate::document::is_svg_file;
use crate::document::file_name;
use crate::document::file_name_of;
use crate::document::copy_range;
use crate::interact::PixelPoint;
use crate::interact::SCALE_MIN;
use crate::interact::SCALE_MAX;
use crate::interact::SCALE_DEFAULT;
use crate::interact::clamped_scale;
use crate::interact::apply_scale_delta;
use crate::interact::dragged_offset;
use crate::interact::dragged_offset_x;
use crate::interact::dragged_offset_y;

verus! {

/// Whether the preview stays on the document it was opened for, or follows
/// the host's active view.
#[derive(Clone, Copy, Debug, PartialEq, Eq, Structural)]
pub enum SvgPreviewMode {
    /// The preview always shows the document it was opened for.
    Default,
    /// The preview retargets itself to the last active SVG document.
    Follow,
}

/// An opaque handle to one rendered raster that the host holds; the session
/// decides which handle is on display and which must be released.
#[derive(Clone, Copy, Debug, PartialEq, Eq, Structural)]
pub struct ImageHandle {
    pub id: u64,
}

/// A notification from the bound document.
#[derive(Clone, Copy, Debug, PartialEq, Eq, Structural)]
pub enum BufferEvent {
    Edited,
    Saved,
    /// Any other buffer notification; the preview ignores it.
    Other,
}

/// What a follow-mode retarget asks of the host: the subscription token to
/// release, and the generation of the render to start, if any.
#[derive(Clone, Copy, Debug, PartialEq, Eq, Structural)]
pub struct FollowOutcome {
    pub released_subscription: Option<u64>,
    pub submitted: Option<u64>,
}

/// The resources a closing session hands back for release.
#[derive(Clone, Copy, Debug, PartialEq, Eq, Structural)]
pub struct CloseOutcome {
    pub released_image: Option<ImageHandle>,
    pub released_buffer_subscription: Option<u64>,
    pub released_workspace_subscription: Option<u64>,
}

/// One preview panel's state.
pub struct SvgPreviewView {
    pub mode: SvgPreviewMode,
    /// The bound document, if any.
    pub buffer: Option<DocumentRef>,
    /// Token of the change subscription on the bound document.
    pub buffer_subscription: Option<u64>,
    /// Token of the active-view subscription; held exactly in follow mode.
    pub workspace_subscription: Option<u64>,
    /// The raster on display.
    pub current_svg: Option<ImageHandle>,
    /// Text of the last render failure, kept until a render succeeds.
    pub error: Option<Vec<u8>>,
    /// Zoom scale in hundredths, within [SCALE_MIN, SCALE_MAX].
    pub scale_factor: i64,
    /// Pointer position recorded when the current drag began.
    pub drag_start: PixelPoint,
    /// Accumulated pan offset of the displayed raster.
    pub image_offset: PixelPoint,
    /// Generation of the most recent render submission; results tagged with
    /// any other generation are superseded.
    pub render_generation: u64,
}

impl SvgPreviewView {
    /// The session's invariant: the scale stays clamped, a document is bound
    /// exactly when its change subscription is held, and the active-view
    /// subscription is held exactly in follow mode.
    pub open spec fn wf(self) -> bool {
        &&& SCALE_MIN <= self.scale_factor <= SCALE_MAX
        &&& self.buffer.is_some() == self.buffer_subscription.is_some()
        &&& self.workspace_subscription.is_some() == (self.mode == SvgPreviewMode::Follow)
    }

    /// The session a render submission leaves, and the generation it hands
    /// the host: with a bound document the generation advances, superseding
    /// every earlier submission; with none, nothing happens.
    pub open spec fn submitted_render_spec(pre: Self) -> (Self, Option<u64>) {
        if pre.buffer.is_some() {
            (
                (Self { render_generation: (pre.render_generation + 1) as u64, ..pre }),
                Some((pre.render_generation + 1) as u64),
            )
        } else {
            (pre, None)
        }
    }

    /// The session that applying a finished render leaves. A result tagged
    /// with a superseded generation changes nothing. The current generation's
    /// success swaps the image in and clears the error in the same step; its
    /// failure records the error and keeps the image on display.
    pub open spec fn applied_render_spec(
        pre: Self,
        generation: u64,
        result: Result<ImageHandle, Vec<u8>>,
    ) -> Self {
        if generation != pre.render_generation {
            pre
        } else {
            match result {
                Ok(image) => (Self { current_svg: Some(image), error: None, ..pre }),
                Err(message) => (Self { error: Some(message), ..pre }),
            }
        }
    }

    /// The image that applying a finished render releases: a superseded
    /// success hands its own image back, the current success hands back the
    /// image it replaces, a failure releases nothing.
    pub open spec fn released_by_render_spec(
        pre: Self,
        generation: u64,
        result: Result<ImageHandle, Vec<u8>>,
    ) -> Option<ImageHandle> {
        match result {
            Ok(image) => if generation == pre.render_generation {
                pre.current_svg
            } else {
                Some(image)
            },
            Err(_) => None,
        }
    }

    /// A follow-mode activation event rebinds exactly when the newly active
    /// view exposes an eligible document whose identity differs from the
    /// bound one's.
    pub open spec fn follow_retargets(self, active: Option<DocumentRef>) -> bool {
        match active {
            Some(doc) => eligible(doc) && match self.buffer {
                Some(bound) => bound.id != doc.id,
                None => true,
            },
            None => false,
        }
    }

    /// The session a follow-mode activation event leaves, and what it asks of
    /// the host: a retarget swaps the binding and its subscription, hands the
    /// old token back, and submits one render; anything else is a no-op.
    pub open spec fn follow_spec(
        pre: Self,
        active: Option<DocumentRef>,
        fresh_subscription: u64,
    ) -> (Self, FollowOutcome) {
        if pre.follow_retargets(active) {
            let rebound = Self {
                buffer: active,
                buffer_subscription: Some(fresh_subscription),
                ..pre
            };
            let submitted = Self::submitted_render_spec(rebound);
            (
                submitted.0,
                (FollowOutcome {
                    released_subscription: pre.buffer_subscription,
                    submitted: submitted.1,
                }),
            )
        } else {
            (pre, (FollowOutcome { released_subscription: None, submitted: None }))
        }
    }

    /// The session a wheel step leaves: a zero step changes nothing and
    /// submits nothing; a nonzero step moves the scale to the clamped sum
    /// and submits a render of the bound document at the new scale.
    pub open spec fn wheel_spec(pre: Self, delta: i64) -> (Self, Option<u64>) {
        if delta == 0 {
            (pre, None)
        } else {
            Self::submitted_render_spec(
                (Self { scale_factor: clamped_scale(pre.scale_factor + delta) as i64, ..pre }),
            )
        }
    }

    /// Opens a preview. The document is bound, and a change subscription
    /// under `buffer_token` recorded, exactly when it is a single flat
    /// buffer; follow mode records the active-view subscription under
    /// `workspace_token`. A bound session submits its first render at once.
    pub fn new(
        mode: SvgPreviewMode,
        active: DocumentRef,
        buffer_token: u64,
        workspace_token: u64,
    ) -> (r: (Self, Option<u64>))
        ensures
            r.0.wf(),
            r.0.mode == mode,
            active.singleton ==> r.0.buffer == Some(active)
                && r.0.buffer_subscription == Some(buffer_token)
                && r.0.render_generation == 1
                && r.1 == Some(1u64),
            !active.singleton ==> r.0.buffer is None
                && r.0.buffer_subscription is None
                && r.0.render_generation == 0
                && r.1 is None,
            r.0.workspace_subscription == if mode == SvgPreviewMode::Follow {
                Some(workspace_token)
            } else {
                None::<u64>
            },
            r.0.current_svg is None,
            r.0.error is None,
            r.0.scale_factor == SCALE_DEFAULT,
            r.0.drag_start == (PixelPoint { x: 0, y: 0 }),
            r.0.image_offset == (PixelPoint { x: 0, y: 0 }),
    {
        let singleton = active.singleton;
        let buffer = if singleton {
            Some(active)
        } else {
            None
        };
        let buffer_subscription = if singleton {
            Some(buffer_token)
        } else {
            None
        };
        let workspace_subscription = if mode == SvgPreviewMode::Follow {
            Some(workspace_token)
        } else {
            None
        };
        let mut session = SvgPreviewView {
            mode,
            buffer,
            buffer_subscription,
            workspace_subscription,
            current_svg: None,
            error: None,
            scale_factor: SCALE_DEFAULT,
            drag_start: PixelPoint { x: 0, y: 0 },
            image_offset: PixelPoint { x: 0, y: 0 },
            render_generation: 0,
        };
        let submitted = session.render_image();
        (session, submitted)
    }

    /// Submits one render of the bound document at the current scale. The
    /// returned generation tags the host's background render; a session with
    /// no bound document submits nothing.
    pub fn render_image(&mut self) -> (r: Option<u64>)
        requires
            old(self).buffer.is_some() ==> old(self).render_generation < u64::MAX,
        ensures
            *final(self) == Self::submitted_render_spec(*old(self)).0,
            r == Self::submitted_render_spec(*old(self)).1,
    {
        if self.buffer.is_some() {
            self.render_generation = self.render_generation + 1;
            Some(self.render_generation)
        } else {
            None
        }
    }

    /// Applies one finished render, identified by the generation that tagged
    /// its submission, and returns the image the host must now release.
    pub fn apply_render_result(
        &mut self,
        generation: u64,
        result: Result<ImageHandle, Vec<u8>>,
    ) -> (released: Option<ImageHandle>)
        ensures
            *final(self) == Self::applied_render_spec(*old(self), generation, result),
            released == Self::released_by_render_spec(*old(self), generation, result),
    {
        if generation != self.render_generation {
            match result {
                Ok(image) => Some(image),
                Err(_) => None,
            }
        } else {
            match result {
                Ok(image) => {
                    let released = self.current_svg;
                    self.current_svg = Some(image);
                    self.error = None;
                    released
                },
                Err(message) => {
                    self.error = Some(message);
                    None
                },
            }
        }
    }

    /// A change or save of the bound document submits a fresh render; any
    /// other buffer notification is ignored.
    pub fn on_buffer_event(&mut self, event: BufferEvent) -> (r: Option<u64>)
        requires
            old(self).buffer.is_some() ==> old(self).render_generation < u64::MAX,
        ensures
            (event == BufferEvent::Edited || event == BufferEvent::Saved) ==> (
                *final(self) == Self::submitted_render_spec(*old(self)).0
                && r == Self::submitted_render_spec(*old(self)).1
            ),
            event == BufferEvent::Other ==> *final(self) == *old(self) && r is None,
    {
        match event {
            BufferEvent::Edited | BufferEvent::Saved => self.render_image(),
            BufferEvent::Other => None,
        }
    }

    /// Follow mode's reaction to the host's active-view change: rebind when
    /// the new view exposes a different eligible document, release the old
    /// subscription and submit one render; otherwise keep showing the last
    /// bound document untouched.
    pub fn on_active_item_changed(
        &mut self,
        active: Option<DocumentRef>,
        fresh_subscription: u64,
    ) -> (r: FollowOutcome)
        requires
            old(self).wf(),
            old(self).mode == SvgPreviewMode::Follow,
            old(self).follow_retargets(active) ==> old(self).render_generation < u64::MAX,
        ensures
            final(self).wf(),
            *final(self) == Self::follow_spec(*old(self), active, fresh_subscription).0,
            r == Self::follow_spec(*old(self), active, fresh_subscription).1,
    {
        match active {
            Some(doc) => {
                let qualifies = is_svg_file(&doc);
                let differs = match &self.buffer {
                    Some(bound) => bound.id != doc.id,
                    None => true,
                };
                if qualifies && differs {
                    let released = self.buffer_subscription;
                    self.buffer_subscription = Some(fresh_subscription);
                    self.buffer = Some(doc);
                    let submitted = self.render_image();
                    FollowOutcome { released_subscription: released, submitted }
                } else {
                    FollowOutcome { released_subscription: None, submitted: None }
                }
            },
            None => FollowOutcome { released_subscription: None, submitted: None },
        }
    }

    /// A drag begins: the pointer position becomes the drag anchor.
    pub fn on_drag_start(&mut self, position: PixelPoint)
        ensures
            *final(self) == (Self { drag_start: position, ..*old(self) }),
    {
        self.drag_start = position;
    }

    /// A drag move: the pan offset becomes the offset held when the drag
    /// began, plus the pointer's travel from the anchor, measured from the
    /// panel's origin.
    pub fn on_drag_move(
        &mut self,
        initial_offset: PixelPoint,
        position: PixelPoint,
        bounds_origin: PixelPoint,
    )
        requires
            i64::MIN <= dragged_offset_x(initial_offset, position, bounds_origin, old(self).drag_start) <= i64::MAX,
            i64::MIN <= dragged_offset_y(initial_offset, position, bounds_origin, old(self).drag_start) <= i64::MAX,
        ensures
            final(self).image_offset.x == dragged_offset_x(
                initial_offset, position, bounds_origin, old(self).drag_start,
            ),
            final(self).image_offset.y == dragged_offset_y(
                initial_offset, position, bounds_origin, old(self).drag_start,
            ),
            *final(self) == (Self { image_offset: final(self).image_offset, ..*old(self) }),
    {
        let anchor = self.drag_start;
        self.image_offset = dragged_offset(initial_offset, position, bounds_origin, anchor);
    }

    /// A wheel step: a zero step is a no-op; a nonzero step adds the step to
    /// the scale, clamps, and submits a render at the new scale.
    pub fn on_scroll_wheel(&mut self, delta: i64) -> (r: Option<u64>)
        requires
            old(self).wf(),
            old(self).buffer.is_some() ==> old(self).render_generation < u64::MAX,
        ensures
            final(self).wf(),
            *final(self) == Self::wheel_spec(*old(self), delta).0,
            r == Self::wheel_spec(*old(self), delta).1,
    {
        if delta == 0 {
            None
        } else {
            self.scale_factor = apply_scale_delta(self.scale_factor, delta);
            self.render_image()
        }
    }

    /// Ends the session: every held resource is handed back for release, and
    /// with the session gone any still-running render is superseded for good.
    pub fn close(self) -> (r: CloseOutcome)
        ensures
            r.released_image == self.current_svg,
            r.released_buffer_subscription == self.buffer_subscription,
            r.released_workspace_subscription == self.workspace_subscription,
    {
        CloseOutcome {
            released_image: self.current_svg,
            released_buffer_subscription: self.buffer_subscription,
            released_workspace_subscription: self.workspace_subscription,
        }
    }

    /// The session after `n` render submissions in a row.
    pub open spec fn submitted_n_spec(pre: Self, n: nat) -> Self
        decreases n,
    {
        if n == 0 {
            pre
        } else {
            Self::submitted_render_spec(Self::submitted_n_spec(pre, (n - 1) as nat)).0
        }
    }
}

/// The bytes of `Preview `, the tab title's prefix before the file name.
pub open spec fn preview_prefix() -> Seq<u8> {
    seq![80u8, 114u8, 101u8, 118u8, 105u8, 101u8, 119u8, 32u8]
}

/// The bytes of `SVG Preview`, the tab title of an unbound preview.
pub open spec fn default_title() -> Seq<u8> {
    seq![83u8, 86u8, 71u8, 32u8, 80u8, 114u8, 101u8, 118u8, 105u8, 101u8, 119u8]
}

/// The title of an unbound preview, as `default_title` states it.
fn default_title_text() -> (r: Vec<u8>)
    ensures
        r@ == default_title(),
{
    let mut out: Vec<u8> = Vec::new();
    out.push(83);
    out.push(86);
    out.push(71);
    out.push(32);
    out.push(80);
    out.push(114);
    out.push(101);
    out.push(118);
    out.push(105);
    out.push(101);
    out.push(119);
    proof {
        assert(out@ =~= default_title());
    }
    out
}

/// The tab's icon choice.
#[derive(Clone, Debug, PartialEq, Eq)]
pub enum TabIcon {
    /// Show the icon the host resolved for the file, by its asset path.
    FilePath(Vec<u8>),
    /// Show the generic image icon.
    GenericImage,
}

/// The panel's main content.
#[derive(Clone, Copy, Debug, PartialEq, Eq, Structural)]
pub enum DisplayContent {
    /// The rendered raster, placed at the pan offset.
    Image(ImageHandle, PixelPoint),
    /// The placeholder text shown while no document is rendered.
    Placeholder,
}

/// What the panel shows.
#[derive(Clone, Debug, PartialEq, Eq)]
pub struct DisplayState {
    /// The rendered raster at its pan offset, or the placeholder.
    pub content: DisplayContent,
    /// Error text to surface as inline text, with a warning icon, over the
    /// content, while the last render has failed.
    pub error: Option<Vec<u8>>,
}

impl SvgPreviewView {
    /// The tab title: `Preview ` followed by the bound document's file name,
    /// or `SVG Preview` when no document or no file is bound.
    pub open spec fn title_spec(self) -> Seq<u8> {
        match self.buffer {
            Some(doc) => match doc.path {
                Some(p) => preview_prefix() + file_name_of(p@),
                None => default_title(),
            },
            None => default_title(),
        }
    }

    /// Builds the tab title.
    pub fn tab_content_text(&self) -> (r: Vec<u8>)
        ensures
            r@ == self.title_spec(),
    {
        match &self.buffer {
            Some(doc) => match &doc.path {
                Some(p) => {
                    let mut out: Vec<u8> = Vec::new();
                    out.push(80);
                    out.push(114);
                    out.push(101);
                    out.push(118);
                    out.push(105);
                    out.push(101);
                    out.push(119);
                    out.push(32);
                    let name = file_name(p);
                    proof {
                        assert(out@ =~= preview_prefix() + name@.subrange(0, 0));
                    }
                    let mut k: usize = 0;
                    while k < name.len()
                        invariant
                            k <= name@.len(),
                            out@ == preview_prefix() + name@.subrange(0, k as int),
                        decreases name@.len() - k,
                    {
                        out.push(name[k]);
                        proof {
                            assert(out@ =~= preview_prefix() + name@.subrange(0, k as int + 1));
                        }
                        k = k + 1;
                    }
                    proof {
                        assert(name@.subrange(0, name@.len() as int) =~= name@);
                    }
                    out
                },
                None => default_title_text(),
            },
            None => default_title_text(),
        }
    }

    /// The icon the tab shows, given what the host's icon table resolved for
    /// the bound document's path: that icon, or the generic image icon when
    /// there is no path or nothing specific was resolved.
    pub open spec fn tab_icon_spec(self, resolved_icon: Option<Vec<u8>>) -> TabIcon {
        match self.buffer {
            Some(doc) => match doc.path {
                Some(_) => match resolved_icon {
                    Some(icon) => TabIcon::FilePath(icon),
                    None => TabIcon::GenericImage,
                },
                None => TabIcon::GenericImage,
            },
            None => TabIcon::GenericImage,
        }
    }

    /// Chooses the tab icon.
    pub fn tab_icon(&self, resolved_icon: Option<Vec<u8>>) -> (r: TabIcon)
        ensures
            r == self.tab_icon_spec(resolved_icon),
    {
        let has_path = match &self.buffer {
            Some(doc) => doc.path.is_some(),
            None => false,
        };
        if has_path {
            match resolved_icon {
                Some(icon) => TabIcon::FilePath(icon),
                None => TabIcon::GenericImage,
            }
        } else {
            TabIcon::GenericImage
        }
    }

    /// What the panel shows, as a pair: the content — the rendered raster at
    /// its pan offset, or the placeholder while no render has succeeded —
    /// and the error text surfaced over it while the last render has failed.
    pub open spec fn display_spec(self) -> (DisplayContent, Option<Seq<u8>>) {
        (
            match self.current_svg {
                Some(image) => DisplayContent::Image(image, self.image_offset),
                None => DisplayContent::Placeholder,
            },
            match self.error {
                Some(message) => Some(message@),
                None => None,
            },
        )
    }

    /// What the panel shows: the raster at its pan offset or the
    /// placeholder, with the last render failure's text to surface inline
    /// over it until a render succeeds.
    pub fn display_state(&self) -> (r: DisplayState)
        ensures
            r.content == self.display_spec().0,
            (match r.error {
                Some(shown) => self.display_spec().1 == Some(shown@),
                None => self.display_spec().1 is None,
            }),
    {
        let content = match self.current_svg {
            Some(image) => DisplayContent::Image(image, self.image_offset),
            None => DisplayContent::Placeholder,
        };
        let shown_error = match &self.error {
            Some(message) => {
                let n = message.len();
                let copy = copy_range(message, 0, n);
                proof {
                    assert(copy@ =~= message@);
                }
                Some(copy)
            },
            None => None,
        };
        DisplayState { content, error: shown_error }
    }

    /// The label the host's telemetry records for this panel.
    pub fn telemetry_event_text(&self) -> (r: &'static str)
        ensures
            r@ == "svg preview: open"@,
    {
        "svg preview: open"
    }
}

/// Submitting advances the generation by one each time and touches nothing
/// else of the binding.
pub proof fn lemma_submitted_n_generation(s: SvgPreviewView, n: nat)
    requires
        s.buffer.is_some(),
        s.render_generation + n <= u64::MAX,
    ensures
        SvgPreviewView::submitted_n_spec(s, n).render_generation == s.render_generation + n,
        SvgPreviewView::submitted_n_spec(s, n).buffer == s.buffer,
    decreases n,
{
    if n > 0 {
        lemma_submitted_n_generation(s, (n - 1) as nat);
    }
}

/// However late a superseded render resolves, applying it leaves the session
/// exactly as it was; a superseded success hands its image back for release,
/// never displaying it.
pub proof fn law_superseded_render_discarded(
    s: SvgPreviewView,
    generation: u64,
    result: Result<ImageHandle, Vec<u8>>,
)
    requires
        generation != s.render_generation,
    ensures
        SvgPreviewView::applied_render_spec(s, generation, result) == s,
        result matches Ok(image) ==> SvgPreviewView::released_by_render_spec(
            s, generation, result,
        ) == Some(image),
{
}

/// Of any run of submissions, only the last can mutate the session: after
/// `n` further submissions, a result still tagged with one of the earlier
/// generations is discarded, however late it resolves.
pub proof fn law_only_last_submission_applies(
    s: SvgPreviewView,
    n: nat,
    k: nat,
    result: Result<ImageHandle, Vec<u8>>,
)
    requires
        s.buffer.is_some(),
        s.render_generation + n <= u64::MAX,
        k < n,
    ensures
        SvgPreviewView::applied_render_spec(
            SvgPreviewView::submitted_n_spec(s, n),
            (s.render_generation + k) as u64,
            result,
        ) == SvgPreviewView::submitted_n_spec(s, n),
{
    lemma_submitted_n_generation(s, n);
}

/// Eventual consistency: after any run of submissions, applying the last
/// submission's successful result puts exactly that result's image on
/// display and clears the error, whatever resolved in between.
pub proof fn law_final_render_shows_final_content(
    s: SvgPreviewView,
    n: nat,
    image: ImageHandle,
)
    requires
        s.buffer.is_some(),
        s.render_generation + n <= u64::MAX,
    ensures
        SvgPreviewView::applied_render_spec(
            SvgPreviewView::submitted_n_spec(s, n),
            (s.render_generation + n) as u64,
            Ok(image),
        ).current_svg == Some(image),
        SvgPreviewView::applied_render_spec(
            SvgPreviewView::submitted_n_spec(s, n),
            (s.render_generation + n) as u64,
            Ok(image),
        ).error is None,
{
    lemma_submitted_n_generation(s, n);
}

/// A zero wheel step is a no-op: no state change and no render submission.
pub proof fn law_zero_wheel_delta_is_noop(s: SvgPreviewView)
    ensures
        SvgPreviewView::wheel_spec(s, 0) == (s, None::<u64>),
{
}

/// Activating a view with no qualifying document leaves the session — its
/// bound document and its displayed image among the rest — untouched, and
/// releases nothing.
pub proof fn law_follow_nonqualifying_is_noop(
    s: SvgPreviewView,
    active: Option<DocumentRef>,
    fresh_subscription: u64,
)
    requires
        !s.follow_retargets(active),
    ensures
        SvgPreviewView::follow_spec(s, active, fresh_subscription) == (
            s,
            (FollowOutcome { released_subscription: None, submitted: None }),
        ),
{
}

/// Activating a view with a different eligible document swaps the binding
/// and its subscription exactly once — the old token is handed back, so
/// none leaks — and submits exactly one render; the displayed image waits
/// for that render and is not touched by the swap itself.
pub proof fn law_follow_rebind_swaps_once(
    s: SvgPreviewView,
    doc: DocumentRef,
    fresh_subscription: u64,
)
    requires
        s.wf(),
        s.follow_retargets(Some(doc)),
        s.render_generation < u64::MAX,
    ensures
        SvgPreviewView::follow_spec(s, Some(doc), fresh_subscription).0.buffer == Some(doc),
        SvgPreviewView::follow_spec(s, Some(doc), fresh_subscription).0.buffer_subscription
            == Some(fresh_subscription),
        SvgPreviewView::follow_spec(s, Some(doc), fresh_subscription).1.released_subscription
            == s.buffer_subscription,
        s.buffer.is_some() ==> SvgPreviewView::follow_spec(
            s, Some(doc), fresh_subscription,
        ).1.released_subscription.is_some(),
        SvgPreviewView::follow_spec(s, Some(doc), fresh_subscription).1.submitted
            == Some((s.render_generation + 1) as u64),
        SvgPreviewView::follow_spec(s, Some(doc), fresh_subscription).0.current_svg
            == s.current_svg,
        SvgPreviewView::follow_spec(s, Some(doc), fresh_subscription).0.error == s.error,
{
}

/// A failed render keeps the previous image on display, records the error's
/// text, and releases nothing.
pub proof fn law_failure_keeps_image(s: SvgPreviewView, message: Vec<u8>)
    ensures
        SvgPreviewView::applied_render_spec(
            s, s.render_generation, Err(message),
        ).current_svg == s.current_svg,
        SvgPreviewView::applied_render_spec(s, s.render_generation, Err(message)).error
            == Some(message),
        SvgPreviewView::released_by_render_spec(s, s.render_generation, Err(message)) is None,
{
}

/// A failure of the current generation leaves the stale raster on display,
/// untouched, and surfaces the failure's text over it.
pub proof fn law_failure_surfaces_error_over_stale_image(s: SvgPreviewView, message: Vec<u8>)
    ensures
        SvgPreviewView::applied_render_spec(
            s, s.render_generation, Err(message),
        ).display_spec().0 == s.display_spec().0,
        SvgPreviewView::applied_render_spec(
            s, s.render_generation, Err(message),
        ).display_spec().1 == Some(message@),
{
}

/// A successful render of the current generation swaps the image in and
/// clears the error in the same step, handing the replaced image back for
/// release.
pub proof fn law_success_swaps_and_clears(s: SvgPreviewView, image: ImageHandle)
    ensures
        SvgPreviewView::applied_render_spec(s, s.render_generation, Ok(image)).current_svg
            == Some(image),
        SvgPreviewView::applied_render_spec(s, s.render_generation, Ok(image)).error is None,
        SvgPreviewView::released_by_render_spec(s, s.render_generation, Ok(image))
            == s.current_svg,
{
}

} // verus!

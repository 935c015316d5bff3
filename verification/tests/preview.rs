use svg_preview::commands::{
    find_existing_preview_item_idx, plan_preview_command, resolve_active_item_as_svg_editor,
    PreviewCommand,
};
use svg_preview::document::{
    eq_ignore_ascii_case, file_name, is_svg_file, is_svg_path, path_extension, DocumentRef,
};
use svg_preview::interact::{apply_scale_delta, dragged_offset, PixelPoint, SCALE_DEFAULT};
use svg_preview::session::{
    BufferEvent, DisplayContent, ImageHandle, SvgPreviewMode, SvgPreviewView, TabIcon,
};

fn bytes(s: &str) -> Vec<u8> {
    s.as_bytes().to_vec()
}

fn doc(id: u64, singleton: bool, path: Option<&str>) -> DocumentRef {
    DocumentRef {
        id,
        singleton,
        path: path.map(bytes),
    }
}

#[test]
fn upper_case_svg_extension_is_eligible() {
    assert!(is_svg_file(&doc(1, true, Some("icon.SVG"))));
    assert!(is_svg_file(&doc(1, true, Some("assets/logo.svg"))));
    assert!(is_svg_file(&doc(1, true, Some("a/b/c.SvG"))));
}

#[test]
fn composite_document_is_never_eligible() {
    assert!(!is_svg_file(&doc(1, false, Some("icon.svg"))));
    assert!(!is_svg_file(&doc(1, false, Some("icon.SVG"))));
}

#[test]
fn pathless_document_is_not_eligible() {
    assert!(!is_svg_file(&doc(1, true, None)));
}

#[test]
fn wrong_or_missing_extension_is_not_eligible() {
    assert!(!is_svg_file(&doc(1, true, Some("icon.png"))));
    assert!(!is_svg_file(&doc(1, true, Some("icon"))));
    assert!(!is_svg_file(&doc(1, true, Some(".svg"))));
    assert!(!is_svg_file(&doc(1, true, Some("icon.svg.bak"))));
}

#[test]
fn extension_extraction() {
    assert_eq!(path_extension(&bytes("dir/name.tar.gz")), Some(bytes("gz")));
    assert_eq!(path_extension(&bytes("noext")), None);
    assert_eq!(path_extension(&bytes("dir.d/noext")), None);
    assert_eq!(path_extension(&bytes(".hidden")), None);
    assert_eq!(path_extension(&bytes("trailing.")), Some(bytes("")));
    assert_eq!(path_extension(&bytes("")), None);
}

#[test]
fn trailing_separators_are_folded_away() {
    assert_eq!(path_extension(&bytes("icon.svg/")), Some(bytes("svg")));
    assert_eq!(path_extension(&bytes("a/icon.svg//")), Some(bytes("svg")));
    assert_eq!(path_extension(&bytes("/")), None);
    assert_eq!(path_extension(&bytes("//")), None);
    assert!(is_svg_file(&doc(1, true, Some("assets/icon.svg/"))));
}

#[test]
fn file_name_extraction() {
    assert_eq!(file_name(&bytes("a/b/c.svg")), bytes("c.svg"));
    assert_eq!(file_name(&bytes("c.svg")), bytes("c.svg"));
    assert_eq!(file_name(&bytes("a/b/")), bytes("b"));
    assert_eq!(file_name(&bytes("/")), bytes(""));
}

#[test]
fn ascii_case_folding_comparison() {
    assert!(eq_ignore_ascii_case(&bytes("SvG"), &bytes("svg")));
    assert!(eq_ignore_ascii_case(&bytes(""), &bytes("")));
    assert!(!eq_ignore_ascii_case(&bytes("svh"), &bytes("svg")));
    assert!(!eq_ignore_ascii_case(&bytes("svg"), &bytes("svgs")));
    assert!(is_svg_path(&bytes("x.SVG")));
    assert!(!is_svg_path(&bytes("x.sv")));
}

#[test]
fn scale_clamps_to_bounds() {
    assert_eq!(apply_scale_delta(100, 5000), 2000);
    assert_eq!(apply_scale_delta(100, -5000), 25);
    assert_eq!(apply_scale_delta(100, 7), 107);
    assert_eq!(apply_scale_delta(30, -5), 25);
    assert_eq!(apply_scale_delta(1995, 5), 2000);
    assert_eq!(apply_scale_delta(25, -1), 25);
    assert_eq!(apply_scale_delta(2000, 1), 2000);
    assert_eq!(apply_scale_delta(100, i64::MAX), 2000);
    assert_eq!(apply_scale_delta(100, i64::MIN), 25);
}

fn bound_session() -> SvgPreviewView {
    let (session, submitted) = SvgPreviewView::new(
        SvgPreviewMode::Default,
        doc(7, true, Some("icon.svg")),
        11,
        0,
    );
    assert_eq!(submitted, Some(1));
    session
}

#[test]
fn zero_wheel_delta_never_resubmits() {
    let mut session = bound_session();
    let before = session.scale_factor;
    assert_eq!(session.on_scroll_wheel(0), None);
    assert_eq!(session.scale_factor, before);
    assert_eq!(session.render_generation, 1);
}

#[test]
fn nonzero_wheel_delta_rescales_and_resubmits() {
    let mut session = bound_session();
    assert_eq!(session.scale_factor, SCALE_DEFAULT);
    assert_eq!(session.on_scroll_wheel(7), Some(2));
    assert_eq!(session.scale_factor, 107);
    assert_eq!(session.on_scroll_wheel(-5000), Some(3));
    assert_eq!(session.scale_factor, 25);
}

#[test]
fn wheel_on_unbound_session_submits_nothing() {
    let (mut session, submitted) =
        SvgPreviewView::new(SvgPreviewMode::Default, doc(7, false, None), 11, 0);
    assert_eq!(submitted, None);
    assert_eq!(session.on_scroll_wheel(10), None);
    assert_eq!(session.scale_factor, 110);
}

#[test]
fn drag_moves_offset_by_travel_from_anchor() {
    let mut session = bound_session();
    session.on_drag_start(PixelPoint { x: 5, y: 5 });
    session.on_drag_move(
        PixelPoint { x: 10, y: 10 },
        PixelPoint { x: 20, y: 20 },
        PixelPoint { x: 0, y: 0 },
    );
    assert_eq!(session.image_offset, PixelPoint { x: 25, y: 25 });
}

#[test]
fn drag_offset_formula() {
    let r = dragged_offset(
        PixelPoint { x: 10, y: 10 },
        PixelPoint { x: 20, y: 20 },
        PixelPoint { x: 3, y: 4 },
        PixelPoint { x: 5, y: 5 },
    );
    assert_eq!(r, PixelPoint { x: 22, y: 21 });
}

#[test]
fn superseded_render_is_discarded_and_released() {
    let mut session = bound_session();
    assert_eq!(session.on_buffer_event(BufferEvent::Edited), Some(2));
    let stale = ImageHandle { id: 9 };
    let released = session.apply_render_result(1, Ok(stale));
    assert_eq!(released, Some(stale));
    assert_eq!(session.current_svg, None);
    let fresh = ImageHandle { id: 5 };
    assert_eq!(session.apply_render_result(2, Ok(fresh)), None);
    assert_eq!(session.current_svg, Some(fresh));
}

#[test]
fn only_last_of_many_submissions_applies() {
    let mut session = bound_session();
    assert_eq!(session.on_buffer_event(BufferEvent::Edited), Some(2));
    assert_eq!(session.on_buffer_event(BufferEvent::Saved), Some(3));
    let last = ImageHandle { id: 30 };
    assert_eq!(session.apply_render_result(3, Ok(last)), None);
    assert_eq!(session.current_svg, Some(last));
    let late = ImageHandle { id: 20 };
    assert_eq!(session.apply_render_result(2, Ok(late)), Some(late));
    assert_eq!(session.current_svg, Some(last));
    assert_eq!(session.apply_render_result(1, Err(bytes("late failure"))), None);
    assert_eq!(session.current_svg, Some(last));
    assert_eq!(session.error, None);
}

#[test]
fn failure_keeps_image_then_success_clears_error() {
    let mut session = bound_session();
    let first = ImageHandle { id: 1 };
    session.apply_render_result(1, Ok(first));
    assert_eq!(session.on_buffer_event(BufferEvent::Edited), Some(2));
    assert_eq!(session.apply_render_result(2, Err(bytes("bad markup"))), None);
    assert_eq!(session.current_svg, Some(first));
    assert_eq!(session.error, Some(bytes("bad markup")));
    assert_eq!(session.on_buffer_event(BufferEvent::Saved), Some(3));
    let second = ImageHandle { id: 2 };
    assert_eq!(session.apply_render_result(3, Ok(second)), Some(first));
    assert_eq!(session.current_svg, Some(second));
    assert_eq!(session.error, None);
}

#[test]
fn other_buffer_events_are_ignored() {
    let mut session = bound_session();
    assert_eq!(session.on_buffer_event(BufferEvent::Other), None);
    assert_eq!(session.render_generation, 1);
}

fn follow_session() -> SvgPreviewView {
    let (mut session, submitted) = SvgPreviewView::new(
        SvgPreviewMode::Follow,
        doc(7, true, Some("first.svg")),
        11,
        99,
    );
    assert_eq!(submitted, Some(1));
    let shown = ImageHandle { id: 1 };
    session.apply_render_result(1, Ok(shown));
    session
}

#[test]
fn follow_ignores_nonqualifying_views() {
    let mut session = follow_session();
    let shown = session.current_svg;
    let outcome = session.on_active_item_changed(Some(doc(8, true, Some("notes.txt"))), 12);
    assert_eq!(outcome.released_subscription, None);
    assert_eq!(outcome.submitted, None);
    assert_eq!(session.buffer.as_ref().map(|d| d.id), Some(7));
    assert_eq!(session.current_svg, shown);
    let outcome = session.on_active_item_changed(None, 13);
    assert_eq!(outcome.submitted, None);
    assert_eq!(session.buffer.as_ref().map(|d| d.id), Some(7));
    let outcome = session.on_active_item_changed(Some(doc(9, false, Some("multi.svg"))), 14);
    assert_eq!(outcome.submitted, None);
    assert_eq!(session.buffer.as_ref().map(|d| d.id), Some(7));
}

#[test]
fn follow_rebinds_once_to_a_different_qualifying_view() {
    let mut session = follow_session();
    let outcome = session.on_active_item_changed(Some(doc(8, true, Some("second.SVG"))), 12);
    assert_eq!(outcome.released_subscription, Some(11));
    assert_eq!(outcome.submitted, Some(2));
    assert_eq!(session.buffer.as_ref().map(|d| d.id), Some(8));
    assert_eq!(session.buffer_subscription, Some(12));
    assert_eq!(session.render_generation, 2);
    assert_eq!(session.current_svg, Some(ImageHandle { id: 1 }));
}

#[test]
fn follow_keeps_binding_on_same_identity() {
    let mut session = follow_session();
    let outcome = session.on_active_item_changed(Some(doc(7, true, Some("renamed.svg"))), 12);
    assert_eq!(outcome.released_subscription, None);
    assert_eq!(outcome.submitted, None);
    assert_eq!(session.buffer_subscription, Some(11));
}

#[test]
fn new_without_singleton_buffer_binds_nothing() {
    let (session, submitted) =
        SvgPreviewView::new(SvgPreviewMode::Default, doc(3, false, Some("a.svg")), 11, 0);
    assert_eq!(submitted, None);
    assert!(session.buffer.is_none());
    assert_eq!(session.buffer_subscription, None);
    let shown = session.display_state();
    assert_eq!(shown.content, DisplayContent::Placeholder);
    assert_eq!(shown.error, None);
    assert_eq!(session.tab_content_text(), bytes("SVG Preview"));
}

#[test]
fn tab_title_names_the_bound_file() {
    let (session, _) = SvgPreviewView::new(
        SvgPreviewMode::Default,
        doc(3, true, Some("assets/icon.svg")),
        11,
        0,
    );
    assert_eq!(session.tab_content_text(), bytes("Preview icon.svg"));
}

#[test]
fn tab_icon_prefers_the_resolved_file_icon() {
    let session = bound_session();
    assert_eq!(
        session.tab_icon(Some(bytes("icons/svg.png"))),
        TabIcon::FilePath(bytes("icons/svg.png"))
    );
    assert_eq!(session.tab_icon(None), TabIcon::GenericImage);
    let (unbound, _) =
        SvgPreviewView::new(SvgPreviewMode::Default, doc(3, false, None), 11, 0);
    assert_eq!(unbound.tab_icon(Some(bytes("x"))), TabIcon::GenericImage);
}

#[test]
fn display_state_places_the_image_at_the_pan_offset() {
    let mut session = bound_session();
    let image = ImageHandle { id: 4 };
    session.apply_render_result(1, Ok(image));
    session.on_drag_start(PixelPoint { x: 0, y: 0 });
    session.on_drag_move(
        PixelPoint { x: 0, y: 0 },
        PixelPoint { x: 6, y: -2 },
        PixelPoint { x: 0, y: 0 },
    );
    let shown = session.display_state();
    assert_eq!(
        shown.content,
        DisplayContent::Image(image, PixelPoint { x: 6, y: -2 })
    );
    assert_eq!(shown.error, None);
}

#[test]
fn render_failure_is_surfaced_over_the_stale_image() {
    let mut session = bound_session();
    let image = ImageHandle { id: 4 };
    session.apply_render_result(1, Ok(image));
    session.on_buffer_event(BufferEvent::Edited);
    session.apply_render_result(2, Err(bytes("unexpected token")));
    let shown = session.display_state();
    assert_eq!(shown.content, DisplayContent::Image(image, PixelPoint { x: 0, y: 0 }));
    assert_eq!(shown.error, Some(bytes("unexpected token")));
    session.on_buffer_event(BufferEvent::Edited);
    session.apply_render_result(3, Ok(ImageHandle { id: 5 }));
    assert_eq!(session.display_state().error, None);
}

#[test]
fn telemetry_label() {
    let session = bound_session();
    assert_eq!(session.telemetry_event_text(), "svg preview: open");
}

#[test]
fn close_releases_every_resource() {
    let session = follow_session();
    let outcome = session.close();
    assert_eq!(outcome.released_image, Some(ImageHandle { id: 1 }));
    assert_eq!(outcome.released_buffer_subscription, Some(11));
    assert_eq!(outcome.released_workspace_subscription, Some(99));
}

#[test]
fn resolve_active_item_filters_by_eligibility() {
    assert!(resolve_active_item_as_svg_editor(None).is_none());
    assert!(resolve_active_item_as_svg_editor(Some(doc(1, true, Some("a.txt")))).is_none());
    let resolved = resolve_active_item_as_svg_editor(Some(doc(1, true, Some("a.svg"))));
    assert_eq!(resolved.map(|d| d.id), Some(1));
}

#[test]
fn find_existing_preview_returns_first_match() {
    let items = vec![None, Some(3), Some(7), Some(7)];
    assert_eq!(find_existing_preview_item_idx(&items, 7), Some(2));
    assert_eq!(find_existing_preview_item_idx(&items, 3), Some(1));
    assert_eq!(find_existing_preview_item_idx(&items, 9), None);
    assert_eq!(find_existing_preview_item_idx(&Vec::new(), 9), None);
}

#[test]
fn command_plans() {
    let items = vec![Some(1), Some(2)];
    let plan = plan_preview_command(
        PreviewCommand::OpenPreview,
        Some(doc(2, true, Some("a.svg"))),
        &items,
    );
    let (document, plan) = plan.expect("eligible document must yield a plan");
    assert_eq!(document.id, 2);
    assert_eq!(plan.mode, SvgPreviewMode::Default);
    assert!(!plan.to_the_side);
    assert_eq!(plan.activate_existing, Some(1));

    let plan = plan_preview_command(
        PreviewCommand::OpenPreviewToTheSide,
        Some(doc(9, true, Some("a.svg"))),
        &items,
    );
    let (_, plan) = plan.expect("eligible document must yield a plan");
    assert!(plan.to_the_side);
    assert_eq!(plan.activate_existing, None);

    let plan = plan_preview_command(
        PreviewCommand::OpenFollowingPreview,
        Some(doc(1, true, Some("a.svg"))),
        &items,
    );
    let (_, plan) = plan.expect("eligible document must yield a plan");
    assert_eq!(plan.mode, SvgPreviewMode::Follow);
    assert_eq!(plan.activate_existing, Some(0));

    let plan = plan_preview_command(
        PreviewCommand::OpenFollowingPreview,
        Some(doc(9, true, Some("a.svg"))),
        &items,
    );
    let (_, plan) = plan.expect("eligible document must yield a plan");
    assert_eq!(plan.mode, SvgPreviewMode::Follow);
    assert_eq!(plan.activate_existing, None);

    assert!(plan_preview_command(
        PreviewCommand::OpenPreview,
        Some(doc(2, true, Some("a.txt"))),
        &items,
    )
    .is_none());
    assert!(plan_preview_command(PreviewCommand::OpenPreview, None, &items).is_none());
}

//! The command table behind the host's open-preview actions: each command
//! resolves the active view's document, checks eligibility, and either
//! reuses an existing preview in the target pane or asks for a new session.
//! Eligibility failures are silent no-ops, never errors.

use vstd::prelude::*;
use crate::document::DocumentRef;
use crate::document::eligible;
use crate::document::is_svg_file;
use crate::session::SvgPreviewMode;

verus! {

/// The host commands that open a preview.
#[derive(Clone, Copy, Debug, PartialEq, Eq, Structural)]
pub enum PreviewCommand {
    OpenPreview,
    OpenPreviewToTheSide,
    OpenFollowingPreview,
}

/// What the host pane must do for one preview command.
#[derive(Clone, Copy, Debug, PartialEq, Eq, Structural)]
pub struct CommandPlan {
    /// Mode of the session to show.
    pub mode: SvgPreviewMode,
    /// Place the preview in the pane to the right, splitting if need be.
    pub to_the_side: bool,
    /// Activate the existing preview at this index instead of adding one.
    pub activate_existing: Option<usize>,
}

/// Returns the active view's document exactly when it qualifies for a
/// preview; every command routes through this gate.
pub fn resolve_active_item_as_svg_editor(active: Option<DocumentRef>) -> (r: Option<
    DocumentRef,
>)
    ensures
        r == (match active {
            Some(doc) => if eligible(doc) {
                Some(doc)
            } else {
                None::<DocumentRef>
            },
            None => None::<DocumentRef>,
        }),
{
    match active {
        Some(doc) => if is_svg_file(&doc) {
            Some(doc)
        } else {
            None
        },
        None => None,
    }
}

/// `r` points at the first pane item that is a preview bound to `id`, or is
/// nothing when the pane holds none. Each pane item is represented by the
/// bound document identity of one existing preview, or by nothing for an
/// item of another kind.
pub open spec fn first_preview_match(items: Seq<Option<u64>>, id: u64, r: Option<usize>) -> bool {
    match r {
        Some(i) => i < items.len() && items[i as int] == Some(id) && forall|j: int|
            0 <= j < i ==> items[j] != Some(id),
        None => forall|j: int| 0 <= j < items.len() ==> items[j] != Some(id),
    }
}

/// Index of the first preview in the pane already bound to `buffer_id`.
pub fn find_existing_preview_item_idx(items: &Vec<Option<u64>>, buffer_id: u64) -> (r: Option<
    usize,
>)
    ensures
        first_preview_match(items@, buffer_id, r),
{
    let mut i: usize = 0;
    while i < items.len()
        invariant
            i <= items@.len(),
            forall|j: int| 0 <= j < i ==> items@[j] != Some(buffer_id),
        decreases items@.len() - i,
    {
        match items[i] {
            Some(id) => if id == buffer_id {
                return Some(i);
            },
            None => {},
        }
        i = i + 1;
    }
    None
}

/// The mode each command opens.
pub open spec fn command_mode(command: PreviewCommand) -> SvgPreviewMode {
    match command {
        PreviewCommand::OpenFollowingPreview => SvgPreviewMode::Follow,
        _ => SvgPreviewMode::Default,
    }
}

/// Decides one preview command. Nothing happens unless the active view
/// exposes an eligible document. Otherwise the plan names the document to
/// bind, the session mode, the pane placement, and the existing preview of
/// that document to activate — whatever the command — instead of opening a
/// second one.
pub fn plan_preview_command(
    command: PreviewCommand,
    active: Option<DocumentRef>,
    pane_items: &Vec<Option<u64>>,
) -> (r: Option<(DocumentRef, CommandPlan)>)
    ensures
        (match active {
            Some(doc) => !eligible(doc),
            None => true,
        }) ==> r is None,
        (match active {
            Some(doc) => eligible(doc),
            None => false,
        }) ==> (match r {
            Some(pair) => {
                &&& Some(pair.0) == active
                &&& pair.1.mode == command_mode(command)
                &&& pair.1.to_the_side == (command == PreviewCommand::OpenPreviewToTheSide)
                &&& first_preview_match(pane_items@, pair.0.id, pair.1.activate_existing)
            },
            None => false,
        }),
{
    match resolve_active_item_as_svg_editor(active) {
        None => None,
        Some(doc) => {
            let mode = if command == PreviewCommand::OpenFollowingPreview {
                SvgPreviewMode::Follow
            } else {
                SvgPreviewMode::Default
            };
            let plan = CommandPlan {
                mode,
                to_the_side: command == PreviewCommand::OpenPreviewToTheSide,
                activate_existing: find_existing_preview_item_idx(pane_items, doc.id),
            };
            Some((doc, plan))
        },
    }
}

} // verus!

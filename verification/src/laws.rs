//! The guarantees of the drag lifecycle, stated and proved over the step
//! function that `Viewer::handle_event` implements.

use vstd::prelude::*;
use crate::raster::{ImageView, decode_view, rgba_decode};
use crate::viewer::{Action, EventView, ViewerView, spec_step};

verus! {

/// Hovering a decodable file and then dropping it commits the decoded image:
/// the active image holds exactly the decoded pixel data, the surface is
/// resized to the image's dimensions and filled with that data byte for
/// byte, and a presentation is owed.
pub proof fn hover_then_drop_displays_image(v: ViewerView, bytes: Seq<u8>, img: ImageView)
    requires
        !v.exit_requested,
        decode_view(bytes) == Some(img),
    ensures
        ({
            let mid = spec_step(v, EventView::HoveredFile(bytes)).0;
            let (post, act) = spec_step(mid, EventView::DroppedFile);
            &&& post.active == Some(img)
            &&& post.candidate is None
            &&& post.surface.width == img.width
            &&& post.surface.height == img.height
            &&& post.surface.frame == img.data
            &&& act == Action::Present
        }),
{
}

/// Hovering a file that does not decode as an image stages nothing and
/// changes nothing else: the candidate becomes empty while the active image
/// and the surface stay as they were.
pub proof fn undecodable_hover_leaves_active_unchanged(v: ViewerView, bytes: Seq<u8>)
    requires
        !v.exit_requested,
        rgba_decode(bytes) is None,
    ensures
        ({
            let (post, act) = spec_step(v, EventView::HoveredFile(bytes));
            &&& post.candidate is None
            &&& post.active == v.active
            &&& post.surface == v.surface
            &&& act == Action::Nothing
        }),
{
}

/// Hovering a file that could not be read at all behaves like an undecodable
/// one: the candidate becomes empty, nothing else changes.
pub proof fn unreadable_hover_leaves_active_unchanged(v: ViewerView)
    requires
        !v.exit_requested,
    ensures
        ({
            let (post, act) = spec_step(v, EventView::HoverFailed);
            &&& post.candidate is None
            &&& post.active == v.active
            &&& post.surface == v.surface
            &&& act == Action::Nothing
        }),
{
}

/// A drop with an empty candidate clears the active image: promotion is an
/// unconditional move of the candidate, so a drop without a prior successful
/// hover unloads whatever was displayed. The surface keeps its old contents
/// and no presentation is owed.
pub proof fn drop_without_candidate_clears_active(v: ViewerView)
    requires
        !v.exit_requested,
        v.candidate is None,
    ensures
        ({
            let (post, act) = spec_step(v, EventView::DroppedFile);
            &&& post.active is None
            &&& post.candidate is None
            &&& post.surface == v.surface
            &&& act == Action::Nothing
        }),
{
}

/// The commit copy keeps the channel order: pixel `i` of the committed image
/// lands in the four bytes at offset `4 * i` of the surface buffer, red
/// first, then green, blue and alpha, and that slot lies inside the buffer.
pub proof fn committed_frame_keeps_channel_order(v: ViewerView, img: ImageView, i: int)
    requires
        !v.exit_requested,
        v.candidate == Some(img),
        img.wf(),
        0 <= i < img.width * img.height,
    ensures
        ({
            let post = spec_step(v, EventView::DroppedFile).0;
            &&& 4 * i + 3 < post.surface.frame.len()
            &&& post.surface.frame[4 * i + 0] == img.channel(i, 0)
            &&& post.surface.frame[4 * i + 1] == img.channel(i, 1)
            &&& post.surface.frame[4 * i + 2] == img.channel(i, 2)
            &&& post.surface.frame[4 * i + 3] == img.channel(i, 3)
        }),
{
    assert(4 * img.width * img.height == 4 * (img.width * img.height)) by (nonlinear_arith);
    assert(4 * i + 3 < 4 * (img.width * img.height)) by (nonlinear_arith)
        requires
            0 <= i < img.width * img.height,
    ;
}

/// A close request signals termination exactly once: it yields the exit
/// action and enters a terminal state in which every further event leaves
/// the viewer unchanged and yields no action at all.
pub proof fn close_exits_exactly_once(v: ViewerView, e: EventView)
    requires
        !v.exit_requested,
    ensures
        ({
            let (stopped, act) = spec_step(v, EventView::CloseRequested);
            &&& act == Action::Exit
            &&& stopped.exit_requested
            &&& spec_step(stopped, e).0 == stopped
            &&& spec_step(stopped, e).1 == Action::Nothing
        }),
{
}

/// Dropping the same image twice is idempotent: hovering and dropping a
/// decodable file a second time leaves the viewer — active image, surface
/// and all — exactly as the first hover-and-drop left it.
pub proof fn repeated_drop_is_idempotent(v: ViewerView, bytes: Seq<u8>, img: ImageView)
    requires
        !v.exit_requested,
        decode_view(bytes) == Some(img),
    ensures
        ({
            let once = spec_step(
                spec_step(v, EventView::HoveredFile(bytes)).0,
                EventView::DroppedFile,
            ).0;
            let twice = spec_step(
                spec_step(once, EventView::HoveredFile(bytes)).0,
                EventView::DroppedFile,
            ).0;
            twice == once
        }),
{
}

} // verus!

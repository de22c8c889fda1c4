//! The post-processing stack on the render cameras.
//!
//! Motion blur, depth of field and the lens (vignette and chromatic
//! aberration) are switched per quality tier. The stack is attached to the
//! cameras when the wanted set differs from what was last applied, or when
//! there were no cameras to hold it; once applied to cameras it is left alone
//! until the tier changes.

use vstd::prelude::*;

verus! {

/// What one frame does with the post stack, given what was last applied,
/// the wanted set (motion blur, depth of field, lens) and whether any camera
/// is there to hold it: the set to attach (none when nothing is to be done),
/// and what counts as applied afterwards. The set counts as applied only
/// once a camera has received it.
pub open spec fn post_frame(
    applied: Option<(bool, bool, bool)>,
    wanted: (bool, bool, bool),
    has_cameras: bool,
) -> (Option<(bool, bool, bool)>, Option<(bool, bool, bool)>) {
    if applied == Some(wanted) && has_cameras {
        (None, applied)
    } else if has_cameras {
        (Some(wanted), Some(wanted))
    } else {
        (Some(wanted), applied)
    }
}

/// Decides one frame of the post stack: which set to attach to every camera
/// (if any), and what is applied afterwards.
pub fn post_stack(applied: Option<(bool, bool, bool)>, wanted: (bool, bool, bool), has_cameras: bool) -> (step: (
    Option<(bool, bool, bool)>,
    Option<(bool, bool, bool)>,
))
    ensures
        step == post_frame(applied, wanted, has_cameras),
{
    let unchanged = match applied {
        Some(a) => a.0 == wanted.0 && a.1 == wanted.1 && a.2 == wanted.2,
        None => false,
    };
    if unchanged && has_cameras {
        (None, applied)
    } else if has_cameras {
        (Some(wanted), Some(wanted))
    } else {
        (Some(wanted), applied)
    }
}

/// The stack settles: once a frame with cameras has attached a set, the next
/// frame with the same wanted set and cameras attaches nothing; a changed
/// tier is always attached; and a frame without cameras never counts as
/// having applied anything, so the set reaches cameras that appear later.
pub proof fn lemma_post_stack_settles(
    applied: Option<(bool, bool, bool)>,
    wanted: (bool, bool, bool),
    has_cameras: bool,
)
    ensures
        post_frame(post_frame(applied, wanted, true).1, wanted, true).0 == None::<(bool, bool, bool)>,
        applied != Some(wanted) ==> post_frame(applied, wanted, has_cameras).0 == Some(wanted),
        !has_cameras ==> post_frame(applied, wanted, has_cameras).1 == applied,
        post_frame(applied, wanted, has_cameras).0 is Some ==> post_frame(applied, wanted, has_cameras).0 == Some(wanted),
{
}

} // verus!

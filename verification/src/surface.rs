//! The trusted boundary to the render surface: a shared multi-line terminal
//! renderer owning independently animated lines. Each item here is believed,
//! not verified; the doc comment of each names the outside function relied
//! on. The surface draws as a side effect, so the wrappers promise nothing
//! beyond what every outcome satisfies.

use std::sync::Arc;

use indicatif::MultiProgress;
use indicatif::ProgressBar;
use indicatif::ProgressStyle;
use vstd::prelude::*;

verus! {

#[verifier::external_type_specification]
#[verifier::external_body]
pub struct ExProgressStyle(ProgressStyle);

#[verifier::external_type_specification]
#[verifier::external_body]
pub struct ExProgressBar(ProgressBar);

#[verifier::external_type_specification]
#[verifier::external_body]
pub struct ExMultiProgress(MultiProgress);

/// Relies on ProgressStyle::default_spinner, ProgressStyle::tick_strings and
/// ProgressStyle::template: builds a spinner style from animation frames and
/// a line template. The three calls stand together because tick_strings
/// asserts on the style it is applied to; applied to a fresh default spinner
/// style, whose progress characters are present, it cannot panic, and
/// template only stores the string. At least two frames are demanded: a
/// style with fewer makes the frame lookup panic when a line later draws on
/// a visible terminal.
#[verifier::external_body]
pub(crate) fn make_spinner_style(frames: &Vec<String>, template: &str) -> ProgressStyle
    requires
        frames@.len() >= 2,
{
    let refs: Vec<&str> = frames.iter().map(|f| f.as_str()).collect();
    ProgressStyle::default_spinner().tick_strings(&refs).template(template)
}

/// Relies on MultiProgress::new: a fresh render surface with no lines.
#[verifier::external_body]
pub(crate) fn new_surface() -> MultiProgress {
    MultiProgress::new()
}

/// Relies on Arc::clone: another handle to the same shared surface.
#[verifier::external_body]
pub(crate) fn share_surface(mp: &Arc<MultiProgress>) -> (r: Arc<MultiProgress>)
    ensures
        r == *mp,
{
    Arc::clone(mp)
}

/// Relies on ProgressBar::new_spinner: a fresh animated spinner line.
#[verifier::external_body]
pub(crate) fn new_spinner() -> ProgressBar {
    ProgressBar::new_spinner()
}

/// Relies on MultiProgress::add: registers the line with the shared surface,
/// which then owns its drawing, and hands the line back.
#[verifier::external_body]
pub(crate) fn surface_add(mp: &Arc<MultiProgress>, pb: ProgressBar) -> ProgressBar {
    mp.add(pb)
}

/// Relies on ProgressBar::set_style: replaces the line's visual style.
#[verifier::external_body]
pub(crate) fn bar_set_style(pb: &ProgressBar, style: &ProgressStyle) {
    pb.set_style(style.clone());
}

/// Relies on ProgressBar::set_message: shows the given text on the line.
#[verifier::external_body]
pub(crate) fn bar_set_message(pb: &ProgressBar, msg: &String) {
    pb.set_message(msg.clone());
}

/// Relies on ProgressBar::enable_steady_tick: starts automatic animation of
/// the line at the given interval in milliseconds.
#[verifier::external_body]
pub(crate) fn bar_enable_steady_tick(pb: &ProgressBar, ms: u64)
    requires
        ms > 0,
{
    pb.enable_steady_tick(ms);
}

/// Relies on ProgressBar::disable_steady_tick: stops automatic animation.
#[verifier::external_body]
pub(crate) fn bar_disable_steady_tick(pb: &ProgressBar) {
    pb.disable_steady_tick();
}

/// Relies on ProgressBar::tick: advances the line's animation by one frame.
#[verifier::external_body]
pub(crate) fn bar_tick(pb: &ProgressBar) {
    pb.tick();
}

/// Relies on ProgressBar::finish_and_clear: retires the line and erases it,
/// leaving no trace on the terminal.
#[verifier::external_body]
pub(crate) fn bar_finish_and_clear(pb: ProgressBar) {
    pb.finish_and_clear();
}

/// Relies on ProgressBar::finish_with_message: retires the line, leaving the
/// given text permanently in its place.
#[verifier::external_body]
pub(crate) fn bar_finish_with_message(pb: ProgressBar, msg: &String) {
    pb.finish_with_message(msg.clone());
}

} // verus!

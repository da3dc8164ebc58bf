//! Engine-wide guarantees, each proved from what the renderer's
//! contracts state. The transition predicates (`begin_screen_t`,
//! `end_screen_t`, `draw_t`, `handle_events_t`, `deinit_t`) are exactly
//! what the corresponding methods ensure on an initialized engine, so
//! each law here holds of every run of those methods.

use vstd::prelude::*;

use crate::mesh::Mesh;
use crate::renderer::{
    begin_screen_t, deinit_t, draw_t, end_screen_t, handle_events_t, has_close,
    ContextBinding, DisplayEvent, DrawCommand, PrismRenderer, ScreenId,
};
use crate::shader::Shader;

verus! {

/// Once initialized, exactly two displays exist: upper and lower, with
/// distinct native window identities and one shared negotiated context
/// version.
pub proof fn lemma_two_displays(r: PrismRenderer)
    requires
        r.wf(),
        r.initialized,
    ensures
        r.upper_window is Some,
        r.lower_window is Some,
        r.upper_window->0.name == ScreenId::Upper,
        r.lower_window->0.name == ScreenId::Lower,
        r.upper_window->0.native_id != r.lower_window->0.native_id,
        r.upper_window->0.context_major == r.lower_window->0.context_major,
        r.upper_window->0.context_minor == r.lower_window->0.context_minor,
{
}

/// The engine-level close signal is the OR of the two displays' close
/// flags: a close request on either display alone raises it.
pub proof fn lemma_close_signal_is_or(r: PrismRenderer)
    requires
        r.wf(),
        r.initialized,
    ensures
        r.should_close == (r.upper_window->0.close_requested
            || r.lower_window->0.close_requested),
        r.lower_window->0.close_requested ==> r.should_close,
        r.upper_window->0.close_requested ==> r.should_close,
{
}

/// Folding in one poll makes the close signal true exactly when some
/// display has, now or earlier, asked to close: in particular a single
/// close event on the lower display alone raises it.
pub proof fn lemma_close_event_raises_signal(
    pre: PrismRenderer,
    post: PrismRenderer,
    upper_events: Seq<DisplayEvent>,
    lower_events: Seq<DisplayEvent>,
    upper_os_close: bool,
    lower_os_close: bool,
)
    requires
        handle_events_t(pre, post, upper_events, lower_events, upper_os_close,
            lower_os_close),
    ensures
        has_close(lower_events) ==> post.should_close,
        has_close(upper_events) ==> post.should_close,
        post.should_close == (pre.should_close_displays() || has_close(upper_events)
            || has_close(lower_events) || upper_os_close || lower_os_close),
{
}

/// Releasing the engine twice is the same as releasing it once: the
/// second `deinit` changes nothing.
pub proof fn lemma_deinit_idempotent(a: PrismRenderer, b: PrismRenderer, c: PrismRenderer)
    requires
        deinit_t(a, b),
        deinit_t(b, c),
    ensures
        c == b,
{
}

/// Beginning the lower screen's segment right after beginning the
/// upper's -- without an intervening end -- does not leave the upper
/// context current: the lower display's context alone is current.
pub proof fn lemma_second_begin_rebinds(
    r0: PrismRenderer,
    r1: PrismRenderer,
    r2: PrismRenderer,
    t1: u64,
    t2: u64,
)
    requires
        begin_screen_t(r0, r1, ScreenId::Upper, t1),
        begin_screen_t(r1, r2, ScreenId::Lower, t2),
    ensures
        r2.binding == ContextBinding::Lower,
        r2.binding != ContextBinding::Upper,
{
}

/// A draw submitted after the second `begin` targets the lower display
/// only: it cannot affect the upper display's framebuffer.
pub proof fn lemma_draw_after_second_begin_targets_lower(
    r0: PrismRenderer,
    r1: PrismRenderer,
    r2: PrismRenderer,
    r3: PrismRenderer,
    t1: u64,
    t2: u64,
    m: Mesh,
    s: Shader,
)
    requires
        begin_screen_t(r0, r1, ScreenId::Upper, t1),
        begin_screen_t(r1, r2, ScreenId::Lower, t2),
        draw_t(r2, r3, m, s),
    ensures
        r3.commands@.last() matches DrawCommand::DrawMesh { target, .. }
            && target == ScreenId::Lower,
{
}

/// A mesh, its textures and its shader, created once, are drawable on
/// both screens of one frame without re-creation: across the whole
/// upper-then-lower sequence the resource registry and the handle
/// counter never change, and the two submissions reference the same
/// vertex array, textures, shader program and model matrix -- resource
/// identity is namespace-scoped, not display-scoped.
pub proof fn lemma_resources_stable_across_screens(
    r0: PrismRenderer,
    r1: PrismRenderer,
    r2: PrismRenderer,
    r3: PrismRenderer,
    r4: PrismRenderer,
    r5: PrismRenderer,
    t1: u64,
    t2: u64,
    t3: u64,
    m: Mesh,
    s: Shader,
)
    requires
        begin_screen_t(r0, r1, ScreenId::Upper, t1),
        draw_t(r1, r2, m, s),
        end_screen_t(r2, r3, t2),
        begin_screen_t(r3, r4, ScreenId::Lower, t3),
        draw_t(r4, r5, m, s),
    ensures
        r5.textures@ == r0.textures@,
        r5.next_gpu_id == r0.next_gpu_id,
        r2.commands@.last() matches DrawCommand::DrawMesh {
            target: tu, vao: vu, index_count: iu, shader_id: su, model: mu, .. }
            && tu == ScreenId::Upper
            && vu == m.vao
            && su == s.id
            && (r5.commands@.last() matches DrawCommand::DrawMesh {
                target: tl, vao: vl, index_count: il, shader_id: sl, model: ml, .. }
                && tl == ScreenId::Lower
                && vl == vu
                && il == iu
                && sl == su
                && ml@ == mu@),
{
}

} // verus!

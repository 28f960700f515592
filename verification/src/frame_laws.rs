//! What the device sees during a frame.
//!
//! Primitives reach the device in list order, each under its own scissor
//! rectangle and in the drawing state, whatever state the device was in
//! before the frame and whatever a callback did to it. Without a depth test,
//! what is drawn later covers what was drawn before.

use vstd::prelude::*;
use crate::clip::{full_viewport, scissor_of, viewport_of};
use crate::device::{BlendEquation, BlendFactor, BufferTarget, Capability, DeviceOp};
use crate::frame::{
    binding_ops, callback_ops, dispatch_ops, draw_call, enter_ops, exit_ops, frame_ops,
    intermediate_ops, mesh_ops, prepare_ops, primitive_ops, primitives_ops, srgb_ops, switch_ops,
};
use crate::model::{
    events, events_from, lemma_run_concat, run, run_from, DeviceState, Event, Host,
};
use crate::primitive::{ClippedPrimitive, Mesh, PaintCallback, Primitive};
use crate::state::PainterView;

verus! {

/// The state in which the painter draws: scissor test on, face culling and
/// depth test off, all colour channels written, blending of premultiplied
/// alpha, sRGB conversion on where the device has the switch, the viewport on
/// the whole framebuffer, the program with its uniforms, texture unit zero,
/// vertex array and element buffer bound, and the intermediate target current
/// in corrected mode.
pub open spec fn drawing_state(
    view: PainterView,
    screen_size_px: [u32; 2],
    s: DeviceState,
) -> bool {
    &&& s.scissor_test
    &&& !s.cull_face
    &&& !s.depth_test
    &&& s.color_mask == (true, true, true, true)
    &&& s.blend
    &&& s.blend_equation == (BlendEquation::Add, BlendEquation::Add)
    &&& s.blend_func == (
        BlendFactor::One,
        BlendFactor::OneMinusSrcAlpha,
        BlendFactor::OneMinusDstAlpha,
        BlendFactor::One,
    )
    &&& view.framebuffer_srgb ==> s.framebuffer_srgb
    &&& s.viewport == full_viewport(screen_size_px)
    &&& s.program == Some(view.program)
    &&& s.screen_size == (screen_size_px[0], screen_size_px[1])
    &&& s.sampler == 0
    &&& s.active_texture == 0
    &&& s.vertex_array
    &&& s.element_buffer == Some(view.element_array_buffer)
    &&& view.post_process is Some ==> s.intermediate
}

/// The state `s` with the drawing state established in it.
pub open spec fn prepared(
    view: PainterView,
    screen_size_px: [u32; 2],
    s: DeviceState,
) -> DeviceState {
    DeviceState {
        scissor_test: true,
        cull_face: false,
        depth_test: false,
        color_mask: (true, true, true, true),
        blend: true,
        blend_equation: (BlendEquation::Add, BlendEquation::Add),
        blend_func: (
            BlendFactor::One,
            BlendFactor::OneMinusSrcAlpha,
            BlendFactor::OneMinusDstAlpha,
            BlendFactor::One,
        ),
        framebuffer_srgb: view.framebuffer_srgb || s.framebuffer_srgb,
        viewport: full_viewport(screen_size_px),
        program: Some(view.program),
        screen_size: (screen_size_px[0], screen_size_px[1]),
        sampler: 0,
        active_texture: 0,
        vertex_array: true,
        element_buffer: Some(view.element_array_buffer),
        ..s
    }
}

/// Whether a primitive reaches the device: a mesh whose texture the table
/// holds, or a callback whose target is not empty.
pub open spec fn is_dispatched(view: PainterView, clipped: ClippedPrimitive) -> bool {
    match clipped.primitive {
        Primitive::Mesh(mesh) => view.texture(mesh.texture_id) is Some,
        Primitive::Callback(callback) => callback.positive,
    }
}

/// The positions of the primitives that reach the device, among the first
/// `n` of the list, in ascending order.
pub open spec fn dispatched(view: PainterView, primitives: Seq<ClippedPrimitive>, n: int) -> Seq<
    int,
>
    decreases n,
{
    if n <= 0 {
        Seq::empty()
    } else if is_dispatched(view, primitives[n - 1]) {
        dispatched(view, primitives, n - 1).push(n - 1)
    } else {
        dispatched(view, primitives, n - 1)
    }
}

/// Whether an event is what the primitive at position `primitive` is owed.
///
/// A mesh is drawn with all its indices, in the drawing state, under its own
/// scissor rectangle, with its texture bound and with its own vertices and
/// indices in the buffers. A callback runs in the drawing state but for the
/// viewport, which is that of its target, under its own scissor rectangle.
pub open spec fn event_matches(
    view: PainterView,
    screen_size_px: [u32; 2],
    clipped: ClippedPrimitive,
    primitive: int,
    event: Event,
) -> bool {
    &&& event.state.scissor == scissor_of(clipped.clip_rect, screen_size_px)
    &&& match clipped.primitive {
        Primitive::Mesh(mesh) => {
            &&& event.op == draw_call(mesh)
            &&& drawing_state(view, screen_size_px, event.state)
            &&& event.state.texture == view.texture(mesh.texture_id)
            &&& event.state.array_buffer == Some(view.vbo)
            &&& event.state.vertices == Some(primitive as usize)
            &&& event.state.indices == Some(primitive as usize)
        },
        Primitive::Callback(callback) => {
            &&& event.op == DeviceOp::InvokeCallback { primitive: primitive as usize }
            &&& drawing_state(
                view,
                screen_size_px,
                DeviceState { viewport: full_viewport(screen_size_px), ..event.state },
            )
            &&& event.state.viewport == viewport_of(callback.rect, screen_size_px)
        },
    }
}

/// The switches and the blending are set from every state; nothing else is
/// touched.
proof fn lemma_switches(s: DeviceState, host: Host)
    ensures
        run(s, switch_ops(), host) == (DeviceState {
            scissor_test: true,
            cull_face: false,
            depth_test: false,
            color_mask: (true, true, true, true),
            blend: true,
            blend_equation: (BlendEquation::Add, BlendEquation::Add),
            blend_func: (
                BlendFactor::One,
                BlendFactor::OneMinusSrcAlpha,
                BlendFactor::OneMinusDstAlpha,
                BlendFactor::One,
            ),
            ..s
        }),
        events(s, switch_ops(), host) == Seq::<Event>::empty(),
{
    reveal_with_fuel(run_from, 8);
    reveal_with_fuel(events_from, 8);
}

/// What a draw call uses is bound from every state; nothing else is touched.
proof fn lemma_bindings(view: PainterView, screen_size_px: [u32; 2], s: DeviceState, host: Host)
    ensures
        run(s, binding_ops(view, screen_size_px), host) == (DeviceState {
            viewport: full_viewport(screen_size_px),
            program: Some(view.program),
            screen_size: (screen_size_px[0], screen_size_px[1]),
            sampler: 0,
            active_texture: 0,
            vertex_array: true,
            element_buffer: Some(view.element_array_buffer),
            ..s
        }),
        events(s, binding_ops(view, screen_size_px), host) == Seq::<Event>::empty(),
{
    reveal_with_fuel(run_from, 8);
    reveal_with_fuel(events_from, 8);
}

/// Establishing the drawing state works from every state, touches nothing
/// else, and neither draws nor runs a callback.
pub proof fn lemma_prepare(view: PainterView, screen_size_px: [u32; 2], s: DeviceState, host: Host)
    ensures
        run(s, prepare_ops(view, screen_size_px), host) == prepared(view, screen_size_px, s),
        events(s, prepare_ops(view, screen_size_px), host) == Seq::<Event>::empty(),
        drawing_state(view, screen_size_px, s) ==> prepared(view, screen_size_px, s) == s,
{
    reveal_with_fuel(run_from, 2);
    reveal_with_fuel(events_from, 2);
    let switches = switch_ops() + srgb_ops(view);
    lemma_switches(s, host);
    lemma_run_concat(s, switch_ops(), srgb_ops(view), host);
    lemma_bindings(view, screen_size_px, run(s, switches, host), host);
    lemma_run_concat(s, switches, binding_ops(view, screen_size_px), host);
}

/// The start of a frame leads into the drawing state from every state, and
/// neither draws nor runs a callback.
pub proof fn lemma_enter(view: PainterView, screen_size_px: [u32; 2], s: DeviceState, host: Host)
    ensures
        drawing_state(view, screen_size_px, run(s, enter_ops(view, screen_size_px), host)),
        events(s, enter_ops(view, screen_size_px), host) == Seq::<Event>::empty(),
{
    reveal_with_fuel(run_from, 6);
    reveal_with_fuel(events_from, 6);
    let ready = if view.post_process is Some {
        intermediate_ops(screen_size_px)
    } else {
        Seq::<DeviceOp>::empty()
    };
    lemma_run_concat(s, ready, prepare_ops(view, screen_size_px), host);
    lemma_prepare(view, screen_size_px, run(s, ready, host), host);
}

/// The state `s` after the end of a frame: vertex array and element buffer
/// are unbound, the scissor test is off, and the display is the render target
/// again where the intermediate one was.
pub open spec fn left(view: PainterView, s: DeviceState) -> DeviceState {
    DeviceState {
        vertex_array: false,
        element_buffer: None,
        scissor_test: false,
        intermediate: if view.post_process is Some {
            false
        } else {
            s.intermediate
        },
        ..s
    }
}

/// The end of a frame unbinds and switches off what the frame had bound and
/// switched on, touches nothing else, and neither draws nor runs a callback.
pub proof fn lemma_exit(view: PainterView, s: DeviceState, host: Host)
    ensures
        run(s, exit_ops(view), host) == left(view, s),
        events(s, exit_ops(view), host) == Seq::<Event>::empty(),
{
    reveal_with_fuel(run_from, 3);
    reveal_with_fuel(events_from, 3);
    let unbind = seq![
        DeviceOp::UnbindVertexArray,
        DeviceOp::BindBuffer(BufferTarget::ElementArray, None),
    ];
    let resolve = if view.post_process is Some {
        seq![DeviceOp::PostProcessEnd]
    } else {
        Seq::<DeviceOp>::empty()
    };
    lemma_run_concat(s, unbind, resolve, host);
    lemma_run_concat(s, unbind + resolve, seq![DeviceOp::Disable(Capability::ScissorTest)], host);
}

/// Drawing a mesh from the drawing state: the one draw call finds the
/// texture of the mesh bound and its data in the buffers, and the device is
/// in the drawing state again afterwards, under the same scissor rectangle. A
/// mesh without a texture leaves the device untouched.
pub proof fn lemma_mesh(
    view: PainterView,
    screen_size_px: [u32; 2],
    mesh: Mesh,
    primitive: usize,
    s: DeviceState,
    host: Host,
)
    requires
        drawing_state(view, screen_size_px, s),
    ensures
        drawing_state(view, screen_size_px, run(s, mesh_ops(view, mesh, primitive), host)),
        run(s, mesh_ops(view, mesh, primitive), host).scissor == s.scissor,
        events(s, mesh_ops(view, mesh, primitive), host) == match view.texture(mesh.texture_id) {
            Some(texture) => seq![
                Event {
                    state: DeviceState {
                        array_buffer: Some(view.vbo),
                        vertices: Some(primitive),
                        indices: Some(primitive),
                        texture: Some(texture),
                        ..s
                    },
                    op: draw_call(mesh),
                },
            ],
            None => Seq::<Event>::empty(),
        },
{
    reveal_with_fuel(run_from, 7);
    reveal_with_fuel(events_from, 7);
}

/// Running a callback from the drawing state: the callback finds the drawing
/// state with the viewport of its target, and the device is in the drawing
/// state again afterwards, whatever the callback did. A callback with an
/// empty target does not run.
pub proof fn lemma_callback(
    view: PainterView,
    screen_size_px: [u32; 2],
    callback: PaintCallback,
    primitive: usize,
    s: DeviceState,
    host: Host,
)
    requires
        drawing_state(view, screen_size_px, s),
    ensures
        drawing_state(
            view,
            screen_size_px,
            run(s, callback_ops(view, screen_size_px, callback, primitive), host),
        ),
        events(s, callback_ops(view, screen_size_px, callback, primitive), host)
            == if callback.positive {
            seq![
                Event {
                    state: DeviceState {
                        viewport: viewport_of(callback.rect, screen_size_px),
                        ..s
                    },
                    op: DeviceOp::InvokeCallback { primitive },
                },
            ]
        } else {
            Seq::<Event>::empty()
        },
{
    reveal_with_fuel(run_from, 3);
    reveal_with_fuel(events_from, 3);
    if callback.positive {
        let call = seq![
            DeviceOp::Viewport(viewport_of(callback.rect, screen_size_px)),
            DeviceOp::InvokeCallback { primitive },
        ];
        let bind = if view.post_process is Some {
            seq![DeviceOp::PostProcessBind]
        } else {
            Seq::<DeviceOp>::empty()
        };
        lemma_run_concat(s, call, bind, host);
        lemma_run_concat(s, call + bind, prepare_ops(view, screen_size_px), host);
        lemma_prepare(view, screen_size_px, run(s, call + bind, host), host);
    }
}

/// One primitive from the drawing state: it gives one event if it reaches the
/// device and none otherwise, the event is what the primitive is owed, and
/// the device is in the drawing state again afterwards.
pub proof fn lemma_primitive(
    view: PainterView,
    screen_size_px: [u32; 2],
    clipped: ClippedPrimitive,
    primitive: usize,
    s: DeviceState,
    host: Host,
)
    requires
        drawing_state(view, screen_size_px, s),
    ensures
        drawing_state(
            view,
            screen_size_px,
            run(s, primitive_ops(view, screen_size_px, clipped, primitive), host),
        ),
        ({
            let seen = events(s, primitive_ops(view, screen_size_px, clipped, primitive), host);
            if is_dispatched(view, clipped) {
                seen.len() == 1 && event_matches(
                    view,
                    screen_size_px,
                    clipped,
                    primitive as int,
                    seen[0],
                )
            } else {
                seen.len() == 0
            }
        }),
{
    reveal_with_fuel(run_from, 2);
    reveal_with_fuel(events_from, 2);
    let scissor = DeviceOp::Scissor(scissor_of(clipped.clip_rect, screen_size_px));
    let clipped_s = run(s, seq![scissor], host);
    let rest = dispatch_ops(view, screen_size_px, clipped, primitive);
    lemma_run_concat(s, seq![scissor], rest, host);
    match clipped.primitive {
        Primitive::Mesh(mesh) => {
            lemma_mesh(view, screen_size_px, mesh, primitive, clipped_s, host);
        },
        Primitive::Callback(callback) => {
            lemma_callback(view, screen_size_px, callback, primitive, clipped_s, host);
        },
    }
}

/// The positions of the primitives that reach the device are exactly those
/// of the meshes with a texture and of the callbacks with a target, each
/// once, in ascending order.
pub proof fn lemma_dispatched(view: PainterView, primitives: Seq<ClippedPrimitive>, n: int)
    requires
        0 <= n <= primitives.len(),
    ensures
        forall|k: int|
            0 <= k < dispatched(view, primitives, n).len() ==> 0 <= (#[trigger] dispatched(
                view,
                primitives,
                n,
            )[k]) < n && is_dispatched(view, primitives[dispatched(view, primitives, n)[k]]),
        forall|j: int, k: int|
            0 <= j < k < dispatched(view, primitives, n).len() ==> dispatched(
                view,
                primitives,
                n,
            )[j] < dispatched(view, primitives, n)[k],
        forall|i: int|
            0 <= i < n && is_dispatched(view, #[trigger] primitives[i]) ==> dispatched(
                view,
                primitives,
                n,
            ).contains(i),
    decreases n,
{
    if n > 0 {
        lemma_dispatched(view, primitives, n - 1);
        let before = dispatched(view, primitives, n - 1);
        let all = dispatched(view, primitives, n);
        assert forall|i: int|
            0 <= i < n && is_dispatched(view, #[trigger] primitives[i]) implies all.contains(i) by {
            if i < n - 1 {
                let k = choose|k: int| 0 <= k < before.len() && before[k] == i;
                assert(all[k] == i);
            } else {
                assert(all[all.len() - 1] == i);
            }
        }
    }
}

/// The first `n` primitives from the drawing state: the events are those of
/// the primitives that reach the device, in list order, each what its
/// primitive is owed; and the device is in the drawing state afterwards.
pub proof fn lemma_primitives(
    view: PainterView,
    screen_size_px: [u32; 2],
    primitives: Seq<ClippedPrimitive>,
    n: int,
    s: DeviceState,
    host: Host,
)
    requires
        0 <= n <= primitives.len(),
        primitives.len() <= usize::MAX,
        drawing_state(view, screen_size_px, s),
    ensures
        drawing_state(
            view,
            screen_size_px,
            run(s, primitives_ops(view, screen_size_px, primitives, n), host),
        ),
        ({
            let seen = events(s, primitives_ops(view, screen_size_px, primitives, n), host);
            let positions = dispatched(view, primitives, n);
            &&& seen.len() == positions.len()
            &&& forall|k: int|
                0 <= k < positions.len() ==> event_matches(
                    view,
                    screen_size_px,
                    primitives[positions[k]],
                    positions[k],
                    #[trigger] seen[k],
                )
        }),
    decreases n,
{
    if n > 0 {
        lemma_primitives(view, screen_size_px, primitives, n - 1, s, host);
        let before = primitives_ops(view, screen_size_px, primitives, n - 1);
        let last = primitive_ops(view, screen_size_px, primitives[n - 1], (n - 1) as usize);
        lemma_run_concat(s, before, last, host);
        lemma_primitive(
            view,
            screen_size_px,
            primitives[n - 1],
            (n - 1) as usize,
            run(s, before, host),
            host,
        );
        let seen = events(s, primitives_ops(view, screen_size_px, primitives, n), host);
        let seen_before = events(s, before, host);
        let positions = dispatched(view, primitives, n);
        assert forall|k: int| 0 <= k < positions.len() implies event_matches(
            view,
            screen_size_px,
            primitives[positions[k]],
            positions[k],
            #[trigger] seen[k],
        ) by {
            let positions_before = dispatched(view, primitives, n - 1);
            let tail = events(run(s, before, host), last, host);
            assert(seen == seen_before + tail);
            if k < seen_before.len() {
                assert(seen[k] == seen_before[k]);
                assert(positions[k] == positions_before[k]);
            } else {
                assert(is_dispatched(view, primitives[n - 1]));
                assert(seen[k] == tail[0]);
                assert(positions[k] == n - 1);
            }
        }
    }
}

/// What the device sees during a frame.
///
/// From whatever state the device starts and whatever the callbacks do to it,
/// the draw calls and callback runs of a frame are those of the primitives
/// that reach the device, one for each, in list order; every mesh is drawn in
/// the drawing state, under its own scissor rectangle and with its own
/// texture and data; every callback runs in the drawing state with the
/// viewport of its target. The depth test is off at every draw call, so a
/// order of the list alone decides which of two overlapping meshes shows.
/// After the frame the scissor test is off, vertex array and element buffer
/// are unbound, and in corrected mode the display is the render target.
pub proof fn lemma_frame_events(
    view: PainterView,
    screen_size_px: [u32; 2],
    primitives: Seq<ClippedPrimitive>,
    start: DeviceState,
    host: Host,
)
    requires
        primitives.len() <= usize::MAX,
    ensures
        ({
            let seen = events(start, frame_ops(view, screen_size_px, primitives), host);
            let positions = dispatched(view, primitives, primitives.len() as int);
            &&& seen.len() == positions.len()
            &&& forall|k: int|
                0 <= k < positions.len() ==> event_matches(
                    view,
                    screen_size_px,
                    primitives[positions[k]],
                    positions[k],
                    #[trigger] seen[k],
                )
            &&& forall|k: int|
                0 <= k < positions.len() ==> 0 <= #[trigger] positions[k] < primitives.len()
            &&& forall|j: int, k: int|
                0 <= j < k < positions.len() ==> positions[j] < positions[k]
            &&& forall|i: int|
                0 <= i < primitives.len() && is_dispatched(view, #[trigger] primitives[i])
                    ==> positions.contains(i)
            &&& forall|k: int|
                0 <= k < positions.len() ==> is_dispatched(
                    view,
                    primitives[#[trigger] positions[k]],
                )
        }),
        ({
            let end = run(start, frame_ops(view, screen_size_px, primitives), host);
            &&& !end.scissor_test
            &&& !end.vertex_array
            &&& end.element_buffer is None
            &&& view.post_process is Some ==> !end.intermediate
        }),
{
    let n = primitives.len() as int;
    let enter = enter_ops(view, screen_size_px);
    let body = primitives_ops(view, screen_size_px, primitives, n);
    let exit = exit_ops(view);
    lemma_enter(view, screen_size_px, start, host);
    let entered = run(start, enter, host);
    lemma_primitives(view, screen_size_px, primitives, n, entered, host);
    lemma_run_concat(start, enter, body, host);
    lemma_exit(view, run(start, enter + body, host), host);
    lemma_run_concat(start, enter + body, exit, host);
    lemma_dispatched(view, primitives, n);
    assert(events(start, frame_ops(view, screen_size_px, primitives), host) == events(
        entered,
        body,
        host,
    ));
}

/// Of two meshes that reach the device, the one that comes later in the list
/// is drawn later, and both are drawn with the depth test off and under their
/// own scissor rectangles: what the later mesh draws lies over what the
/// earlier one drew, wherever both draw.
pub proof fn lemma_later_mesh_is_drawn_later(
    view: PainterView,
    screen_size_px: [u32; 2],
    primitives: Seq<ClippedPrimitive>,
    earlier: int,
    later: int,
    start: DeviceState,
    host: Host,
)
    requires
        primitives.len() <= usize::MAX,
        0 <= earlier < later < primitives.len(),
        primitives[earlier].primitive is Mesh,
        primitives[later].primitive is Mesh,
        is_dispatched(view, primitives[earlier]),
        is_dispatched(view, primitives[later]),
    ensures
        ({
            let seen = events(start, frame_ops(view, screen_size_px, primitives), host);
            exists|a: int, b: int|
                {
                    &&& 0 <= a < b < seen.len()
                    &&& (#[trigger] seen[a]).op is DrawElements
                    &&& seen[a].state.indices == Some(earlier as usize)
                    &&& seen[a].state.scissor == scissor_of(
                        primitives[earlier].clip_rect,
                        screen_size_px,
                    )
                    &&& !seen[a].state.depth_test
                    &&& (#[trigger] seen[b]).op is DrawElements
                    &&& seen[b].state.indices == Some(later as usize)
                    &&& seen[b].state.scissor == scissor_of(
                        primitives[later].clip_rect,
                        screen_size_px,
                    )
                    &&& !seen[b].state.depth_test
                }
        }),
{
    lemma_frame_events(view, screen_size_px, primitives, start, host);
    let seen = events(start, frame_ops(view, screen_size_px, primitives), host);
    let positions = dispatched(view, primitives, primitives.len() as int);
    let a = choose|a: int| 0 <= a < positions.len() && positions[a] == earlier;
    let b = choose|b: int| 0 <= b < positions.len() && positions[b] == later;
    assert(event_matches(view, screen_size_px, primitives[positions[a]], positions[a], seen[a]));
    assert(event_matches(view, screen_size_px, primitives[positions[b]], positions[b], seen[b]));
    if b < a {
        assert(positions[b] < positions[a]);
    }
}

/// A callback with an empty target never runs: no event of the frame is the
/// run of its callback.
pub proof fn lemma_empty_callback_never_runs(
    view: PainterView,
    screen_size_px: [u32; 2],
    primitives: Seq<ClippedPrimitive>,
    i: int,
    start: DeviceState,
    host: Host,
)
    requires
        primitives.len() <= usize::MAX,
        0 <= i < primitives.len(),
        primitives[i].primitive matches Primitive::Callback(callback) && !callback.positive,
    ensures
        forall|k: int|
            0 <= k < events(start, frame_ops(view, screen_size_px, primitives), host).len() ==> (
            #[trigger] events(start, frame_ops(view, screen_size_px, primitives), host)[k]).op
                != (DeviceOp::InvokeCallback { primitive: i as usize }),
{
    lemma_frame_events(view, screen_size_px, primitives, start, host);
    let seen = events(start, frame_ops(view, screen_size_px, primitives), host);
    let positions = dispatched(view, primitives, primitives.len() as int);
    assert forall|k: int| 0 <= k < seen.len() implies (#[trigger] seen[k]).op != (
    DeviceOp::InvokeCallback { primitive: i as usize }) by {
        assert(is_dispatched(view, primitives[positions[k]]));
        assert(event_matches(
            view,
            screen_size_px,
            primitives[positions[k]],
            positions[k],
            seen[k],
        ));
    }
}

/// A mesh whose texture the table does not hold is never drawn: no draw call
/// of the frame has its data in the buffers.
pub proof fn lemma_mesh_without_texture_never_drawn(
    view: PainterView,
    screen_size_px: [u32; 2],
    primitives: Seq<ClippedPrimitive>,
    i: int,
    start: DeviceState,
    host: Host,
)
    requires
        primitives.len() <= usize::MAX,
        0 <= i < primitives.len(),
        primitives[i].primitive matches Primitive::Mesh(mesh) && view.texture(mesh.texture_id)
            is None,
    ensures
        forall|k: int|
            0 <= k < events(start, frame_ops(view, screen_size_px, primitives), host).len() ==> {
                let event = #[trigger] events(
                    start,
                    frame_ops(view, screen_size_px, primitives),
                    host,
                )[k];
                event.op is DrawElements ==> event.state.indices != Some(i as usize)
            },
{
    lemma_frame_events(view, screen_size_px, primitives, start, host);
    let seen = events(start, frame_ops(view, screen_size_px, primitives), host);
    let positions = dispatched(view, primitives, primitives.len() as int);
    assert forall|k: int| 0 <= k < seen.len() implies !((#[trigger] seen[k]).op is DrawElements
        && seen[k].state.indices == Some(i as usize)) by {
        assert(is_dispatched(view, primitives[positions[k]]));
        assert(event_matches(
            view,
            screen_size_px,
            primitives[positions[k]],
            positions[k],
            seen[k],
        ));
    }
}

/// Whether an operation concerns the intermediate render target.
pub open spec fn uses_intermediate(op: DeviceOp) -> bool {
    op is PostProcessBegin || op is PostProcessBind || op is PostProcessEnd
        || op is PostProcessDestroy
}

/// No operation of the list concerns the intermediate render target.
pub open spec fn leaves_intermediate(ops: Seq<DeviceOp>) -> bool {
    forall|i: int| 0 <= i < ops.len() ==> !uses_intermediate(#[trigger] ops[i])
}

/// Two lists that leave the intermediate target alone do so together.
proof fn lemma_leaves_concat(a: Seq<DeviceOp>, b: Seq<DeviceOp>)
    requires
        leaves_intermediate(a),
        leaves_intermediate(b),
    ensures
        leaves_intermediate(a + b),
{
    let both = a + b;
    assert forall|i: int| 0 <= i < both.len() implies !uses_intermediate(#[trigger] both[i]) by {
        if i < a.len() {
            assert(both[i] == a[i]);
        } else {
            assert(both[i] == b[i - a.len()]);
        }
    }
}

/// Outside corrected mode, establishing the drawing state leaves the
/// intermediate target alone.
proof fn lemma_prepare_leaves_intermediate(view: PainterView, screen_size_px: [u32; 2])
    ensures
        leaves_intermediate(prepare_ops(view, screen_size_px)),
{
    lemma_leaves_concat(switch_ops(), srgb_ops(view));
    lemma_leaves_concat(switch_ops() + srgb_ops(view), binding_ops(view, screen_size_px));
}

/// Outside corrected mode, the first `n` primitives leave the intermediate
/// target alone.
proof fn lemma_primitives_leave_intermediate(
    view: PainterView,
    screen_size_px: [u32; 2],
    primitives: Seq<ClippedPrimitive>,
    n: int,
)
    requires
        view.post_process is None,
        0 <= n <= primitives.len(),
    ensures
        leaves_intermediate(primitives_ops(view, screen_size_px, primitives, n)),
    decreases n,
{
    if n > 0 {
        lemma_primitives_leave_intermediate(view, screen_size_px, primitives, n - 1);
        let clipped = primitives[n - 1];
        let scissor = seq![DeviceOp::Scissor(scissor_of(clipped.clip_rect, screen_size_px))];
        let rest = dispatch_ops(view, screen_size_px, clipped, (n - 1) as usize);
        match clipped.primitive {
            Primitive::Mesh(mesh) => {},
            Primitive::Callback(callback) => {
                if callback.positive {
                    let call = seq![
                        DeviceOp::Viewport(viewport_of(callback.rect, screen_size_px)),
                        DeviceOp::InvokeCallback { primitive: (n - 1) as usize },
                    ];
                    lemma_prepare_leaves_intermediate(view, screen_size_px);
                    lemma_leaves_concat(call, Seq::empty());
                    lemma_leaves_concat(
                        call + Seq::<DeviceOp>::empty(),
                        prepare_ops(view, screen_size_px),
                    );
                }
            },
        }
        lemma_leaves_concat(scissor, rest);
        lemma_leaves_concat(
            primitives_ops(view, screen_size_px, primitives, n - 1),
            scissor + rest,
        );
    }
}

/// The intermediate render target brackets a frame in corrected mode only.
///
/// In corrected mode a frame starts by making the target ready and binding
/// it, and ends by resolving it onto the display before the scissor test is
/// switched off. In every other mode no operation of a frame concerns the
/// target.
pub proof fn lemma_intermediate_brackets_frame(
    view: PainterView,
    screen_size_px: [u32; 2],
    primitives: Seq<ClippedPrimitive>,
)
    ensures
        ({
            let ops = frame_ops(view, screen_size_px, primitives);
            if view.post_process is Some {
                &&& ops.len() >= 4
                &&& ops[0] == (DeviceOp::PostProcessBegin {
                    width: screen_size_px[0] as i32,
                    height: screen_size_px[1] as i32,
                })
                &&& ops[1] == DeviceOp::PostProcessBind
                &&& ops[ops.len() - 2] == DeviceOp::PostProcessEnd
                &&& ops[ops.len() - 1] == DeviceOp::Disable(Capability::ScissorTest)
            } else {
                leaves_intermediate(ops)
            }
        }),
{
    let enter = enter_ops(view, screen_size_px);
    let body = primitives_ops(view, screen_size_px, primitives, primitives.len() as int);
    let exit = exit_ops(view);
    if view.post_process is Some {
        let ops = enter + body + exit;
        assert(enter[0] == intermediate_ops(screen_size_px)[0]);
        assert(enter[1] == intermediate_ops(screen_size_px)[1]);
        assert(ops[0] == enter[0]);
        assert(ops[1] == enter[1]);
        assert(exit.len() == 4);
        assert(ops[ops.len() - 2] == exit[2]);
        assert(ops[ops.len() - 1] == exit[3]);
    } else {
        lemma_prepare_leaves_intermediate(view, screen_size_px);
        assert(enter == prepare_ops(view, screen_size_px));
        lemma_primitives_leave_intermediate(
            view,
            screen_size_px,
            primitives,
            primitives.len() as int,
        );
        lemma_leaves_concat(enter, body);
        lemma_leaves_concat(enter + body, exit);
    }
}

} // verus!

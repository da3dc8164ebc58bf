//! The dual-display renderer: two windows with one shared GPU resource
//! namespace, an explicit context-binding state machine, close-event
//! aggregation, a frame timer, and creation of textures, meshes and shader
//! programs.
//!
//! The platform layer (outside this crate) creates the actual windows,
//! polls events, performs buffer swaps and runs the GPU driver; it reports
//! plain values in and executes the recorded drawing commands out. The
//! renderer owns every decision: what state the engine is in, which
//! context is bound, which handles exist, and what is drawn where.

use vstd::prelude::*;

use crate::error::EngineError;
use crate::math::{Matrix4, Vector4};
use crate::mesh::{Mesh, Texture, Vertex};
use crate::shader::Shader;

verus! {

/// One of the two screens.
#[derive(Clone, Copy, Debug, PartialEq, Eq, Structural)]
pub enum ScreenId {
    Upper,
    Lower,
}

/// Which display's context is current on the engine thread.
#[derive(Clone, Copy, Debug, PartialEq, Eq, Structural)]
pub enum ContextBinding {
    Unbound,
    Upper,
    Lower,
}

/// An event drained from one window's queue since the last poll.
#[derive(Clone, Copy, Debug, PartialEq, Eq, Structural)]
pub enum DisplayEvent {
    CloseRequested,
    Other,
}

/// What the platform layer reports after creating the two windows: their
/// native identities and the context version both share.
#[derive(Clone, Copy, Debug, PartialEq, Eq, Structural)]
pub struct WindowPair {
    pub upper_native_id: u64,
    pub lower_native_id: u64,
    pub context_major: u32,
    pub context_minor: u32,
    pub width: u32,
    pub height: u32,
}

/// One display: a window, its context, and its close flag.
#[derive(Clone, Copy, Debug, PartialEq, Eq, Structural)]
pub struct Display {
    pub name: ScreenId,
    pub native_id: u64,
    pub width: u32,
    pub height: u32,
    pub context_major: u32,
    pub context_minor: u32,
    pub close_requested: bool,
}

/// A decoded texture registered in the shared namespace, kept so the
/// platform layer can upload the pixels.
#[derive(Debug)]
pub struct TextureRecord {
    pub id: u32,
    pub width: u32,
    pub height: u32,
    pub pixels: Vec<u8>,
}

/// A drawing command recorded for the platform layer, tagged with the
/// screen whose context was bound when it was issued.
#[derive(Debug)]
pub enum DrawCommand {
    Clear { target: ScreenId, color: Vector4 },
    DrawMesh {
        target: ScreenId,
        vao: u32,
        index_count: usize,
        texture_ids: Vec<u32>,
        shader_id: u32,
        model: Matrix4,
    },
}

/// Any close-type event in the drained queue.
pub open spec fn has_close(events: Seq<DisplayEvent>) -> bool {
    exists|i: int| 0 <= i < events.len() && events[i] == DisplayEvent::CloseRequested
}

/// The frame delta in fixed-point seconds: the elapsed microseconds
/// (clamped to a nonnegative, bounded span) rescaled by one fixed-point
/// unit per second.
pub open spec fn delta_fx(start_us: u64, now_us: u64) -> int {
    let e = if now_us <= start_us {
        0
    } else if now_us - start_us > 0x7fff_ffff {
        0x7fff_ffff
    } else {
        now_us - start_us
    };
    (e * (crate::fx::FX_ONE as int)) / 1000000
}

/// The state transition of `begin_upper_screen` / `begin_lower_screen`
/// on an initialized engine: that display's context becomes current --
/// whatever was current before -- and the segment timer starts.
pub open spec fn begin_screen_t(
    pre: PrismRenderer,
    post: PrismRenderer,
    screen: ScreenId,
    now_us: u64,
) -> bool {
    &&& pre.initialized
    &&& post == (PrismRenderer {
        binding: if screen == ScreenId::Upper {
            ContextBinding::Upper
        } else {
            ContextBinding::Lower
        },
        frame_start_us: now_us,
        ..pre
    })
}

/// The state transition of `end_upper_screen` / `end_lower_screen` on an
/// initialized engine: the segment's elapsed time becomes the frame
/// delta and no context remains current.
pub open spec fn end_screen_t(pre: PrismRenderer, post: PrismRenderer, now_us: u64) -> bool {
    &&& pre.initialized
    &&& post == (PrismRenderer {
        binding: ContextBinding::Unbound,
        delta_time: post.delta_time,
        ..pre
    })
    &&& post.delta_time == delta_fx(pre.frame_start_us, now_us)
}

/// The state transition of a successful `draw_mesh`: exactly one mesh
/// draw is appended, targeting the display whose context is current, and
/// nothing else changes -- in particular no resource is created or
/// destroyed.
pub open spec fn draw_t(pre: PrismRenderer, post: PrismRenderer, m: Mesh, s: Shader) -> bool {
    &&& pre.initialized
    &&& pre.binding != ContextBinding::Unbound
    &&& post == (PrismRenderer { commands: post.commands, ..pre })
    &&& post.commands@.len() == pre.commands@.len() + 1
    &&& post.commands@.subrange(0, pre.commands@.len() as int) == pre.commands@
    &&& (post.commands@.last() matches DrawCommand::DrawMesh {
        target, vao, index_count, texture_ids, shader_id, model }
        && target == (if pre.binding == ContextBinding::Upper {
            ScreenId::Upper
        } else {
            ScreenId::Lower
        })
        && vao == m.vao
        && index_count == m.indices@.len()
        && texture_ids@ == m.textures@.map_values(|t: Texture| t.id)
        && shader_id == s.id
        && model@ == m.model@)
}

/// The state transition of `deinit`: the engine is fully uninitialized
/// and the shared namespace's resources are gone; the close signal and
/// the last frame delta are kept. An already-uninitialized engine is
/// unchanged.
pub open spec fn deinit_t(pre: PrismRenderer, post: PrismRenderer) -> bool {
    &&& !post.initialized
    &&& post.upper_window is None
    &&& post.lower_window is None
    &&& post.binding == ContextBinding::Unbound
    &&& post.textures@.len() == 0
    &&& post.commands@.len() == 0
    &&& post.next_gpu_id == 1
    &&& post.should_close == pre.should_close
    &&& post.delta_time == pre.delta_time
    &&& post.frame_start_us == pre.frame_start_us
    &&& (!pre.initialized ==> post == pre)
}

/// The state transition of `handle_events` on an initialized engine:
/// each display's close flag absorbs its drained close events and its
/// window-level close flag, stickily, and the engine-level signal is
/// their OR.
pub open spec fn handle_events_t(
    pre: PrismRenderer,
    post: PrismRenderer,
    upper_events: Seq<DisplayEvent>,
    lower_events: Seq<DisplayEvent>,
    upper_os_close: bool,
    lower_os_close: bool,
) -> bool {
    &&& pre.initialized
    &&& post.upper_window->0.close_requested == (pre.upper_window->0.close_requested
        || has_close(upper_events) || upper_os_close)
    &&& post.lower_window->0.close_requested == (pre.lower_window->0.close_requested
        || has_close(lower_events) || lower_os_close)
    &&& post.should_close == (post.upper_window->0.close_requested
        || post.lower_window->0.close_requested)
    &&& post.upper_window->0 == (Display {
        close_requested: post.upper_window->0.close_requested,
        ..pre.upper_window->0
    })
    &&& post.lower_window->0 == (Display {
        close_requested: post.lower_window->0.close_requested,
        ..pre.lower_window->0
    })
    &&& post.initialized
    &&& post.binding == pre.binding
    &&& post.delta_time == pre.delta_time
    &&& post.frame_start_us == pre.frame_start_us
    &&& post.next_gpu_id == pre.next_gpu_id
    &&& post.textures@ == pre.textures@
    &&& post.commands@ == pre.commands@
}

/// The dual-display rendering context.
#[derive(Debug)]
pub struct PrismRenderer {
    pub initialized: bool,
    pub should_close: bool,
    pub upper_window: Option<Display>,
    pub lower_window: Option<Display>,
    pub binding: ContextBinding,
    pub delta_time: i64,
    pub frame_start_us: u64,
    pub next_gpu_id: u32,
    pub textures: Vec<TextureRecord>,
    pub commands: Vec<DrawCommand>,
}

/// Decoded form of a byte buffer under the image decoder: `None` when the
/// bytes are not a supported image, else the width, height and the
/// vertically flipped RGBA pixels.
pub uninterp spec fn decoded_image(bytes: Seq<u8>) -> Option<(u32, u32, Seq<u8>)>;

/// Relies on image::load_from_memory (with DynamicImage::flipv and
/// to_rgba8): decoding is a pure function of the bytes, and the RGBA
/// buffer holds four bytes per pixel.
#[verifier::external_body]
fn decode_image(data: &Vec<u8>) -> (r: Option<(u32, u32, Vec<u8>)>)
    ensures
        match r {
            Some((w, h, p)) => decoded_image(data@) == Some((w, h, p@))
                && p@.len() == 4 * w * h,
            None => decoded_image(data@) is None,
        },
{
    match image::load_from_memory(data.as_slice()) {
        Ok(img) => {
            let rgba = img.flipv().to_rgba8();
            let (w, h) = (rgba.width(), rgba.height());
            Some((w, h, rgba.into_raw()))
        }
        Err(_) => None,
    }
}

/// The collaborating GPU driver's verdict on compiling and linking one
/// shader program: `None` for a stage that succeeded, else its diagnostic.
#[derive(Debug, Clone, PartialEq, Eq)]
pub struct CompileOutcome {
    pub vertex_error: Option<String>,
    pub fragment_error: Option<String>,
    pub link_error: Option<String>,
}

impl CompileOutcome {
    /// A verdict with every stage successful.
    pub fn success() -> (r: CompileOutcome)
        ensures
            r.vertex_error is None,
            r.fragment_error is None,
            r.link_error is None,
    {
        CompileOutcome { vertex_error: None, fragment_error: None, link_error: None }
    }
}

/// Whether any close-type event is in the drained queue.
fn contains_close(events: &Vec<DisplayEvent>) -> (r: bool)
    ensures
        r == has_close(events@),
{
    let mut i: usize = 0;
    while i < events.len()
        invariant
            i <= events.len(),
            forall|j: int| 0 <= j < i ==> events@[j] != DisplayEvent::CloseRequested,
        decreases events.len() - i,
    {
        if matches!(events[i], DisplayEvent::CloseRequested) {
            proof {
                assert(events@[i as int] == DisplayEvent::CloseRequested);
            }
            return true;
        }
        i = i + 1;
    }
    false
}

impl PrismRenderer {
    /// Structural soundness of the renderer state: an initialized engine
    /// has exactly two displays with distinct native windows and one
    /// negotiated context version, and its close signal is the OR of the
    /// two displays' close flags; an uninitialized engine holds no
    /// displays, no binding, and no resources.
    pub open spec fn wf(self) -> bool {
        &&& (self.initialized ==> {
            &&& self.upper_window is Some
            &&& self.lower_window is Some
            &&& self.upper_window->0.name == ScreenId::Upper
            &&& self.lower_window->0.name == ScreenId::Lower
            &&& self.upper_window->0.native_id != self.lower_window->0.native_id
            &&& self.upper_window->0.context_major == self.lower_window->0.context_major
            &&& self.upper_window->0.context_minor == self.lower_window->0.context_minor
            &&& self.should_close == (self.upper_window->0.close_requested
                || self.lower_window->0.close_requested)
        })
        &&& (!self.initialized ==> {
            &&& self.upper_window is None
            &&& self.lower_window is None
            &&& self.binding == ContextBinding::Unbound
            &&& self.textures@.len() == 0
            &&& self.commands@.len() == 0
            &&& self.next_gpu_id == 1
        })
    }

    /// The OR of the two displays' close flags.
    pub open spec fn should_close_displays(self) -> bool {
        self.upper_window->0.close_requested || self.lower_window->0.close_requested
    }

    /// A fresh, uninitialized renderer.
    pub fn new() -> (r: PrismRenderer)
        ensures
            r.wf(),
            !r.initialized,
            !r.should_close,
            r.binding == ContextBinding::Unbound,
            r.delta_time == 0,
            r.frame_start_us == 0,
    {
        PrismRenderer {
            initialized: false,
            should_close: false,
            upper_window: None,
            lower_window: None,
            binding: ContextBinding::Unbound,
            delta_time: 0,
            frame_start_us: 0,
            next_gpu_id: 1,
            textures: Vec::new(),
            commands: Vec::new(),
        }
    }

    /// Bring the engine up on the two windows the platform layer created,
    /// or fail and stay fully uninitialized.
    ///
    /// `windows` is `None` when the platform could not start the
    /// windowing subsystem, negotiate a context version, or create either
    /// window.
    pub fn init(&mut self, windows: Option<WindowPair>) -> (r: Result<(), EngineError>)
        requires
            old(self).wf(),
        ensures
            final(self).wf(),
            old(self).initialized ==> r == Err::<(), EngineError>(
                EngineError::AlreadyInitialized) && *final(self) == *old(self),
            !old(self).initialized && windows is None ==> {
                &&& r matches Err(e) && e is Initialization
                &&& *final(self) == *old(self)
            },
            !old(self).initialized ==> (windows matches Some(w)
                ==> (w.upper_native_id == w.lower_native_id ==> {
                &&& r matches Err(e) && e is Initialization
                &&& *final(self) == *old(self)
            })),
            !old(self).initialized ==> (windows matches Some(w)
                ==> (w.upper_native_id != w.lower_native_id ==> {
                &&& r is Ok
                &&& final(self).initialized
                &&& !final(self).should_close
                &&& final(self).binding == ContextBinding::Unbound
                &&& final(self).upper_window == Some(Display {
                    name: ScreenId::Upper,
                    native_id: w.upper_native_id,
                    width: w.width,
                    height: w.height,
                    context_major: w.context_major,
                    context_minor: w.context_minor,
                    close_requested: false,
                })
                &&& final(self).lower_window == Some(Display {
                    name: ScreenId::Lower,
                    native_id: w.lower_native_id,
                    width: w.width,
                    height: w.height,
                    context_major: w.context_major,
                    context_minor: w.context_minor,
                    close_requested: false,
                })
                &&& final(self).delta_time == old(self).delta_time
                &&& final(self).frame_start_us == old(self).frame_start_us
                &&& final(self).textures@ == old(self).textures@
                &&& final(self).commands@ == old(self).commands@
                &&& final(self).next_gpu_id == old(self).next_gpu_id
            })),
    {
        if self.initialized {
            return Err(EngineError::AlreadyInitialized);
        }
        match windows {
            None => Err(EngineError::Initialization(
                "the windowing subsystem could not create the two displays".to_owned())),
            Some(w) => {
                if w.upper_native_id == w.lower_native_id {
                    return Err(EngineError::Initialization(
                        "the two displays must be distinct native windows".to_owned()));
                }
                self.upper_window = Some(Display {
                    name: ScreenId::Upper,
                    native_id: w.upper_native_id,
                    width: w.width,
                    height: w.height,
                    context_major: w.context_major,
                    context_minor: w.context_minor,
                    close_requested: false,
                });
                self.lower_window = Some(Display {
                    name: ScreenId::Lower,
                    native_id: w.lower_native_id,
                    width: w.width,
                    height: w.height,
                    context_major: w.context_major,
                    context_minor: w.context_minor,
                    close_requested: false,
                });
                self.should_close = false;
                self.binding = ContextBinding::Unbound;
                self.initialized = true;
                Ok(())
            }
        }
    }

    /// Release both displays and every resource of the shared namespace;
    /// calling it on an uninitialized engine changes nothing.
    pub fn deinit(&mut self)
        requires
            old(self).wf(),
        ensures
            final(self).wf(),
            deinit_t(*old(self), *final(self)),
    {
        if !self.initialized {
            return;
        }
        self.initialized = false;
        self.upper_window = None;
        self.lower_window = None;
        self.binding = ContextBinding::Unbound;
        self.textures = Vec::new();
        self.commands = Vec::new();
        self.next_gpu_id = 1;
    }

    /// The aggregated close signal: true once either display has
    /// requested to close. A pure read.
    pub fn should_close(&self) -> (r: bool)
        ensures
            r == self.should_close,
    {
        self.should_close
    }

    /// Fold one poll's worth of drained events and window close flags
    /// into the per-display close flags and the aggregate signal.
    ///
    /// `upper_os_close` and `lower_os_close` are the windowing system's
    /// own should-close flags for the two windows.
    pub fn handle_events(
        &mut self,
        upper_events: &Vec<DisplayEvent>,
        lower_events: &Vec<DisplayEvent>,
        upper_os_close: bool,
        lower_os_close: bool,
    ) -> (r: Result<(), EngineError>)
        requires
            old(self).wf(),
        ensures
            final(self).wf(),
            !old(self).initialized ==> r == Err::<(), EngineError>(
                EngineError::NotInitialized) && *final(self) == *old(self),
            old(self).initialized ==> r is Ok && handle_events_t(
                *old(self), *final(self), upper_events@, lower_events@,
                upper_os_close, lower_os_close),
    {
        if !self.initialized {
            return Err(EngineError::NotInitialized);
        }
        let upper_close = contains_close(upper_events) || upper_os_close;
        let lower_close = contains_close(lower_events) || lower_os_close;
        match self.upper_window {
            Some(d) => {
                self.upper_window = Some(Display {
                    close_requested: d.close_requested || upper_close,
                    ..d
                });
            }
            None => {}
        }
        match self.lower_window {
            Some(d) => {
                self.lower_window = Some(Display {
                    close_requested: d.close_requested || lower_close,
                    ..d
                });
            }
            None => {}
        }
        let u = match &self.upper_window {
            Some(d) => d.close_requested,
            None => false,
        };
        let l = match &self.lower_window {
            Some(d) => d.close_requested,
            None => false,
        };
        self.should_close = u || l;
        Ok(())
    }

    /// Make the upper display's context current and start the frame
    /// timer for this segment.
    pub fn begin_upper_screen(&mut self, now_us: u64) -> (r: Result<(), EngineError>)
        requires
            old(self).wf(),
        ensures
            final(self).wf(),
            !old(self).initialized ==> r == Err::<(), EngineError>(
                EngineError::NotInitialized) && *final(self) == *old(self),
            old(self).initialized ==> r is Ok
                && begin_screen_t(*old(self), *final(self), ScreenId::Upper, now_us),
    {
        if !self.initialized {
            return Err(EngineError::NotInitialized);
        }
        self.frame_start_us = now_us;
        self.binding = ContextBinding::Upper;
        Ok(())
    }

    /// Present the upper display's back buffer, record the segment's
    /// elapsed time as the frame delta, and leave no context current.
    pub fn end_upper_screen(&mut self, now_us: u64) -> (r: Result<(), EngineError>)
        requires
            old(self).wf(),
        ensures
            final(self).wf(),
            !old(self).initialized ==> r == Err::<(), EngineError>(
                EngineError::NotInitialized) && *final(self) == *old(self),
            old(self).initialized ==> r is Ok
                && end_screen_t(*old(self), *final(self), now_us),
    {
        if !self.initialized {
            return Err(EngineError::NotInitialized);
        }
        self.delta_time = self.elapsed_fixed(now_us);
        self.binding = ContextBinding::Unbound;
        Ok(())
    }

    /// Make the lower display's context current and start the frame
    /// timer for this segment. The previous context, if any, stops being
    /// current: draws after this call can only target the lower display.
    pub fn begin_lower_screen(&mut self, now_us: u64) -> (r: Result<(), EngineError>)
        requires
            old(self).wf(),
        ensures
            final(self).wf(),
            !old(self).initialized ==> r == Err::<(), EngineError>(
                EngineError::NotInitialized) && *final(self) == *old(self),
            old(self).initialized ==> r is Ok
                && begin_screen_t(*old(self), *final(self), ScreenId::Lower, now_us),
    {
        if !self.initialized {
            return Err(EngineError::NotInitialized);
        }
        self.frame_start_us = now_us;
        self.binding = ContextBinding::Lower;
        Ok(())
    }

    /// Present the lower display's back buffer, record the segment's
    /// elapsed time as the frame delta, and leave no context current.
    pub fn end_lower_screen(&mut self, now_us: u64) -> (r: Result<(), EngineError>)
        requires
            old(self).wf(),
        ensures
            final(self).wf(),
            !old(self).initialized ==> r == Err::<(), EngineError>(
                EngineError::NotInitialized) && *final(self) == *old(self),
            old(self).initialized ==> r is Ok
                && end_screen_t(*old(self), *final(self), now_us),
    {
        if !self.initialized {
            return Err(EngineError::NotInitialized);
        }
        self.delta_time = self.elapsed_fixed(now_us);
        self.binding = ContextBinding::Unbound;
        Ok(())
    }

    /// The elapsed time of the current segment in fixed-point seconds.
    fn elapsed_fixed(&self, now_us: u64) -> (r: i64)
        ensures
            r == delta_fx(self.frame_start_us, now_us),
            r >= 0,
    {
        let e: u64 = if now_us <= self.frame_start_us {
            0
        } else if now_us - self.frame_start_us > 0x7fff_ffff {
            0x7fff_ffff
        } else {
            now_us - self.frame_start_us
        };
        let scaled: u64 = e * 65536;
        (scaled / 1000000) as i64
    }

    /// The last recorded frame delta, in fixed-point seconds.
    pub fn get_delta(&self) -> (r: i64)
        ensures
            r == self.delta_time,
    {
        self.delta_time
    }

    /// Whether a key is held on either display's window: the platform
    /// layer reports each window's state for the key, and the engine
    /// aggregates them, like the close signal, with OR semantics.
    pub fn key_pressed(&self, upper_pressed: bool, lower_pressed: bool) -> (r: Result<
        bool,
        EngineError,
    >)
        ensures
            !self.initialized ==> r == Err::<bool, EngineError>(
                EngineError::NotInitialized),
            self.initialized ==> r == Ok::<bool, EngineError>(
                upper_pressed || lower_pressed),
    {
        if !self.initialized {
            return Err(EngineError::NotInitialized);
        }
        Ok(upper_pressed || lower_pressed)
    }

    /// Record a clear of the currently bound display's framebuffer.
    pub fn clear_screen(&mut self, color: Vector4) -> (r: Result<(), EngineError>)
        requires
            old(self).wf(),
        ensures
            final(self).wf(),
            !old(self).initialized ==> r == Err::<(), EngineError>(
                EngineError::NotInitialized) && *final(self) == *old(self),
            old(self).initialized && old(self).binding == ContextBinding::Unbound
                ==> r == Err::<(), EngineError>(EngineError::ContextNotBound)
                    && *final(self) == *old(self),
            old(self).initialized && old(self).binding != ContextBinding::Unbound ==> {
                &&& r is Ok
                &&& final(self).commands@.len() == old(self).commands@.len() + 1
                &&& final(self).commands@.subrange(0, old(self).commands@.len() as int)
                    == old(self).commands@
                &&& final(self).commands@.last() matches DrawCommand::Clear {
                    target, color: c }
                    && c == color
                    && target == (if old(self).binding == ContextBinding::Upper {
                        ScreenId::Upper
                    } else {
                        ScreenId::Lower
                    })
                &&& *final(self) == (PrismRenderer {
                    commands: final(self).commands, ..*old(self) })
            },
    {
        if !self.initialized {
            return Err(EngineError::NotInitialized);
        }
        let target = match self.binding {
            ContextBinding::Unbound => {
                return Err(EngineError::ContextNotBound);
            }
            ContextBinding::Upper => ScreenId::Upper,
            ContextBinding::Lower => ScreenId::Lower,
        };
        self.commands.push(DrawCommand::Clear { target, color });
        proof {
            assert(self.commands@.subrange(0, old(self).commands@.len() as int)
                =~= old(self).commands@);
        }
        Ok(())
    }

    /// Decode an image and register it as a new texture of the shared
    /// namespace, usable by whichever display is bound.
    ///
    /// The upper display's context is bound transiently if none is
    /// current; the prior binding is restored either way.
    pub fn create_texture(&mut self, data: &Vec<u8>) -> (r: Result<Texture, EngineError>)
        requires
            old(self).wf(),
            old(self).next_gpu_id + 3 < u32::MAX,
        ensures
            final(self).wf(),
            !old(self).initialized ==> r == Err::<Texture, EngineError>(
                EngineError::NotInitialized) && *final(self) == *old(self),
            old(self).initialized && decoded_image(data@) is None ==> {
                &&& r matches Err(e) && e is ResourceLoad
                &&& *final(self) == *old(self)
            },
            old(self).initialized ==> (decoded_image(data@) matches Some((w, h, p)) ==> {
                &&& r == Ok::<Texture, EngineError>(Texture { id: old(self).next_gpu_id })
                &&& final(self).next_gpu_id == old(self).next_gpu_id + 1
                &&& final(self).textures@.len() == old(self).textures@.len() + 1
                &&& final(self).textures@.subrange(0, old(self).textures@.len() as int)
                    == old(self).textures@
                &&& final(self).textures@.last().id == old(self).next_gpu_id
                &&& final(self).textures@.last().width == w
                &&& final(self).textures@.last().height == h
                &&& final(self).textures@.last().pixels@ == p
                &&& final(self).binding == old(self).binding
                &&& *final(self) == (PrismRenderer {
                    next_gpu_id: final(self).next_gpu_id,
                    textures: final(self).textures,
                    ..*old(self)
                })
            }),
    {
        if !self.initialized {
            return Err(EngineError::NotInitialized);
        }
        match decode_image(data) {
            None => Err(EngineError::ResourceLoad(
                "the byte buffer is not a decodable image".to_owned())),
            Some((w, h, pixels)) => {
                let id = self.next_gpu_id;
                self.next_gpu_id = id + 1;
                self.textures.push(TextureRecord { id, width: w, height: h, pixels });
                proof {
                    assert(self.textures@.subrange(0, old(self).textures@.len() as int)
                        =~= old(self).textures@);
                }
                Ok(Texture { id })
            }
        }
    }

    /// Upload geometry as a new mesh of the shared namespace: a vertex
    /// array, a vertex buffer and an index buffer, with the given borrowed
    /// texture references and the identity transform.
    pub fn create_mesh(
        &mut self,
        vertices: Vec<Vertex>,
        indices: Vec<u32>,
        textures: Vec<Texture>,
    ) -> (r: Result<Mesh, EngineError>)
        requires
            old(self).wf(),
            old(self).next_gpu_id + 3 < u32::MAX,
        ensures
            final(self).wf(),
            !old(self).initialized ==> r == Err::<Mesh, EngineError>(
                EngineError::NotInitialized) && *final(self) == *old(self),
            old(self).initialized ==> {
                &&& r matches Ok(m)
                &&& m.wf()
                &&& m.vertices == vertices
                &&& m.indices == indices
                &&& m.textures == textures
                &&& m.vao == old(self).next_gpu_id
                &&& m.vbo == old(self).next_gpu_id + 1
                &&& m.ebo == old(self).next_gpu_id + 2
                &&& m.model@ == crate::math::identity_m()
                &&& m.position == (crate::math::Vector3 { x: 0i64, y: 0i64, z: 0i64 })
                &&& m.rotation == (crate::math::Vector3 { x: 0i64, y: 0i64, z: 0i64 })
                &&& m.scale == (crate::math::Vector3 {
                    x: crate::fx::FX_ONE,
                    y: crate::fx::FX_ONE,
                    z: crate::fx::FX_ONE,
                })
                &&& final(self).next_gpu_id == old(self).next_gpu_id + 3
                &&& final(self).binding == old(self).binding
                &&& *final(self) == (PrismRenderer {
                    next_gpu_id: final(self).next_gpu_id,
                    ..*old(self)
                })
            },
    {
        if !self.initialized {
            return Err(EngineError::NotInitialized);
        }
        let vao = self.next_gpu_id;
        let vbo = vao + 1;
        let ebo = vao + 2;
        self.next_gpu_id = vao + 3;
        Ok(Mesh::new(vertices, indices, textures, vao, vbo, ebo))
    }

    /// Compile and link a shader program from the two stage sources,
    /// judged by the collaborating GPU driver's `outcome`.
    ///
    /// A stage failure returns its diagnostic and leaves no program
    /// allocated; on success the two compiled stages are released and
    /// only the linked program remains, as a new handle.
    pub fn create_shader_from_source(
        &mut self,
        vertex_src: &str,
        fragment_src: &str,
        outcome: &CompileOutcome,
    ) -> (r: Result<Shader, EngineError>)
        requires
            old(self).wf(),
            old(self).next_gpu_id + 3 < u32::MAX,
        ensures
            final(self).wf(),
            !old(self).initialized ==> r == Err::<Shader, EngineError>(
                EngineError::NotInitialized) && *final(self) == *old(self),
            old(self).initialized ==> (outcome.vertex_error matches Some(d) ==> {
                &&& r == Err::<Shader, EngineError>(EngineError::ShaderCompile(d))
                &&& *final(self) == *old(self)
            }),
            old(self).initialized && outcome.vertex_error is None
                ==> (outcome.fragment_error matches Some(d) ==> {
                &&& r == Err::<Shader, EngineError>(EngineError::ShaderCompile(d))
                &&& *final(self) == *old(self)
            }),
            old(self).initialized && outcome.vertex_error is None
                && outcome.fragment_error is None
                ==> (outcome.link_error matches Some(d) ==> {
                &&& r == Err::<Shader, EngineError>(EngineError::ShaderLink(d))
                &&& *final(self) == *old(self)
            }),
            old(self).initialized && outcome.vertex_error is None
                && outcome.fragment_error is None && outcome.link_error is None ==> {
                &&& r matches Ok(s)
                &&& s.id == old(self).next_gpu_id
                &&& s.writes@.len() == 0
                &&& final(self).next_gpu_id == old(self).next_gpu_id + 1
                &&& final(self).binding == old(self).binding
                &&& *final(self) == (PrismRenderer {
                    next_gpu_id: final(self).next_gpu_id,
                    ..*old(self)
                })
            },
    {
        if !self.initialized {
            return Err(EngineError::NotInitialized);
        }
        match &outcome.vertex_error {
            Some(d) => {
                return Err(EngineError::ShaderCompile(d.clone()));
            }
            None => {}
        }
        match &outcome.fragment_error {
            Some(d) => {
                return Err(EngineError::ShaderCompile(d.clone()));
            }
            None => {}
        }
        match &outcome.link_error {
            Some(d) => {
                return Err(EngineError::ShaderLink(d.clone()));
            }
            None => {}
        }
        let id = self.next_gpu_id;
        self.next_gpu_id = id + 1;
        Ok(Shader::new(id))
    }

    /// Submit a mesh for drawing on the currently bound display with the
    /// given shader: its vertex array, index count, bound textures and
    /// model matrix.
    pub fn draw_mesh(&mut self, mesh: &Mesh, shader: &Shader) -> (r: Result<
        (),
        EngineError,
    >)
        requires
            old(self).wf(),
        ensures
            final(self).wf(),
            !old(self).initialized ==> r == Err::<(), EngineError>(
                EngineError::NotInitialized) && *final(self) == *old(self),
            old(self).initialized && old(self).binding == ContextBinding::Unbound
                ==> r == Err::<(), EngineError>(EngineError::ContextNotBound)
                    && *final(self) == *old(self),
            old(self).initialized && old(self).binding != ContextBinding::Unbound
                ==> r is Ok && draw_t(*old(self), *final(self), *mesh, *shader),
    {
        if !self.initialized {
            return Err(EngineError::NotInitialized);
        }
        let target = match self.binding {
            ContextBinding::Unbound => {
                return Err(EngineError::ContextNotBound);
            }
            ContextBinding::Upper => ScreenId::Upper,
            ContextBinding::Lower => ScreenId::Lower,
        };
        let mut texture_ids: Vec<u32> = Vec::new();
        let mut i: usize = 0;
        while i < mesh.textures.len()
            invariant
                i <= mesh.textures.len(),
                texture_ids@ == mesh.textures@.subrange(0, i as int)
                    .map_values(|t: Texture| t.id),
            decreases mesh.textures.len() - i,
        {
            texture_ids.push(mesh.textures[i].id);
            proof {
                assert(mesh.textures@.subrange(0, i + 1 as int)
                    == mesh.textures@.subrange(0, i as int).push(mesh.textures@[i as int]));
                assert(texture_ids@ == mesh.textures@.subrange(0, i + 1 as int)
                    .map_values(|t: Texture| t.id));
            }
            i = i + 1;
        }
        proof {
            assert(mesh.textures@.subrange(0, mesh.textures@.len() as int)
                == mesh.textures@);
        }
        let cmd = DrawCommand::DrawMesh {
            target,
            vao: mesh.vao,
            index_count: mesh.indices.len(),
            texture_ids,
            shader_id: shader.id,
            model: mesh.model,
        };
        self.commands.push(cmd);
        proof {
            assert(self.commands@.subrange(0, old(self).commands@.len() as int)
                =~= old(self).commands@);
        }
        Ok(())
    }

    /// Hand the recorded drawing commands to the platform layer and
    /// clear the log.
    pub fn take_commands(&mut self) -> (r: Vec<DrawCommand>)
        requires
            old(self).wf(),
            old(self).initialized,
        ensures
            final(self).wf(),
            r@ == old(self).commands@,
            final(self).commands@.len() == 0,
            *final(self) == (PrismRenderer { commands: final(self).commands, ..*old(self) }),
    {
        let mut out: Vec<DrawCommand> = Vec::new();
        core::mem::swap(&mut out, &mut self.commands);
        out
    }
}

} // verus!

//! The engine: the renderer, a scene registry, the designated main scene,
//! and the program shader. The platform layer owns the outer frame loop;
//! each iteration it polls events, takes timestamps, and calls `frame`,
//! which sequences the whole two-screen pass over the logical state:
//! handle events, bind upper, clear, render, present, bind lower, render,
//! present, leaving no context bound.

use vstd::prelude::*;

use crate::error::EngineError;
use crate::math::Vector4;
use crate::renderer::{
    has_close, delta_fx, CompileOutcome, ContextBinding, Display, DisplayEvent,
    DrawCommand, PrismRenderer, ScreenId, WindowPair,
};
use crate::scene::{
    lemma_meshes_before_mono, lemma_submissions_persist, mesh_object_count,
    obj_submission_at, resolved_camera, resolves_camera, Scene,
};
use crate::shader::{Shader, UniformWrite};

verus! {

/// The GLSL source of the engine's vertex stage.
pub fn default_vertex_source() -> &'static str {
    "#version 330 core

layout (location = 0) in vec3 aPos;
layout (location = 1) in vec3 aNormal;
layout (location = 2) in vec2 aTexCoords;

out vec3 FragPos;
out vec3 Normal;
out vec2 TexCoords;

uniform mat4 model;
uniform mat4 view;
uniform mat4 projection;

void main() {
    FragPos = vec3(model * vec4(aPos, 1.0));
    Normal = mat3(transpose(inverse(model))) * aNormal;
    TexCoords = aTexCoords;

    gl_Position = projection * view * vec4(FragPos, 1.0);
}
"
}

/// The GLSL source of the engine's fragment stage: one texture sampler
/// with ambient, diffuse and specular lighting.
pub fn default_fragment_source() -> &'static str {
    "#version 330 core
out vec4 FragColor;

in vec3 FragPos;
in vec3 Normal;
in vec2 TexCoords;

uniform sampler2D texture_0;
uniform vec3 viewPos;

struct Light {
    vec3 position;

    vec3 ambient;
    vec3 diffuse;
    vec3 specular;
};

struct Material {
    vec3 ambient;
    vec3 diffuse;
    vec3 specular;
    float shininess;
};

uniform Material material;
uniform Light light;

void main() {
    vec3 ambient = light.ambient * material.ambient;

    vec3 norm = normalize(Normal);
    vec3 lightDir = normalize(light.position - FragPos);
    float diff = max(dot(norm, lightDir), 0.0);
    vec3 diffuse = light.diffuse * (diff * material.diffuse);

    vec3 viewDir = normalize(viewPos - FragPos);
    vec3 reflectDir = reflect(-lightDir, norm);
    float spec = pow(max(dot(viewDir, reflectDir), 0.0), material.shininess);
    vec3 specular = light.specular * (spec * material.specular);

    vec3 result = (ambient + diffuse + specular) * texture(texture_0, TexCoords).rgb;
    FragColor = vec4(result, 1.0);
}
"
}

/// What one frame reported per screen: `None` when the screen rendered,
/// else the per-screen error that made the engine skip it.
#[derive(Debug, Clone, PartialEq, Eq)]
pub struct FrameReport {
    pub upper_error: Option<EngineError>,
    pub lower_error: Option<EngineError>,
}

/// Some scene in the registry carries the identity.
pub open spec fn some_scene_with(scenes: Seq<Scene>, id: u128) -> bool {
    exists|i: int| 0 <= i < scenes.len() && (#[trigger] scenes[i]).id == id
}

/// `i` is the first index in the registry carrying the identity.
pub open spec fn first_scene_with(scenes: Seq<Scene>, id: u128, i: int) -> bool {
    &&& 0 <= i < scenes.len()
    &&& scenes[i].id == id
    &&& forall|j: int| 0 <= j < i ==> (#[trigger] scenes[j]).id != id
}

/// What one frame appends to the renderer's command log and the
/// shader's write log: the upper screen's clear, then the upper pass's
/// submissions, then the lower pass's, in that order. A screen whose
/// camera does not resolve contributes nothing.
pub open spec fn frame_logs_t(
    scene: Scene,
    shader_id: u32,
    c0: Seq<DrawCommand>,
    c1: Seq<DrawCommand>,
    w0: Seq<UniformWrite>,
    w1: Seq<UniformWrite>,
) -> bool {
    let cb = c0.len() as int;
    let wb = w0.len() as int;
    let ur = resolves_camera(scene.upper_screen_objects@, scene.upper_screen_camera_id);
    let lr = resolves_camera(scene.lower_screen_objects@, scene.lower_screen_camera_id);
    let un = if ur { mesh_object_count(scene.upper_screen_objects@) } else { 0int };
    let ln = if lr { mesh_object_count(scene.lower_screen_objects@) } else { 0int };
    &&& c1.len() == cb + 1 + un + ln
    &&& c1.subrange(0, cb) == c0
    &&& (c1[cb] matches DrawCommand::Clear { target, color } && target == ScreenId::Upper
        && color == (crate::math::Vector4 { x: 0i64, y: 0i64, z: 0i64, w: 0i64 }))
    &&& w1.len() == wb + 11 * (un + ln)
    &&& w1.subrange(0, wb) == w0
    &&& (ur ==> forall|k: int|
        0 <= k < scene.upper_screen_objects@.len() ==> #[trigger] obj_submission_at(
            scene.upper_screen_objects@, k,
            resolved_camera(scene.upper_screen_objects@, scene.upper_screen_camera_id),
            ScreenId::Upper, shader_id, cb + 1, wb, c1, w1))
    &&& (lr ==> forall|k: int|
        0 <= k < scene.lower_screen_objects@.len() ==> #[trigger] obj_submission_at(
            scene.lower_screen_objects@, k,
            resolved_camera(scene.lower_screen_objects@, scene.lower_screen_camera_id),
            ScreenId::Lower, shader_id, cb + 1 + un, wb + 11 * un, c1, w1))
}

/// Assemble the frame-level log shape from the clear step and the two
/// passes' postconditions.
proof fn lemma_frame_logs(
    scene: Scene,
    shader_id: u32,
    c_start: Seq<DrawCommand>,
    c_clear: Seq<DrawCommand>,
    c_up: Seq<DrawCommand>,
    c_fin: Seq<DrawCommand>,
    w_start: Seq<UniformWrite>,
    w_up: Seq<UniformWrite>,
    w_fin: Seq<UniformWrite>,
)
    requires
        c_clear.len() == c_start.len() + 1,
        c_clear.subrange(0, c_start.len() as int) == c_start,
        (c_clear[c_start.len() as int] matches DrawCommand::Clear { target, color }
            && target == ScreenId::Upper
            && color == (crate::math::Vector4 { x: 0i64, y: 0i64, z: 0i64, w: 0i64 })),
        resolves_camera(scene.upper_screen_objects@, scene.upper_screen_camera_id)
            ==> {
            &&& c_up.len() == c_clear.len()
                + mesh_object_count(scene.upper_screen_objects@)
            &&& c_up.subrange(0, c_clear.len() as int) == c_clear
            &&& w_up.len() == w_start.len()
                + 11 * mesh_object_count(scene.upper_screen_objects@)
            &&& w_up.subrange(0, w_start.len() as int) == w_start
            &&& forall|k: int|
                0 <= k < scene.upper_screen_objects@.len() ==> #[trigger] obj_submission_at(
                    scene.upper_screen_objects@, k,
                    resolved_camera(scene.upper_screen_objects@,
                        scene.upper_screen_camera_id),
                    ScreenId::Upper, shader_id, c_clear.len() as int,
                    w_start.len() as int, c_up, w_up)
        },
        !resolves_camera(scene.upper_screen_objects@, scene.upper_screen_camera_id)
            ==> c_up == c_clear && w_up == w_start,
        resolves_camera(scene.lower_screen_objects@, scene.lower_screen_camera_id)
            ==> {
            &&& c_fin.len() == c_up.len()
                + mesh_object_count(scene.lower_screen_objects@)
            &&& c_fin.subrange(0, c_up.len() as int) == c_up
            &&& w_fin.len() == w_up.len()
                + 11 * mesh_object_count(scene.lower_screen_objects@)
            &&& w_fin.subrange(0, w_up.len() as int) == w_up
            &&& forall|k: int|
                0 <= k < scene.lower_screen_objects@.len() ==> #[trigger] obj_submission_at(
                    scene.lower_screen_objects@, k,
                    resolved_camera(scene.lower_screen_objects@,
                        scene.lower_screen_camera_id),
                    ScreenId::Lower, shader_id, c_up.len() as int, w_up.len() as int,
                    c_fin, w_fin)
        },
        !resolves_camera(scene.lower_screen_objects@, scene.lower_screen_camera_id)
            ==> c_fin == c_up && w_fin == w_up,
    ensures
        frame_logs_t(scene, shader_id, c_start, c_fin, w_start, w_fin),
{
    let cb = c_start.len() as int;
    let wb = w_start.len() as int;
    let uobjs = scene.upper_screen_objects@;
    let lobjs = scene.lower_screen_objects@;
    let ur = resolves_camera(uobjs, scene.upper_screen_camera_id);
    let lr = resolves_camera(lobjs, scene.lower_screen_camera_id);
    lemma_meshes_before_mono(uobjs, 0, uobjs.len() as int);
    lemma_meshes_before_mono(lobjs, 0, lobjs.len() as int);
    if !lr {
        assert(c_fin.subrange(0, c_up.len() as int) =~= c_up);
        assert(w_fin.subrange(0, w_up.len() as int) =~= w_up);
    }
    if !ur {
        assert(c_up.subrange(0, c_clear.len() as int) =~= c_clear);
        assert(w_up.subrange(0, w_start.len() as int) =~= w_start);
    }
    assert(c_fin.subrange(0, cb) =~= c_start);
    assert(w_fin.subrange(0, wb) =~= w_start);
    assert(c_fin[cb] == c_up[cb]);
    assert(c_up[cb] == c_clear[cb]);
    if ur {
        lemma_submissions_persist(uobjs,
            resolved_camera(uobjs, scene.upper_screen_camera_id), ScreenId::Upper,
            shader_id, c_clear.len() as int, w_start.len() as int, c_up, w_up, c_fin,
            w_fin, uobjs.len() as int);
    }
}

/// The engine.
#[derive(Debug)]
pub struct Engine {
    pub application_name: String,
    pub rendering_context: PrismRenderer,
    pub scenes: Vec<Scene>,
    pub main_scene_id: Option<u128>,
    pub current_scene: Option<u128>,
    pub shader: Option<Shader>,
}

impl Engine {
    /// The renderer and every registered scene are well-formed.
    pub open spec fn wf(self) -> bool {
        &&& self.rendering_context.wf()
        &&& forall|i: int|
            0 <= i < self.scenes@.len() ==> (#[trigger] self.scenes@[i]).wf()
    }

    /// Ready to run a frame: initialized, shader linked, and the current
    /// scene present in the registry.
    pub open spec fn ready(self) -> bool {
        &&& self.rendering_context.initialized
        &&& self.shader is Some
        &&& self.current_scene matches Some(cid) && some_scene_with(self.scenes@, cid)
    }

    /// Allocate a new empty scene in the registry and return its
    /// identity.
    pub fn create_scene(&mut self) -> (r: u128)
        requires
            old(self).wf(),
        ensures
            final(self).wf(),
            final(self).scenes@.len() == old(self).scenes@.len() + 1,
            final(self).scenes@.subrange(0, old(self).scenes@.len() as int)
                == old(self).scenes@,
            final(self).scenes@.last().id == r,
            final(self).scenes@.last().upper_screen_camera_id is None,
            final(self).scenes@.last().lower_screen_camera_id is None,
            final(self).scenes@.last().upper_screen_objects@.len() == 0,
            final(self).scenes@.last().lower_screen_objects@.len() == 0,
            *final(self) == (Engine { scenes: final(self).scenes, ..*old(self) }),
    {
        let scene = Scene::new();
        let id = scene.get_id();
        self.scenes.push(scene);
        proof {
            assert(self.scenes@.subrange(0, old(self).scenes@.len() as int)
                =~= old(self).scenes@);
        }
        id
    }

    /// Move a scene built outside the registry into it, returning its
    /// identity.
    pub fn add_scene(&mut self, scene: Scene) -> (r: u128)
        requires
            old(self).wf(),
            scene.wf(),
        ensures
            final(self).wf(),
            r == scene.id,
            final(self).scenes@ == old(self).scenes@.push(scene),
            *final(self) == (Engine { scenes: final(self).scenes, ..*old(self) }),
    {
        let id = scene.get_id();
        self.scenes.push(scene);
        id
    }

    /// Designate the scene the engine will run.
    pub fn set_main_scene(&mut self, scene: u128)
        ensures
            *final(self) == (Engine { main_scene_id: Some(scene), ..*old(self) }),
    {
        self.main_scene_id = Some(scene);
    }

    /// Make the main scene current and link the engine's shader program,
    /// judged by the collaborating GPU driver's verdict. Fails when no
    /// main scene was designated or the designated scene is not
    /// registered, and propagates shader-stage failures.
    pub fn begin_run(&mut self, outcome: &CompileOutcome) -> (r: Result<(), EngineError>)
        requires
            old(self).wf(),
            old(self).rendering_context.next_gpu_id + 3 < u32::MAX,
        ensures
            final(self).wf(),
            old(self).main_scene_id is None ==> (r matches Err(e) && e is Initialization
                && *final(self) == *old(self)),
            old(self).main_scene_id matches Some(mid)
                ==> (!some_scene_with(old(self).scenes@, mid) ==> (r matches Err(e)
                && e is Initialization && *final(self) == *old(self))),
            old(self).main_scene_id matches Some(mid)
                ==> (some_scene_with(old(self).scenes@, mid)
                && !old(self).rendering_context.initialized ==> r == Err::<(),
                EngineError>(EngineError::NotInitialized) && *final(self) == *old(self)),
            old(self).main_scene_id matches Some(mid)
                ==> (some_scene_with(old(self).scenes@, mid)
                && old(self).rendering_context.initialized ==> {
                &&& (outcome.vertex_error is None && outcome.fragment_error is None
                    && outcome.link_error is None ==> {
                    &&& r is Ok
                    &&& final(self).current_scene == Some(mid)
                    &&& (final(self).shader matches Some(s)
                        && s.id == old(self).rendering_context.next_gpu_id
                        && s.writes@.len() == 0)
                    &&& final(self).scenes@ == old(self).scenes@
                    &&& final(self).main_scene_id == old(self).main_scene_id
                    &&& final(self).application_name == old(self).application_name
                    &&& final(self).rendering_context == (PrismRenderer {
                        next_gpu_id: (old(self).rendering_context.next_gpu_id
                            + 1) as u32,
                        ..old(self).rendering_context
                    })
                })
                &&& (!(outcome.vertex_error is None && outcome.fragment_error is None
                    && outcome.link_error is None) ==> {
                    &&& (r matches Err(e) && (e is ShaderCompile || e is ShaderLink))
                    &&& *final(self) == *old(self)
                })
            }),
    {
        let mid = match self.main_scene_id {
            None => {
                return Err(EngineError::Initialization(
                    "no main scene was set".to_owned()));
            }
            Some(mid) => mid,
        };
        if !scene_registered(&self.scenes, mid) {
            return Err(EngineError::Initialization(
                "the main scene is not in the registry".to_owned()));
        }
        let shader = match self.rendering_context.create_shader_from_source(
            default_vertex_source(),
            default_fragment_source(),
            outcome,
        ) {
            Err(e) => {
                return Err(e);
            }
            Ok(s) => s,
        };
        self.current_scene = Some(mid);
        self.shader = Some(shader);
        Ok(())
    }

    /// Run one whole frame over the logical state: fold the polled
    /// events in, then for each screen in turn bind its context, render
    /// the current scene, and present, leaving no context bound. A
    /// screen whose camera cannot be resolved is skipped and reported;
    /// the other screen is unaffected.
    #[verifier::rlimit(100)]
    pub fn frame(
        &mut self,
        upper_events: &Vec<DisplayEvent>,
        lower_events: &Vec<DisplayEvent>,
        upper_os_close: bool,
        lower_os_close: bool,
        upper_begin_us: u64,
        upper_end_us: u64,
        lower_begin_us: u64,
        lower_end_us: u64,
    ) -> (r: Result<FrameReport, EngineError>)
        requires
            old(self).wf(),
        ensures
            final(self).wf(),
            !old(self).ready() ==> r == Err::<FrameReport, EngineError>(
                EngineError::NotInitialized) && *final(self) == *old(self),
            old(self).ready() ==> {
                &&& r matches Ok(rep)
                &&& final(self).scenes@ == old(self).scenes@
                &&& final(self).main_scene_id == old(self).main_scene_id
                &&& final(self).current_scene == old(self).current_scene
                &&& final(self).application_name == old(self).application_name
                &&& final(self).shader matches Some(s)
                    && s.id == old(self).shader->0.id
                &&& final(self).rendering_context.initialized
                &&& final(self).rendering_context.binding == ContextBinding::Unbound
                &&& final(self).rendering_context.upper_window->0.close_requested
                    == (old(self).rendering_context.upper_window->0.close_requested
                        || has_close(upper_events@) || upper_os_close)
                &&& final(self).rendering_context.lower_window->0.close_requested
                    == (old(self).rendering_context.lower_window->0.close_requested
                        || has_close(lower_events@) || lower_os_close)
                &&& final(self).rendering_context.should_close
                    == (final(self).rendering_context.upper_window->0.close_requested
                        || final(self).rendering_context.lower_window->0.close_requested)
                &&& final(self).rendering_context.delta_time
                    == delta_fx(lower_begin_us, lower_end_us)
                &&& forall|i: int|
                    first_scene_with(old(self).scenes@, old(self).current_scene->0, i)
                        ==> {
                        &&& rep.upper_error == (if resolves_camera(
                            old(self).scenes@[i].upper_screen_objects@,
                            old(self).scenes@[i].upper_screen_camera_id,
                        ) {
                            None::<EngineError>
                        } else {
                            Some(EngineError::NoActiveCamera)
                        })
                        &&& rep.lower_error == (if resolves_camera(
                            old(self).scenes@[i].lower_screen_objects@,
                            old(self).scenes@[i].lower_screen_camera_id,
                        ) {
                            None::<EngineError>
                        } else {
                            Some(EngineError::NoActiveCamera)
                        })
                        &&& frame_logs_t(old(self).scenes@[i], old(self).shader->0.id,
                            old(self).rendering_context.commands@,
                            final(self).rendering_context.commands@,
                            old(self).shader->0.writes@,
                            final(self).shader->0.writes@)
                    }
            },
    {
        if !self.rendering_context.initialized {
            return Err(EngineError::NotInitialized);
        }
        let cid = match self.current_scene {
            None => {
                return Err(EngineError::NotInitialized);
            }
            Some(cid) => cid,
        };
        let idx = match find_scene(&self.scenes, cid) {
            None => {
                return Err(EngineError::NotInitialized);
            }
            Some(idx) => idx,
        };
        let shader = match &mut self.shader {
            None => {
                return Err(EngineError::NotInitialized);
            }
            Some(s) => s,
        };
        let ctx = &mut self.rendering_context;
        let ghost c_start = ctx.commands@;
        let ghost w_start = shader.writes@;
        match ctx.handle_events(upper_events, lower_events, upper_os_close,
            lower_os_close) {
            Ok(()) => {}
            Err(e) => {
                return Err(e);
            }
        }
        match ctx.begin_upper_screen(upper_begin_us) {
            Ok(()) => {}
            Err(e) => {
                return Err(e);
            }
        }
        match ctx.clear_screen(Vector4::zero()) {
            Ok(()) => {}
            Err(e) => {
                return Err(e);
            }
        }
        let ghost c_clear = ctx.commands@;
        let delta = ctx.get_delta();
        let upper_result = self.scenes[idx].render_upper(delta, ctx, shader);
        let ghost c_up = ctx.commands@;
        let ghost w_up = shader.writes@;
        let upper_error = match upper_result {
            Ok(()) => None,
            Err(e) => Some(e),
        };
        match ctx.end_upper_screen(upper_end_us) {
            Ok(()) => {}
            Err(e) => {
                return Err(e);
            }
        }
        match ctx.begin_lower_screen(lower_begin_us) {
            Ok(()) => {}
            Err(e) => {
                return Err(e);
            }
        }
        let delta = ctx.get_delta();
        let lower_result = self.scenes[idx].render_lower(delta, ctx, shader);
        let lower_error = match lower_result {
            Ok(()) => None,
            Err(e) => Some(e),
        };
        match ctx.end_lower_screen(lower_end_us) {
            Ok(()) => {}
            Err(e) => {
                return Err(e);
            }
        }
        proof {
            lemma_frame_logs(self.scenes@[idx as int], shader.id, c_start, c_clear,
                c_up, ctx.commands@, w_start, w_up, shader.writes@);
        }
        Ok(FrameReport { upper_error, lower_error })
    }
}

/// Whether any scene in the registry carries the identity.
fn scene_registered(scenes: &Vec<Scene>, id: u128) -> (r: bool)
    ensures
        r == some_scene_with(scenes@, id),
{
    match find_scene(scenes, id) {
        Some(_) => true,
        None => false,
    }
}

/// The first registry index carrying the identity, if any.
fn find_scene(scenes: &Vec<Scene>, id: u128) -> (r: Option<usize>)
    ensures
        match r {
            Some(i) => first_scene_with(scenes@, id, i as int),
            None => !some_scene_with(scenes@, id),
        },
{
    let mut i: usize = 0;
    while i < scenes.len()
        invariant
            i <= scenes@.len(),
            forall|j: int| 0 <= j < i ==> (#[trigger] scenes@[j]).id != id,
        decreases scenes@.len() - i,
    {
        if scenes[i].get_id() == id {
            return Some(i);
        }
        i = i + 1;
    }
    None
}

/// Builds an engine: pick an application name, then bring the renderer
/// up on the platform's two windows.
#[derive(Debug)]
pub struct EngineBuilder {
    pub application_name: String,
}

impl EngineBuilder {
    /// A builder with the default application name.
    pub fn new() -> (r: EngineBuilder)
        ensures
            r.application_name@ == "Shiota Application"@,
    {
        EngineBuilder { application_name: "Shiota Application".to_owned() }
    }

    /// Replace the application name.
    pub fn application_name(self, name: &str) -> (r: EngineBuilder)
        ensures
            r.application_name@ == name@,
    {
        EngineBuilder { application_name: name.to_owned() }
    }

    /// Initialize a renderer on the platform's two windows and wrap it
    /// into an engine with an empty scene registry; on failure the error
    /// of the renderer's initialization comes back.
    pub fn build(self, windows: Option<WindowPair>) -> (r: Result<Engine, EngineError>)
        ensures
            windows is None ==> (r matches Err(e) && e is Initialization),
            windows matches Some(w)
                ==> (w.upper_native_id == w.lower_native_id
                ==> (r matches Err(e) && e is Initialization)),
            windows matches Some(w)
                ==> (w.upper_native_id != w.lower_native_id ==> {
                &&& r matches Ok(e)
                &&& e.wf()
                &&& e.application_name == self.application_name
                &&& e.rendering_context.initialized
                &&& !e.rendering_context.should_close
                &&& e.rendering_context.binding == ContextBinding::Unbound
                &&& e.rendering_context.upper_window == Some(Display {
                    name: ScreenId::Upper,
                    native_id: w.upper_native_id,
                    width: w.width,
                    height: w.height,
                    context_major: w.context_major,
                    context_minor: w.context_minor,
                    close_requested: false,
                })
                &&& e.rendering_context.lower_window == Some(Display {
                    name: ScreenId::Lower,
                    native_id: w.lower_native_id,
                    width: w.width,
                    height: w.height,
                    context_major: w.context_major,
                    context_minor: w.context_minor,
                    close_requested: false,
                })
                &&& e.rendering_context.delta_time == 0
                &&& e.rendering_context.frame_start_us == 0
                &&& e.rendering_context.next_gpu_id == 1
                &&& e.rendering_context.textures@.len() == 0
                &&& e.rendering_context.commands@.len() == 0
                &&& e.scenes@.len() == 0
                &&& e.main_scene_id is None
                &&& e.current_scene is None
                &&& e.shader is None
            }),
    {
        let mut context = PrismRenderer::new();
        match context.init(windows) {
            Ok(()) => Ok(Engine {
                application_name: self.application_name,
                rendering_context: context,
                scenes: Vec::new(),
                main_scene_id: None,
                current_scene: None,
                shader: None,
            }),
            Err(e) => Err(e),
        }
    }
}

} // verus!

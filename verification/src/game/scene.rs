//! The main scene: fixed-step input handling and per-frame drawing.
//!
//! The fixed update consumes the key table and the cursor delta and turns
//! them into camera commands; the draw pass submits the world wall and the
//! full-screen overlay. Evaluating the camera's ground direction from its
//! yaw is the embedding's trigonometry; the update takes it as a plain
//! value and is proved for every value of it.

use vstd::prelude::*;

use crate::error::RenderError;
use crate::fixed::div_trunc;
use crate::fixed::spec_div_trunc;
use crate::fixed::Vec2Fx;
use crate::fixed::Vec3Fx;
use crate::fixed::Vec4Fx;
use crate::game::camera::spec_move_cross_axis;
use crate::game::camera::spec_move_main_axis;
use crate::game::camera::spec_rotate_pitch;
use crate::game::camera::spec_rotate_yaw;
use crate::game::camera::Camera;
use crate::game::camera::GroundDir;
use crate::game::camera::SPEED_LIMIT;
use crate::game::key_listener::KeyListener;
use crate::game::mouse_listener::MouseListener;
use crate::graphics::mesh::DrawCall;
use crate::graphics::render::spec_line_uniforms;
use crate::graphics::render::spec_rect_textured_uniforms;
use crate::graphics::render::spec_registry_draw;
use crate::graphics::render::spec_registry_draw_err;
use crate::graphics::render::spec_registry_draw_ok;
use crate::graphics::render::spec_wall_uniforms;
use crate::graphics::render::Renderer;
use crate::graphics::render::COORD_LIMIT;
use crate::graphics::transform::ViewParams;
use crate::registry::mesh_registry::MeshId;
use crate::registry::mesh_registry::MeshRegistry;
use crate::registry::texture_registry::TextureRegistry;

verus! {

/// Physical key codes of the movement keys.
pub const KEY_W: usize = 87;

pub const KEY_S: usize = 83;

pub const KEY_D: usize = 68;

pub const KEY_A: usize = 65;

/// Mouse look sensitivity: 0.01 radians per pixel, which is 573
/// millidegrees per pixel to the nearest millidegree.
pub const MOUSE_SENSITIVITY: i64 = 573;

/// Bound on the cursor coordinates the fixed update accepts, in
/// fixed-point pixels; it keeps the derived rotation deltas inside `i64`.
pub const CURSOR_LIMIT: i64 = 1_000_000_000;

/// What one fixed update does: W/S walk, D/A strafe (the first pressed key
/// of each pair wins), a horizontal cursor delta turns, a vertical one
/// tilts — inverted, and both scaled by the sensitivity — and the cursor
/// delta is consumed.
pub open spec fn spec_update_fixed(
    camera: Camera,
    keys: Seq<bool>,
    mouse: MouseListener,
    dir: GroundDir,
) -> (Camera, MouseListener) {
    let c1 = if keys[KEY_W as int] {
        spec_move_main_axis(camera, true, dir)
    } else if keys[KEY_S as int] {
        spec_move_main_axis(camera, false, dir)
    } else {
        camera
    };
    let c2 = if keys[KEY_D as int] {
        spec_move_cross_axis(c1, true, dir)
    } else if keys[KEY_A as int] {
        spec_move_cross_axis(c1, false, dir)
    } else {
        c1
    };
    let dx = mouse.mouse_position.x - mouse.prev_mouse_position.x;
    let dy = mouse.mouse_position.y - mouse.prev_mouse_position.y;
    let c3 = if dx != 0 {
        spec_rotate_yaw(c2, spec_div_trunc(dx * MOUSE_SENSITIVITY, 1000))
    } else {
        c2
    };
    let c4 = if dy != 0 {
        spec_rotate_pitch(c3, spec_div_trunc(-(dy * MOUSE_SENSITIVITY), 1000))
    } else {
        c3
    };
    (
        c4,
        MouseListener {
            mouse_position: mouse.mouse_position,
            prev_mouse_position: mouse.mouse_position,
        },
    )
}

/// The scene's own state: the rotation applied to the wall.
#[derive(Clone, Copy, PartialEq, Eq, Structural, Debug)]
pub struct MainScene {
    pub rotation_millideg: i64,
}

impl MainScene {
    pub fn new() -> (r: MainScene)
        ensures
            r == (MainScene { rotation_millideg: 0i64 }),
    {
        MainScene { rotation_millideg: 0 }
    }

    /// One 60 Hz update step: apply the pressed movement keys and the
    /// cursor delta to the camera, then consume the delta.
    pub fn update_fixed(
        &mut self,
        camera: &mut Camera,
        key_listener: &KeyListener,
        mouse_listener: &mut MouseListener,
        ground_dir: GroundDir,
    )
        requires
            old(camera).wf(),
            key_listener.wf(),
            ground_dir.wf(),
            -(i64::MAX - 2 * SPEED_LIMIT) <= old(camera).position.x <= i64::MAX - 2 * SPEED_LIMIT,
            -(i64::MAX - 2 * SPEED_LIMIT) <= old(camera).position.z <= i64::MAX - 2 * SPEED_LIMIT,
            -(i64::MAX - 2_000_000_000) <= old(camera).yaw_millideg <= i64::MAX - 2_000_000_000,
            -CURSOR_LIMIT <= old(mouse_listener).mouse_position.x <= CURSOR_LIMIT,
            -CURSOR_LIMIT <= old(mouse_listener).mouse_position.y <= CURSOR_LIMIT,
            -CURSOR_LIMIT <= old(mouse_listener).prev_mouse_position.x <= CURSOR_LIMIT,
            -CURSOR_LIMIT <= old(mouse_listener).prev_mouse_position.y <= CURSOR_LIMIT,
        ensures
            *final(self) == *old(self),
            final(camera).wf(),
            ({
                let (c, m) = spec_update_fixed(
                    *old(camera),
                    key_listener@,
                    *old(mouse_listener),
                    ground_dir,
                );
                *final(camera) == c && *final(mouse_listener) == m
            }),
    {
        if key_listener.is_key_pressed(KEY_W) {
            camera.move_main_axis(true, ground_dir);
        } else if key_listener.is_key_pressed(KEY_S) {
            camera.move_main_axis(false, ground_dir);
        }

        if key_listener.is_key_pressed(KEY_D) {
            camera.move_cross_axis(true, ground_dir);
        } else if key_listener.is_key_pressed(KEY_A) {
            camera.move_cross_axis(false, ground_dir);
        }

        let mouse_delta = mouse_listener.get_mouse_delta();
        if mouse_delta.x != 0 {
            proof {
                crate::fixed::lemma_div_trunc_bound(
                    (mouse_delta.x as int) * (MOUSE_SENSITIVITY as int),
                    1000,
                    1_146_000_000,
                );
            }
            camera.rotate_yaw(div_trunc(mouse_delta.x * MOUSE_SENSITIVITY, 1000));
        }

        if mouse_delta.y != 0 {
            proof {
                crate::fixed::lemma_div_trunc_bound(
                    -((mouse_delta.y as int) * (MOUSE_SENSITIVITY as int)),
                    1000,
                    1_146_000_000,
                );
            }
            camera.rotate_pitch(div_trunc(-(mouse_delta.y * MOUSE_SENSITIVITY), 1000));
        }

        mouse_listener.end_frame();
    }

    /// Draw the scene: the textured wall in the world under the camera's
    /// view transform, then the full-screen overlay. Returns the two draw
    /// calls in submission order, or the first failure.
    pub fn draw(
        &self,
        camera: &Camera,
        renderer: &Renderer,
        meshes: &MeshRegistry,
        textures: &TextureRegistry,
    ) -> (r: Result<Vec<DrawCall>, RenderError>)
        requires
            meshes.wf(),
            textures.wf(),
            0 <= renderer.spec_window_size().x <= COORD_LIMIT,
            0 <= renderer.spec_window_size().y <= COORD_LIMIT,
        ensures
            ({
                let wall_us = spec_wall_uniforms(
                    renderer.spec_perspective(),
                    ViewParams {
                        position: camera.position,
                        yaw_millideg: camera.yaw_millideg,
                        pitch_millideg: camera.pitch_millideg,
                    },
                    Vec3Fx { x: 0, y: 0, z: (-20_000) as i64 },
                    Vec2Fx { x: 100_000, y: 10_000 },
                    self.rotation_millideg,
                );
                let ui_us = spec_rect_textured_uniforms(
                    renderer.spec_ortho(),
                    Vec2Fx { x: 0, y: 0 },
                    renderer.spec_window_size(),
                    0,
                );
                &&& (r is Ok <==> spec_registry_draw_ok(meshes@, textures@, MeshId::Wall, wall_us)
                    && spec_registry_draw_ok(meshes@, textures@, MeshId::TexturedRect, ui_us))
                &&& (r matches Ok(cs) ==> cs@.len() == 2 && spec_registry_draw(
                    meshes@,
                    textures@,
                    MeshId::Wall,
                    wall_us,
                    Ok(cs@[0]),
                ) && spec_registry_draw(meshes@, textures@, MeshId::TexturedRect, ui_us, Ok(cs@[1])))
                &&& (r matches Err(e) ==> e == if !spec_registry_draw_ok(
                    meshes@,
                    textures@,
                    MeshId::Wall,
                    wall_us,
                ) {
                    spec_registry_draw_err(meshes@, textures@, MeshId::Wall, wall_us)
                } else {
                    spec_registry_draw_err(meshes@, textures@, MeshId::TexturedRect, ui_us)
                })
            }),
    {
        let wall = match renderer.draw_wall(
            meshes,
            textures,
            camera.get_view_matrix(),
            Vec3Fx { x: 0, y: 0, z: -20_000 },
            Vec2Fx { x: 100_000, y: 10_000 },
            self.rotation_millideg,
            Vec4Fx { x: 1000, y: 1000, z: 1000, w: 1000 },
        ) {
            Ok(dc) => dc,
            Err(e) => {
                return Err(e);
            },
        };
        let ui = match self.draw_ui(renderer, meshes, textures) {
            Ok(dc) => dc,
            Err(e) => {
                return Err(e);
            },
        };
        let mut calls: Vec<DrawCall> = Vec::new();
        calls.push(wall);
        calls.push(ui);
        Ok(calls)
    }

    /// Draw the full-screen overlay: the textured rectangle stretched over
    /// the whole window.
    pub fn draw_ui(
        &self,
        renderer: &Renderer,
        meshes: &MeshRegistry,
        textures: &TextureRegistry,
    ) -> (r: Result<DrawCall, RenderError>)
        requires
            meshes.wf(),
            textures.wf(),
            0 <= renderer.spec_window_size().x <= COORD_LIMIT,
            0 <= renderer.spec_window_size().y <= COORD_LIMIT,
        ensures
            spec_registry_draw(
                meshes@,
                textures@,
                MeshId::TexturedRect,
                spec_rect_textured_uniforms(
                    renderer.spec_ortho(),
                    Vec2Fx { x: 0, y: 0 },
                    renderer.spec_window_size(),
                    0,
                ),
                r,
            ),
    {
        renderer.draw_rect_textured(
            meshes,
            textures,
            Vec2Fx { x: 0, y: 0 },
            renderer.window_size(),
            0,
        )
    }

    /// Draw the crosshair: a vertical and a horizontal red line, each 20
    /// pixels long and 2 thick, crossing at the window center. Returns the
    /// two draw calls in submission order, or the first failure.
    pub fn draw_crosshair(
        &self,
        renderer: &Renderer,
        meshes: &MeshRegistry,
        textures: &TextureRegistry,
    ) -> (r: Result<Vec<DrawCall>, RenderError>)
        requires
            meshes.wf(),
            textures.wf(),
            0 <= renderer.spec_window_size().x <= COORD_LIMIT,
            0 <= renderer.spec_window_size().y <= COORD_LIMIT,
        ensures
            ({
                let cx = spec_div_trunc(renderer.spec_window_size().x as int, 2) as i64;
                let cy = spec_div_trunc(renderer.spec_window_size().y as int, 2) as i64;
                let red = Vec4Fx { x: 1000, y: 0, z: 0, w: 1000 };
                let vertical_us = spec_line_uniforms(
                    renderer.spec_ortho(),
                    Vec2Fx { x: cx, y: (cy - 10_000) as i64 },
                    Vec2Fx { x: cx, y: (cy + 10_000) as i64 },
                    2000,
                    red,
                );
                let horizontal_us = spec_line_uniforms(
                    renderer.spec_ortho(),
                    Vec2Fx { x: (cx - 10_000) as i64, y: cy },
                    Vec2Fx { x: (cx + 10_000) as i64, y: cy },
                    2000,
                    red,
                );
                &&& (r is Ok <==> spec_registry_draw_ok(
                    meshes@,
                    textures@,
                    MeshId::Rect,
                    vertical_us,
                ) && spec_registry_draw_ok(meshes@, textures@, MeshId::Rect, horizontal_us))
                &&& (r matches Ok(cs) ==> cs@.len() == 2 && spec_registry_draw(
                    meshes@,
                    textures@,
                    MeshId::Rect,
                    vertical_us,
                    Ok(cs@[0]),
                ) && spec_registry_draw(meshes@, textures@, MeshId::Rect, horizontal_us, Ok(cs@[1])))
                &&& (r matches Err(e) ==> e == if !spec_registry_draw_ok(
                    meshes@,
                    textures@,
                    MeshId::Rect,
                    vertical_us,
                ) {
                    spec_registry_draw_err(meshes@, textures@, MeshId::Rect, vertical_us)
                } else {
                    spec_registry_draw_err(meshes@, textures@, MeshId::Rect, horizontal_us)
                })
            }),
    {
        let size = renderer.window_size();
        let cx = div_trunc(size.x, 2);
        let cy = div_trunc(size.y, 2);
        let red = Vec4Fx { x: 1000, y: 0, z: 0, w: 1000 };
        let vertical = match renderer.draw_line(
            meshes,
            textures,
            Vec2Fx { x: cx, y: cy - 10_000 },
            Vec2Fx { x: cx, y: cy + 10_000 },
            2000,
            red,
        ) {
            Ok(dc) => dc,
            Err(e) => {
                return Err(e);
            },
        };
        let horizontal = match renderer.draw_line(
            meshes,
            textures,
            Vec2Fx { x: cx - 10_000, y: cy },
            Vec2Fx { x: cx + 10_000, y: cy },
            2000,
            red,
        ) {
            Ok(dc) => dc,
            Err(e) => {
                return Err(e);
            },
        };
        let mut calls: Vec<DrawCall> = Vec::new();
        calls.push(vertical);
        calls.push(horizontal);
        Ok(calls)
    }
}

} // verus!

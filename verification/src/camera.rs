//! Page-scrolling camera that follows the player.
use vstd::prelude::*;
use crate::geometry::{is_coord, Geometry, Point, CAMERA_Z_VALUE};
use crate::world::{Camera, World, WorldView};

verus! {

/// New camera coordinate on one axis. The camera snaps to zero while the
/// player is on the negative side; otherwise it keeps its place until the
/// player is further than `extent / 2 + margin` away, and then moves by
/// `extent + margin` towards the player.
pub open spec fn follow_axis_of(player: int, camera: int, extent: int, margin: int) -> int {
    if player < 0 {
        0
    } else if 2 * (player - camera) > extent + 2 * margin {
        camera + extent + margin
    } else if 2 * (player - camera) < -(extent + 2 * margin) {
        camera - extent - margin
    } else {
        camera
    }
}

impl Geometry {
    /// New horizontal camera coordinate: no margin, one screen width a step.
    pub open spec fn follow_x(self, player: Point, camera: Point) -> int {
        follow_axis_of(player.x as int, camera.x as int, self.screen_width as int, 0)
    }

    /// New vertical camera coordinate: a margin of one tile, and a step of
    /// one screen height plus one tile.
    pub open spec fn follow_y(self, player: Point, camera: Point) -> int {
        follow_axis_of(
            player.y as int,
            camera.y as int,
            self.screen_height as int,
            self.tile_size as int,
        )
    }

    /// The camera's next position is representable.
    pub open spec fn can_follow(self, player: Point, camera: Point) -> bool {
        is_coord(self.follow_x(player, camera)) && is_coord(self.follow_y(player, camera))
    }

    /// Exec form of [`Geometry::can_follow`].
    pub fn check_follow(&self, player: Point, camera: Point) -> (ok: bool)
        ensures
            ok == self.can_follow(player, camera),
    {
        axis_fits(player.x, camera.x, self.screen_width, 0) && axis_fits(
            player.y,
            camera.y,
            self.screen_height,
            self.tile_size,
        )
    }

    /// Position of the camera after it has followed the player for one tick.
    pub fn follow(&self, player: Point, camera: Point) -> (next: Point)
        requires
            self.can_follow(player, camera),
        ensures
            next.x == self.follow_x(player, camera),
            next.y == self.follow_y(player, camera),
    {
        Point {
            x: follow_axis(player.x, camera.x, self.screen_width, 0),
            y: follow_axis(player.y, camera.y, self.screen_height, self.tile_size),
        }
    }
}

fn axis_target(player: i64, camera: i64, extent: u32, margin: u32) -> (t: i128)
    ensures
        t == follow_axis_of(player as int, camera as int, extent as int, margin as int),
{
    let gap: i128 = 2 * (player as i128 - camera as i128);
    let band: i128 = extent as i128 + 2 * (margin as i128);
    let step: i128 = extent as i128 + margin as i128;
    if player < 0 {
        0
    } else if gap > band {
        camera as i128 + step
    } else if gap < -band {
        camera as i128 - step
    } else {
        camera as i128
    }
}

fn axis_fits(player: i64, camera: i64, extent: u32, margin: u32) -> (ok: bool)
    ensures
        ok == is_coord(follow_axis_of(player as int, camera as int, extent as int, margin as int)),
{
    let t: i128 = axis_target(player, camera, extent, margin);
    i64::MIN as i128 <= t && t <= i64::MAX as i128
}

/// New camera coordinate on one axis.
pub fn follow_axis(player: i64, camera: i64, extent: u32, margin: u32) -> (next: i64)
    requires
        is_coord(follow_axis_of(player as int, camera as int, extent as int, margin as int)),
    ensures
        next == follow_axis_of(player as int, camera as int, extent as int, margin as int),
{
    let t: i128 = axis_target(player, camera, extent, margin);
    t as i64
}

impl WorldView {
    /// The camera's next position is representable, or the camera or the
    /// player is missing.
    pub open spec fn can_track(self, geometry: Geometry) -> bool {
        match (self.camera, self.player) {
            (Some(c), Some(p)) => geometry.can_follow(p.position, c.position),
            _ => true,
        }
    }

    /// The world after one tick of the camera tracker: the camera has
    /// followed the player and sits at the fixed depth. Without a camera or
    /// without a player the tick changes nothing.
    pub open spec fn after_camera(self, geometry: Geometry) -> WorldView {
        match (self.camera, self.player) {
            (Some(c), Some(p)) => WorldView {
                camera: Some(
                    Camera {
                        position: Point {
                            x: geometry.follow_x(p.position, c.position) as i64,
                            y: geometry.follow_y(p.position, c.position) as i64,
                        },
                        depth: CAMERA_Z_VALUE,
                    },
                ),
                ..self
            },
            _ => self,
        }
    }
}

impl World {
    /// Exec form of [`WorldView::can_track`].
    pub fn check_track(&self, geometry: &Geometry) -> (ok: bool)
        ensures
            ok == self@.can_track(*geometry),
    {
        match (self.camera, self.player) {
            (Some(c), Some(p)) => geometry.check_follow(p.position, c.position),
            _ => true,
        }
    }

    /// One tick of the camera tracker.
    pub fn move_camera(&mut self, geometry: &Geometry)
        requires
            old(self)@.can_track(*geometry),
        ensures
            final(self)@ == old(self)@.after_camera(*geometry),
    {
        match (self.camera, self.player) {
            (Some(c), Some(p)) => {
                let position = geometry.follow(p.position, c.position);
                self.camera = Some(Camera { position, depth: CAMERA_Z_VALUE });
            },
            _ => {},
        }
    }

    /// Runs the camera tracker if the camera's next position is
    /// representable. Returns whether it ran; if not, the world is unchanged.
    pub fn try_move_camera(&mut self, geometry: &Geometry) -> (ran: bool)
        ensures
            ran == old(self)@.can_track(*geometry),
            ran ==> final(self)@ == old(self)@.after_camera(*geometry),
            !ran ==> final(self)@ == old(self)@,
    {
        if self.check_track(geometry) {
            self.move_camera(geometry);
            true
        } else {
            false
        }
    }
}

/// While the player is left of the origin the camera sits at zero, wherever
/// it was before.
pub proof fn lemma_clamp_left(geometry: Geometry, player: Point, camera: Point)
    requires
        player.x < 0,
    ensures
        geometry.follow_x(player, camera) == 0,
{
}

/// Once the player is more than half a screen right of the camera, the camera
/// moves right by exactly one screen width.
pub proof fn lemma_scroll_step(geometry: Geometry, player: Point, camera: Point)
    requires
        player.x >= 0,
        2 * player.x > 2 * camera.x + geometry.screen_width,
    ensures
        geometry.follow_x(player, camera) == camera.x + geometry.screen_width,
{
}

/// Vertically the camera holds still up to half a screen plus one tile from
/// the player, and pages by one screen height plus one tile beyond that.
pub proof fn lemma_vertical_margin(geometry: Geometry, player: Point, camera: Point)
    requires
        player.y >= 0,
    ensures
        2 * (player.y - camera.y) <= geometry.screen_height + 2 * geometry.tile_size && 2 * (
        camera.y - player.y) <= geometry.screen_height + 2 * geometry.tile_size
            ==> geometry.follow_y(player, camera) == camera.y,
        2 * (player.y - camera.y) > geometry.screen_height + 2 * geometry.tile_size
            ==> geometry.follow_y(player, camera) == camera.y + geometry.screen_height
            + geometry.tile_size,
        2 * (camera.y - player.y) > geometry.screen_height + 2 * geometry.tile_size
            ==> geometry.follow_y(player, camera) == camera.y - geometry.screen_height
            - geometry.tile_size,
{
}

} // verus!

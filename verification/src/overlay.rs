use vstd::prelude::*;
use crate::colors::Rgba;
use crate::geom::Vec2;
use crate::particles::{Particle, Shape};

verus! {

/// What an overlay announces; the outside text layer renders the words.
#[derive(Clone, Copy, Debug, PartialEq, Eq, Structural)]
pub enum OverlayMsg {
    GameOver,
    Paused,
    PickTwo,
    Wave(u64),
}

/// A banner across the middle of the screen, with a message, a color,
/// and a spark effect while visible.
#[derive(Clone, Copy, Debug, PartialEq, Eq, Structural)]
pub struct Overlay {
    pub msg: OverlayMsg,
    pub color: Rgba,
    pub visible: bool,
    pub height: i64,
    pub frame: i64,
}

/// The band and text a visible overlay asks the outside layer to draw.
#[derive(Clone, Copy, Debug, PartialEq, Eq, Structural)]
pub struct OverlayDraw {
    pub band_pos: Vec2,
    pub band_size: Vec2,
    pub band_color: Rgba,
    pub msg: OverlayMsg,
    pub text_color: Rgba,
}

impl Overlay {
    pub open spec fn wf(self) -> bool {
        self.height == 120_000 && 0 <= self.frame <= 1_000_000_000_000_000
    }

    pub fn game_over() -> (o: Overlay)
        ensures
            o == (Overlay {
                msg: OverlayMsg::GameOver,
                color: Rgba { r: 1000, g: 0, b: 0, a: 1000 },
                visible: true,
                height: 120_000,
                frame: 0,
            }),
            o.wf(),
    {
        Overlay {
            msg: OverlayMsg::GameOver,
            color: Rgba { r: 1000, g: 0, b: 0, a: 1000 },
            visible: true,
            height: 120_000,
            frame: 0,
        }
    }

    pub fn pause() -> (o: Overlay)
        ensures
            o == (Overlay {
                msg: OverlayMsg::Paused,
                color: Rgba { r: 1000, g: 1000, b: 0, a: 1000 },
                visible: true,
                height: 120_000,
                frame: 0,
            }),
            o.wf(),
    {
        Overlay {
            msg: OverlayMsg::Paused,
            color: Rgba { r: 1000, g: 1000, b: 0, a: 1000 },
            visible: true,
            height: 120_000,
            frame: 0,
        }
    }

    pub fn powerup() -> (o: Overlay)
        ensures
            o == (Overlay {
                msg: OverlayMsg::PickTwo,
                color: Rgba { r: 0, g: 1000, b: 0, a: 1000 },
                visible: true,
                height: 120_000,
                frame: 0,
            }),
            o.wf(),
    {
        Overlay {
            msg: OverlayMsg::PickTwo,
            color: Rgba { r: 0, g: 1000, b: 0, a: 1000 },
            visible: true,
            height: 120_000,
            frame: 0,
        }
    }

    pub fn wave(nb: u64) -> (o: Overlay)
        ensures
            o == (Overlay {
                msg: OverlayMsg::Wave(nb),
                color: Rgba { r: 1000, g: 500, b: 0, a: 1000 },
                visible: true,
                height: 120_000,
                frame: 0,
            }),
            o.wf(),
    {
        Overlay {
            msg: OverlayMsg::Wave(nb),
            color: Rgba { r: 1000, g: 500, b: 0, a: 1000 },
            visible: true,
            height: 120_000,
            frame: 0,
        }
    }

    /// The two shards an overlay throws from the screen's sides once
    /// every six frames while visible.
    pub open spec fn spec_edge_particle(self, from_left: bool) -> Particle {
        Particle {
            pos: if from_left {
                Vec2 { x: 0, y: ((crate::FIELD_H + self.height) / 2) as i64 }
            } else {
                Vec2 { x: crate::FIELD_W, y: ((crate::FIELD_H - self.height) / 2) as i64 }
            },
            speed: 50_000,
            angle: if from_left {
                0
            } else {
                180_000
            },
            damp: 1000,
            accel: 0,
            angular_vel: 0,
            bias: Vec2 { x: 0, y: 0 },
            shape: Shape::Shard(240, 2500, true),
            color: self.color,
            alpha_scale: 10_000,
        }
    }

    /// The overlay after one particle pass: the frame count advances
    /// while the overlay is visible, and nothing else moves.
    pub open spec fn spec_tick(self) -> Overlay {
        if self.visible {
            Overlay {
                frame: (if self.frame < 1_000_000_000_000_000 {
                    self.frame + 1
                } else {
                    self.frame as int
                }) as i64,
                ..self
            }
        } else {
            self
        }
    }

    /// While visible, advance the overlay's own frame count and throw the
    /// two edge shards on every sixth frame.
    pub fn particles(&mut self) -> (r: Vec<Particle>)
        requires
            old(self).wf(),
        ensures
            final(self).wf(),
            *final(self) == old(self).spec_tick(),
            !old(self).visible ==> r@.len() == 0,
            old(self).visible && final(self).frame % 6 < 1 ==> r@.len() == 2 && r@[0] == old(
                self,
            ).spec_edge_particle(true) && r@[1] == old(self).spec_edge_particle(false),
            old(self).visible && final(self).frame % 6 >= 1 ==> r@.len() == 0,
    {
        if !self.visible {
            return Vec::new();
        }
        if self.frame < 1_000_000_000_000_000 {
            self.frame = self.frame + 1;
        }
        if ((self.frame as u64) % 6) < 1 {
            let color = self.color;
            let p1 = Particle {
                pos: Vec2 { x: 0, y: ((crate::FIELD_H + self.height) as u64 / 2) as i64 },
                speed: 50_000,
                angle: 0,
                damp: 1000,
                accel: 0,
                angular_vel: 0,
                bias: Vec2 { x: 0, y: 0 },
                shape: Shape::Shard(240, 2500, true),
                color,
                alpha_scale: 10_000,
            };
            let p2 = Particle {
                pos: Vec2 {
                    x: crate::FIELD_W,
                    y: ((crate::FIELD_H - self.height) as u64 / 2) as i64,
                },
                speed: 50_000,
                angle: 180_000,
                damp: 1000,
                accel: 0,
                angular_vel: 0,
                bias: Vec2 { x: 0, y: 0 },
                shape: Shape::Shard(240, 2500, true),
                color,
                alpha_scale: 10_000,
            };
            let mut v: Vec<Particle> = Vec::new();
            v.push(p1);
            v.push(p2);
            v
        } else {
            Vec::new()
        }
    }

    /// The draw order of a visible overlay: a translucent band across the
    /// middle, and the message in the overlay's color.
    pub fn draw(&self) -> (r: Option<OverlayDraw>)
        requires
            self.wf(),
        ensures
            !self.visible ==> r is None,
            self.visible ==> r == Some(
                OverlayDraw {
                    band_pos: Vec2 { x: 0, y: ((crate::FIELD_H - self.height) / 2) as i64 },
                    band_size: Vec2 { x: crate::FIELD_W, y: self.height },
                    band_color: Rgba { r: 1000, g: 1000, b: 1000, a: 200 },
                    msg: self.msg,
                    text_color: self.color,
                },
            ),
    {
        if !self.visible {
            return None;
        }
        proof {
            assert((crate::FIELD_H - self.height) / 2 == (crate::FIELD_H as int - self.height as int)
                / 2);
        }
        Some(
            OverlayDraw {
                band_pos: Vec2 {
                    x: 0,
                    y: (((crate::FIELD_H - self.height) as u64) / 2) as i64,
                },
                band_size: Vec2 { x: crate::FIELD_W, y: self.height },
                band_color: Rgba { r: 1000, g: 1000, b: 1000, a: 200 },
                msg: self.msg,
                text_color: self.color,
            },
        )
    }
}

} // verus!

use vstd::prelude::*;

use crate::draw::DrawCmd;
use crate::sprite::{stepped, CanvasDimension, Sprite, SpriteData};

verus! {

/// Frames a fresh explosion takes to fade out.
pub const EXPLOSION_FADE_FRAMES: u32 = 30;

/// The flash that a destroyed entity leaves behind, fresh at its position.
pub open spec fn flash_of(data: SpriteData, canvas: CanvasDimension) -> Explosion {
    Explosion { sprite: Sprite { data, canvas }, fade_timer: 30, is_faded: false }
}

/// The relation between an explosion before and after one frame: the sprite
/// integrates, one frame of fade burns off, and the flash marks itself faded
/// the moment the timer reaches zero.
pub open spec fn explosion_frame(pre: Explosion, post: Explosion) -> bool {
    stepped(pre.sprite, post.sprite) && post.fade_timer == (if pre.fade_timer > 0 {
        pre.fade_timer - 1
    } else {
        0
    }) && (post.is_faded <==> pre.fade_timer <= 1)
}

/// A time-limited decorative flash that fades and then retires itself.
#[derive(Clone, Copy, PartialEq, Eq, Structural, Debug)]
pub struct Explosion {
    pub sprite: Sprite,
    pub fade_timer: u32,
    pub is_faded: bool,
}

impl Explosion {
    /// The terminal flag holds exactly when the fade timer has run out.
    pub open spec fn wf(self) -> bool {
        self.sprite.wf() && self.fade_timer <= 30 && (self.is_faded <==> self.fade_timer == 0)
    }

    pub fn new(data: SpriteData, canvas: CanvasDimension) -> (r: Explosion)
        requires
            data.wf(),
            canvas.wf(),
        ensures
            r == flash_of(data, canvas),
            r.wf(),
    {
        Explosion { sprite: Sprite::new(data, canvas), fade_timer: EXPLOSION_FADE_FRAMES, is_faded: false }
    }

    /// One frame: the sprite integrates, one frame of fade burns off, and the
    /// flash marks itself faded the moment the timer reaches zero.
    pub fn update(&mut self)
        requires
            old(self).wf(),
        ensures
            final(self).wf(),
            explosion_frame(*old(self), *final(self)),
    {
        self.sprite.update();
        if self.fade_timer > 0 {
            self.fade_timer = self.fade_timer - 1;
        }
        if self.fade_timer == 0 {
            self.is_faded = true;
        }
    }

    /// The single command that paints this flash.
    pub open spec fn render(self) -> DrawCmd {
        DrawCmd::Flash {
            x: self.sprite.data.position.x,
            y: self.sprite.data.position.y,
            diameter: self.sprite.data.diameter,
            fade: self.fade_timer,
        }
    }

    /// Append this flash's drawing command; reading an explosion changes
    /// nothing, so drawing is repeatable.
    pub fn draw(&self, out: &mut Vec<DrawCmd>)
        ensures
            final(out)@ == old(out)@.push(self.render()),
    {
        out.push(
            DrawCmd::Flash {
                x: self.sprite.data.position.x,
                y: self.sprite.data.position.y,
                diameter: self.sprite.data.diameter,
                fade: self.fade_timer,
            },
        );
    }
}

} // verus!

//! What the player's controls ask of the player's character.

use vstd::prelude::*;

verus! {

/// Actions a control button can be bound to.
#[derive(Copy, Clone, PartialEq, Eq, Debug, Structural)]
pub enum ControlAction {
    Shoot,
    MoveForward,
    MoveBackward,
    MoveLeft,
    MoveRight,
    Crouch,
    Ads,
    Run,
    Jump,
}

/// State of the player's controls.
#[derive(Copy, Clone, PartialEq, Eq, Debug, Structural)]
pub struct Controller {
    pub move_forward: bool,
    pub move_backward: bool,
    pub move_left: bool,
    pub move_right: bool,
    pub crouch: bool,
    pub ads: bool,
    pub jump: bool,
    pub run: bool,
    pub shoot: bool,
}

impl Default for Controller {
    fn default() -> (c: Controller)
        ensures
            c == (Controller {
                move_forward: false,
                move_backward: false,
                move_left: false,
                move_right: false,
                crouch: false,
                ads: false,
                jump: false,
                run: false,
                shoot: false,
            }),
    {
        Controller {
            move_forward: false,
            move_backward: false,
            move_left: false,
            move_right: false,
            crouch: false,
            ads: false,
            jump: false,
            run: false,
            shoot: false,
        }
    }
}

/// Controls after the button bound to `action` is pressed: crouch and
/// aim-down-sights toggle, the others switch on.
pub open spec fn pressed(c: Controller, action: ControlAction) -> Controller {
    match action {
        ControlAction::Shoot => Controller { shoot: true, ..c },
        ControlAction::MoveForward => Controller { move_forward: true, ..c },
        ControlAction::MoveBackward => Controller { move_backward: true, ..c },
        ControlAction::MoveLeft => Controller { move_left: true, ..c },
        ControlAction::MoveRight => Controller { move_right: true, ..c },
        ControlAction::Crouch => Controller { crouch: !c.crouch, ..c },
        ControlAction::Ads => Controller { ads: !c.ads, ..c },
        ControlAction::Run => Controller { run: true, ..c },
        ControlAction::Jump => Controller { jump: true, ..c },
    }
}

/// Controls after the button bound to `action` is released: held actions
/// switch off; toggles and jump are left as they are.
pub open spec fn released(c: Controller, action: ControlAction) -> Controller {
    match action {
        ControlAction::Shoot => Controller { shoot: false, ..c },
        ControlAction::MoveForward => Controller { move_forward: false, ..c },
        ControlAction::MoveBackward => Controller { move_backward: false, ..c },
        ControlAction::MoveLeft => Controller { move_left: false, ..c },
        ControlAction::MoveRight => Controller { move_right: false, ..c },
        ControlAction::Run => Controller { run: false, ..c },
        _ => c,
    }
}

impl Controller {
    pub fn press(&mut self, action: ControlAction)
        ensures
            *final(self) == pressed(*old(self), action),
    {
        match action {
            ControlAction::Shoot => self.shoot = true,
            ControlAction::MoveForward => self.move_forward = true,
            ControlAction::MoveBackward => self.move_backward = true,
            ControlAction::MoveLeft => self.move_left = true,
            ControlAction::MoveRight => self.move_right = true,
            ControlAction::Crouch => self.crouch = !self.crouch,
            ControlAction::Ads => self.ads = !self.ads,
            ControlAction::Run => self.run = true,
            ControlAction::Jump => self.jump = true,
        }
    }

    pub fn release(&mut self, action: ControlAction)
        ensures
            *final(self) == released(*old(self), action),
    {
        match action {
            ControlAction::Shoot => self.shoot = false,
            ControlAction::MoveForward => self.move_forward = false,
            ControlAction::MoveBackward => self.move_backward = false,
            ControlAction::MoveLeft => self.move_left = false,
            ControlAction::MoveRight => self.move_right = false,
            ControlAction::Run => self.run = false,
            _ => {},
        }
    }

    /// Consumes a jump request: the character jumps only when on the
    /// ground, and the request is dropped either way. Returns whether to
    /// jump.
    pub fn take_jump(&mut self, grounded: bool) -> (jump: bool)
        ensures
            jump == (old(self).jump && grounded),
            *final(self) == (Controller { jump: false, ..*old(self) }),
    {
        let jump = self.jump && grounded;
        self.jump = false;
        jump
    }
}

} // verus!

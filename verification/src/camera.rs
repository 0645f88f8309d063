//! The camera's projection mode, and how held keys and the pointer move the
//! camera.

use crate::event_manager::{EventManager, InputState};
use vstd::prelude::*;

verus! {

/// How the camera projects the scene.
#[derive(Clone, Copy, Debug, PartialEq, Eq, Structural)]
pub enum CameraType {
    /// Parallel rays from a rectangle of the camera's height.
    Orthographic,
    /// Rays from one point, spread by the field of view.
    Perspective,
}

impl CameraType {
    /// The name under which the mode is offered for selection.
    pub open spec fn label(self) -> Seq<char> {
        match self {
            CameraType::Orthographic => "Orthergraphic"@,
            CameraType::Perspective => "Perspective"@,
        }
    }

    /// The mode's name as an owned string.
    pub fn to_string(&self) -> (name: String)
        ensures
            name@ == self.label(),
    {
        match self {
            CameraType::Orthographic => "Orthergraphic".to_owned(),
            CameraType::Perspective => "Perspective".to_owned(),
        }
    }
}

/// A step along one axis of the camera's frame.
#[derive(Clone, Copy, Debug, PartialEq, Eq, Structural)]
pub enum Step {
    /// No step.
    Stay,
    /// One step of the camera's speed along the axis.
    Plus,
    /// One step of the camera's speed against the axis.
    Minus,
}

/// The key codes that steer the camera.
#[derive(Clone, Copy, Debug, PartialEq, Eq, Structural)]
pub struct KeyBindings {
    /// Along the viewing direction.
    pub forward: u32,
    /// Against the viewing direction.
    pub back: u32,
    /// Along the camera's right.
    pub right: u32,
    /// Against the camera's right.
    pub left: u32,
    /// Along the camera's up.
    pub up: u32,
    /// Against the camera's up.
    pub down: u32,
}

/// What one sample of the input does to the camera. The parts are applied in
/// the order of the fields, each on the camera as the parts before left it.
#[derive(Clone, Copy, Debug, PartialEq, Eq, Structural)]
pub struct CameraMotion {
    /// The viewing direction turns by the pointer's movement.
    pub look: bool,
    /// The step along the viewing direction.
    pub advance: Step,
    /// The step along the camera's right.
    pub strafe: Step,
    /// The step along the camera's up.
    pub climb: Step,
    /// The camera differs from the one that the cached rays were made
    /// for: the rays are to be made anew before they are used again.
    pub moved: bool,
}

/// The step that two opposed keys ask for. The key of the positive direction
/// wins where both are held.
pub open spec fn step_of(plus: bool, minus: bool) -> Step {
    if plus {
        Step::Plus
    } else if minus {
        Step::Minus
    } else {
        Step::Stay
    }
}

/// The motion that the input state `input` asks for. `changed` says that the
/// camera's settings differ from those of the sample before; `pointer_moved`
/// that the pointer has moved since then.
pub open spec fn motion_of(
    input: InputState,
    keys: KeyBindings,
    changed: bool,
    pointer_moved: bool,
) -> CameraMotion {
    let look = input.left_mouse_down && pointer_moved;
    let advance = step_of(input.keys.contains(keys.forward), input.keys.contains(keys.back));
    let strafe = step_of(input.keys.contains(keys.right), input.keys.contains(keys.left));
    let climb = step_of(input.keys.contains(keys.up), input.keys.contains(keys.down));
    CameraMotion {
        look,
        advance,
        strafe,
        climb,
        moved: changed || look || advance != Step::Stay || strafe != Step::Stay || climb
            != Step::Stay,
    }
}

/// Reads the two keys of one axis.
fn read_step(events: &EventManager, plus: u32, minus: u32) -> (step: Step)
    ensures
        step == step_of(events@.keys.contains(plus), events@.keys.contains(minus)),
{
    if events.is_key_down(plus) {
        Step::Plus
    } else if events.is_key_down(minus) {
        Step::Minus
    } else {
        Step::Stay
    }
}

/// Decides how the camera moves for one sample of the input.
pub fn plan_motion(
    events: &EventManager,
    keys: &KeyBindings,
    changed: bool,
    pointer_moved: bool,
) -> (motion: CameraMotion)
    ensures
        motion == motion_of(events@, *keys, changed, pointer_moved),
{
    let look = events.is_left_mouse_down() && pointer_moved;
    let advance = read_step(events, keys.forward, keys.back);
    let strafe = read_step(events, keys.right, keys.left);
    let climb = read_step(events, keys.up, keys.down);
    let stepped = match (advance, strafe, climb) {
        (Step::Stay, Step::Stay, Step::Stay) => false,
        _ => true,
    };
    CameraMotion { look, advance, strafe, climb, moved: changed || look || stepped }
}

/// The cached rays stay exactly where nothing asks for new ones: the
/// settings are unchanged, the view does not turn and no steering key is held.
pub proof fn lemma_rays_kept_iff_camera_rests(
    input: InputState,
    keys: KeyBindings,
    changed: bool,
    pointer_moved: bool,
)
    ensures
        !motion_of(input, keys, changed, pointer_moved).moved <==> {
            &&& !changed
            &&& !(input.left_mouse_down && pointer_moved)
            &&& !input.keys.contains(keys.forward)
            &&& !input.keys.contains(keys.back)
            &&& !input.keys.contains(keys.right)
            &&& !input.keys.contains(keys.left)
            &&& !input.keys.contains(keys.up)
            &&& !input.keys.contains(keys.down)
        },
{
}

} // verus!

//! The decisions of the rover's control loop, apart from the velocities
//! (floating point) that they carry.
use vstd::prelude::*;

verus! {

/// One thing the rover asks of its drive train.
pub enum DriveAction {
    /// Switch the wheels' torque on or off.
    SetPowered(bool),
    /// Drive at the commanded linear and turning speeds.
    SetSpeed,
}

/// What the rover asks of its drive train on one tick of its control loop:
/// when disabled, the wheels are switched off; under teleoperation, they
/// are switched on and then driven at the commanded speeds.
pub fn rover_step(teleop: bool) -> (actions: Vec<DriveAction>)
    ensures
        !teleop ==> actions@ == seq![DriveAction::SetPowered(false)],
        teleop ==> actions@ == seq![DriveAction::SetPowered(true), DriveAction::SetSpeed],
{
    let mut actions: Vec<DriveAction> = Vec::new();
    if teleop {
        actions.push(DriveAction::SetPowered(true));
        actions.push(DriveAction::SetSpeed);
        assert(actions@ =~= seq![DriveAction::SetPowered(true), DriveAction::SetSpeed]);
    } else {
        actions.push(DriveAction::SetPowered(false));
        assert(actions@ =~= seq![DriveAction::SetPowered(false)]);
    }
    actions
}

} // verus!

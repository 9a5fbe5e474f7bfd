use vstd::prelude::*;

verus! {

/// What the robot runtime is doing with the legs.
#[derive(Clone, Copy, Debug, PartialEq, Eq, Structural)]
pub enum BrainMode {
    Telemetry,
    Manual,
    TiltedStand,
    LayDown,
    SitDown,
    StandUp,
    StandUpHigh,
    Stand,
    StandHigh,
    SlowWalk,
    SlowWalkHigh,
    BackwardWalk,
    BackwardWalkHigh,
    RotateLeft,
    RotateRight,
    SidewalkLeft,
    SidewalkLeftHigh,
    SidewalkRight,
    SidewalkRightHigh,
}

/// How high a tripod gait lifts its swing legs.
#[derive(Clone, Copy, Debug, PartialEq, Eq, Structural)]
pub enum TripodLiftMode {
    Standard,
    HighStep,
}

/// The direction a tripod gait moves the body.
#[derive(Clone, Copy, Debug, PartialEq, Eq, Structural)]
pub enum TripodMotionKind {
    Forward,
    Backward,
    RotateLeft,
    RotateRight,
    SidewalkLeft,
    SidewalkRight,
}

/// A named semantic pose of the legs.
#[derive(Clone, Copy, Debug, PartialEq, Eq, Structural)]
pub enum SemanticPoseKind {
    LayDown,
    SitDown,
    StandReference,
    StandHigh,
    ZeroPose,
}

/// Where a leg's coxa points when its joint is at zero, as seen by the
/// sideward gaits: about straight out (within one degree of zero), angled
/// toward the front (positive heading) or toward the rear (negative heading).
#[derive(Clone, Copy, Debug, PartialEq, Eq, Structural)]
pub enum CoxaHeading {
    Middle,
    Forward,
    Rearward,
}

/// A motion request sent from the dashboard.
#[derive(Clone, Copy, Debug, PartialEq, Eq, Structural)]
pub enum MotionCommand {
    Manual,
    TiltedStand,
    StandUp,
    StandUpHigh,
    LayDown,
    SitDown,
    Stand,
    StandHigh,
    WalkForward,
    WalkForwardHigh,
    WalkBackward,
    WalkBackwardHigh,
    RotateLeft,
    RotateRight,
    SidewalkLeft,
    SidewalkLeftHigh,
    SidewalkRight,
    SidewalkRightHigh,
    Stop,
    Telemetry,
}

/// Which joints of a manual group a torque-limit change applies to.
#[derive(Clone, Copy, Debug, PartialEq, Eq, Structural)]
pub enum ManualTorqueTarget {
    All,
    Coxa,
    Femur,
    Tibia,
}

impl TripodMotionKind {
    /// The phrase that names the motion in status summaries.
    pub open spec fn spec_summary_label(self) -> Seq<char> {
        match self {
            TripodMotionKind::Forward => "forward"@,
            TripodMotionKind::Backward => "backward"@,
            TripodMotionKind::RotateLeft => "left rotation"@,
            TripodMotionKind::RotateRight => "right rotation"@,
            TripodMotionKind::SidewalkLeft => "sidewalk left"@,
            TripodMotionKind::SidewalkRight => "sidewalk right"@,
        }
    }

    /// The phrase that names the motion in status summaries.
    pub fn summary_label(self) -> (label: &'static str)
        ensures
            label@ == self.spec_summary_label(),
    {
        match self {
            TripodMotionKind::Forward => "forward",
            TripodMotionKind::Backward => "backward",
            TripodMotionKind::RotateLeft => "left rotation",
            TripodMotionKind::RotateRight => "right rotation",
            TripodMotionKind::SidewalkLeft => "sidewalk left",
            TripodMotionKind::SidewalkRight => "sidewalk right",
        }
    }

    /// The sign of the coxa swing of one leg under this motion.
    pub open spec fn spec_coxa_gait_direction_for_leg(self, is_left_side: bool, heading: CoxaHeading) -> int {
        match self {
            TripodMotionKind::Forward => 1,
            TripodMotionKind::Backward => -1,
            TripodMotionKind::RotateLeft => if is_left_side { -1 } else { 1 },
            TripodMotionKind::RotateRight => if is_left_side { 1 } else { -1 },
            TripodMotionKind::SidewalkLeft | TripodMotionKind::SidewalkRight => {
                if heading == CoxaHeading::Middle {
                    0
                } else {
                    let base: int = if is_left_side == (heading == CoxaHeading::Forward) { 1 } else { -1 };
                    if self == TripodMotionKind::SidewalkLeft { -base } else { base }
                }
            },
        }
    }

    /// The sign (-1, 0 or 1) of one leg's coxa swing: all legs stride the
    /// same way for forward and backward walking, the two sides stride in
    /// opposition for rotations, and for sideward walking the middle legs do
    /// not stride while the front and rear legs of a side stride in opposition.
    pub fn coxa_gait_direction_for_leg(self, is_left_side: bool, heading: CoxaHeading) -> (direction: i8)
        ensures
            direction == self.spec_coxa_gait_direction_for_leg(is_left_side, heading),
            -1 <= direction <= 1,
    {
        match self {
            TripodMotionKind::Forward => 1,
            TripodMotionKind::Backward => -1,
            TripodMotionKind::RotateLeft => if is_left_side { -1 } else { 1 },
            TripodMotionKind::RotateRight => if is_left_side { 1 } else { -1 },
            TripodMotionKind::SidewalkLeft | TripodMotionKind::SidewalkRight => {
                if heading == CoxaHeading::Middle {
                    return 0;
                }
                let base: i8 = if is_left_side == (heading == CoxaHeading::Forward) { 1 } else { -1 };
                if self == TripodMotionKind::SidewalkLeft { -base } else { base }
            },
        }
    }
}

impl BrainMode {
    /// The mode's name in the telemetry state.
    pub open spec fn spec_state_label(self) -> Seq<char> {
        match self {
            BrainMode::Telemetry => "telemetry"@,
            BrainMode::Manual => "manual"@,
            BrainMode::TiltedStand => "tilted_stand"@,
            BrainMode::LayDown => "lay_down"@,
            BrainMode::SitDown => "sit_down"@,
            BrainMode::StandUp => "stand_up"@,
            BrainMode::StandUpHigh => "stand_up_high"@,
            BrainMode::Stand => "stand"@,
            BrainMode::StandHigh => "stand_high"@,
            BrainMode::SlowWalk => "slow_walk"@,
            BrainMode::SlowWalkHigh => "slow_walk_high"@,
            BrainMode::BackwardWalk => "backward_walk"@,
            BrainMode::BackwardWalkHigh => "backward_walk_high"@,
            BrainMode::RotateLeft => "rotate_left"@,
            BrainMode::RotateRight => "rotate_right"@,
            BrainMode::SidewalkLeft => "sidewalk_left"@,
            BrainMode::SidewalkLeftHigh => "sidewalk_left_high"@,
            BrainMode::SidewalkRight => "sidewalk_right"@,
            BrainMode::SidewalkRightHigh => "sidewalk_right_high"@,
        }
    }

    /// The mode's name in the telemetry state.
    pub fn as_state_label(self) -> (label: &'static str)
        ensures
            label@ == self.spec_state_label(),
    {
        match self {
            BrainMode::Telemetry => "telemetry",
            BrainMode::Manual => "manual",
            BrainMode::TiltedStand => "tilted_stand",
            BrainMode::LayDown => "lay_down",
            BrainMode::SitDown => "sit_down",
            BrainMode::StandUp => "stand_up",
            BrainMode::StandUpHigh => "stand_up_high",
            BrainMode::Stand => "stand",
            BrainMode::StandHigh => "stand_high",
            BrainMode::SlowWalk => "slow_walk",
            BrainMode::SlowWalkHigh => "slow_walk_high",
            BrainMode::BackwardWalk => "backward_walk",
            BrainMode::BackwardWalkHigh => "backward_walk_high",
            BrainMode::RotateLeft => "rotate_left",
            BrainMode::RotateRight => "rotate_right",
            BrainMode::SidewalkLeft => "sidewalk_left",
            BrainMode::SidewalkLeftHigh => "sidewalk_left_high",
            BrainMode::SidewalkRight => "sidewalk_right",
            BrainMode::SidewalkRightHigh => "sidewalk_right_high",
        }
    }

    /// Every mode except telemetry drives the servos and needs torque.
    pub open spec fn spec_requires_torque(self) -> bool {
        self != BrainMode::Telemetry
    }

    /// Whether the mode drives the servos and so needs torque enabled.
    pub fn requires_torque(self) -> (r: bool)
        ensures
            r == self.spec_requires_torque(),
    {
        !matches!(self, BrainMode::Telemetry)
    }

    /// Body roll and pitch limits apply to every mode except observation and
    /// manual control.
    pub open spec fn spec_enforces_body_attitude_limits(self) -> bool {
        self != BrainMode::Telemetry && self != BrainMode::Manual
    }

    /// Whether body roll and pitch limits trip faults in this mode.
    pub fn enforces_body_attitude_limits(self) -> (r: bool)
        ensures
            r == self.spec_enforces_body_attitude_limits(),
    {
        !matches!(self, BrainMode::Telemetry | BrainMode::Manual)
    }

    /// The pose a stand-up transition ends in.
    pub open spec fn spec_stand_transition_target(self) -> Option<SemanticPoseKind> {
        match self {
            BrainMode::StandUp => Some(SemanticPoseKind::StandReference),
            BrainMode::StandUpHigh => Some(SemanticPoseKind::StandHigh),
            _ => None,
        }
    }

    /// The pose a stand-up mode rises into, if this is one.
    pub fn stand_transition_target(self) -> (target: Option<SemanticPoseKind>)
        ensures
            target == self.spec_stand_transition_target(),
    {
        match self {
            BrainMode::StandUp => Some(SemanticPoseKind::StandReference),
            BrainMode::StandUpHigh => Some(SemanticPoseKind::StandHigh),
            _ => None,
        }
    }

    /// The pose a stand mode settles into and holds.
    pub open spec fn spec_stand_settle_target(self) -> Option<SemanticPoseKind> {
        match self {
            BrainMode::Stand => Some(SemanticPoseKind::StandReference),
            BrainMode::StandHigh => Some(SemanticPoseKind::StandHigh),
            _ => None,
        }
    }

    /// The pose a stand mode settles into, if this is one.
    pub fn stand_settle_target(self) -> (target: Option<SemanticPoseKind>)
        ensures
            target == self.spec_stand_settle_target(),
    {
        match self {
            BrainMode::Stand => Some(SemanticPoseKind::StandReference),
            BrainMode::StandHigh => Some(SemanticPoseKind::StandHigh),
            _ => None,
        }
    }

    /// The body motion of a tripod gait mode.
    pub open spec fn spec_tripod_motion_kind(self) -> Option<TripodMotionKind> {
        match self {
            BrainMode::SlowWalk | BrainMode::SlowWalkHigh => Some(TripodMotionKind::Forward),
            BrainMode::BackwardWalk | BrainMode::BackwardWalkHigh => Some(TripodMotionKind::Backward),
            BrainMode::RotateLeft => Some(TripodMotionKind::RotateLeft),
            BrainMode::RotateRight => Some(TripodMotionKind::RotateRight),
            BrainMode::SidewalkLeft | BrainMode::SidewalkLeftHigh => Some(TripodMotionKind::SidewalkLeft),
            BrainMode::SidewalkRight | BrainMode::SidewalkRightHigh => Some(TripodMotionKind::SidewalkRight),
            _ => None,
        }
    }

    /// The body motion of this mode, if it is a tripod gait.
    pub fn tripod_motion_kind(self) -> (kind: Option<TripodMotionKind>)
        ensures
            kind == self.spec_tripod_motion_kind(),
    {
        match self {
            BrainMode::SlowWalk | BrainMode::SlowWalkHigh => Some(TripodMotionKind::Forward),
            BrainMode::BackwardWalk | BrainMode::BackwardWalkHigh => Some(TripodMotionKind::Backward),
            BrainMode::RotateLeft => Some(TripodMotionKind::RotateLeft),
            BrainMode::RotateRight => Some(TripodMotionKind::RotateRight),
            BrainMode::SidewalkLeft | BrainMode::SidewalkLeftHigh => Some(TripodMotionKind::SidewalkLeft),
            BrainMode::SidewalkRight | BrainMode::SidewalkRightHigh => Some(TripodMotionKind::SidewalkRight),
            _ => None,
        }
    }

    /// The swing height of a tripod gait mode.
    pub open spec fn spec_tripod_lift_mode(self) -> Option<TripodLiftMode> {
        match self {
            BrainMode::SlowWalk | BrainMode::BackwardWalk | BrainMode::RotateLeft | BrainMode::RotateRight
            | BrainMode::SidewalkLeft | BrainMode::SidewalkRight => Some(TripodLiftMode::Standard),
            BrainMode::SlowWalkHigh | BrainMode::BackwardWalkHigh | BrainMode::SidewalkLeftHigh
            | BrainMode::SidewalkRightHigh => Some(TripodLiftMode::HighStep),
            _ => None,
        }
    }

    /// The swing height of this mode, if it is a tripod gait.
    pub fn tripod_lift_mode(self) -> (lift: Option<TripodLiftMode>)
        ensures
            lift == self.spec_tripod_lift_mode(),
    {
        match self {
            BrainMode::SlowWalk | BrainMode::BackwardWalk | BrainMode::RotateLeft | BrainMode::RotateRight
            | BrainMode::SidewalkLeft | BrainMode::SidewalkRight => Some(TripodLiftMode::Standard),
            BrainMode::SlowWalkHigh | BrainMode::BackwardWalkHigh | BrainMode::SidewalkLeftHigh
            | BrainMode::SidewalkRightHigh => Some(TripodLiftMode::HighStep),
            _ => None,
        }
    }

    /// Whether the mode walks or turns with the tripod gait.
    pub open spec fn spec_is_tripod_gait(self) -> bool {
        self.spec_tripod_motion_kind() is Some
    }

    /// Whether the mode walks or turns with the tripod gait.
    pub fn is_tripod_gait(self) -> (r: bool)
        ensures
            r == self.spec_is_tripod_gait(),
    {
        self.tripod_motion_kind().is_some()
    }

    /// The gait phrase of a tripod mode: the motion's label, prefixed with
    /// `high-step ` for the high-step modes.
    pub open spec fn spec_tripod_motion_summary_label(self) -> Option<Seq<char>> {
        match (self.spec_tripod_motion_kind(), self.spec_tripod_lift_mode()) {
            (Some(motion), Some(TripodLiftMode::Standard)) => Some(motion.spec_summary_label()),
            (Some(motion), Some(TripodLiftMode::HighStep)) => Some("high-step "@ + motion.spec_summary_label()),
            _ => None,
        }
    }

    /// The gait phrase used in summaries, for tripod gait modes.
    pub fn tripod_motion_summary_label(self) -> (label: Option<String>)
        ensures
            match label {
                Some(l) => self.spec_tripod_motion_summary_label() == Some(l@),
                None => self.spec_tripod_motion_summary_label() is None,
            },
    {
        let motion = match self.tripod_motion_kind() {
            Some(m) => m,
            None => return None,
        };
        let lift = match self.tripod_lift_mode() {
            Some(l) => l,
            None => return None,
        };
        let mut label = String::new();
        match lift {
            TripodLiftMode::Standard => {
                label.append(motion.summary_label());
                proof { assert(label@ =~= motion.spec_summary_label()); }
            },
            TripodLiftMode::HighStep => {
                label.append("high-step ");
                label.append(motion.summary_label());
            },
        }
        Some(label)
    }

    /// The sign of one leg's coxa swing in this mode; zero unless the mode
    /// is a tripod gait.
    pub fn coxa_gait_direction_for_leg(self, is_left_side: bool, heading: CoxaHeading) -> (direction: i8)
        ensures
            direction == match self.spec_tripod_motion_kind() {
                Some(motion) => motion.spec_coxa_gait_direction_for_leg(is_left_side, heading),
                None => 0,
            },
    {
        match self.tripod_motion_kind() {
            Some(motion) => motion.coxa_gait_direction_for_leg(is_left_side, heading),
            None => 0,
        }
    }
}

/// The named pose a mode starts from before a measured pose is known.
pub open spec fn spec_fallback_pose_kind(mode: BrainMode) -> SemanticPoseKind {
    match mode {
        BrainMode::LayDown | BrainMode::StandUp | BrainMode::StandUpHigh => SemanticPoseKind::LayDown,
        BrainMode::SitDown => SemanticPoseKind::SitDown,
        BrainMode::StandHigh => SemanticPoseKind::StandHigh,
        _ => SemanticPoseKind::StandReference,
    }
}

/// The named pose a mode starts from when no measured pose has been
/// captured: lay-down for laying down and standing up, sit-down for sitting
/// down, stand-high for the high stand, and stand-reference otherwise.
pub fn fallback_pose_kind(mode: BrainMode) -> (kind: SemanticPoseKind)
    ensures
        kind == spec_fallback_pose_kind(mode),
{
    match mode {
        BrainMode::LayDown | BrainMode::StandUp | BrainMode::StandUpHigh => SemanticPoseKind::LayDown,
        BrainMode::SitDown => SemanticPoseKind::SitDown,
        BrainMode::StandHigh => SemanticPoseKind::StandHigh,
        _ => SemanticPoseKind::StandReference,
    }
}

impl MotionCommand {
    /// The mode a dashboard command switches to.
    pub open spec fn spec_as_brain_mode(self) -> BrainMode {
        match self {
            MotionCommand::Manual => BrainMode::Manual,
            MotionCommand::TiltedStand => BrainMode::TiltedStand,
            MotionCommand::StandUp => BrainMode::StandUp,
            MotionCommand::StandUpHigh => BrainMode::StandUpHigh,
            MotionCommand::LayDown => BrainMode::LayDown,
            MotionCommand::SitDown => BrainMode::SitDown,
            MotionCommand::StandHigh => BrainMode::StandHigh,
            MotionCommand::Stand | MotionCommand::Stop => BrainMode::Stand,
            MotionCommand::WalkForward => BrainMode::SlowWalk,
            MotionCommand::WalkForwardHigh => BrainMode::SlowWalkHigh,
            MotionCommand::WalkBackward => BrainMode::BackwardWalk,
            MotionCommand::WalkBackwardHigh => BrainMode::BackwardWalkHigh,
            MotionCommand::RotateLeft => BrainMode::RotateLeft,
            MotionCommand::RotateRight => BrainMode::RotateRight,
            MotionCommand::SidewalkLeft => BrainMode::SidewalkLeft,
            MotionCommand::SidewalkLeftHigh => BrainMode::SidewalkLeftHigh,
            MotionCommand::SidewalkRight => BrainMode::SidewalkRight,
            MotionCommand::SidewalkRightHigh => BrainMode::SidewalkRightHigh,
            MotionCommand::Telemetry => BrainMode::Telemetry,
        }
    }

    /// The mode a dashboard command switches to; stopping holds the stand.
    pub fn as_brain_mode(self) -> (mode: BrainMode)
        ensures
            mode == self.spec_as_brain_mode(),
    {
        match self {
            MotionCommand::Manual => BrainMode::Manual,
            MotionCommand::TiltedStand => BrainMode::TiltedStand,
            MotionCommand::StandUp => BrainMode::StandUp,
            MotionCommand::StandUpHigh => BrainMode::StandUpHigh,
            MotionCommand::LayDown => BrainMode::LayDown,
            MotionCommand::SitDown => BrainMode::SitDown,
            MotionCommand::StandHigh => BrainMode::StandHigh,
            MotionCommand::Stand | MotionCommand::Stop => BrainMode::Stand,
            MotionCommand::WalkForward => BrainMode::SlowWalk,
            MotionCommand::WalkForwardHigh => BrainMode::SlowWalkHigh,
            MotionCommand::WalkBackward => BrainMode::BackwardWalk,
            MotionCommand::WalkBackwardHigh => BrainMode::BackwardWalkHigh,
            MotionCommand::RotateLeft => BrainMode::RotateLeft,
            MotionCommand::RotateRight => BrainMode::RotateRight,
            MotionCommand::SidewalkLeft => BrainMode::SidewalkLeft,
            MotionCommand::SidewalkLeftHigh => BrainMode::SidewalkLeftHigh,
            MotionCommand::SidewalkRight => BrainMode::SidewalkRight,
            MotionCommand::SidewalkRightHigh => BrainMode::SidewalkRightHigh,
            MotionCommand::Telemetry => BrainMode::Telemetry,
        }
    }
}

impl ManualTorqueTarget {
    /// How the target is named in summaries.
    pub open spec fn spec_as_label(self) -> Seq<char> {
        match self {
            ManualTorqueTarget::All => "all joints"@,
            ManualTorqueTarget::Coxa => "coxa only"@,
            ManualTorqueTarget::Femur => "femur only"@,
            ManualTorqueTarget::Tibia => "tibia only"@,
        }
    }

    /// How the target is named in summaries.
    pub fn as_label(self) -> (label: &'static str)
        ensures
            label@ == self.spec_as_label(),
    {
        match self {
            ManualTorqueTarget::All => "all joints",
            ManualTorqueTarget::Coxa => "coxa only",
            ManualTorqueTarget::Femur => "femur only",
            ManualTorqueTarget::Tibia => "tibia only",
        }
    }
}

/// The labels of a stand pose: how it is named while held, and while the
/// coxae align into it.
pub open spec fn spec_stand_pose_labels(kind: SemanticPoseKind) -> (Seq<char>, Seq<char>) {
    match kind {
        SemanticPoseKind::StandReference => ("stand-reference"@, "stand"@),
        SemanticPoseKind::StandHigh => ("stand-high"@, "high stand"@),
        SemanticPoseKind::LayDown => ("lay-down"@, "lay-down"@),
        SemanticPoseKind::ZeroPose => ("zero"@, "zero"@),
        SemanticPoseKind::SitDown => ("sit-down"@, "sit-down"@),
    }
}

/// The hold and alignment labels of a named pose.
pub fn stand_pose_labels(kind: SemanticPoseKind) -> (labels: (&'static str, &'static str))
    ensures
        (labels.0@, labels.1@) == spec_stand_pose_labels(kind),
{
    match kind {
        SemanticPoseKind::StandReference => ("stand-reference", "stand"),
        SemanticPoseKind::StandHigh => ("stand-high", "high stand"),
        SemanticPoseKind::LayDown => ("lay-down", "lay-down"),
        SemanticPoseKind::ZeroPose => ("zero", "zero"),
        SemanticPoseKind::SitDown => ("sit-down", "sit-down"),
    }
}

/// A tripod gait mode is exactly a mode with a swing height.
pub proof fn lemma_tripod_gait_has_lift_mode(mode: BrainMode)
    ensures
        mode.spec_is_tripod_gait() <==> mode.spec_tripod_lift_mode() is Some,
        mode.spec_is_tripod_gait() <==> mode.spec_tripod_motion_summary_label() is Some,
{
}

/// Every mode that enforces body attitude limits also drives the servos.
pub proof fn lemma_attitude_limits_imply_torque(mode: BrainMode)
    ensures
        mode.spec_enforces_body_attitude_limits() ==> mode.spec_requires_torque(),
{
}

/// Every dashboard command reaches a mode whose gait matches the command:
/// walking commands give tripod gaits, the rest give modes that are not.
pub proof fn lemma_command_gaits(command: MotionCommand)
    ensures
        command.spec_as_brain_mode().spec_is_tripod_gait() <==> match command {
            MotionCommand::WalkForward | MotionCommand::WalkForwardHigh | MotionCommand::WalkBackward
            | MotionCommand::WalkBackwardHigh | MotionCommand::RotateLeft | MotionCommand::RotateRight
            | MotionCommand::SidewalkLeft | MotionCommand::SidewalkLeftHigh | MotionCommand::SidewalkRight
            | MotionCommand::SidewalkRightHigh => true,
            _ => false,
        },
{
}

/// Every mode except telemetry is reached by some dashboard command, and
/// telemetry by the telemetry command.
pub proof fn lemma_every_mode_is_commandable(mode: BrainMode)
    ensures
        exists|command: MotionCommand| command.spec_as_brain_mode() == mode,
{
    let command = match mode {
        BrainMode::Telemetry => MotionCommand::Telemetry,
        BrainMode::Manual => MotionCommand::Manual,
        BrainMode::TiltedStand => MotionCommand::TiltedStand,
        BrainMode::LayDown => MotionCommand::LayDown,
        BrainMode::SitDown => MotionCommand::SitDown,
        BrainMode::StandUp => MotionCommand::StandUp,
        BrainMode::StandUpHigh => MotionCommand::StandUpHigh,
        BrainMode::Stand => MotionCommand::Stand,
        BrainMode::StandHigh => MotionCommand::StandHigh,
        BrainMode::SlowWalk => MotionCommand::WalkForward,
        BrainMode::SlowWalkHigh => MotionCommand::WalkForwardHigh,
        BrainMode::BackwardWalk => MotionCommand::WalkBackward,
        BrainMode::BackwardWalkHigh => MotionCommand::WalkBackwardHigh,
        BrainMode::RotateLeft => MotionCommand::RotateLeft,
        BrainMode::RotateRight => MotionCommand::RotateRight,
        BrainMode::SidewalkLeft => MotionCommand::SidewalkLeft,
        BrainMode::SidewalkLeftHigh => MotionCommand::SidewalkLeftHigh,
        BrainMode::SidewalkRight => MotionCommand::SidewalkRight,
        BrainMode::SidewalkRightHigh => MotionCommand::SidewalkRightHigh,
    };
    assert(command.spec_as_brain_mode() == mode);
}

/// Walking forward strides every coxa forward, whatever the leg; walking
/// backward reverses every leg's stride; the two rotations are mirror
/// images, with the left and right sides striding in opposition.
pub proof fn lemma_walk_and_rotate_strides(is_left_side: bool, heading: CoxaHeading)
    ensures
        TripodMotionKind::Forward.spec_coxa_gait_direction_for_leg(is_left_side, heading) == 1,
        TripodMotionKind::Backward.spec_coxa_gait_direction_for_leg(is_left_side, heading)
            == -TripodMotionKind::Forward.spec_coxa_gait_direction_for_leg(is_left_side, heading),
        TripodMotionKind::RotateLeft.spec_coxa_gait_direction_for_leg(is_left_side, heading)
            == -TripodMotionKind::RotateRight.spec_coxa_gait_direction_for_leg(is_left_side, heading),
        TripodMotionKind::RotateLeft.spec_coxa_gait_direction_for_leg(true, heading)
            == -TripodMotionKind::RotateLeft.spec_coxa_gait_direction_for_leg(false, heading),
        TripodMotionKind::RotateLeft.spec_coxa_gait_direction_for_leg(false, heading)
            == TripodMotionKind::Forward.spec_coxa_gait_direction_for_leg(false, heading),
{
}

/// Within one side, the front and rear legs of a sideward gait stride in
/// opposite directions, the middle leg does not stride, and the two
/// sideward gaits are mirror images of each other.
pub proof fn lemma_sidewalk_strides_cancel(is_left_side: bool)
    ensures
        TripodMotionKind::SidewalkLeft.spec_coxa_gait_direction_for_leg(is_left_side, CoxaHeading::Forward)
            == -TripodMotionKind::SidewalkLeft.spec_coxa_gait_direction_for_leg(is_left_side, CoxaHeading::Rearward),
        TripodMotionKind::SidewalkRight.spec_coxa_gait_direction_for_leg(is_left_side, CoxaHeading::Forward)
            == -TripodMotionKind::SidewalkRight.spec_coxa_gait_direction_for_leg(is_left_side, CoxaHeading::Rearward),
        TripodMotionKind::SidewalkLeft.spec_coxa_gait_direction_for_leg(is_left_side, CoxaHeading::Middle) == 0,
        TripodMotionKind::SidewalkRight.spec_coxa_gait_direction_for_leg(is_left_side, CoxaHeading::Middle) == 0,
        forall|heading: CoxaHeading|
            TripodMotionKind::SidewalkLeft.spec_coxa_gait_direction_for_leg(is_left_side, heading)
                == -TripodMotionKind::SidewalkRight.spec_coxa_gait_direction_for_leg(is_left_side, heading),
{
}

/// The pose a software-in-the-loop run seeds the simulated servos with.
#[derive(Clone, Copy, Debug, PartialEq, Eq, Structural)]
pub enum SeedPose {
    LayDown,
    StandReference,
    ZeroPose,
}

impl SeedPose {
    /// The named pose the seed stands for.
    pub open spec fn spec_as_pose_kind(self) -> SemanticPoseKind {
        match self {
            SeedPose::LayDown => SemanticPoseKind::LayDown,
            SeedPose::StandReference => SemanticPoseKind::StandReference,
            SeedPose::ZeroPose => SemanticPoseKind::ZeroPose,
        }
    }

    /// The named pose the seed stands for.
    pub fn as_pose_kind(self) -> (kind: SemanticPoseKind)
        ensures
            kind == self.spec_as_pose_kind(),
    {
        match self {
            SeedPose::LayDown => SemanticPoseKind::LayDown,
            SeedPose::StandReference => SemanticPoseKind::StandReference,
            SeedPose::ZeroPose => SemanticPoseKind::ZeroPose,
        }
    }
}

/// The length of one command step in whole milliseconds: one second divided
/// by the command rate (at least 1 Hz), rounded to the nearest millisecond
/// with halves rounded up.
pub open spec fn spec_command_step_ms(command_hz: u16) -> int {
    let hz: int = if command_hz < 1 { 1 } else { command_hz as int };
    (2000 + hz) / (2 * hz)
}

/// The length of one command step in whole milliseconds.
pub fn command_step_ms(command_hz: u16) -> (ms: u64)
    ensures
        ms == spec_command_step_ms(command_hz),
{
    let hz: u64 = if command_hz < 1 { 1 } else { command_hz as u64 };
    (2000 + hz) / (2 * hz)
}

} // verus!

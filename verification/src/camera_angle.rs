//! The 26 preset view directions of the camera gizmo: six faces, twelve
//! edges and eight corners of the view cube.
use vstd::prelude::*;
use crate::text::str_eq;

verus! {

/// A preset camera direction, named after the part of the view cube it
/// looks at.
#[derive(Debug, Clone, Copy, PartialEq, Eq, Structural)]
pub enum CameraAngle {
    // Faces
    Front,
    Right,
    Back,
    Left,
    Top,
    Bottom,
    // Edges
    FrontRight,
    BackRight,
    BackLeft,
    FrontLeft,
    FrontTop,
    BackTop,
    FrontBottom,
    BackBottom,
    RightTop,
    LeftTop,
    RightBottom,
    LeftBottom,
    // Corners
    FrontRightTop,
    BackRightTop,
    BackLeftTop,
    FrontLeftTop,
    FrontRightBottom,
    BackRightBottom,
    BackLeftBottom,
    FrontLeftBottom,
}

/// The name of each preset, as the gizmo model names its parts.
pub open spec fn spec_angle_name(a: CameraAngle) -> Seq<char> {
    match a {
        CameraAngle::Front => "Front"@,
        CameraAngle::Right => "Right"@,
        CameraAngle::Back => "Back"@,
        CameraAngle::Left => "Left"@,
        CameraAngle::Top => "Top"@,
        CameraAngle::Bottom => "Bottom"@,
        CameraAngle::FrontRight => "FrontRight"@,
        CameraAngle::BackRight => "BackRight"@,
        CameraAngle::BackLeft => "BackLeft"@,
        CameraAngle::FrontLeft => "FrontLeft"@,
        CameraAngle::FrontTop => "FrontTop"@,
        CameraAngle::BackTop => "BackTop"@,
        CameraAngle::FrontBottom => "FrontBottom"@,
        CameraAngle::BackBottom => "BackBottom"@,
        CameraAngle::RightTop => "RightTop"@,
        CameraAngle::LeftTop => "LeftTop"@,
        CameraAngle::RightBottom => "RightBottom"@,
        CameraAngle::LeftBottom => "LeftBottom"@,
        CameraAngle::FrontRightTop => "FrontRightTop"@,
        CameraAngle::BackRightTop => "BackRightTop"@,
        CameraAngle::BackLeftTop => "BackLeftTop"@,
        CameraAngle::FrontLeftTop => "FrontLeftTop"@,
        CameraAngle::FrontRightBottom => "FrontRightBottom"@,
        CameraAngle::BackRightBottom => "BackRightBottom"@,
        CameraAngle::BackLeftBottom => "BackLeftBottom"@,
        CameraAngle::FrontLeftBottom => "FrontLeftBottom"@,
    }
}

/// The preset a gizmo part name stands for.
pub open spec fn spec_from_name(name: Seq<char>) -> Option<CameraAngle> {
    if name == "Front"@ {
        Some(CameraAngle::Front)
    } else if name == "Right"@ {
        Some(CameraAngle::Right)
    } else if name == "Back"@ {
        Some(CameraAngle::Back)
    } else if name == "Left"@ {
        Some(CameraAngle::Left)
    } else if name == "Top"@ {
        Some(CameraAngle::Top)
    } else if name == "Bottom"@ {
        Some(CameraAngle::Bottom)
    } else if name == "FrontRight"@ {
        Some(CameraAngle::FrontRight)
    } else if name == "BackRight"@ {
        Some(CameraAngle::BackRight)
    } else if name == "BackLeft"@ {
        Some(CameraAngle::BackLeft)
    } else if name == "FrontLeft"@ {
        Some(CameraAngle::FrontLeft)
    } else if name == "FrontTop"@ {
        Some(CameraAngle::FrontTop)
    } else if name == "BackTop"@ {
        Some(CameraAngle::BackTop)
    } else if name == "FrontBottom"@ {
        Some(CameraAngle::FrontBottom)
    } else if name == "BackBottom"@ {
        Some(CameraAngle::BackBottom)
    } else if name == "RightTop"@ {
        Some(CameraAngle::RightTop)
    } else if name == "LeftTop"@ {
        Some(CameraAngle::LeftTop)
    } else if name == "RightBottom"@ {
        Some(CameraAngle::RightBottom)
    } else if name == "LeftBottom"@ {
        Some(CameraAngle::LeftBottom)
    } else if name == "FrontRightTop"@ {
        Some(CameraAngle::FrontRightTop)
    } else if name == "BackRightTop"@ {
        Some(CameraAngle::BackRightTop)
    } else if name == "BackLeftTop"@ {
        Some(CameraAngle::BackLeftTop)
    } else if name == "FrontLeftTop"@ {
        Some(CameraAngle::FrontLeftTop)
    } else if name == "FrontRightBottom"@ {
        Some(CameraAngle::FrontRightBottom)
    } else if name == "BackRightBottom"@ {
        Some(CameraAngle::BackRightBottom)
    } else if name == "BackLeftBottom"@ {
        Some(CameraAngle::BackLeftBottom)
    } else if name == "FrontLeftBottom"@ {
        Some(CameraAngle::FrontLeftBottom)
    } else {
        None
    }
}

/// The rotation of each preset as whole degrees about the x axis (pitch)
/// and then the y axis (yaw).
pub open spec fn spec_rotation_degrees(a: CameraAngle) -> (int, int) {
    match a {
        CameraAngle::Front => (0, 0),
        CameraAngle::Right => (0, -90),
        CameraAngle::Back => (0, 180),
        CameraAngle::Left => (0, 90),
        CameraAngle::Top => (270, 0),
        CameraAngle::Bottom => (90, 0),
        CameraAngle::FrontRight => (0, -45),
        CameraAngle::BackRight => (0, -135),
        CameraAngle::BackLeft => (0, 135),
        CameraAngle::FrontLeft => (0, 45),
        CameraAngle::FrontTop => (-45, 0),
        CameraAngle::BackTop => (-45, 180),
        CameraAngle::FrontBottom => (45, 0),
        CameraAngle::BackBottom => (45, 180),
        CameraAngle::RightTop => (-45, -90),
        CameraAngle::LeftTop => (-45, 90),
        CameraAngle::RightBottom => (45, -90),
        CameraAngle::LeftBottom => (45, 90),
        CameraAngle::FrontRightTop => (-45, -45),
        CameraAngle::BackRightTop => (-45, -135),
        CameraAngle::BackLeftTop => (-45, 135),
        CameraAngle::FrontLeftTop => (-45, 45),
        CameraAngle::FrontRightBottom => (45, -45),
        CameraAngle::BackRightBottom => (45, -135),
        CameraAngle::BackLeftBottom => (45, 135),
        CameraAngle::FrontLeftBottom => (45, 45),
    }
}

impl CameraAngle {
    /// The preset named `name`, if any.
    pub fn from_name(name: &str) -> (r: Option<Self>)
        ensures
            r == spec_from_name(name@),
    {
        if str_eq(name, "Front") {
            Some(CameraAngle::Front)
        } else if str_eq(name, "Right") {
            Some(CameraAngle::Right)
        } else if str_eq(name, "Back") {
            Some(CameraAngle::Back)
        } else if str_eq(name, "Left") {
            Some(CameraAngle::Left)
        } else if str_eq(name, "Top") {
            Some(CameraAngle::Top)
        } else if str_eq(name, "Bottom") {
            Some(CameraAngle::Bottom)
        } else if str_eq(name, "FrontRight") {
            Some(CameraAngle::FrontRight)
        } else if str_eq(name, "BackRight") {
            Some(CameraAngle::BackRight)
        } else if str_eq(name, "BackLeft") {
            Some(CameraAngle::BackLeft)
        } else if str_eq(name, "FrontLeft") {
            Some(CameraAngle::FrontLeft)
        } else if str_eq(name, "FrontTop") {
            Some(CameraAngle::FrontTop)
        } else if str_eq(name, "BackTop") {
            Some(CameraAngle::BackTop)
        } else if str_eq(name, "FrontBottom") {
            Some(CameraAngle::FrontBottom)
        } else if str_eq(name, "BackBottom") {
            Some(CameraAngle::BackBottom)
        } else if str_eq(name, "RightTop") {
            Some(CameraAngle::RightTop)
        } else if str_eq(name, "LeftTop") {
            Some(CameraAngle::LeftTop)
        } else if str_eq(name, "RightBottom") {
            Some(CameraAngle::RightBottom)
        } else if str_eq(name, "LeftBottom") {
            Some(CameraAngle::LeftBottom)
        } else if str_eq(name, "FrontRightTop") {
            Some(CameraAngle::FrontRightTop)
        } else if str_eq(name, "BackRightTop") {
            Some(CameraAngle::BackRightTop)
        } else if str_eq(name, "BackLeftTop") {
            Some(CameraAngle::BackLeftTop)
        } else if str_eq(name, "FrontLeftTop") {
            Some(CameraAngle::FrontLeftTop)
        } else if str_eq(name, "FrontRightBottom") {
            Some(CameraAngle::FrontRightBottom)
        } else if str_eq(name, "BackRightBottom") {
            Some(CameraAngle::BackRightBottom)
        } else if str_eq(name, "BackLeftBottom") {
            Some(CameraAngle::BackLeftBottom)
        } else if str_eq(name, "FrontLeftBottom") {
            Some(CameraAngle::FrontLeftBottom)
        } else {
            None
        }
    }

    /// The preset's pitch and yaw in whole degrees; the camera rotation is
    /// the rotation about x by the pitch followed by the rotation about y by
    /// the yaw.
    pub fn rotation_degrees(&self) -> (r: (i32, i32))
        ensures
            r.0 as int == spec_rotation_degrees(*self).0,
            r.1 as int == spec_rotation_degrees(*self).1,
    {
        match self {
            CameraAngle::Front => (0, 0),
            CameraAngle::Right => (0, -90),
            CameraAngle::Back => (0, 180),
            CameraAngle::Left => (0, 90),
            CameraAngle::Top => (270, 0),
            CameraAngle::Bottom => (90, 0),
            CameraAngle::FrontRight => (0, -45),
            CameraAngle::BackRight => (0, -135),
            CameraAngle::BackLeft => (0, 135),
            CameraAngle::FrontLeft => (0, 45),
            CameraAngle::FrontTop => (-45, 0),
            CameraAngle::BackTop => (-45, 180),
            CameraAngle::FrontBottom => (45, 0),
            CameraAngle::BackBottom => (45, 180),
            CameraAngle::RightTop => (-45, -90),
            CameraAngle::LeftTop => (-45, 90),
            CameraAngle::RightBottom => (45, -90),
            CameraAngle::LeftBottom => (45, 90),
            CameraAngle::FrontRightTop => (-45, -45),
            CameraAngle::BackRightTop => (-45, -135),
            CameraAngle::BackLeftTop => (-45, 135),
            CameraAngle::FrontLeftTop => (-45, 45),
            CameraAngle::FrontRightBottom => (45, -45),
            CameraAngle::BackRightBottom => (45, -135),
            CameraAngle::BackLeftBottom => (45, 135),
            CameraAngle::FrontLeftBottom => (45, 45),
        }
    }
}

/// Every preset is found again by its name: the names of the presets are
/// all different.
pub proof fn law_name_round_trip(a: CameraAngle)
    ensures
        spec_from_name(spec_angle_name(a)) == Some(a),
{
    match a {
        CameraAngle::Front => {
            reveal_strlit("Front");
        },
        CameraAngle::Right => {
            reveal_strlit("Right");
            reveal_strlit("Front");
            assert("Right"@[0] != "Front"@[0]);
        },
        CameraAngle::Back => {
            reveal_strlit("Back");
            reveal_strlit("Front");
            assert("Back"@.len() != "Front"@.len());
            reveal_strlit("Right");
            assert("Back"@.len() != "Right"@.len());
        },
        CameraAngle::Left => {
            reveal_strlit("Left");
            reveal_strlit("Front");
            assert("Left"@.len() != "Front"@.len());
            reveal_strlit("Right");
            assert("Left"@.len() != "Right"@.len());
            reveal_strlit("Back");
            assert("Left"@[0] != "Back"@[0]);
        },
        CameraAngle::Top => {
            reveal_strlit("Top");
            reveal_strlit("Front");
            assert("Top"@.len() != "Front"@.len());
            reveal_strlit("Right");
            assert("Top"@.len() != "Right"@.len());
            reveal_strlit("Back");
            assert("Top"@.len() != "Back"@.len());
            reveal_strlit("Left");
            assert("Top"@.len() != "Left"@.len());
        },
        CameraAngle::Bottom => {
            reveal_strlit("Bottom");
            reveal_strlit("Front");
            assert("Bottom"@.len() != "Front"@.len());
            reveal_strlit("Right");
            assert("Bottom"@.len() != "Right"@.len());
            reveal_strlit("Back");
            assert("Bottom"@.len() != "Back"@.len());
            reveal_strlit("Left");
            assert("Bottom"@.len() != "Left"@.len());
            reveal_strlit("Top");
            assert("Bottom"@.len() != "Top"@.len());
        },
        CameraAngle::FrontRight => {
            reveal_strlit("FrontRight");
            reveal_strlit("Front");
            assert("FrontRight"@.len() != "Front"@.len());
            reveal_strlit("Right");
            assert("FrontRight"@.len() != "Right"@.len());
            reveal_strlit("Back");
            assert("FrontRight"@.len() != "Back"@.len());
            reveal_strlit("Left");
            assert("FrontRight"@.len() != "Left"@.len());
            reveal_strlit("Top");
            assert("FrontRight"@.len() != "Top"@.len());
            reveal_strlit("Bottom");
            assert("FrontRight"@.len() != "Bottom"@.len());
        },
        CameraAngle::BackRight => {
            reveal_strlit("BackRight");
            reveal_strlit("Front");
            assert("BackRight"@.len() != "Front"@.len());
            reveal_strlit("Right");
            assert("BackRight"@.len() != "Right"@.len());
            reveal_strlit("Back");
            assert("BackRight"@.len() != "Back"@.len());
            reveal_strlit("Left");
            assert("BackRight"@.len() != "Left"@.len());
            reveal_strlit("Top");
            assert("BackRight"@.len() != "Top"@.len());
            reveal_strlit("Bottom");
            assert("BackRight"@.len() != "Bottom"@.len());
            reveal_strlit("FrontRight");
            assert("BackRight"@.len() != "FrontRight"@.len());
        },
        CameraAngle::BackLeft => {
            reveal_strlit("BackLeft");
            reveal_strlit("Front");
            assert("BackLeft"@.len() != "Front"@.len());
            reveal_strlit("Right");
            assert("BackLeft"@.len() != "Right"@.len());
            reveal_strlit("Back");
            assert("BackLeft"@.len() != "Back"@.len());
            reveal_strlit("Left");
            assert("BackLeft"@.len() != "Left"@.len());
            reveal_strlit("Top");
            assert("BackLeft"@.len() != "Top"@.len());
            reveal_strlit("Bottom");
            assert("BackLeft"@.len() != "Bottom"@.len());
            reveal_strlit("FrontRight");
            assert("BackLeft"@.len() != "FrontRight"@.len());
            reveal_strlit("BackRight");
            assert("BackLeft"@.len() != "BackRight"@.len());
        },
        CameraAngle::FrontLeft => {
            reveal_strlit("FrontLeft");
            reveal_strlit("Front");
            assert("FrontLeft"@.len() != "Front"@.len());
            reveal_strlit("Right");
            assert("FrontLeft"@.len() != "Right"@.len());
            reveal_strlit("Back");
            assert("FrontLeft"@.len() != "Back"@.len());
            reveal_strlit("Left");
            assert("FrontLeft"@.len() != "Left"@.len());
            reveal_strlit("Top");
            assert("FrontLeft"@.len() != "Top"@.len());
            reveal_strlit("Bottom");
            assert("FrontLeft"@.len() != "Bottom"@.len());
            reveal_strlit("FrontRight");
            assert("FrontLeft"@.len() != "FrontRight"@.len());
            reveal_strlit("BackRight");
            assert("FrontLeft"@[0] != "BackRight"@[0]);
            reveal_strlit("BackLeft");
            assert("FrontLeft"@.len() != "BackLeft"@.len());
        },
        CameraAngle::FrontTop => {
            reveal_strlit("FrontTop");
            reveal_strlit("Front");
            assert("FrontTop"@.len() != "Front"@.len());
            reveal_strlit("Right");
            assert("FrontTop"@.len() != "Right"@.len());
            reveal_strlit("Back");
            assert("FrontTop"@.len() != "Back"@.len());
            reveal_strlit("Left");
            assert("FrontTop"@.len() != "Left"@.len());
            reveal_strlit("Top");
            assert("FrontTop"@.len() != "Top"@.len());
            reveal_strlit("Bottom");
            assert("FrontTop"@.len() != "Bottom"@.len());
            reveal_strlit("FrontRight");
            assert("FrontTop"@.len() != "FrontRight"@.len());
            reveal_strlit("BackRight");
            assert("FrontTop"@.len() != "BackRight"@.len());
            reveal_strlit("BackLeft");
            assert("FrontTop"@[0] != "BackLeft"@[0]);
            reveal_strlit("FrontLeft");
            assert("FrontTop"@.len() != "FrontLeft"@.len());
        },
        CameraAngle::BackTop => {
            reveal_strlit("BackTop");
            reveal_strlit("Front");
            assert("BackTop"@.len() != "Front"@.len());
            reveal_strlit("Right");
            assert("BackTop"@.len() != "Right"@.len());
            reveal_strlit("Back");
            assert("BackTop"@.len() != "Back"@.len());
            reveal_strlit("Left");
            assert("BackTop"@.len() != "Left"@.len());
            reveal_strlit("Top");
            assert("BackTop"@.len() != "Top"@.len());
            reveal_strlit("Bottom");
            assert("BackTop"@.len() != "Bottom"@.len());
            reveal_strlit("FrontRight");
            assert("BackTop"@.len() != "FrontRight"@.len());
            reveal_strlit("BackRight");
            assert("BackTop"@.len() != "BackRight"@.len());
            reveal_strlit("BackLeft");
            assert("BackTop"@.len() != "BackLeft"@.len());
            reveal_strlit("FrontLeft");
            assert("BackTop"@.len() != "FrontLeft"@.len());
            reveal_strlit("FrontTop");
            assert("BackTop"@.len() != "FrontTop"@.len());
        },
        CameraAngle::FrontBottom => {
            reveal_strlit("FrontBottom");
            reveal_strlit("Front");
            assert("FrontBottom"@.len() != "Front"@.len());
            reveal_strlit("Right");
            assert("FrontBottom"@.len() != "Right"@.len());
            reveal_strlit("Back");
            assert("FrontBottom"@.len() != "Back"@.len());
            reveal_strlit("Left");
            assert("FrontBottom"@.len() != "Left"@.len());
            reveal_strlit("Top");
            assert("FrontBottom"@.len() != "Top"@.len());
            reveal_strlit("Bottom");
            assert("FrontBottom"@.len() != "Bottom"@.len());
            reveal_strlit("FrontRight");
            assert("FrontBottom"@.len() != "FrontRight"@.len());
            reveal_strlit("BackRight");
            assert("FrontBottom"@.len() != "BackRight"@.len());
            reveal_strlit("BackLeft");
            assert("FrontBottom"@.len() != "BackLeft"@.len());
            reveal_strlit("FrontLeft");
            assert("FrontBottom"@.len() != "FrontLeft"@.len());
            reveal_strlit("FrontTop");
            assert("FrontBottom"@.len() != "FrontTop"@.len());
            reveal_strlit("BackTop");
            assert("FrontBottom"@.len() != "BackTop"@.len());
        },
        CameraAngle::BackBottom => {
            reveal_strlit("BackBottom");
            reveal_strlit("Front");
            assert("BackBottom"@.len() != "Front"@.len());
            reveal_strlit("Right");
            assert("BackBottom"@.len() != "Right"@.len());
            reveal_strlit("Back");
            assert("BackBottom"@.len() != "Back"@.len());
            reveal_strlit("Left");
            assert("BackBottom"@.len() != "Left"@.len());
            reveal_strlit("Top");
            assert("BackBottom"@.len() != "Top"@.len());
            reveal_strlit("Bottom");
            assert("BackBottom"@.len() != "Bottom"@.len());
            reveal_strlit("FrontRight");
            assert("BackBottom"@[0] != "FrontRight"@[0]);
            reveal_strlit("BackRight");
            assert("BackBottom"@.len() != "BackRight"@.len());
            reveal_strlit("BackLeft");
            assert("BackBottom"@.len() != "BackLeft"@.len());
            reveal_strlit("FrontLeft");
            assert("BackBottom"@.len() != "FrontLeft"@.len());
            reveal_strlit("FrontTop");
            assert("BackBottom"@.len() != "FrontTop"@.len());
            reveal_strlit("BackTop");
            assert("BackBottom"@.len() != "BackTop"@.len());
            reveal_strlit("FrontBottom");
            assert("BackBottom"@.len() != "FrontBottom"@.len());
        },
        CameraAngle::RightTop => {
            reveal_strlit("RightTop");
            reveal_strlit("Front");
            assert("RightTop"@.len() != "Front"@.len());
            reveal_strlit("Right");
            assert("RightTop"@.len() != "Right"@.len());
            reveal_strlit("Back");
            assert("RightTop"@.len() != "Back"@.len());
            reveal_strlit("Left");
            assert("RightTop"@.len() != "Left"@.len());
            reveal_strlit("Top");
            assert("RightTop"@.len() != "Top"@.len());
            reveal_strlit("Bottom");
            assert("RightTop"@.len() != "Bottom"@.len());
            reveal_strlit("FrontRight");
            assert("RightTop"@.len() != "FrontRight"@.len());
            reveal_strlit("BackRight");
            assert("RightTop"@.len() != "BackRight"@.len());
            reveal_strlit("BackLeft");
            assert("RightTop"@[0] != "BackLeft"@[0]);
            reveal_strlit("FrontLeft");
            assert("RightTop"@.len() != "FrontLeft"@.len());
            reveal_strlit("FrontTop");
            assert("RightTop"@[0] != "FrontTop"@[0]);
            reveal_strlit("BackTop");
            assert("RightTop"@.len() != "BackTop"@.len());
            reveal_strlit("FrontBottom");
            assert("RightTop"@.len() != "FrontBottom"@.len());
            reveal_strlit("BackBottom");
            assert("RightTop"@.len() != "BackBottom"@.len());
        },
        CameraAngle::LeftTop => {
            reveal_strlit("LeftTop");
            reveal_strlit("Front");
            assert("LeftTop"@.len() != "Front"@.len());
            reveal_strlit("Right");
            assert("LeftTop"@.len() != "Right"@.len());
            reveal_strlit("Back");
            assert("LeftTop"@.len() != "Back"@.len());
            reveal_strlit("Left");
            assert("LeftTop"@.len() != "Left"@.len());
            reveal_strlit("Top");
            assert("LeftTop"@.len() != "Top"@.len());
            reveal_strlit("Bottom");
            assert("LeftTop"@.len() != "Bottom"@.len());
            reveal_strlit("FrontRight");
            assert("LeftTop"@.len() != "FrontRight"@.len());
            reveal_strlit("BackRight");
            assert("LeftTop"@.len() != "BackRight"@.len());
            reveal_strlit("BackLeft");
            assert("LeftTop"@.len() != "BackLeft"@.len());
            reveal_strlit("FrontLeft");
            assert("LeftTop"@.len() != "FrontLeft"@.len());
            reveal_strlit("FrontTop");
            assert("LeftTop"@.len() != "FrontTop"@.len());
            reveal_strlit("BackTop");
            assert("LeftTop"@[0] != "BackTop"@[0]);
            reveal_strlit("FrontBottom");
            assert("LeftTop"@.len() != "FrontBottom"@.len());
            reveal_strlit("BackBottom");
            assert("LeftTop"@.len() != "BackBottom"@.len());
            reveal_strlit("RightTop");
            assert("LeftTop"@.len() != "RightTop"@.len());
        },
        CameraAngle::RightBottom => {
            reveal_strlit("RightBottom");
            reveal_strlit("Front");
            assert("RightBottom"@.len() != "Front"@.len());
            reveal_strlit("Right");
            assert("RightBottom"@.len() != "Right"@.len());
            reveal_strlit("Back");
            assert("RightBottom"@.len() != "Back"@.len());
            reveal_strlit("Left");
            assert("RightBottom"@.len() != "Left"@.len());
            reveal_strlit("Top");
            assert("RightBottom"@.len() != "Top"@.len());
            reveal_strlit("Bottom");
            assert("RightBottom"@.len() != "Bottom"@.len());
            reveal_strlit("FrontRight");
            assert("RightBottom"@.len() != "FrontRight"@.len());
            reveal_strlit("BackRight");
            assert("RightBottom"@.len() != "BackRight"@.len());
            reveal_strlit("BackLeft");
            assert("RightBottom"@.len() != "BackLeft"@.len());
            reveal_strlit("FrontLeft");
            assert("RightBottom"@.len() != "FrontLeft"@.len());
            reveal_strlit("FrontTop");
            assert("RightBottom"@.len() != "FrontTop"@.len());
            reveal_strlit("BackTop");
            assert("RightBottom"@.len() != "BackTop"@.len());
            reveal_strlit("FrontBottom");
            assert("RightBottom"@[0] != "FrontBottom"@[0]);
            reveal_strlit("BackBottom");
            assert("RightBottom"@.len() != "BackBottom"@.len());
            reveal_strlit("RightTop");
            assert("RightBottom"@.len() != "RightTop"@.len());
            reveal_strlit("LeftTop");
            assert("RightBottom"@.len() != "LeftTop"@.len());
        },
        CameraAngle::LeftBottom => {
            reveal_strlit("LeftBottom");
            reveal_strlit("Front");
            assert("LeftBottom"@.len() != "Front"@.len());
            reveal_strlit("Right");
            assert("LeftBottom"@.len() != "Right"@.len());
            reveal_strlit("Back");
            assert("LeftBottom"@.len() != "Back"@.len());
            reveal_strlit("Left");
            assert("LeftBottom"@.len() != "Left"@.len());
            reveal_strlit("Top");
            assert("LeftBottom"@.len() != "Top"@.len());
            reveal_strlit("Bottom");
            assert("LeftBottom"@.len() != "Bottom"@.len());
            reveal_strlit("FrontRight");
            assert("LeftBottom"@[0] != "FrontRight"@[0]);
            reveal_strlit("BackRight");
            assert("LeftBottom"@.len() != "BackRight"@.len());
            reveal_strlit("BackLeft");
            assert("LeftBottom"@.len() != "BackLeft"@.len());
            reveal_strlit("FrontLeft");
            assert("LeftBottom"@.len() != "FrontLeft"@.len());
            reveal_strlit("FrontTop");
            assert("LeftBottom"@.len() != "FrontTop"@.len());
            reveal_strlit("BackTop");
            assert("LeftBottom"@.len() != "BackTop"@.len());
            reveal_strlit("FrontBottom");
            assert("LeftBottom"@.len() != "FrontBottom"@.len());
            reveal_strlit("BackBottom");
            assert("LeftBottom"@[0] != "BackBottom"@[0]);
            reveal_strlit("RightTop");
            assert("LeftBottom"@.len() != "RightTop"@.len());
            reveal_strlit("LeftTop");
            assert("LeftBottom"@.len() != "LeftTop"@.len());
            reveal_strlit("RightBottom");
            assert("LeftBottom"@.len() != "RightBottom"@.len());
        },
        CameraAngle::FrontRightTop => {
            reveal_strlit("FrontRightTop");
            reveal_strlit("Front");
            assert("FrontRightTop"@.len() != "Front"@.len());
            reveal_strlit("Right");
            assert("FrontRightTop"@.len() != "Right"@.len());
            reveal_strlit("Back");
            assert("FrontRightTop"@.len() != "Back"@.len());
            reveal_strlit("Left");
            assert("FrontRightTop"@.len() != "Left"@.len());
            reveal_strlit("Top");
            assert("FrontRightTop"@.len() != "Top"@.len());
            reveal_strlit("Bottom");
            assert("FrontRightTop"@.len() != "Bottom"@.len());
            reveal_strlit("FrontRight");
            assert("FrontRightTop"@.len() != "FrontRight"@.len());
            reveal_strlit("BackRight");
            assert("FrontRightTop"@.len() != "BackRight"@.len());
            reveal_strlit("BackLeft");
            assert("FrontRightTop"@.len() != "BackLeft"@.len());
            reveal_strlit("FrontLeft");
            assert("FrontRightTop"@.len() != "FrontLeft"@.len());
            reveal_strlit("FrontTop");
            assert("FrontRightTop"@.len() != "FrontTop"@.len());
            reveal_strlit("BackTop");
            assert("FrontRightTop"@.len() != "BackTop"@.len());
            reveal_strlit("FrontBottom");
            assert("FrontRightTop"@.len() != "FrontBottom"@.len());
            reveal_strlit("BackBottom");
            assert("FrontRightTop"@.len() != "BackBottom"@.len());
            reveal_strlit("RightTop");
            assert("FrontRightTop"@.len() != "RightTop"@.len());
            reveal_strlit("LeftTop");
            assert("FrontRightTop"@.len() != "LeftTop"@.len());
            reveal_strlit("RightBottom");
            assert("FrontRightTop"@.len() != "RightBottom"@.len());
            reveal_strlit("LeftBottom");
            assert("FrontRightTop"@.len() != "LeftBottom"@.len());
        },
        CameraAngle::BackRightTop => {
            reveal_strlit("BackRightTop");
            reveal_strlit("Front");
            assert("BackRightTop"@.len() != "Front"@.len());
            reveal_strlit("Right");
            assert("BackRightTop"@.len() != "Right"@.len());
            reveal_strlit("Back");
            assert("BackRightTop"@.len() != "Back"@.len());
            reveal_strlit("Left");
            assert("BackRightTop"@.len() != "Left"@.len());
            reveal_strlit("Top");
            assert("BackRightTop"@.len() != "Top"@.len());
            reveal_strlit("Bottom");
            assert("BackRightTop"@.len() != "Bottom"@.len());
            reveal_strlit("FrontRight");
            assert("BackRightTop"@.len() != "FrontRight"@.len());
            reveal_strlit("BackRight");
            assert("BackRightTop"@.len() != "BackRight"@.len());
            reveal_strlit("BackLeft");
            assert("BackRightTop"@.len() != "BackLeft"@.len());
            reveal_strlit("FrontLeft");
            assert("BackRightTop"@.len() != "FrontLeft"@.len());
            reveal_strlit("FrontTop");
            assert("BackRightTop"@.len() != "FrontTop"@.len());
            reveal_strlit("BackTop");
            assert("BackRightTop"@.len() != "BackTop"@.len());
            reveal_strlit("FrontBottom");
            assert("BackRightTop"@.len() != "FrontBottom"@.len());
            reveal_strlit("BackBottom");
            assert("BackRightTop"@.len() != "BackBottom"@.len());
            reveal_strlit("RightTop");
            assert("BackRightTop"@.len() != "RightTop"@.len());
            reveal_strlit("LeftTop");
            assert("BackRightTop"@.len() != "LeftTop"@.len());
            reveal_strlit("RightBottom");
            assert("BackRightTop"@.len() != "RightBottom"@.len());
            reveal_strlit("LeftBottom");
            assert("BackRightTop"@.len() != "LeftBottom"@.len());
            reveal_strlit("FrontRightTop");
            assert("BackRightTop"@.len() != "FrontRightTop"@.len());
        },
        CameraAngle::BackLeftTop => {
            reveal_strlit("BackLeftTop");
            reveal_strlit("Front");
            assert("BackLeftTop"@.len() != "Front"@.len());
            reveal_strlit("Right");
            assert("BackLeftTop"@.len() != "Right"@.len());
            reveal_strlit("Back");
            assert("BackLeftTop"@.len() != "Back"@.len());
            reveal_strlit("Left");
            assert("BackLeftTop"@.len() != "Left"@.len());
            reveal_strlit("Top");
            assert("BackLeftTop"@.len() != "Top"@.len());
            reveal_strlit("Bottom");
            assert("BackLeftTop"@.len() != "Bottom"@.len());
            reveal_strlit("FrontRight");
            assert("BackLeftTop"@.len() != "FrontRight"@.len());
            reveal_strlit("BackRight");
            assert("BackLeftTop"@.len() != "BackRight"@.len());
            reveal_strlit("BackLeft");
            assert("BackLeftTop"@.len() != "BackLeft"@.len());
            reveal_strlit("FrontLeft");
            assert("BackLeftTop"@.len() != "FrontLeft"@.len());
            reveal_strlit("FrontTop");
            assert("BackLeftTop"@.len() != "FrontTop"@.len());
            reveal_strlit("BackTop");
            assert("BackLeftTop"@.len() != "BackTop"@.len());
            reveal_strlit("FrontBottom");
            assert("BackLeftTop"@[0] != "FrontBottom"@[0]);
            reveal_strlit("BackBottom");
            assert("BackLeftTop"@.len() != "BackBottom"@.len());
            reveal_strlit("RightTop");
            assert("BackLeftTop"@.len() != "RightTop"@.len());
            reveal_strlit("LeftTop");
            assert("BackLeftTop"@.len() != "LeftTop"@.len());
            reveal_strlit("RightBottom");
            assert("BackLeftTop"@[0] != "RightBottom"@[0]);
            reveal_strlit("LeftBottom");
            assert("BackLeftTop"@.len() != "LeftBottom"@.len());
            reveal_strlit("FrontRightTop");
            assert("BackLeftTop"@.len() != "FrontRightTop"@.len());
            reveal_strlit("BackRightTop");
            assert("BackLeftTop"@.len() != "BackRightTop"@.len());
        },
        CameraAngle::FrontLeftTop => {
            reveal_strlit("FrontLeftTop");
            reveal_strlit("Front");
            assert("FrontLeftTop"@.len() != "Front"@.len());
            reveal_strlit("Right");
            assert("FrontLeftTop"@.len() != "Right"@.len());
            reveal_strlit("Back");
            assert("FrontLeftTop"@.len() != "Back"@.len());
            reveal_strlit("Left");
            assert("FrontLeftTop"@.len() != "Left"@.len());
            reveal_strlit("Top");
            assert("FrontLeftTop"@.len() != "Top"@.len());
            reveal_strlit("Bottom");
            assert("FrontLeftTop"@.len() != "Bottom"@.len());
            reveal_strlit("FrontRight");
            assert("FrontLeftTop"@.len() != "FrontRight"@.len());
            reveal_strlit("BackRight");
            assert("FrontLeftTop"@.len() != "BackRight"@.len());
            reveal_strlit("BackLeft");
            assert("FrontLeftTop"@.len() != "BackLeft"@.len());
            reveal_strlit("FrontLeft");
            assert("FrontLeftTop"@.len() != "FrontLeft"@.len());
            reveal_strlit("FrontTop");
            assert("FrontLeftTop"@.len() != "FrontTop"@.len());
            reveal_strlit("BackTop");
            assert("FrontLeftTop"@.len() != "BackTop"@.len());
            reveal_strlit("FrontBottom");
            assert("FrontLeftTop"@.len() != "FrontBottom"@.len());
            reveal_strlit("BackBottom");
            assert("FrontLeftTop"@.len() != "BackBottom"@.len());
            reveal_strlit("RightTop");
            assert("FrontLeftTop"@.len() != "RightTop"@.len());
            reveal_strlit("LeftTop");
            assert("FrontLeftTop"@.len() != "LeftTop"@.len());
            reveal_strlit("RightBottom");
            assert("FrontLeftTop"@.len() != "RightBottom"@.len());
            reveal_strlit("LeftBottom");
            assert("FrontLeftTop"@.len() != "LeftBottom"@.len());
            reveal_strlit("FrontRightTop");
            assert("FrontLeftTop"@.len() != "FrontRightTop"@.len());
            reveal_strlit("BackRightTop");
            assert("FrontLeftTop"@[0] != "BackRightTop"@[0]);
            reveal_strlit("BackLeftTop");
            assert("FrontLeftTop"@.len() != "BackLeftTop"@.len());
        },
        CameraAngle::FrontRightBottom => {
            reveal_strlit("FrontRightBottom");
            reveal_strlit("Front");
            assert("FrontRightBottom"@.len() != "Front"@.len());
            reveal_strlit("Right");
            assert("FrontRightBottom"@.len() != "Right"@.len());
            reveal_strlit("Back");
            assert("FrontRightBottom"@.len() != "Back"@.len());
            reveal_strlit("Left");
            assert("FrontRightBottom"@.len() != "Left"@.len());
            reveal_strlit("Top");
            assert("FrontRightBottom"@.len() != "Top"@.len());
            reveal_strlit("Bottom");
            assert("FrontRightBottom"@.len() != "Bottom"@.len());
            reveal_strlit("FrontRight");
            assert("FrontRightBottom"@.len() != "FrontRight"@.len());
            reveal_strlit("BackRight");
            assert("FrontRightBottom"@.len() != "BackRight"@.len());
            reveal_strlit("BackLeft");
            assert("FrontRightBottom"@.len() != "BackLeft"@.len());
            reveal_strlit("FrontLeft");
            assert("FrontRightBottom"@.len() != "FrontLeft"@.len());
            reveal_strlit("FrontTop");
            assert("FrontRightBottom"@.len() != "FrontTop"@.len());
            reveal_strlit("BackTop");
            assert("FrontRightBottom"@.len() != "BackTop"@.len());
            reveal_strlit("FrontBottom");
            assert("FrontRightBottom"@.len() != "FrontBottom"@.len());
            reveal_strlit("BackBottom");
            assert("FrontRightBottom"@.len() != "BackBottom"@.len());
            reveal_strlit("RightTop");
            assert("FrontRightBottom"@.len() != "RightTop"@.len());
            reveal_strlit("LeftTop");
            assert("FrontRightBottom"@.len() != "LeftTop"@.len());
            reveal_strlit("RightBottom");
            assert("FrontRightBottom"@.len() != "RightBottom"@.len());
            reveal_strlit("LeftBottom");
            assert("FrontRightBottom"@.len() != "LeftBottom"@.len());
            reveal_strlit("FrontRightTop");
            assert("FrontRightBottom"@.len() != "FrontRightTop"@.len());
            reveal_strlit("BackRightTop");
            assert("FrontRightBottom"@.len() != "BackRightTop"@.len());
            reveal_strlit("BackLeftTop");
            assert("FrontRightBottom"@.len() != "BackLeftTop"@.len());
            reveal_strlit("FrontLeftTop");
            assert("FrontRightBottom"@.len() != "FrontLeftTop"@.len());
        },
        CameraAngle::BackRightBottom => {
            reveal_strlit("BackRightBottom");
            reveal_strlit("Front");
            assert("BackRightBottom"@.len() != "Front"@.len());
            reveal_strlit("Right");
            assert("BackRightBottom"@.len() != "Right"@.len());
            reveal_strlit("Back");
            assert("BackRightBottom"@.len() != "Back"@.len());
            reveal_strlit("Left");
            assert("BackRightBottom"@.len() != "Left"@.len());
            reveal_strlit("Top");
            assert("BackRightBottom"@.len() != "Top"@.len());
            reveal_strlit("Bottom");
            assert("BackRightBottom"@.len() != "Bottom"@.len());
            reveal_strlit("FrontRight");
            assert("BackRightBottom"@.len() != "FrontRight"@.len());
            reveal_strlit("BackRight");
            assert("BackRightBottom"@.len() != "BackRight"@.len());
            reveal_strlit("BackLeft");
            assert("BackRightBottom"@.len() != "BackLeft"@.len());
            reveal_strlit("FrontLeft");
            assert("BackRightBottom"@.len() != "FrontLeft"@.len());
            reveal_strlit("FrontTop");
            assert("BackRightBottom"@.len() != "FrontTop"@.len());
            reveal_strlit("BackTop");
            assert("BackRightBottom"@.len() != "BackTop"@.len());
            reveal_strlit("FrontBottom");
            assert("BackRightBottom"@.len() != "FrontBottom"@.len());
            reveal_strlit("BackBottom");
            assert("BackRightBottom"@.len() != "BackBottom"@.len());
            reveal_strlit("RightTop");
            assert("BackRightBottom"@.len() != "RightTop"@.len());
            reveal_strlit("LeftTop");
            assert("BackRightBottom"@.len() != "LeftTop"@.len());
            reveal_strlit("RightBottom");
            assert("BackRightBottom"@.len() != "RightBottom"@.len());
            reveal_strlit("LeftBottom");
            assert("BackRightBottom"@.len() != "LeftBottom"@.len());
            reveal_strlit("FrontRightTop");
            assert("BackRightBottom"@.len() != "FrontRightTop"@.len());
            reveal_strlit("BackRightTop");
            assert("BackRightBottom"@.len() != "BackRightTop"@.len());
            reveal_strlit("BackLeftTop");
            assert("BackRightBottom"@.len() != "BackLeftTop"@.len());
            reveal_strlit("FrontLeftTop");
            assert("BackRightBottom"@.len() != "FrontLeftTop"@.len());
            reveal_strlit("FrontRightBottom");
            assert("BackRightBottom"@.len() != "FrontRightBottom"@.len());
        },
        CameraAngle::BackLeftBottom => {
            reveal_strlit("BackLeftBottom");
            reveal_strlit("Front");
            assert("BackLeftBottom"@.len() != "Front"@.len());
            reveal_strlit("Right");
            assert("BackLeftBottom"@.len() != "Right"@.len());
            reveal_strlit("Back");
            assert("BackLeftBottom"@.len() != "Back"@.len());
            reveal_strlit("Left");
            assert("BackLeftBottom"@.len() != "Left"@.len());
            reveal_strlit("Top");
            assert("BackLeftBottom"@.len() != "Top"@.len());
            reveal_strlit("Bottom");
            assert("BackLeftBottom"@.len() != "Bottom"@.len());
            reveal_strlit("FrontRight");
            assert("BackLeftBottom"@.len() != "FrontRight"@.len());
            reveal_strlit("BackRight");
            assert("BackLeftBottom"@.len() != "BackRight"@.len());
            reveal_strlit("BackLeft");
            assert("BackLeftBottom"@.len() != "BackLeft"@.len());
            reveal_strlit("FrontLeft");
            assert("BackLeftBottom"@.len() != "FrontLeft"@.len());
            reveal_strlit("FrontTop");
            assert("BackLeftBottom"@.len() != "FrontTop"@.len());
            reveal_strlit("BackTop");
            assert("BackLeftBottom"@.len() != "BackTop"@.len());
            reveal_strlit("FrontBottom");
            assert("BackLeftBottom"@.len() != "FrontBottom"@.len());
            reveal_strlit("BackBottom");
            assert("BackLeftBottom"@.len() != "BackBottom"@.len());
            reveal_strlit("RightTop");
            assert("BackLeftBottom"@.len() != "RightTop"@.len());
            reveal_strlit("LeftTop");
            assert("BackLeftBottom"@.len() != "LeftTop"@.len());
            reveal_strlit("RightBottom");
            assert("BackLeftBottom"@.len() != "RightBottom"@.len());
            reveal_strlit("LeftBottom");
            assert("BackLeftBottom"@.len() != "LeftBottom"@.len());
            reveal_strlit("FrontRightTop");
            assert("BackLeftBottom"@.len() != "FrontRightTop"@.len());
            reveal_strlit("BackRightTop");
            assert("BackLeftBottom"@.len() != "BackRightTop"@.len());
            reveal_strlit("BackLeftTop");
            assert("BackLeftBottom"@.len() != "BackLeftTop"@.len());
            reveal_strlit("FrontLeftTop");
            assert("BackLeftBottom"@.len() != "FrontLeftTop"@.len());
            reveal_strlit("FrontRightBottom");
            assert("BackLeftBottom"@.len() != "FrontRightBottom"@.len());
            reveal_strlit("BackRightBottom");
            assert("BackLeftBottom"@.len() != "BackRightBottom"@.len());
        },
        CameraAngle::FrontLeftBottom => {
            reveal_strlit("FrontLeftBottom");
            reveal_strlit("Front");
            assert("FrontLeftBottom"@.len() != "Front"@.len());
            reveal_strlit("Right");
            assert("FrontLeftBottom"@.len() != "Right"@.len());
            reveal_strlit("Back");
            assert("FrontLeftBottom"@.len() != "Back"@.len());
            reveal_strlit("Left");
            assert("FrontLeftBottom"@.len() != "Left"@.len());
            reveal_strlit("Top");
            assert("FrontLeftBottom"@.len() != "Top"@.len());
            reveal_strlit("Bottom");
            assert("FrontLeftBottom"@.len() != "Bottom"@.len());
            reveal_strlit("FrontRight");
            assert("FrontLeftBottom"@.len() != "FrontRight"@.len());
            reveal_strlit("BackRight");
            assert("FrontLeftBottom"@.len() != "BackRight"@.len());
            reveal_strlit("BackLeft");
            assert("FrontLeftBottom"@.len() != "BackLeft"@.len());
            reveal_strlit("FrontLeft");
            assert("FrontLeftBottom"@.len() != "FrontLeft"@.len());
            reveal_strlit("FrontTop");
            assert("FrontLeftBottom"@.len() != "FrontTop"@.len());
            reveal_strlit("BackTop");
            assert("FrontLeftBottom"@.len() != "BackTop"@.len());
            reveal_strlit("FrontBottom");
            assert("FrontLeftBottom"@.len() != "FrontBottom"@.len());
            reveal_strlit("BackBottom");
            assert("FrontLeftBottom"@.len() != "BackBottom"@.len());
            reveal_strlit("RightTop");
            assert("FrontLeftBottom"@.len() != "RightTop"@.len());
            reveal_strlit("LeftTop");
            assert("FrontLeftBottom"@.len() != "LeftTop"@.len());
            reveal_strlit("RightBottom");
            assert("FrontLeftBottom"@.len() != "RightBottom"@.len());
            reveal_strlit("LeftBottom");
            assert("FrontLeftBottom"@.len() != "LeftBottom"@.len());
            reveal_strlit("FrontRightTop");
            assert("FrontLeftBottom"@.len() != "FrontRightTop"@.len());
            reveal_strlit("BackRightTop");
            assert("FrontLeftBottom"@.len() != "BackRightTop"@.len());
            reveal_strlit("BackLeftTop");
            assert("FrontLeftBottom"@.len() != "BackLeftTop"@.len());
            reveal_strlit("FrontLeftTop");
            assert("FrontLeftBottom"@.len() != "FrontLeftTop"@.len());
            reveal_strlit("FrontRightBottom");
            assert("FrontLeftBottom"@.len() != "FrontRightBottom"@.len());
            reveal_strlit("BackRightBottom");
            assert("FrontLeftBottom"@[0] != "BackRightBottom"@[0]);
            reveal_strlit("BackLeftBottom");
            assert("FrontLeftBottom"@.len() != "BackLeftBottom"@.len());
        },
    }
}

/// The pitch (rotation about x, in degrees) of a preset.
pub open spec fn pitch(a: CameraAngle) -> int {
    spec_rotation_degrees(a).0
}

/// The yaw (rotation about y, in degrees) of a preset.
pub open spec fn yaw(a: CameraAngle) -> int {
    spec_rotation_degrees(a).1
}

/// The preset seen in a left-right mirror: left and right swap.
pub open spec fn mirror_left_right(a: CameraAngle) -> CameraAngle {
    match a {
        CameraAngle::Right => CameraAngle::Left,
        CameraAngle::Left => CameraAngle::Right,
        CameraAngle::FrontRight => CameraAngle::FrontLeft,
        CameraAngle::FrontLeft => CameraAngle::FrontRight,
        CameraAngle::BackRight => CameraAngle::BackLeft,
        CameraAngle::BackLeft => CameraAngle::BackRight,
        CameraAngle::RightTop => CameraAngle::LeftTop,
        CameraAngle::LeftTop => CameraAngle::RightTop,
        CameraAngle::RightBottom => CameraAngle::LeftBottom,
        CameraAngle::LeftBottom => CameraAngle::RightBottom,
        CameraAngle::FrontRightTop => CameraAngle::FrontLeftTop,
        CameraAngle::FrontLeftTop => CameraAngle::FrontRightTop,
        CameraAngle::BackRightTop => CameraAngle::BackLeftTop,
        CameraAngle::BackLeftTop => CameraAngle::BackRightTop,
        CameraAngle::FrontRightBottom => CameraAngle::FrontLeftBottom,
        CameraAngle::FrontLeftBottom => CameraAngle::FrontRightBottom,
        CameraAngle::BackRightBottom => CameraAngle::BackLeftBottom,
        CameraAngle::BackLeftBottom => CameraAngle::BackRightBottom,
        other => other,
    }
}

/// The preset seen in a top-bottom mirror: top and bottom swap.
pub open spec fn mirror_top_bottom(a: CameraAngle) -> CameraAngle {
    match a {
        CameraAngle::Top => CameraAngle::Bottom,
        CameraAngle::Bottom => CameraAngle::Top,
        CameraAngle::FrontTop => CameraAngle::FrontBottom,
        CameraAngle::FrontBottom => CameraAngle::FrontTop,
        CameraAngle::BackTop => CameraAngle::BackBottom,
        CameraAngle::BackBottom => CameraAngle::BackTop,
        CameraAngle::RightTop => CameraAngle::RightBottom,
        CameraAngle::RightBottom => CameraAngle::RightTop,
        CameraAngle::LeftTop => CameraAngle::LeftBottom,
        CameraAngle::LeftBottom => CameraAngle::LeftTop,
        CameraAngle::FrontRightTop => CameraAngle::FrontRightBottom,
        CameraAngle::FrontRightBottom => CameraAngle::FrontRightTop,
        CameraAngle::BackRightTop => CameraAngle::BackRightBottom,
        CameraAngle::BackRightBottom => CameraAngle::BackRightTop,
        CameraAngle::BackLeftTop => CameraAngle::BackLeftBottom,
        CameraAngle::BackLeftBottom => CameraAngle::BackLeftTop,
        CameraAngle::FrontLeftTop => CameraAngle::FrontLeftBottom,
        CameraAngle::FrontLeftBottom => CameraAngle::FrontLeftTop,
        other => other,
    }
}

/// The part of a preset around the vertical axis: the preset without its
/// top or bottom (`None` for the top and bottom faces themselves).
pub open spec fn side_part(a: CameraAngle) -> Option<CameraAngle> {
    match a {
        CameraAngle::Top | CameraAngle::Bottom => None,
        CameraAngle::FrontTop | CameraAngle::FrontBottom => Some(CameraAngle::Front),
        CameraAngle::BackTop | CameraAngle::BackBottom => Some(CameraAngle::Back),
        CameraAngle::RightTop | CameraAngle::RightBottom => Some(CameraAngle::Right),
        CameraAngle::LeftTop | CameraAngle::LeftBottom => Some(CameraAngle::Left),
        CameraAngle::FrontRightTop | CameraAngle::FrontRightBottom => Some(CameraAngle::FrontRight),
        CameraAngle::BackRightTop | CameraAngle::BackRightBottom => Some(CameraAngle::BackRight),
        CameraAngle::BackLeftTop | CameraAngle::BackLeftBottom => Some(CameraAngle::BackLeft),
        CameraAngle::FrontLeftTop | CameraAngle::FrontLeftBottom => Some(CameraAngle::FrontLeft),
        other => Some(other),
    }
}

/// Whether a preset looks from above (its name ends in "Top") or from below
/// (in "Bottom"), other than the top and bottom faces themselves.
pub open spec fn tilted(a: CameraAngle) -> Option<bool> {
    match a {
        CameraAngle::FrontTop | CameraAngle::BackTop | CameraAngle::RightTop | CameraAngle::LeftTop
        | CameraAngle::FrontRightTop | CameraAngle::BackRightTop | CameraAngle::BackLeftTop
        | CameraAngle::FrontLeftTop => Some(true),
        CameraAngle::FrontBottom | CameraAngle::BackBottom | CameraAngle::RightBottom
        | CameraAngle::LeftBottom | CameraAngle::FrontRightBottom | CameraAngle::BackRightBottom
        | CameraAngle::BackLeftBottom | CameraAngle::FrontLeftBottom => Some(false),
        _ => None,
    }
}

/// The faces of the gizmo: the front is seen straight on; the right and
/// left sides are a quarter turn about the vertical axis, to opposite sides;
/// the back is a half turn; the top and bottom are a quarter turn about the
/// horizontal axis, to opposite sides (the top's pitch of 270 is a quarter
/// turn upwards); a side face has no pitch and a top or bottom face no yaw.
pub proof fn law_preset_faces()
    ensures
        spec_rotation_degrees(CameraAngle::Front) == (0int, 0int),
        spec_rotation_degrees(CameraAngle::Right) == (0int, -90int),
        spec_rotation_degrees(CameraAngle::Left) == (0int, 90int),
        yaw(CameraAngle::Left) == -yaw(CameraAngle::Right),
        spec_rotation_degrees(CameraAngle::Back) == (0int, 180int),
        spec_rotation_degrees(CameraAngle::Top) == (270int, 0int),
        spec_rotation_degrees(CameraAngle::Bottom) == (90int, 0int),
        pitch(CameraAngle::Top) - 360 == -pitch(CameraAngle::Bottom),
{
}

/// Mirroring a preset left to right keeps its pitch and turns its yaw the
/// other way (a yaw of 180 is its own mirror): the left presets mirror the
/// right ones.
pub proof fn law_left_right_mirror(a: CameraAngle)
    ensures
        pitch(mirror_left_right(a)) == pitch(a),
        (yaw(mirror_left_right(a)) + yaw(a)) % 360 == 0,
        mirror_left_right(mirror_left_right(a)) == a,
{
}

/// Mirroring a preset top to bottom keeps its yaw and tilts it the other
/// way.
pub proof fn law_top_bottom_mirror(a: CameraAngle)
    ensures
        yaw(mirror_top_bottom(a)) == yaw(a),
        (pitch(mirror_top_bottom(a)) + pitch(a)) % 360 == 0,
        mirror_top_bottom(mirror_top_bottom(a)) == a,
{
}

/// A preset is built from its parts: it turns about the vertical axis as
/// its side part does; a preset from above is tilted up by an eighth of a
/// turn, one from below down by an eighth, and one that is neither (a side
/// face or a vertical edge) is not tilted.
pub proof fn law_preset_parts(a: CameraAngle)
    ensures
        side_part(a) matches Some(s) ==> yaw(a) == yaw(s),
        side_part(a) matches Some(s) ==> pitch(s) == 0,
        tilted(a) == Some(true) ==> pitch(a) == -45,
        tilted(a) == Some(false) ==> pitch(a) == 45,
        tilted(a) is None && side_part(a) is Some ==> pitch(a) == 0,
{
}

/// A vertical edge looks half way between its two faces: the front edges
/// half way between the front and the side, the back edges half way
/// between the back (a half turn either way) and the side.
pub proof fn law_vertical_edges_half_way()
    ensures
        2 * yaw(CameraAngle::FrontRight) == yaw(CameraAngle::Front) + yaw(CameraAngle::Right),
        2 * yaw(CameraAngle::FrontLeft) == yaw(CameraAngle::Front) + yaw(CameraAngle::Left),
        2 * yaw(CameraAngle::BackRight) == (yaw(CameraAngle::Back) - 360) + yaw(CameraAngle::Right),
        2 * yaw(CameraAngle::BackLeft) == yaw(CameraAngle::Back) + yaw(CameraAngle::Left),
{
}

} // verus!

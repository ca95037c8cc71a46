//! The discrete zoom steps of the camera rig. Only the step arithmetic lives
//! here; the projection mathematics is the camera collaborator's.

use vstd::prelude::*;

verus! {

/// A discrete zoom step, from closest in to furthest out.
#[allow(non_camel_case_types)]
#[derive(Clone, Copy, PartialEq, Eq, Structural, Debug)]
pub enum ZoomLevel {
    REALLYSMALL,
    SMALL,
    NORMAL,
    BIG,
    REALLYBIG,
}

impl ZoomLevel {
    /// The projection scale of each zoom step.
    pub open spec fn spec_value(self) -> i32 {
        match self {
            ZoomLevel::REALLYSMALL => 6,
            ZoomLevel::SMALL => 10,
            ZoomLevel::NORMAL => 12,
            ZoomLevel::BIG => 15,
            ZoomLevel::REALLYBIG => 20,
        }
    }

    /// The next step further out; the furthest step saturates.
    pub open spec fn spec_unzoom(self) -> ZoomLevel {
        match self {
            ZoomLevel::REALLYSMALL => ZoomLevel::SMALL,
            ZoomLevel::SMALL => ZoomLevel::NORMAL,
            ZoomLevel::NORMAL => ZoomLevel::BIG,
            ZoomLevel::BIG => ZoomLevel::REALLYBIG,
            ZoomLevel::REALLYBIG => ZoomLevel::REALLYBIG,
        }
    }

    /// The next step closer in; the closest step saturates.
    pub open spec fn spec_zoom(self) -> ZoomLevel {
        match self {
            ZoomLevel::REALLYBIG => ZoomLevel::BIG,
            ZoomLevel::BIG => ZoomLevel::NORMAL,
            ZoomLevel::NORMAL => ZoomLevel::SMALL,
            ZoomLevel::SMALL => ZoomLevel::REALLYSMALL,
            ZoomLevel::REALLYSMALL => ZoomLevel::REALLYSMALL,
        }
    }

    /// Reads the projection scale of this zoom step.
    pub fn value(&self) -> (v: i32)
        ensures
            v == self.spec_value(),
    {
        match self {
            ZoomLevel::REALLYSMALL => 6,
            ZoomLevel::SMALL => 10,
            ZoomLevel::NORMAL => 12,
            ZoomLevel::BIG => 15,
            ZoomLevel::REALLYBIG => 20,
        }
    }

    /// Steps one zoom level further out.
    pub fn unzoom(&self) -> (r: Option<ZoomLevel>)
        ensures
            r == Some(self.spec_unzoom()),
    {
        match self {
            ZoomLevel::REALLYSMALL => Some(ZoomLevel::SMALL),
            ZoomLevel::SMALL => Some(ZoomLevel::NORMAL),
            ZoomLevel::NORMAL => Some(ZoomLevel::BIG),
            ZoomLevel::BIG => Some(ZoomLevel::REALLYBIG),
            ZoomLevel::REALLYBIG => Some(ZoomLevel::REALLYBIG),
        }
    }

    /// Steps one zoom level closer in.
    pub fn zoom(&self) -> (r: Option<ZoomLevel>)
        ensures
            r == Some(self.spec_zoom()),
    {
        match self {
            ZoomLevel::REALLYBIG => Some(ZoomLevel::BIG),
            ZoomLevel::BIG => Some(ZoomLevel::NORMAL),
            ZoomLevel::NORMAL => Some(ZoomLevel::SMALL),
            ZoomLevel::SMALL => Some(ZoomLevel::REALLYSMALL),
            ZoomLevel::REALLYSMALL => Some(ZoomLevel::REALLYSMALL),
        }
    }

    /// The zoom step with the given projection scale, if any.
    pub open spec fn spec_get_from_i32(value: i32) -> Option<ZoomLevel> {
        if value == 6 {
            Some(ZoomLevel::REALLYSMALL)
        } else if value == 10 {
            Some(ZoomLevel::SMALL)
        } else if value == 12 {
            Some(ZoomLevel::NORMAL)
        } else if value == 15 {
            Some(ZoomLevel::BIG)
        } else if value == 20 {
            Some(ZoomLevel::REALLYBIG)
        } else {
            None
        }
    }

    /// Looks the zoom step with the given projection scale up.
    pub fn get_from_i32(value: i32) -> (r: Option<ZoomLevel>)
        ensures
            r == ZoomLevel::spec_get_from_i32(value),
    {
        if value == 6 {
            Some(ZoomLevel::REALLYSMALL)
        } else if value == 10 {
            Some(ZoomLevel::SMALL)
        } else if value == 12 {
            Some(ZoomLevel::NORMAL)
        } else if value == 15 {
            Some(ZoomLevel::BIG)
        } else if value == 20 {
            Some(ZoomLevel::REALLYBIG)
        } else {
            None
        }
    }
}

} // verus!

//! The presentation surface and the debug messenger: two objects of the
//! instance that are destroyed once, at the very end.

use crate::device::Request;
use ash::vk;
use vstd::prelude::*;

verus! {

/// The surface that the swapchain presents to.
#[derive(Clone, Copy, Debug)]
pub struct Surface {
    /// The surface itself; `None` once it has been destroyed.
    pub inner: Option<vk::SurfaceKHR>,
}

impl Surface {
    /// Wraps a surface that has just been created.
    pub fn new(surface: vk::SurfaceKHR) -> (r: Self)
        ensures
            r.inner == Some(surface),
    {
        Surface { inner: Some(surface) }
    }

    /// Gives up the surface: the result is the request that destroys it, or
    /// `None` where it has been destroyed already.
    pub fn destroy(&mut self) -> (r: Option<Request>)
        ensures
            r == match old(self).inner {
                Some(surface) => Some(Request::DestroySurface(surface)),
                None => None::<Request>,
            },
            final(self).inner is None,
    {
        match self.inner {
            Some(surface) => {
                self.inner = None;
                Some(Request::DestroySurface(surface))
            },
            None => None,
        }
    }
}

/// The messenger through which the validation layers report.
#[must_use]
#[derive(Clone, Copy, Debug)]
pub struct DebugUtils {
    /// The messenger itself; `None` once it has been destroyed.
    pub debug_messenger: Option<vk::DebugUtilsMessengerEXT>,
}

/// How loud a message of the validation layers is reported.
#[derive(Clone, Copy, Debug, PartialEq, Eq, Structural)]
pub enum LogLevel {
    Error,
    Warn,
    Info,
    Debug,
}

impl DebugUtils {
    /// The severities that the messenger is created for: errors and
    /// warnings.
    pub open spec fn spec_severities() -> u32 {
        crate::consts::SEVERITY_ERROR | crate::consts::SEVERITY_WARNING
    }

    /// The severities that the messenger is created for.
    pub fn severities() -> (r: u32)
        ensures
            r == Self::spec_severities(),
    {
        crate::consts::SEVERITY_ERROR | crate::consts::SEVERITY_WARNING
    }

    /// Wraps a messenger that has just been created.
    pub fn new(messenger: vk::DebugUtilsMessengerEXT) -> (r: Self)
        ensures
            r.debug_messenger == Some(messenger),
    {
        DebugUtils { debug_messenger: Some(messenger) }
    }

    /// Gives up the messenger: the result is the request that destroys it,
    /// or `None` where it has been destroyed already.
    pub fn destroy(&mut self) -> (r: Option<Request>)
        ensures
            r == match old(self).debug_messenger {
                Some(messenger) => Some(Request::DestroyDebugMessenger(messenger)),
                None => None::<Request>,
            },
            final(self).debug_messenger is None,
    {
        match self.debug_messenger {
            Some(messenger) => {
                self.debug_messenger = None;
                Some(Request::DestroyDebugMessenger(messenger))
            },
            None => None,
        }
    }

    /// The level at which a message of the given severity flags is
    /// reported: that of the gravest flag that is set, or none where no
    /// known flag is set.
    pub open spec fn spec_level(severity: u32) -> Option<LogLevel> {
        if severity & crate::consts::SEVERITY_ERROR != 0 {
            Some(LogLevel::Error)
        } else if severity & crate::consts::SEVERITY_WARNING != 0 {
            Some(LogLevel::Warn)
        } else if severity & crate::consts::SEVERITY_INFO != 0 {
            Some(LogLevel::Info)
        } else if severity & crate::consts::SEVERITY_VERBOSE != 0 {
            Some(LogLevel::Debug)
        } else {
            None
        }
    }

    /// The level at which a message of the given severity flags is
    /// reported.
    pub fn callback(severity: u32) -> (r: Option<LogLevel>)
        ensures
            r == Self::spec_level(severity),
    {
        if severity & crate::consts::SEVERITY_ERROR != 0 {
            Some(LogLevel::Error)
        } else if severity & crate::consts::SEVERITY_WARNING != 0 {
            Some(LogLevel::Warn)
        } else if severity & crate::consts::SEVERITY_INFO != 0 {
            Some(LogLevel::Info)
        } else if severity & crate::consts::SEVERITY_VERBOSE != 0 {
            Some(LogLevel::Debug)
        } else {
            None
        }
    }
}

} // verus!

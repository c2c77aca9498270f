//! The failures of an acquisition.

use vstd::prelude::*;

verus! {

/// Why an acquisition ended without a usable context. Each kind belongs to
/// exactly one step of the sequence.
#[derive(Debug, PartialEq, Eq, Hash)]
pub enum HeadlessError {
    /// The platform listed no rendering device, or refused to list them.
    NoDevicesAvailable,
    /// The platform refused to open a display on the selected device.
    DisplayCreationFailed,
    /// The display offers no configuration for surfaceless rendering.
    NoConfigsAvailable,
    /// Context creation failed under the default profile and under the
    /// fallback profile.
    ContextCreationFailed,
    /// The created context could not be made current without a surface.
    ContextActivationFailed,
    /// The consumer of the graphics functions could not be set up on them.
    /// Holds what the consumer reported of its failure, where it reported
    /// anything.
    GraphicsContextInitFailed(Option<String>),
}

/// The two groups of failure that a caller has to tell apart.
#[derive(Clone, Copy, Debug, PartialEq, Eq, Hash, Structural)]
pub enum FailureClass {
    /// The platform yielded no current context.
    NoGraphicsContext,
    /// A context was current, but the graphics functions could not be set up.
    GraphicsContextInit,
}

impl Clone for HeadlessError {
    /// The same failure, with the same report.
    fn clone(&self) -> (copy: HeadlessError)
        ensures
            copy == *self,
    {
        match self {
            HeadlessError::NoDevicesAvailable => HeadlessError::NoDevicesAvailable,
            HeadlessError::DisplayCreationFailed => HeadlessError::DisplayCreationFailed,
            HeadlessError::NoConfigsAvailable => HeadlessError::NoConfigsAvailable,
            HeadlessError::ContextCreationFailed => HeadlessError::ContextCreationFailed,
            HeadlessError::ContextActivationFailed => HeadlessError::ContextActivationFailed,
            HeadlessError::GraphicsContextInitFailed(Some(report)) => {
                HeadlessError::GraphicsContextInitFailed(Some(report.clone()))
            },
            HeadlessError::GraphicsContextInitFailed(None) => {
                HeadlessError::GraphicsContextInitFailed(None)
            },
        }
    }
}

impl HeadlessError {
    /// The group a failure belongs to.
    pub open spec fn class_of(self) -> FailureClass {
        if self is GraphicsContextInitFailed {
            FailureClass::GraphicsContextInit
        } else {
            FailureClass::NoGraphicsContext
        }
    }

    /// What the consumer reported, for a failure that wraps a report.
    pub open spec fn report_of(self) -> Option<Seq<char>> {
        match self {
            HeadlessError::GraphicsContextInitFailed(Some(report)) => Some(report@),
            _ => None,
        }
    }

    /// The text that names the kind of a failure.
    pub open spec fn kind_text(self) -> Seq<char> {
        match self {
            HeadlessError::NoDevicesAvailable => "no rendering device available"@,
            HeadlessError::DisplayCreationFailed => "failed to create a display for the device"@,
            HeadlessError::NoConfigsAvailable => "no surfaceless configuration available"@,
            HeadlessError::ContextCreationFailed => "failed to create a rendering context"@,
            HeadlessError::ContextActivationFailed => "failed to make the context current"@,
            HeadlessError::GraphicsContextInitFailed(_) => "failed to initialise the graphics context"@,
        }
    }

    /// The text that describes a failure: the text of its kind, followed by
    /// a colon, a space and the wrapped report where there is one.
    pub open spec fn text_of(self) -> Seq<char> {
        match self.report_of() {
            Some(report) => self.kind_text() + ": "@ + report,
            None => self.kind_text(),
        }
    }

    /// Tells a missing platform context from a failed graphics set-up.
    pub fn class(&self) -> (c: FailureClass)
        ensures
            c == self.class_of(),
    {
        match self {
            HeadlessError::GraphicsContextInitFailed(_) => FailureClass::GraphicsContextInit,
            _ => FailureClass::NoGraphicsContext,
        }
    }

    /// What the consumer reported of its failure, if this failure wraps a
    /// report.
    pub fn report(&self) -> (report: Option<&String>)
        ensures
            report is Some <==> self.report_of() is Some,
            report matches Some(text) ==> self == HeadlessError::GraphicsContextInitFailed(
                Some(*text),
            ),
    {
        match self {
            HeadlessError::GraphicsContextInitFailed(Some(report)) => Some(report),
            _ => None,
        }
    }

    /// The description of the failure, as an owned string.
    pub fn message(&self) -> (text: String)
        ensures
            text@ == self.text_of(),
    {
        let mut text = match self {
            HeadlessError::NoDevicesAvailable => "no rendering device available".to_owned(),
            HeadlessError::DisplayCreationFailed => "failed to create a display for the device".to_owned(),
            HeadlessError::NoConfigsAvailable => "no surfaceless configuration available".to_owned(),
            HeadlessError::ContextCreationFailed => "failed to create a rendering context".to_owned(),
            HeadlessError::ContextActivationFailed => "failed to make the context current".to_owned(),
            HeadlessError::GraphicsContextInitFailed(_) => "failed to initialise the graphics context".to_owned(),
        };
        match self {
            HeadlessError::GraphicsContextInitFailed(Some(report)) => {
                text.append(": ");
                text.append(report.as_str());
            },
            _ => {},
        }
        text
    }
}

} // verus!

//! Clips: what a clipboard event carries and what the stores hold.

use vstd::prelude::*;

verus! {

/// Which of the two selections of the window system a clip was taken from.
#[derive(Clone, Copy, Debug, PartialEq, Eq, Structural)]
pub enum ClipboardType {
    Clipboard,
    Primary,
}

/// A clip as the contracts speak of it: the selection it was taken from and
/// the text it holds.
pub struct Clip {
    pub clipboard_type: ClipboardType,
    pub data: Seq<char>,
}

/// A change of one of the two selections, as the event source reports it.
#[derive(Debug, PartialEq, Eq)]
pub struct ClipboardEvent {
    pub clipboard_type: ClipboardType,
    pub data: String,
}

impl View for ClipboardEvent {
    type V = Clip;

    open spec fn view(&self) -> Clip {
        Clip { clipboard_type: self.clipboard_type, data: self.data@ }
    }
}

impl Clone for ClipboardEvent {
    fn clone(&self) -> (copy: Self)
        ensures
            copy == *self,
    {
        ClipboardEvent { clipboard_type: self.clipboard_type, data: self.data.clone() }
    }
}

/// A clip as the stores manage it: the content of the event it was made from
/// and the selection that event came from.
#[derive(Debug, PartialEq, Eq)]
pub struct ClipboardData {
    pub clipboard_type: ClipboardType,
    pub data: String,
}

impl View for ClipboardData {
    type V = Clip;

    open spec fn view(&self) -> Clip {
        Clip { clipboard_type: self.clipboard_type, data: self.data@ }
    }
}

impl DeepView for ClipboardData {
    type V = Clip;

    open spec fn deep_view(&self) -> Clip {
        self@
    }
}

impl Clone for ClipboardData {
    fn clone(&self) -> (copy: Self)
        ensures
            copy == *self,
    {
        ClipboardData { clipboard_type: self.clipboard_type, data: self.data.clone() }
    }
}

impl vstd::std_specs::convert::FromSpecImpl<ClipboardEvent> for ClipboardData {
    open spec fn obeys_from_spec() -> bool {
        true
    }

    open spec fn from_spec(event: ClipboardEvent) -> ClipboardData {
        ClipboardData { clipboard_type: event.clipboard_type, data: event.data }
    }
}

impl From<ClipboardEvent> for ClipboardData {
    /// The managed clip of an event: the same content, from the same selection.
    fn from(event: ClipboardEvent) -> (clip: ClipboardData)
        ensures
            clip@ == event@,
    {
        ClipboardData { clipboard_type: event.clipboard_type, data: event.data }
    }
}

} // verus!

use vstd::prelude::*;

verus! {

/// The protocol version carried in request and status lines.
#[derive(Debug, Clone, Copy, PartialEq, Eq, Structural, PartialOrd, Ord, Hash)]
pub enum RtspVersion {
    /// `RTSP/1.0`
    Rtsp10,
}

impl RtspVersion {
    /// The text of the version as it stands on the wire.
    pub open spec fn text(self) -> Seq<char> {
        match self {
            RtspVersion::Rtsp10 => "RTSP/1.0"@,
        }
    }

    /// Renders the version, e.g. `RTSP/1.0`.
    pub fn as_str(&self) -> (r: &'static str)
        ensures
            r@ == self.text(),
    {
        match self {
            RtspVersion::Rtsp10 => "RTSP/1.0",
        }
    }

    /// Renders the version as an owned string.
    pub fn to_string(&self) -> (r: String)
        ensures
            r@ == self.text(),
    {
        self.as_str().to_owned()
    }
}

impl Default for RtspVersion {
    fn default() -> (r: RtspVersion)
        ensures
            r == RtspVersion::Rtsp10,
    {
        RtspVersion::Rtsp10
    }
}

} // verus!

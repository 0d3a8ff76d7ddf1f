use vstd::prelude::*;

verus! {

/// The closed set of record kinds that an envelope's tag byte names.
#[derive(Debug, Clone, Copy, PartialEq, Eq, Structural)]
pub enum RecordTag {
    Utf8String,
    LoadClass,
    UnloadClass,
    StackFrame,
    StackTrace,
    AllocSites,
    HeapSummary,
    StartThread,
    EndThread,
    HeapDump,
    CpuSamples,
    ControlSettings,
    HeapDumpSegment,
    HeapDumpEnd,
}

/// The record kind that a tag byte names, if any.
pub open spec fn tag_of(b: u8) -> Option<RecordTag> {
    if b == 0x01 {
        Some(RecordTag::Utf8String)
    } else if b == 0x02 {
        Some(RecordTag::LoadClass)
    } else if b == 0x03 {
        Some(RecordTag::UnloadClass)
    } else if b == 0x04 {
        Some(RecordTag::StackFrame)
    } else if b == 0x05 {
        Some(RecordTag::StackTrace)
    } else if b == 0x06 {
        Some(RecordTag::AllocSites)
    } else if b == 0x07 {
        Some(RecordTag::HeapSummary)
    } else if b == 0x0A {
        Some(RecordTag::StartThread)
    } else if b == 0x0B {
        Some(RecordTag::EndThread)
    } else if b == 0x0C {
        Some(RecordTag::HeapDump)
    } else if b == 0x0D {
        Some(RecordTag::CpuSamples)
    } else if b == 0x0E {
        Some(RecordTag::ControlSettings)
    } else if b == 0x1C {
        Some(RecordTag::HeapDumpSegment)
    } else if b == 0x2C {
        Some(RecordTag::HeapDumpEnd)
    } else {
        None
    }
}

/// The five kinds that carry a body this decoder reads and that the driver tallies.
pub open spec fn spec_is_counted(t: RecordTag) -> bool {
    match t {
        RecordTag::Utf8String | RecordTag::LoadClass | RecordTag::UnloadClass
        | RecordTag::StackFrame | RecordTag::StackTrace => true,
        _ => false,
    }
}

/// The variant's name as text.
pub open spec fn spec_tag_name(t: RecordTag) -> Seq<char> {
    match t {
        RecordTag::Utf8String => "Utf8String"@,
        RecordTag::LoadClass => "LoadClass"@,
        RecordTag::UnloadClass => "UnloadClass"@,
        RecordTag::StackFrame => "StackFrame"@,
        RecordTag::StackTrace => "StackTrace"@,
        RecordTag::AllocSites => "AllocSites"@,
        RecordTag::HeapSummary => "HeapSummary"@,
        RecordTag::StartThread => "StartThread"@,
        RecordTag::EndThread => "EndThread"@,
        RecordTag::HeapDump => "HeapDump"@,
        RecordTag::CpuSamples => "CpuSamples"@,
        RecordTag::ControlSettings => "ControlSettings"@,
        RecordTag::HeapDumpSegment => "HeapDumpSegment"@,
        RecordTag::HeapDumpEnd => "HeapDumpEnd"@,
    }
}

impl RecordTag {
    /// Maps a tag byte to its record kind.
    pub fn from_byte(b: u8) -> (r: Option<RecordTag>)
        ensures
            r == tag_of(b),
    {
        match b {
            0x01 => Some(RecordTag::Utf8String),
            0x02 => Some(RecordTag::LoadClass),
            0x03 => Some(RecordTag::UnloadClass),
            0x04 => Some(RecordTag::StackFrame),
            0x05 => Some(RecordTag::StackTrace),
            0x06 => Some(RecordTag::AllocSites),
            0x07 => Some(RecordTag::HeapSummary),
            0x0A => Some(RecordTag::StartThread),
            0x0B => Some(RecordTag::EndThread),
            0x0C => Some(RecordTag::HeapDump),
            0x0D => Some(RecordTag::CpuSamples),
            0x0E => Some(RecordTag::ControlSettings),
            0x1C => Some(RecordTag::HeapDumpSegment),
            0x2C => Some(RecordTag::HeapDumpEnd),
            _ => None,
        }
    }

    /// Whether the driver tallies this kind and keeps streaming after it.
    pub fn is_counted(&self) -> (r: bool)
        ensures
            r == spec_is_counted(*self),
    {
        match self {
            RecordTag::Utf8String | RecordTag::LoadClass | RecordTag::UnloadClass
            | RecordTag::StackFrame | RecordTag::StackTrace => true,
            _ => false,
        }
    }

    /// The variant's name as text.
    pub fn name(&self) -> (r: &'static str)
        ensures
            r@ == spec_tag_name(*self),
    {
        match self {
            RecordTag::Utf8String => "Utf8String",
            RecordTag::LoadClass => "LoadClass",
            RecordTag::UnloadClass => "UnloadClass",
            RecordTag::StackFrame => "StackFrame",
            RecordTag::StackTrace => "StackTrace",
            RecordTag::AllocSites => "AllocSites",
            RecordTag::HeapSummary => "HeapSummary",
            RecordTag::StartThread => "StartThread",
            RecordTag::EndThread => "EndThread",
            RecordTag::HeapDump => "HeapDump",
            RecordTag::CpuSamples => "CpuSamples",
            RecordTag::ControlSettings => "ControlSettings",
            RecordTag::HeapDumpSegment => "HeapDumpSegment",
            RecordTag::HeapDumpEnd => "HeapDumpEnd",
        }
    }
}

} // verus!

//! The display driver of the television, `dile_vt`: what to ask of it, and in
//! which order, until it delivers pictures.
use crate::capture::Geometry;
use crate::text::chars_of;
use crate::text::decimal_text;
use crate::text::is_white_space;
use vstd::prelude::*;

verus! {

/// How the display driver lays a picture out in its planes.
#[derive(Debug, Clone, Copy, PartialEq, Eq, Structural)]
pub enum DileVtPixelFormat {
    Yuv420Planar,
    /// NV12: plane 0 = Y, plane 1 = interleaved UV
    Yuv420SemiPlanar,
    Yuv420Interleaved,
    Yuv422Planar,
    Yuv422SemiPlanar,
    Yuv422Interleaved,
    Rgb,
    Argb,
}

impl DileVtPixelFormat {
    /// The number by which the driver names the format.
    pub open spec fn number(self) -> u32 {
        match self {
            DileVtPixelFormat::Yuv420Planar => 0,
            DileVtPixelFormat::Yuv420SemiPlanar => 1,
            DileVtPixelFormat::Yuv420Interleaved => 2,
            DileVtPixelFormat::Yuv422Planar => 3,
            DileVtPixelFormat::Yuv422SemiPlanar => 4,
            DileVtPixelFormat::Yuv422Interleaved => 5,
            DileVtPixelFormat::Rgb => 9,
            DileVtPixelFormat::Argb => 10,
        }
    }

    pub fn code(self) -> (code: u32)
        ensures
            code == self.number(),
    {
        match self {
            DileVtPixelFormat::Yuv420Planar => 0,
            DileVtPixelFormat::Yuv420SemiPlanar => 1,
            DileVtPixelFormat::Yuv420Interleaved => 2,
            DileVtPixelFormat::Yuv422Planar => 3,
            DileVtPixelFormat::Yuv422SemiPlanar => 4,
            DileVtPixelFormat::Yuv422Interleaved => 5,
            DileVtPixelFormat::Rgb => 9,
            DileVtPixelFormat::Argb => 10,
        }
    }

    /// The format with a given number, if there is one.
    pub fn from_code(code: u32) -> (format: Option<Self>)
        ensures
            match format {
                Some(f) => f.number() == code,
                None => forall|f: DileVtPixelFormat| #![trigger f.number()] f.number() != code,
            },
    {
        match code {
            0 => Some(DileVtPixelFormat::Yuv420Planar),
            1 => Some(DileVtPixelFormat::Yuv420SemiPlanar),
            2 => Some(DileVtPixelFormat::Yuv420Interleaved),
            3 => Some(DileVtPixelFormat::Yuv422Planar),
            4 => Some(DileVtPixelFormat::Yuv422SemiPlanar),
            5 => Some(DileVtPixelFormat::Yuv422Interleaved),
            9 => Some(DileVtPixelFormat::Rgb),
            10 => Some(DileVtPixelFormat::Argb),
            _ => None,
        }
    }
}

/// No two formats share a number.
pub proof fn format_numbers_are_distinct(left: DileVtPixelFormat, right: DileVtPixelFormat)
    ensures
        left.number() == right.number() <==> left == right,
{
}

/// The state of the driver's output, as far as it can be set.
#[derive(Debug, Clone, Copy, PartialEq, Eq, Structural)]
pub struct DileOutputDeviceState {
    pub enabled: u8,
    pub freezed: u8,
    pub applied_pq: u8,
    pub unknown: u8,
    pub framerate: u32,
}

#[derive(Debug, Clone, Copy, PartialEq, Eq, Structural)]
pub struct DileVtRect {
    pub x: u16,
    pub y: u16,
    pub width: u16,
    pub height: u16,
}

/// The frame buffers of the driver, and the planes of each.
#[derive(Debug, Clone, Copy, PartialEq, Eq, Structural)]
pub struct DileVtFramebufferCapability {
    pub num_vfbs: u32,
    pub num_planes: u32,
}

/// What the driver says of its frame buffers. Zero stands for what it leaves
/// open.
#[derive(Debug, Clone, Copy, PartialEq, Eq, Structural)]
pub struct DileVtFramebufferProperty {
    pub pixel_format: Option<DileVtPixelFormat>,
    pub stride: u32,
    pub width: u32,
    pub height: u32,
}

pub const STATE_FREEZED: u32 = 0x02;

pub const STATE_FRAMERATE_DIVIDE: u32 = 0x10;

pub const DUMP_SCALER_OUTPUT: i32 = 0;

pub const DUMP_DISPLAY_OUTPUT: i32 = 1;

pub const DUMP_WEBOS_34_UNDOCUMENTED: i32 = 2;

/// The characters at which a release text is cut into tokens.
pub open spec fn release_separator(c: char) -> bool {
    crate::text::white_space(c) || c == '=' || c == '"' || c == '\'' || c == '(' || c == ')' || c
        == ',' || c == ';'
}

/// `text[from..to]` is a token of a release text: no separator in it, and a
/// separator or the end of the text on either side.
pub open spec fn release_token(text: Seq<char>, from: int, to: int) -> bool {
    &&& 0 <= from <= to <= text.len()
    &&& from == 0 || release_separator(text[from - 1])
    &&& to == text.len() || release_separator(text[to])
    &&& forall|k: int| from <= k < to ==> !release_separator(#[trigger] text[k])
}

/// A version number of webOS 3.4: that number itself, or one with more behind
/// it.
pub open spec fn version_34(token: Seq<char>) -> bool {
    &&& token.len() >= 3
    &&& token[0] == '3'
    &&& token[1] == '.'
    &&& token[2] == '4'
    &&& token.len() == 3 || token[3] == '.'
}

/// The release text names webOS 3.4.
pub open spec fn names_webos_34(release: Seq<char>) -> bool {
    exists|from: int, to: int| #[trigger]
        release_token(release, from, to) && version_34(release.subrange(from, to))
}

fn is_release_separator(c: char) -> (yes: bool)
    ensures
        yes == release_separator(c),
{
    is_white_space(c) || c == '=' || c == '"' || c == '\'' || c == '(' || c == ')' || c == ',' || c
        == ';'
}

fn is_version_34(chars: &Vec<char>, from: usize, to: usize) -> (yes: bool)
    requires
        from <= to <= chars@.len(),
    ensures
        yes == version_34(chars@.subrange(from as int, to as int)),
{
    to - from >= 3 && chars[from] == '3' && chars[from + 1] == '.' && chars[from + 2] == '4' && (to
        - from == 3 || chars[from + 3] == '.')
}

/// Whether a release text, the content of a release file, names webOS 3.4.
pub fn release_is_webos_34(release: &str) -> (yes: bool)
    ensures
        yes == names_webos_34(release@),
{
    let chars = chars_of(release);
    let mut from: usize = 0;
    let mut to: usize = 0;
    while to < chars.len()
        invariant
            chars@ == release@,
            from <= to <= chars.len(),
            from == 0 || release_separator(release@[from - 1]),
            forall|k: int| from <= k < to ==> !release_separator(#[trigger] release@[k]),
            forall|f: int, t: int| #[trigger]
                release_token(release@, f, t) && f < from ==> !version_34(release@.subrange(f, t)),
        decreases chars.len() - to,
    {
        if is_release_separator(chars[to]) {
            if is_version_34(&chars, from, to) {
                assert(release_token(release@, from as int, to as int));
                return true;
            }
            proof {
                let next = to + 1;
                assert forall|f: int, t: int| #[trigger]
                    release_token(release@, f, t) && f < next implies !version_34(
                    release@.subrange(f, t),
                ) by {
                    if f >= from {
                        if f > from {
                            assert(release_separator(release@[f - 1]));
                            assert(f - 1 < to);
                            assert(false);
                        }
                        if t > to {
                            assert(!release_separator(release@[to as int]));
                        } else if t < to {
                            assert(release_separator(release@[t]));
                        }
                        assert(t == to);
                    }
                }
            }
            from = to + 1;
        }
        to += 1;
    }
    if is_version_34(&chars, from, to) {
        assert(release_token(release@, from as int, to as int));
        return true;
    }
    proof {
        assert forall|f: int, t: int| #[trigger]
            release_token(release@, f, t) implies !version_34(release@.subrange(f, t)) by {
            if f >= from {
                if f > from {
                    assert(release_separator(release@[f - 1]));
                }
                if t < to {
                    assert(release_separator(release@[t]));
                }
            }
        }
    }
    false
}

/// Whether any of the release files that could be read names webOS 3.4.
pub fn is_webos_34(releases: &[Option<String>]) -> (yes: bool)
    ensures
        yes == exists|i: int|
            0 <= i < releases@.len() && (#[trigger] releases@[i] matches Some(text)
                && names_webos_34(text@)),
{
    for i in 0..releases.len()
        invariant
            forall|k: int|
                0 <= k < i ==> !(#[trigger] releases@[k] matches Some(text) && names_webos_34(
                    text@,
                )),
    {
        if let Some(text) = &releases[i] {
            if release_is_webos_34(text.as_str()) {
                assert(releases@[i as int] matches Some(text) && names_webos_34(text@));
                return true;
            }
        }
    }
    false
}

/// A call that sets the driver up.
#[derive(Debug, Clone, Copy, PartialEq, Eq, Structural)]
pub enum SetupCall {
    /// `DILE_VT_Create(0)`
    Create,
    /// `DILE_VT_CreateEx(0, kind)`
    CreateEx { kind: i32 },
    SetDumpLocation { location: i32 },
    SetOutputRegion { location: i32, region: DileVtRect },
    SetState { mask: u32, state: DileOutputDeviceState },
    GetCapability,
    GetAllProperties,
    /// Open the physical memory in which the frame buffers lie.
    OpenMemory,
    /// Map one plane of one frame buffer.
    MapPlane { vfb: u32, plane: u32 },
    Start,
}

/// How a call ended. A context that is null and a status other than zero are
/// failures.
#[derive(Debug, Clone, Copy, PartialEq, Eq, Structural)]
pub enum SetupReply {
    Done,
    Failed,
    Capability(DileVtFramebufferCapability),
    Properties(DileVtFramebufferProperty),
}

/// Why the driver could not be set up.
#[derive(Debug, Clone, Copy, PartialEq, Eq, Structural)]
pub enum SetupError {
    NoContext,
    DumpLocation,
    OutputRegion { width: u32, height: u32 },
    Capability,
    Properties,
    Memory,
    MapPlane { vfb: u32, plane: u32 },
    Start,
}

impl SetupError {
    /// Whether the context is given back to the driver before the error is
    /// reported.
    pub open spec fn gives_context_back(self) -> bool {
        !(self is NoContext) && !(self is Memory)
    }

    pub fn destroys_context(self) -> (yes: bool)
        ensures
            yes == self.gives_context_back(),
    {
        match self {
            SetupError::NoContext => false,
            SetupError::Memory => false,
            _ => true,
        }
    }

    /// The text of the error. `cause` is what the operating system said of the
    /// memory, and `address` where the plane lies; the other errors need
    /// neither.
    pub open spec fn text(self, cause: Seq<char>, address: u32) -> Seq<char> {
        match self {
            SetupError::NoContext =>
                "Failed to acquire DILE_VT context (both CreateEx and Create returned NULL)"@,
            SetupError::DumpLocation => "Failed to set DILE_VT dump location"@,
            SetupError::OutputRegion { width, height } =>
                "Failed to set DILE_VT output region to "@ + crate::text::decimal(width as nat)
                    + "x"@ + crate::text::decimal(height as nat),
            SetupError::Capability => "Failed to get DILE_VT capability"@,
            SetupError::Properties => "DILE_VT_GetAllVideoFrameBufferProperty failed"@,
            SetupError::Memory => "Failed to open /dev/mem (requires root): "@ + cause,
            SetupError::MapPlane { vfb, plane } => "mmap failed for VFB "@
                + crate::text::decimal(vfb as nat) + " Plane "@ + crate::text::decimal(plane as nat)
                + " at physical DMA address 0x"@ + crate::text::hex8(address as nat),
            SetupError::Start => "DILE_VT_Start failed"@,
        }
    }

    pub fn message(self, cause: &str, address: u32) -> (message: String)
        ensures
            message@ == self.text(cause@, address),
    {
        match self {
            SetupError::NoContext =>
                "Failed to acquire DILE_VT context (both CreateEx and Create returned NULL)".to_owned(),
            SetupError::DumpLocation => "Failed to set DILE_VT dump location".to_owned(),
            SetupError::OutputRegion { width, height } => {
                let mut message = "Failed to set DILE_VT output region to ".to_owned();
                message.append(decimal_text(width).as_str());
                message.append("x");
                message.append(decimal_text(height).as_str());
                message
            },
            SetupError::Capability => "Failed to get DILE_VT capability".to_owned(),
            SetupError::Properties => "DILE_VT_GetAllVideoFrameBufferProperty failed".to_owned(),
            SetupError::Memory => {
                let mut message = "Failed to open /dev/mem (requires root): ".to_owned();
                message.append(cause);
                message
            },
            SetupError::MapPlane { vfb, plane } => {
                let mut message = "mmap failed for VFB ".to_owned();
                message.append(decimal_text(vfb).as_str());
                message.append(" Plane ");
                message.append(decimal_text(plane).as_str());
                message.append(" at physical DMA address 0x");
                message.append(crate::text::hex8_text(address).as_str());
                message
            },
            SetupError::Start => "DILE_VT_Start failed".to_owned(),
        }
    }
}

/// How far the setup has come.
#[derive(Debug, Clone, Copy, PartialEq, Eq, Structural)]
pub enum SetupStage {
    /// webOS 3.4: the legacy way to a context comes first.
    LegacyCreate,
    FirstCreateEx,
    SecondCreateEx,
    PlainCreate,
    FirstDump,
    SecondDump,
    LastDump,
    Region,
    FramerateState,
    FreezeState,
    Capability,
    Properties,
    Memory,
    MapPlane { vfb: u32, plane: u32 },
    Start,
    Ready,
    Failed(SetupError),
}

/// The driver on its way to delivering pictures.
///
/// webOS 3.4 wants the legacy context and an undocumented dump location. On
/// later releases `DILE_VT_CreateEx` must come before `DILE_VT_Create`, which
/// can otherwise leak the video device.
#[derive(Debug, Clone, Copy, PartialEq, Eq, Structural)]
pub struct CaptureSetup {
    pub webos_34: bool,
    pub has_create_ex: bool,
    pub target_width: u32,
    pub target_height: u32,
    pub fps_limit: u32,
    pub stage: SetupStage,
    /// The dump location that is being tried, or was accepted.
    pub location: i32,
    pub capability: DileVtFramebufferCapability,
    pub properties: DileVtFramebufferProperty,
}

/// The driver's output runs at 60 frames a second; this many of them make one
/// captured frame.
pub open spec fn divider(fps_limit: u32) -> u32 {
    if fps_limit == 0 || fps_limit > 60 {
        1
    } else {
        60u32 / fps_limit
    }
}

pub fn framerate_divider(fps_limit: u32) -> (framerate: u32)
    ensures
        framerate == divider(fps_limit),
        framerate >= 1,
{
    if fps_limit == 0 || fps_limit > 60 {
        1
    } else {
        proof {
            assert(60u32 / fps_limit >= 1) by (nonlinear_arith)
                requires
                    0 < fps_limit <= 60,
            ;
        }
        60u32 / fps_limit
    }
}

/// The state that is set: running, with the frame rate divided.
pub open spec fn output_state(fps_limit: u32) -> DileOutputDeviceState {
    DileOutputDeviceState {
        enabled: 0,
        freezed: 0,
        applied_pq: 0,
        unknown: 0,
        framerate: divider(fps_limit),
    }
}

/// The region that the hardware scales the picture down to. The driver takes
/// the low sixteen bits of each side.
pub open spec fn output_region(width: u32, height: u32) -> DileVtRect {
    DileVtRect {
        x: 0,
        y: 0,
        width: (width % 0x1_0000) as u16,
        height: (height % 0x1_0000) as u16,
    }
}

impl CaptureSetup {
    /// The call that the setup waits for; none, once it is ready or has failed.
    pub open spec fn pending(self) -> Option<SetupCall> {
        match self.stage {
            SetupStage::LegacyCreate => Some(SetupCall::Create),
            SetupStage::FirstCreateEx => Some(SetupCall::CreateEx { kind: 1 }),
            SetupStage::SecondCreateEx => Some(SetupCall::CreateEx { kind: 2 }),
            SetupStage::PlainCreate => Some(SetupCall::Create),
            SetupStage::FirstDump => Some(SetupCall::SetDumpLocation { location: self.location }),
            SetupStage::SecondDump => Some(SetupCall::SetDumpLocation { location: self.location }),
            SetupStage::LastDump => Some(SetupCall::SetDumpLocation { location: self.location }),
            SetupStage::Region => Some(
                SetupCall::SetOutputRegion {
                    location: self.location,
                    region: output_region(self.target_width, self.target_height),
                },
            ),
            SetupStage::FramerateState => Some(
                SetupCall::SetState {
                    mask: STATE_FRAMERATE_DIVIDE,
                    state: output_state(self.fps_limit),
                },
            ),
            SetupStage::FreezeState => Some(
                SetupCall::SetState { mask: STATE_FREEZED, state: output_state(self.fps_limit) },
            ),
            SetupStage::Capability => Some(SetupCall::GetCapability),
            SetupStage::Properties => Some(SetupCall::GetAllProperties),
            SetupStage::Memory => Some(SetupCall::OpenMemory),
            SetupStage::MapPlane { vfb, plane } => Some(SetupCall::MapPlane { vfb, plane }),
            SetupStage::Start => Some(SetupCall::Start),
            SetupStage::Ready => None,
            SetupStage::Failed(_) => None,
        }
    }

    /// The same setup at another stage.
    pub open spec fn at(self, stage: SetupStage) -> CaptureSetup {
        CaptureSetup { stage, ..self }
    }

    /// The setup once a context was acquired: the first dump location to try is
    /// the undocumented one on webOS 3.4, else the display output.
    pub open spec fn with_context(self) -> CaptureSetup {
        CaptureSetup {
            stage: SetupStage::FirstDump,
            location: if self.webos_34 {
                DUMP_WEBOS_34_UNDOCUMENTED
            } else {
                DUMP_DISPLAY_OUTPUT
            },
            ..self
        }
    }

    /// What follows when a context was refused, stage by stage.
    pub open spec fn without_context(self) -> CaptureSetup {
        match self.stage {
            SetupStage::LegacyCreate => if self.has_create_ex {
                self.at(SetupStage::FirstCreateEx)
            } else {
                self.at(SetupStage::Failed(SetupError::NoContext))
            },
            SetupStage::FirstCreateEx => self.at(SetupStage::SecondCreateEx),
            SetupStage::SecondCreateEx => if self.webos_34 {
                self.at(SetupStage::Failed(SetupError::NoContext))
            } else {
                self.at(SetupStage::PlainCreate)
            },
            _ => self.at(SetupStage::Failed(SetupError::NoContext)),
        }
    }

    /// The plane to map after `(vfb, plane)`; after the last of all, the start.
    pub open spec fn after_plane(self, vfb: u32, plane: u32) -> SetupStage {
        if plane + 1 < self.capability.num_planes {
            SetupStage::MapPlane { vfb, plane: (plane + 1) as u32 }
        } else if vfb + 1 < self.capability.num_vfbs {
            SetupStage::MapPlane { vfb: (vfb + 1) as u32, plane: 0 }
        } else {
            SetupStage::Start
        }
    }

    /// The setup after the reply to the pending call.
    pub open spec fn after(self, reply: SetupReply) -> CaptureSetup {
        let failed = reply is Failed;
        match self.stage {
            SetupStage::LegacyCreate | SetupStage::FirstCreateEx | SetupStage::SecondCreateEx
            | SetupStage::PlainCreate => if failed {
                self.without_context()
            } else {
                self.with_context()
            },
            SetupStage::FirstDump => if failed {
                CaptureSetup {
                    stage: SetupStage::SecondDump,
                    location: if self.webos_34 {
                        DUMP_DISPLAY_OUTPUT
                    } else {
                        DUMP_SCALER_OUTPUT
                    },
                    ..self
                }
            } else {
                self.at(SetupStage::Region)
            },
            SetupStage::SecondDump => CaptureSetup {
                stage: SetupStage::LastDump,
                location: if failed {
                    DUMP_SCALER_OUTPUT
                } else {
                    self.location
                },
                ..self
            },
            SetupStage::LastDump => if failed {
                self.at(SetupStage::Failed(SetupError::DumpLocation))
            } else {
                self.at(SetupStage::Region)
            },
            SetupStage::Region => if failed {
                self.at(
                    SetupStage::Failed(
                        SetupError::OutputRegion {
                            width: self.target_width,
                            height: self.target_height,
                        },
                    ),
                )
            } else {
                self.at(SetupStage::FramerateState)
            },
            SetupStage::FramerateState => self.at(SetupStage::FreezeState),
            SetupStage::FreezeState => self.at(SetupStage::Capability),
            SetupStage::Capability => match reply {
                SetupReply::Capability(c) if c.num_vfbs != 0 && c.num_planes != 0 => CaptureSetup {
                    stage: SetupStage::Properties,
                    capability: c,
                    ..self
                },
                _ => self.at(SetupStage::Failed(SetupError::Capability)),
            },
            SetupStage::Properties => match reply {
                SetupReply::Properties(p) => CaptureSetup {
                    stage: SetupStage::Memory,
                    properties: p,
                    ..self
                },
                _ => self.at(SetupStage::Failed(SetupError::Properties)),
            },
            SetupStage::Memory => if failed {
                self.at(SetupStage::Failed(SetupError::Memory))
            } else {
                self.at(SetupStage::MapPlane { vfb: 0, plane: 0 })
            },
            SetupStage::MapPlane { vfb, plane } => if failed {
                self.at(SetupStage::Failed(SetupError::MapPlane { vfb, plane }))
            } else {
                self.at(self.after_plane(vfb, plane))
            },
            SetupStage::Start => if failed {
                self.at(SetupStage::Failed(SetupError::Start))
            } else {
                self.at(SetupStage::Ready)
            },
            SetupStage::Ready => self,
            SetupStage::Failed(_) => self,
        }
    }

    /// Begins a setup. `has_create_ex` says whether the driver has
    /// `DILE_VT_CreateEx`.
    pub fn begin(
        webos_34: bool,
        has_create_ex: bool,
        target_width: u32,
        target_height: u32,
        fps_limit: u32,
    ) -> (setup: Self)
        ensures
            setup.webos_34 == webos_34,
            setup.has_create_ex == has_create_ex,
            setup.target_width == target_width,
            setup.target_height == target_height,
            setup.fps_limit == fps_limit,
            setup_wf(setup),
            setup.stage == if webos_34 {
                SetupStage::LegacyCreate
            } else if has_create_ex {
                SetupStage::FirstCreateEx
            } else {
                SetupStage::PlainCreate
            },
    {
        CaptureSetup {
            webos_34,
            has_create_ex,
            target_width,
            target_height,
            fps_limit,
            stage: if webos_34 {
                SetupStage::LegacyCreate
            } else if has_create_ex {
                SetupStage::FirstCreateEx
            } else {
                SetupStage::PlainCreate
            },
            location: DUMP_DISPLAY_OUTPUT,
            capability: DileVtFramebufferCapability { num_vfbs: 0, num_planes: 0 },
            properties: DileVtFramebufferProperty {
                pixel_format: Some(DileVtPixelFormat::Yuv420SemiPlanar),
                stride: 0,
                width: 0,
                height: 0,
            },
        }
    }

    /// The call to make next; none, once the setup is ready or has failed.
    pub fn next_call(&self) -> (call: Option<SetupCall>)
        ensures
            call == self.pending(),
    {
        match self.stage {
            SetupStage::LegacyCreate => Some(SetupCall::Create),
            SetupStage::FirstCreateEx => Some(SetupCall::CreateEx { kind: 1 }),
            SetupStage::SecondCreateEx => Some(SetupCall::CreateEx { kind: 2 }),
            SetupStage::PlainCreate => Some(SetupCall::Create),
            SetupStage::FirstDump => Some(SetupCall::SetDumpLocation { location: self.location }),
            SetupStage::SecondDump => Some(SetupCall::SetDumpLocation { location: self.location }),
            SetupStage::LastDump => Some(SetupCall::SetDumpLocation { location: self.location }),
            SetupStage::Region => Some(
                SetupCall::SetOutputRegion {
                    location: self.location,
                    region: DileVtRect {
                        x: 0,
                        y: 0,
                        width: (self.target_width % 0x1_0000) as u16,
                        height: (self.target_height % 0x1_0000) as u16,
                    },
                },
            ),
            SetupStage::FramerateState => Some(
                SetupCall::SetState { mask: STATE_FRAMERATE_DIVIDE, state: self.device_state() },
            ),
            SetupStage::FreezeState => Some(
                SetupCall::SetState { mask: STATE_FREEZED, state: self.device_state() },
            ),
            SetupStage::Capability => Some(SetupCall::GetCapability),
            SetupStage::Properties => Some(SetupCall::GetAllProperties),
            SetupStage::Memory => Some(SetupCall::OpenMemory),
            SetupStage::MapPlane { vfb, plane } => Some(SetupCall::MapPlane { vfb, plane }),
            SetupStage::Start => Some(SetupCall::Start),
            SetupStage::Ready => None,
            SetupStage::Failed(_) => None,
        }
    }

    fn device_state(&self) -> (state: DileOutputDeviceState)
        ensures
            state == output_state(self.fps_limit),
    {
        DileOutputDeviceState {
            enabled: 0,
            freezed: 0,
            applied_pq: 0,
            unknown: 0,
            framerate: framerate_divider(self.fps_limit),
        }
    }

    fn acquired(&mut self)
        ensures
            *final(self) == old(self).with_context(),
    {
        self.stage = SetupStage::FirstDump;
        self.location =
        if self.webos_34 {
            DUMP_WEBOS_34_UNDOCUMENTED
        } else {
            DUMP_DISPLAY_OUTPUT
        };
    }

    /// Takes the reply to the pending call.
    pub fn reply(&mut self, reply: SetupReply)
        ensures
            *final(self) == old(self).after(reply),
            setup_wf(*old(self)) ==> setup_wf(*final(self)),
    {
        let failed = match reply {
            SetupReply::Failed => true,
            _ => false,
        };
        match self.stage {
            SetupStage::LegacyCreate => {
                if !failed {
                    self.acquired();
                } else if self.has_create_ex {
                    self.stage = SetupStage::FirstCreateEx;
                } else {
                    self.stage = SetupStage::Failed(SetupError::NoContext);
                }
            },
            SetupStage::FirstCreateEx => {
                if !failed {
                    self.acquired();
                } else {
                    self.stage = SetupStage::SecondCreateEx;
                }
            },
            SetupStage::SecondCreateEx => {
                if !failed {
                    self.acquired();
                } else if self.webos_34 {
                    self.stage = SetupStage::Failed(SetupError::NoContext);
                } else {
                    self.stage = SetupStage::PlainCreate;
                }
            },
            SetupStage::PlainCreate => {
                if !failed {
                    self.acquired();
                } else {
                    self.stage = SetupStage::Failed(SetupError::NoContext);
                }
            },
            SetupStage::FirstDump => {
                if failed {
                    self.stage = SetupStage::SecondDump;
                    self.location =
                    if self.webos_34 {
                        DUMP_DISPLAY_OUTPUT
                    } else {
                        DUMP_SCALER_OUTPUT
                    };
                } else {
                    self.stage = SetupStage::Region;
                }
            },
            SetupStage::SecondDump => {
                if failed {
                    self.location = DUMP_SCALER_OUTPUT;
                }
                self.stage = SetupStage::LastDump;
            },
            SetupStage::LastDump => {
                self.stage =
                if failed {
                    SetupStage::Failed(SetupError::DumpLocation)
                } else {
                    SetupStage::Region
                };
            },
            SetupStage::Region => {
                self.stage =
                if failed {
                    SetupStage::Failed(
                        SetupError::OutputRegion {
                            width: self.target_width,
                            height: self.target_height,
                        },
                    )
                } else {
                    SetupStage::FramerateState
                };
            },
            SetupStage::FramerateState => {
                self.stage = SetupStage::FreezeState;
            },
            SetupStage::FreezeState => {
                self.stage = SetupStage::Capability;
            },
            SetupStage::Capability => {
                match reply {
                    SetupReply::Capability(c) if c.num_vfbs != 0 && c.num_planes != 0 => {
                        self.capability = c;
                        self.stage = SetupStage::Properties;
                    },
                    _ => {
                        self.stage = SetupStage::Failed(SetupError::Capability);
                    },
                }
            },
            SetupStage::Properties => {
                match reply {
                    SetupReply::Properties(p) => {
                        self.properties = p;
                        self.stage = SetupStage::Memory;
                    },
                    _ => {
                        self.stage = SetupStage::Failed(SetupError::Properties);
                    },
                }
            },
            SetupStage::Memory => {
                self.stage =
                if failed {
                    SetupStage::Failed(SetupError::Memory)
                } else {
                    SetupStage::MapPlane { vfb: 0, plane: 0 }
                };
            },
            SetupStage::MapPlane { vfb, plane } => {
                if failed {
                    self.stage = SetupStage::Failed(SetupError::MapPlane { vfb, plane });
                } else if plane < self.capability.num_planes && plane + 1
                    < self.capability.num_planes {
                    self.stage = SetupStage::MapPlane { vfb, plane: plane + 1 };
                } else if vfb < self.capability.num_vfbs && vfb + 1 < self.capability.num_vfbs {
                    self.stage = SetupStage::MapPlane { vfb: vfb + 1, plane: 0 };
                } else {
                    self.stage = SetupStage::Start;
                }
            },
            SetupStage::Start => {
                self.stage =
                if failed {
                    SetupStage::Failed(SetupError::Start)
                } else {
                    SetupStage::Ready
                };
            },
            SetupStage::Ready => {},
            SetupStage::Failed(_) => {},
        }
    }

    /// The layout of the picture: what the driver says, or the requested size
    /// and rows without gaps where it says nothing.
    pub fn geometry(&self) -> (geometry: Geometry)
        ensures
            geometry == picture_geometry(self.properties, self.target_width, self.target_height),
    {
        let width: u32 = if self.properties.width > 0 {
            self.properties.width
        } else {
            self.target_width
        };
        let height: u32 = if self.properties.height > 0 {
            self.properties.height
        } else {
            self.target_height
        };
        let stride: u32 = if self.properties.stride > 0 {
            self.properties.stride
        } else {
            width
        };
        Geometry { width, height, stride }
    }
}

/// The layout of the picture that the driver's properties describe.
pub open spec fn picture_geometry(
    properties: DileVtFramebufferProperty,
    target_width: u32,
    target_height: u32,
) -> Geometry {
    let width = if properties.width > 0 {
        properties.width
    } else {
        target_width
    };
    Geometry {
        width,
        height: if properties.height > 0 {
            properties.height
        } else {
            target_height
        },
        stride: if properties.stride > 0 {
            properties.stride
        } else {
            width
        },
    }
}

/// What to map for one plane: whole pages from `base` on, in which the plane
/// begins at `page_offset`.
#[derive(Debug, Clone, Copy, PartialEq, Eq, Structural)]
pub struct PlaneMap {
    pub base: u64,
    pub page_offset: u64,
    pub map_len: u64,
}

/// The rows of a plane: all of them for the first plane, half of them for the
/// others.
pub open spec fn plane_rows(geometry: Geometry, plane: u32) -> u32 {
    if plane == 0 {
        geometry.height
    } else {
        geometry.height / 2
    }
}

/// The mapping for the plane at the physical address `address`.
pub fn plane_map(geometry: Geometry, plane: u32, address: u32, page_size: u64) -> (map: PlaneMap)
    requires
        page_size > 0,
        geometry.stride * plane_rows(geometry, plane) <= u32::MAX,
    ensures
        map.base % page_size == 0,
        map.page_offset < page_size,
        map.base + map.page_offset == address,
        map.map_len == map.page_offset + geometry.stride * plane_rows(geometry, plane),
{
    let rows: u32 = if plane == 0 {
        geometry.height
    } else {
        geometry.height / 2
    };
    let page_offset: u64 = address as u64 % page_size;
    proof {
        vstd::arithmetic::div_mod::lemma_fundamental_div_mod(address as int, page_size as int);
        vstd::arithmetic::div_mod::lemma_mod_multiples_basic(
            address as int / page_size as int,
            page_size as int,
        );
        assert(page_size * (address as int / page_size as int) == (address as int
            / page_size as int) * page_size) by (nonlinear_arith);
        assert(page_size * (address as int / page_size as int) >= 0) by (nonlinear_arith)
            requires
                page_size > 0,
        ;
        assert(page_offset <= address);
    }
    let base: u64 = address as u64 - page_offset;
    let plane_len: u64 = (geometry.stride * rows) as u64;
    PlaneMap { base, page_offset, map_len: page_offset + plane_len }
}

/// A setup that keeps to the planes that the driver has, of which there are some
/// by the time that it asks about them.
pub open spec fn setup_wf(setup: CaptureSetup) -> bool {
    match setup.stage {
        SetupStage::Properties
        | SetupStage::Memory
        | SetupStage::Start
        | SetupStage::Ready => setup.capability.num_vfbs > 0 && setup.capability.num_planes > 0,
        SetupStage::MapPlane { vfb, plane } => vfb < setup.capability.num_vfbs && plane
            < setup.capability.num_planes,
        _ => true,
    }
}

/// How many replies a setup can still take.
pub open spec fn calls_left(setup: CaptureSetup) -> nat {
    let planes = setup.capability.num_vfbs * setup.capability.num_planes;
    match setup.stage {
        SetupStage::LegacyCreate => 0x1_0000_0000 * 0x1_0000_0000 + 14,
        SetupStage::FirstCreateEx => 0x1_0000_0000 * 0x1_0000_0000 + 13,
        SetupStage::SecondCreateEx => 0x1_0000_0000 * 0x1_0000_0000 + 12,
        SetupStage::PlainCreate => 0x1_0000_0000 * 0x1_0000_0000 + 11,
        SetupStage::FirstDump => 0x1_0000_0000 * 0x1_0000_0000 + 10,
        SetupStage::SecondDump => 0x1_0000_0000 * 0x1_0000_0000 + 9,
        SetupStage::LastDump => 0x1_0000_0000 * 0x1_0000_0000 + 8,
        SetupStage::Region => 0x1_0000_0000 * 0x1_0000_0000 + 7,
        SetupStage::FramerateState => 0x1_0000_0000 * 0x1_0000_0000 + 6,
        SetupStage::FreezeState => 0x1_0000_0000 * 0x1_0000_0000 + 5,
        SetupStage::Capability => 0x1_0000_0000 * 0x1_0000_0000 + 4,
        SetupStage::Properties => (planes + 3) as nat,
        SetupStage::Memory => (planes + 2) as nat,
        SetupStage::MapPlane { vfb, plane } => (planes - (vfb * setup.capability.num_planes + plane)
            + 1) as nat,
        SetupStage::Start => 1,
        SetupStage::Ready => 0,
        SetupStage::Failed(_) => 0,
    }
}

/// A setup that is neither ready nor failed comes closer to its end with every
/// reply, so it ends; and it never asks for a plane that the driver has not.
pub proof fn setup_comes_to_an_end(setup: CaptureSetup, reply: SetupReply)
    requires
        setup_wf(setup),
        setup.pending() is Some,
    ensures
        setup_wf(setup.after(reply)),
        calls_left(setup.after(reply)) < calls_left(setup),
        calls_left(setup.after(reply)) == 0 <==> setup.after(reply).pending() is None,
{
    let next = setup.after(reply);
    let vfbs = next.capability.num_vfbs as int;
    let planes = next.capability.num_planes as int;
    assert(0 <= vfbs * planes <= 0xffff_ffff * 0xffff_ffff) by (nonlinear_arith)
        requires
            0 <= vfbs <= 0xffff_ffff,
            0 <= planes <= 0xffff_ffff,
    ;
    if let SetupStage::MapPlane { vfb, plane } = setup.stage {
        let v = vfb as int;
        assert((v + 1) * planes == v * planes + planes) by (nonlinear_arith);
        assert((v + 1) * planes <= vfbs * planes) by (nonlinear_arith)
            requires
                v + 1 <= vfbs,
                planes >= 0,
        ;
    }
    assert(0 * planes == 0);
}

/// Away from webOS 3.4, `DILE_VT_Create` is called only after both forms of
/// `DILE_VT_CreateEx` have failed, or where the driver does not have it. On webOS
/// 3.4 it is called first, and only first.
pub proof fn create_ex_comes_first(setup: CaptureSetup, reply: SetupReply)
    requires
        setup.pending() is Some,
        setup.after(reply).pending() == Some(SetupCall::Create),
    ensures
        !setup.webos_34,
        setup.pending() == Some(SetupCall::CreateEx { kind: 2 }),
        reply is Failed,
{
}

/// The region is set at a dump location only once the driver has just accepted
/// that location.
pub proof fn region_follows_an_accepted_location(setup: CaptureSetup, reply: SetupReply)
    requires
        setup.pending() is Some,
        setup.after(reply).stage is Region,
    ensures
        setup.pending() == Some(
            SetupCall::SetDumpLocation { location: setup.after(reply).location },
        ),
        !(reply is Failed),
{
}

/// A format is found again under the number that it has, and no other number finds
/// it; the numbers are the driver's own.
pub proof fn a_format_is_found_under_its_number(
    format: DileVtPixelFormat,
    code: u32,
    found: Option<DileVtPixelFormat>,
    other: u32,
    other_found: Option<DileVtPixelFormat>,
)
    requires
        call_ensures(DileVtPixelFormat::code, (format,), code),
        call_ensures(DileVtPixelFormat::from_code, (code,), found),
        call_ensures(DileVtPixelFormat::from_code, (other,), other_found),
    ensures
        found == Some(format),
        other_found == Some(format) <==> other == code,
        format is Yuv420Planar <==> code == 0,
        format is Yuv420SemiPlanar <==> code == 1,
        format is Yuv420Interleaved <==> code == 2,
        format is Yuv422Planar <==> code == 3,
        format is Yuv422SemiPlanar <==> code == 4,
        format is Yuv422Interleaved <==> code == 5,
        format is Rgb <==> code == 9,
        format is Argb <==> code == 10,
        6 <= other <= 8 || other > 10 ==> other_found is None,
{
    format_numbers_are_distinct(format, found->Some_0);
    format_numbers_are_distinct(format, other_found->Some_0);
    assert(format.number() == code);
}

/// The divided rate is the highest that keeps within the limit, of those that divide
/// sixty pictures a second, if the limit is one; without a limit, or with one above
/// sixty, nothing is divided.
pub proof fn the_divided_rate_meets_the_limit(fps_limit: u32, framerate: u32)
    requires
        call_ensures(framerate_divider, (fps_limit,), framerate),
    ensures
        fps_limit == 0 || fps_limit >= 60 ==> framerate == 1,
        1 <= fps_limit <= 60 ==> framerate * fps_limit <= 60 && (framerate + 1) * fps_limit > 60,
{
    if 1 <= fps_limit <= 60 {
        let limit = fps_limit as int;
        vstd::arithmetic::div_mod::lemma_fundamental_div_mod(60, limit);
        vstd::arithmetic::div_mod::lemma_mod_bound(60, limit);
        assert(framerate == 60int / limit);
        assert(limit * (60int / limit) == (60int / limit) * limit) by (nonlinear_arith);
        assert((framerate + 1) * limit == framerate * limit + limit) by (nonlinear_arith);
        if limit == 60 {
            assert(60int / 60 == 1);
        }
    }
}

/// The picture has the size that the driver gives, or else the size that was asked
/// for, and rows without gaps where the driver gives no stride.
pub proof fn the_driver_decides_on_the_picture(setup: &CaptureSetup, geometry: Geometry)
    requires
        call_ensures(CaptureSetup::geometry, (setup,), geometry),
    ensures
        setup.properties.width > 0 ==> geometry.width == setup.properties.width,
        setup.properties.width == 0 ==> geometry.width == setup.target_width,
        setup.properties.height > 0 ==> geometry.height == setup.properties.height,
        setup.properties.height == 0 ==> geometry.height == setup.target_height,
        setup.properties.stride > 0 ==> geometry.stride == setup.properties.stride,
        setup.properties.stride == 0 ==> geometry.stride == geometry.width,
{
}

/// The pages that are mapped hold the plane from its first byte to its last: all rows
/// of the first plane, half as many of any other.
pub proof fn a_mapping_holds_its_plane(
    geometry: Geometry,
    plane: u32,
    address: u32,
    page_size: u64,
    map: PlaneMap,
)
    requires
        page_size > 0,
        geometry.stride * geometry.height <= u32::MAX,
        call_requires(plane_map, (geometry, plane, address, page_size)),
        call_ensures(plane_map, (geometry, plane, address, page_size), map),
    ensures
        map.base <= address,
        address - map.base == map.page_offset,
        map.base + map.map_len == address + geometry.stride * (if plane == 0 {
            geometry.height as int
        } else {
            geometry.height as int / 2
        }),
        map.page_offset == address as int % page_size as int,
{
    vstd::arithmetic::div_mod::lemma_fundamental_div_mod(map.base as int, page_size as int);
    vstd::arithmetic::div_mod::lemma_fundamental_div_mod_converse(
        address as int,
        page_size as int,
        map.base as int / page_size as int,
        map.page_offset as int,
    );
}

/// A setup begins with what it was given, and with the context: the plain one on
/// webOS 3.4 and where the driver has no other.
pub proof fn a_setup_begins_with_the_context(
    webos_34: bool,
    has_create_ex: bool,
    target_width: u32,
    target_height: u32,
    fps_limit: u32,
    setup: CaptureSetup,
    call: Option<SetupCall>,
)
    requires
        call_ensures(
            CaptureSetup::begin,
            (webos_34, has_create_ex, target_width, target_height, fps_limit),
            setup,
        ),
        call_ensures(CaptureSetup::next_call, (&setup,), call),
    ensures
        setup.webos_34 == webos_34,
        setup.has_create_ex == has_create_ex,
        setup.target_width == target_width,
        setup.target_height == target_height,
        setup.fps_limit == fps_limit,
        webos_34 || !has_create_ex ==> call == Some(SetupCall::Create),
        !webos_34 && has_create_ex ==> call == Some(SetupCall::CreateEx { kind: 1 }),
{
}

/// Nothing that a setup was given changes on the way, and a setup that has ended
/// stays as it is.
pub proof fn a_setup_keeps_what_it_was_given(
    setup: &mut CaptureSetup,
    reply: SetupReply,
    call: Option<SetupCall>,
)
    requires
        call_ensures(CaptureSetup::reply, (setup, reply), ()),
        call_ensures(CaptureSetup::next_call, (old(setup),), call),
    ensures
        final(setup).webos_34 == old(setup).webos_34,
        final(setup).has_create_ex == old(setup).has_create_ex,
        final(setup).target_width == old(setup).target_width,
        final(setup).target_height == old(setup).target_height,
        final(setup).fps_limit == old(setup).fps_limit,
        call is None ==> *final(setup) == *old(setup),
        !(call is Some && call->Some_0 is GetCapability) ==> final(setup).capability == old(
            setup,
        ).capability,
        !(call is Some && call->Some_0 is GetAllProperties) ==> final(setup).properties == old(
            setup,
        ).properties,
{
}

/// What the next call is, of the calls before the pictures are laid out. A context
/// that was acquired is followed by a dump location: the undocumented one on webOS
/// 3.4, else the display's. A refused one is followed by another way to get one, or
/// the end. Outside webOS 3.4, the scaler is tried when the display is refused.
pub proof fn a_context_is_followed_by_a_location(
    setup: &mut CaptureSetup,
    reply: SetupReply,
    call: Option<SetupCall>,
    next: Option<SetupCall>,
)
    requires
        call_ensures(CaptureSetup::next_call, (old(setup),), call),
        call_ensures(CaptureSetup::reply, (setup, reply), ()),
        call_ensures(CaptureSetup::next_call, (final(setup),), next),
    ensures
        (call matches Some(SetupCall::Create) || call matches Some(SetupCall::CreateEx { .. }))
            && !(reply is Failed) ==> next == Some(
            SetupCall::SetDumpLocation {
                location: if old(setup).webos_34 {
                    2
                } else {
                    1
                },
            },
        ),
        call == Some(SetupCall::CreateEx { kind: 1 }) && reply is Failed ==> next == Some(
            SetupCall::CreateEx { kind: 2 },
        ),
        call == Some(SetupCall::CreateEx { kind: 2 }) && reply is Failed ==> next == (if old(
            setup,
        ).webos_34 {
            None
        } else {
            Some(SetupCall::Create)
        }),
        call == Some(SetupCall::Create) && reply is Failed && !old(setup).webos_34 && !old(
            setup,
        ).has_create_ex ==> next is None,
        old(setup).stage is LegacyCreate && reply is Failed && old(setup).has_create_ex ==> next
            == Some(SetupCall::CreateEx { kind: 1 }),
        old(setup).stage is LegacyCreate && reply is Failed && !old(setup).has_create_ex ==> next
            is None,
        old(setup).stage is PlainCreate && reply is Failed ==> next is None,
        old(setup).stage is FirstDump && reply is Failed ==> next == Some(
            SetupCall::SetDumpLocation {
                location: if old(setup).webos_34 {
                    1
                } else {
                    0
                },
            },
        ),
        old(setup).stage is SecondDump && reply is Failed ==> next == Some(
            SetupCall::SetDumpLocation { location: 0 },
        ),
        old(setup).stage is SecondDump && !(reply is Failed) ==> next == call,
        old(setup).stage is LastDump && reply is Failed ==> next is None && final(setup).stage
            == SetupStage::Failed(SetupError::DumpLocation),
        next is None && (call matches Some(SetupCall::Create) || call matches Some(
            SetupCall::CreateEx { .. },
        )) ==> final(setup).stage == SetupStage::Failed(SetupError::NoContext),
        (old(setup).stage is FirstDump || old(setup).stage is LastDump) && !(reply is Failed)
            ==> next == Some(
            SetupCall::SetOutputRegion {
                location: old(setup).location,
                region: DileVtRect {
                    x: 0,
                    y: 0,
                    width: (old(setup).target_width % 65536) as u16,
                    height: (old(setup).target_height % 65536) as u16,
                },
            },
        ),
{
}

/// The calls from the region on come one after the other: the rate, the freeze, both
/// whether or not the driver takes them, what the driver has, the memory, every plane
/// of every frame buffer, the start. A failure of any other ends the setup with its
/// own error.
pub proof fn the_picture_is_set_up_step_by_step(
    setup: &mut CaptureSetup,
    reply: SetupReply,
    call: SetupCall,
    next: Option<SetupCall>,
    framerate: u32,
)
    requires
        call_ensures(CaptureSetup::next_call, (old(setup),), Some(call)),
        call_ensures(CaptureSetup::reply, (setup, reply), ()),
        call_ensures(CaptureSetup::next_call, (final(setup),), next),
        call_ensures(framerate_divider, (old(setup).fps_limit,), framerate),
    ensures
        call is SetOutputRegion && !(reply is Failed) ==> next == Some(
            SetupCall::SetState {
                mask: 16,
                state: DileOutputDeviceState {
                    enabled: 0,
                    freezed: 0,
                    applied_pq: 0,
                    unknown: 0,
                    framerate,
                },
            },
        ),
        call is SetOutputRegion && reply is Failed ==> final(setup).stage == SetupStage::Failed(
            SetupError::OutputRegion {
                width: old(setup).target_width,
                height: old(setup).target_height,
            },
        ),
        call matches SetupCall::SetState { mask, state } ==> (mask == 16 ==> next == Some(
            SetupCall::SetState { mask: 2, state },
        )) && (mask != 16 ==> next == Some(SetupCall::GetCapability)),
        call is GetCapability ==> {
            &&& reply matches SetupReply::Capability(c) ==> (c.num_vfbs > 0 && c.num_planes > 0
                ==> next == Some(SetupCall::GetAllProperties) && final(setup).capability == c)
            &&& reply matches SetupReply::Capability(c) ==> (c.num_vfbs == 0 || c.num_planes == 0
                ==> final(setup).stage == SetupStage::Failed(SetupError::Capability))
            &&& !(reply is Capability) ==> final(setup).stage == SetupStage::Failed(
                SetupError::Capability,
            )
        },
        call is GetAllProperties ==> {
            &&& reply matches SetupReply::Properties(p) ==> next == Some(SetupCall::OpenMemory)
                && final(setup).properties == p
            &&& !(reply is Properties) ==> final(setup).stage == SetupStage::Failed(
                SetupError::Properties,
            )
        },
        call is OpenMemory && !(reply is Failed) ==> next == Some(
            SetupCall::MapPlane { vfb: 0, plane: 0 },
        ),
        call is OpenMemory && reply is Failed ==> final(setup).stage == SetupStage::Failed(
            SetupError::Memory,
        ),
        call matches SetupCall::MapPlane { vfb, plane } ==> {
            &&& reply is Failed ==> final(setup).stage == SetupStage::Failed(
                SetupError::MapPlane { vfb, plane },
            )
            &&& !(reply is Failed) && plane + 1 < old(setup).capability.num_planes ==> (next matches
                Some(SetupCall::MapPlane { vfb: v, plane: p }) && v == vfb && p == plane + 1)
            &&& !(reply is Failed) && plane + 1 >= old(setup).capability.num_planes && vfb + 1 < old(
                setup,
            ).capability.num_vfbs ==> (next matches Some(SetupCall::MapPlane { vfb: v, plane: p })
                && v == vfb + 1 && p == 0)
            &&& !(reply is Failed) && plane + 1 >= old(setup).capability.num_planes && vfb + 1
                >= old(setup).capability.num_vfbs ==> next == Some(SetupCall::Start)
        },
        call is Start && !(reply is Failed) ==> final(setup).stage is Ready && next is None,
        call is Start && reply is Failed ==> final(setup).stage == SetupStage::Failed(
            SetupError::Start,
        ),
{
}

/// A context is given back after every failure but two: there was none, or the memory
/// could not be opened.
pub proof fn a_failed_setup_gives_its_context_back(error: SetupError, yes: bool)
    requires
        call_ensures(SetupError::destroys_context, (error,), yes),
    ensures
        error is NoContext || error is Memory ==> !yes,
        error is DumpLocation || error is OutputRegion || error is Capability ==> yes,
        error is Properties || error is MapPlane || error is Start ==> yes,
{
}

/// Every failure is reported in its own words, and with its own numbers.
pub proof fn failures_are_reported_in_their_words(
    error: SetupError,
    cause: &str,
    address: u32,
    message: String,
    first: u32,
    second: u32,
    first_text: String,
    second_text: String,
    address_text: String,
)
    requires
        call_ensures(SetupError::message, (error, cause, address), message),
        call_ensures(decimal_text, (first,), first_text),
        call_ensures(decimal_text, (second,), second_text),
        call_ensures(crate::text::hex8_text, (address,), address_text),
    ensures
        error is NoContext ==> message@
            == "Failed to acquire DILE_VT context (both CreateEx and Create returned NULL)"@,
        error is DumpLocation ==> message@ == "Failed to set DILE_VT dump location"@,
        error == (SetupError::OutputRegion { width: first, height: second }) ==> message@
            == "Failed to set DILE_VT output region to "@ + first_text@ + "x"@ + second_text@,
        error is Capability ==> message@ == "Failed to get DILE_VT capability"@,
        error is Properties ==> message@ == "DILE_VT_GetAllVideoFrameBufferProperty failed"@,
        error is Memory ==> message@ == "Failed to open /dev/mem (requires root): "@ + cause@,
        error == (SetupError::MapPlane { vfb: first, plane: second }) ==> message@
            == "mmap failed for VFB "@ + first_text@ + " Plane "@ + second_text@
            + " at physical DMA address 0x"@ + address_text@,
        error is Start ==> message@ == "DILE_VT_Start failed"@,
{
}

/// A release text in one piece, without white space, quotes, brackets or another
/// separator, names webOS 3.4 if it is that number, or begins with it and a dot.
pub proof fn a_single_release_token_is_the_version(release: &str, yes: bool)
    requires
        call_ensures(release_is_webos_34, (release,), yes),
        forall|i: int|
            0 <= i < release@.len() ==> !crate::text::white_space(#[trigger] release@[i])
                && release@[i] != '=' && release@[i] != '"' && release@[i] != '\'' && release@[i]
                != '(' && release@[i] != ')' && release@[i] != ',' && release@[i] != ';',
    ensures
        yes <==> release@ == seq!['3', '.', '4'] || (release@.len() > 3 && release@.take(4)
            == seq!['3', '.', '4', '.']),
{
    let text = release@;
    assert forall|i: int| 0 <= i < text.len() implies !release_separator(#[trigger] text[i]) by {}
    let n = text.len() as int;
    assert(text.subrange(0, n) == text);
    assert(release_token(text, 0, n));
    if yes {
        let (from, to) = choose|from: int, to: int| #[trigger]
            release_token(text, from, to) && version_34(text.subrange(from, to));
        assert(from == 0 && to == n);
    }
    if version_34(text) {
        if n == 3 {
            assert(text =~= seq!['3', '.', '4']);
        } else {
            assert(text.take(4) =~= seq!['3', '.', '4', '.']);
        }
    }
    if text == seq!['3', '.', '4'] {
        assert(version_34(text));
    }
    if n > 3 && text.take(4) == seq!['3', '.', '4', '.'] {
        assert(text[0] == text.take(4)[0] && text[1] == text.take(4)[1]);
        assert(text[2] == text.take(4)[2] && text[3] == text.take(4)[3]);
        assert(version_34(text));
    }
}

proof fn lemma_token_in_left(left: Seq<char>, c: char, right: Seq<char>, from: int, to: int)
    requires
        release_token(left, from, to),
        release_separator(c),
    ensures
        release_token(left + seq![c] + right, from, to),
        (left + seq![c] + right).subrange(from, to) == left.subrange(from, to),
{
    let whole = left + seq![c] + right;
    assert forall|k: int| from <= k < to implies !release_separator(#[trigger] whole[k]) by {
        assert(whole[k] == left[k]);
    }
    assert(whole.subrange(from, to) =~= left.subrange(from, to));
}

proof fn lemma_token_in_right(left: Seq<char>, c: char, right: Seq<char>, from: int, to: int)
    requires
        release_token(right, from, to),
        release_separator(c),
    ensures
        release_token(left + seq![c] + right, from + left.len() + 1, to + left.len() + 1),
        (left + seq![c] + right).subrange(from + left.len() + 1, to + left.len() + 1)
            == right.subrange(from, to),
{
    let whole = left + seq![c] + right;
    let skip = left.len() + 1;
    assert forall|k: int| from + skip <= k < to + skip implies !release_separator(
        #[trigger] whole[k],
    ) by {
        assert(whole[k] == right[k - skip]);
    }
    assert(whole.subrange(from + skip, to + skip) =~= right.subrange(from, to));
}

/// A release text with a separator in it names webOS 3.4 if and only if the text
/// before the separator or the text behind it does.
pub proof fn a_release_is_read_token_by_token(
    release: &str,
    before: &str,
    behind: &str,
    c: char,
    yes: bool,
    before_yes: bool,
    behind_yes: bool,
)
    requires
        crate::text::white_space(c) || c == ' ' || c == '\n' || c == '=' || c == '"' || c == '\'' || c
            == '(' || c == ')' || c == ',' || c == ';',
        release@ == before@ + seq![c] + behind@,
        call_ensures(release_is_webos_34, (release,), yes),
        call_ensures(release_is_webos_34, (before,), before_yes),
        call_ensures(release_is_webos_34, (behind,), behind_yes),
    ensures
        yes <==> before_yes || behind_yes,
{
    let left = before@;
    let right = behind@;
    let whole = release@;
    let n = left.len() as int;
    if before_yes {
        let (from, to) = choose|from: int, to: int| #[trigger]
            release_token(left, from, to) && version_34(left.subrange(from, to));
        lemma_token_in_left(left, c, right, from, to);
    }
    if behind_yes {
        let (from, to) = choose|from: int, to: int| #[trigger]
            release_token(right, from, to) && version_34(right.subrange(from, to));
        lemma_token_in_right(left, c, right, from, to);
    }
    if yes {
        let (from, to) = choose|from: int, to: int| #[trigger]
            release_token(whole, from, to) && version_34(whole.subrange(from, to));
        assert(whole[n] == c);
        if to <= n {
            assert forall|k: int| from <= k < to implies !release_separator(
                #[trigger] left[k],
            ) by {
                assert(whole[k] == left[k]);
            }
            assert(from > 0 ==> whole[from - 1] == left[from - 1]);
            assert(to < n ==> whole[to] == left[to]);
            assert(release_token(left, from, to));
            assert(whole.subrange(from, to) =~= left.subrange(from, to));
        } else {
            assert(from > n);
            let f = from - n - 1;
            let t = to - n - 1;
            assert forall|k: int| f <= k < t implies !release_separator(#[trigger] right[k]) by {
                assert(whole[k + n + 1] == right[k]);
            }
            assert(f > 0 ==> whole[from - 1] == right[f - 1]);
            assert(t < right.len() ==> whole[to] == right[t]);
            assert(release_token(right, f, t));
            assert(whole.subrange(from, to) =~= right.subrange(f, t));
        }
    }
}

/// The television runs webOS 3.4 if one of its release files says so, and files that
/// could not be read say nothing.
pub proof fn any_release_file_can_name_the_version(
    releases: &[Option<String>],
    yes: bool,
    text: &str,
    named: bool,
    i: int,
)
    requires
        call_ensures(is_webos_34, (releases,), yes),
        call_ensures(release_is_webos_34, (text,), named),
        0 <= i < releases@.len(),
    ensures
        (releases@[i] matches Some(release) && release@ == text@) && named ==> yes,
        (releases@[i] matches Some(release) && release@ == text@) && !named && (forall|k: int|
            0 <= k < releases@.len() && k != i ==> #[trigger] releases@[k] is None) ==> !yes,
        (forall|k: int| 0 <= k < releases@.len() ==> #[trigger] releases@[k] is None) ==> !yes,
{
}

} // verus!

use lg_hue_sync::capture::DileVtCapture;
use lg_hue_sync::capture::Geometry;
use lg_hue_sync::dile::framerate_divider;
use lg_hue_sync::dile::is_webos_34;
use lg_hue_sync::dile::plane_map;
use lg_hue_sync::dile::release_is_webos_34;
use lg_hue_sync::dile::CaptureSetup;
use lg_hue_sync::dile::DileVtFramebufferCapability;
use lg_hue_sync::dile::DileVtFramebufferProperty;
use lg_hue_sync::dile::DileVtPixelFormat;
use lg_hue_sync::dile::PlaneMap;
use lg_hue_sync::dile::SetupCall;
use lg_hue_sync::dile::SetupError;
use lg_hue_sync::dile::SetupReply;
use lg_hue_sync::dile::SetupStage;

#[test]
fn detects_webos_34_release_strings() {
    assert!(release_is_webos_34(
        "Rockhopper release 3.4.3-590811 (dreadlocks-digya)"
    ));
    assert!(release_is_webos_34("WEBOS_VERSION=\"3.4.0\""));
    assert!(!release_is_webos_34("WEBOS_VERSION=\"6.3.4\""));
    assert!(!release_is_webos_34("Rockhopper release 3.3.4"));
}

#[test]
fn any_release_file_can_name_the_release() {
    let yes = Some("3.4.1".to_string());
    let no = Some("4.0".to_string());
    assert!(is_webos_34(&[None, no.clone(), yes]));
    assert!(!is_webos_34(&[None, no]));
    assert!(!is_webos_34(&[]));
}

fn property() -> DileVtFramebufferProperty {
    DileVtFramebufferProperty {
        pixel_format: Some(DileVtPixelFormat::Yuv420SemiPlanar),
        stride: 384,
        width: 0,
        height: 180,
    }
}

/// Runs a setup in which the calls that `fails` names fail.
fn run(mut setup: CaptureSetup, fails: &[SetupCall]) -> (Vec<SetupCall>, CaptureSetup) {
    let mut calls = Vec::new();
    while let Some(call) = setup.next_call() {
        calls.push(call);
        setup.reply(if fails.contains(&call) {
            SetupReply::Failed
        } else {
            match call {
                SetupCall::GetCapability => SetupReply::Capability(DileVtFramebufferCapability {
                    num_vfbs: 2,
                    num_planes: 2,
                }),
                SetupCall::GetAllProperties => SetupReply::Properties(property()),
                _ => SetupReply::Done,
            }
        });
    }
    (calls, setup)
}

fn starts_with(calls: &[SetupCall], expected: &[SetupCall]) -> bool {
    calls.len() >= expected.len() && &calls[..expected.len()] == expected
}

const CREATE_EX_1: SetupCall = SetupCall::CreateEx { kind: 1 };
const CREATE_EX_2: SetupCall = SetupCall::CreateEx { kind: 2 };

fn dump(location: i32) -> SetupCall {
    SetupCall::SetDumpLocation { location }
}

#[test]
fn later_releases_try_create_ex_first() {
    let setup = CaptureSetup::begin(false, true, 320, 180, 0);
    let (calls, done) = run(setup, &[]);
    assert!(starts_with(&calls, &[CREATE_EX_1, dump(1)]));
    assert_eq!(done.stage, SetupStage::Ready);
    assert_eq!(done.geometry(), Geometry { width: 320, height: 180, stride: 384 });
    let capture = DileVtCapture::try_new(&done).unwrap();
    assert_eq!(capture.resolution(), (320, 180));
    assert_eq!(capture.buffer_index(5), 1);

    let (calls, _) = run(setup, &[CREATE_EX_1, CREATE_EX_2]);
    assert!(starts_with(&calls, &[CREATE_EX_1, CREATE_EX_2, SetupCall::Create, dump(1)]));
    let (calls, failed) = run(setup, &[CREATE_EX_1, CREATE_EX_2, SetupCall::Create]);
    assert_eq!(calls, vec![CREATE_EX_1, CREATE_EX_2, SetupCall::Create]);
    assert_eq!(failed.stage, SetupStage::Failed(SetupError::NoContext));
    let (calls, _) = run(CaptureSetup::begin(false, false, 320, 180, 0), &[]);
    assert!(starts_with(&calls, &[SetupCall::Create, dump(1)]));
}

#[test]
fn webos_34_tries_the_legacy_way_first() {
    let setup = CaptureSetup::begin(true, true, 320, 180, 0);
    let (calls, done) = run(setup, &[]);
    assert!(starts_with(&calls, &[SetupCall::Create, dump(2)]));
    assert_eq!(done.location, 2);
    let (calls, failed) = run(setup, &[SetupCall::Create, CREATE_EX_1, CREATE_EX_2]);
    assert_eq!(calls, vec![SetupCall::Create, CREATE_EX_1, CREATE_EX_2]);
    assert_eq!(failed.stage, SetupStage::Failed(SetupError::NoContext));
    let (calls, done) = run(setup, &[dump(2)]);
    assert!(starts_with(&calls, &[SetupCall::Create, dump(2), dump(1), dump(1)]));
    assert_eq!(done.location, 1);
    let (calls, done) = run(setup, &[dump(2), dump(1)]);
    assert!(starts_with(&calls, &[SetupCall::Create, dump(2), dump(1), dump(0)]));
    assert_eq!(done.location, 0);
    let (_, failed) = run(setup, &[dump(2), dump(1), dump(0)]);
    assert_eq!(failed.stage, SetupStage::Failed(SetupError::DumpLocation));
}

#[test]
fn every_failure_ends_the_setup_with_its_own_error() {
    let setup = CaptureSetup::begin(false, true, 320, 180, 30);
    let (calls, _) = run(setup, &[]);
    let map = |vfb, plane| SetupCall::MapPlane { vfb, plane };
    let tail = &calls[calls.len() - 5..];
    assert_eq!(tail, &[map(0, 0), map(0, 1), map(1, 0), map(1, 1), SetupCall::Start]);
    for call in &calls {
        let expected = match *call {
            SetupCall::SetOutputRegion { .. } => {
                SetupError::OutputRegion { width: 320, height: 180 }
            }
            SetupCall::GetCapability => SetupError::Capability,
            SetupCall::GetAllProperties => SetupError::Properties,
            SetupCall::OpenMemory => SetupError::Memory,
            SetupCall::MapPlane { vfb, plane } => SetupError::MapPlane { vfb, plane },
            SetupCall::Start => SetupError::Start,
            _ => continue,
        };
        let (seen, failed) = run(setup, &[*call]);
        assert_eq!(seen.last(), Some(call));
        assert_eq!(failed.stage, SetupStage::Failed(expected));
        assert_eq!(DileVtCapture::try_new(&failed).err(), Some(expected));
        assert_eq!(expected.destroys_context(), expected != SetupError::Memory);
    }
}

#[test]
fn state_changes_may_fail() {
    let setup = CaptureSetup::begin(false, true, 320, 180, 30);
    let (calls, _) = run(setup, &[]);
    let states: Vec<SetupCall> =
        calls.iter().copied().filter(|c| matches!(c, SetupCall::SetState { .. })).collect();
    assert_eq!(states.len(), 2);
    assert!(matches!(states[0], SetupCall::SetState { mask: 0x10, state } if state.framerate == 2));
    assert!(matches!(states[1], SetupCall::SetState { mask: 0x02, state } if state.freezed == 0));
    assert_eq!(run(setup, &states).1.stage, SetupStage::Ready);
}

#[test]
fn a_driver_without_buffers_is_refused() {
    for (num_vfbs, num_planes) in [(0, 2), (2, 0)] {
        let mut setup = CaptureSetup::begin(false, true, 320, 180, 0);
        while let Some(call) = setup.next_call() {
            setup.reply(match call {
                SetupCall::GetCapability => {
                    SetupReply::Capability(DileVtFramebufferCapability { num_vfbs, num_planes })
                }
                _ => SetupReply::Done,
            });
        }
        assert_eq!(setup.stage, SetupStage::Failed(SetupError::Capability));
    }
}

#[test]
fn the_region_has_sixteen_bits_a_side() {
    let (calls, _) = run(CaptureSetup::begin(false, true, 65537, 180, 0), &[]);
    let region = calls.iter().find_map(|call| match call {
        SetupCall::SetOutputRegion { location, region } => Some((*location, *region)),
        _ => None,
    });
    let (location, region) = region.unwrap();
    assert_eq!(location, 1);
    assert_eq!((region.x, region.y, region.width, region.height), (0, 0, 1, 180));
}

#[test]
fn errors_say_what_went_wrong() {
    let text = |error: SetupError| error.message("denied", 0x00AB_CDEF);
    assert_eq!(
        text(SetupError::NoContext),
        "Failed to acquire DILE_VT context (both CreateEx and Create returned NULL)"
    );
    assert_eq!(text(SetupError::DumpLocation), "Failed to set DILE_VT dump location");
    assert_eq!(
        text(SetupError::OutputRegion { width: 320, height: 180 }),
        "Failed to set DILE_VT output region to 320x180"
    );
    assert_eq!(text(SetupError::Capability), "Failed to get DILE_VT capability");
    assert_eq!(text(SetupError::Properties), "DILE_VT_GetAllVideoFrameBufferProperty failed");
    assert_eq!(text(SetupError::Memory), "Failed to open /dev/mem (requires root): denied");
    assert_eq!(
        text(SetupError::MapPlane { vfb: 1, plane: 0 }),
        "mmap failed for VFB 1 Plane 0 at physical DMA address 0x00ABCDEF"
    );
    assert_eq!(text(SetupError::Start), "DILE_VT_Start failed");
}

#[test]
fn frame_rates_are_divided_from_sixty() {
    for (limit, divider) in [(0, 1), (30, 2), (25, 2), (60, 1), (61, 1), (1, 60)] {
        assert_eq!(framerate_divider(limit), divider);
    }
}

#[test]
fn planes_are_mapped_in_whole_pages() {
    let geometry = Geometry { width: 320, height: 181, stride: 384 };
    assert_eq!(
        plane_map(geometry, 0, 0x1234_5678, 4096),
        PlaneMap { base: 0x1234_5000, page_offset: 0x678, map_len: 0x678 + 384 * 181 }
    );
    assert_eq!(
        plane_map(geometry, 1, 0x2000, 4096),
        PlaneMap { base: 0x2000, page_offset: 0, map_len: 384 * 90 }
    );
}

#[test]
fn formats_keep_their_numbers() {
    for code in 0..20 {
        if let Some(format) = DileVtPixelFormat::from_code(code) {
            assert_eq!(format.code(), code);
        }
    }
    assert_eq!(DileVtPixelFormat::from_code(1), Some(DileVtPixelFormat::Yuv420SemiPlanar));
    assert_eq!(DileVtPixelFormat::from_code(99), None);
}

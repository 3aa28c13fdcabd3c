use lg_hue_sync::color::black_frame;
use lg_hue_sync::color::RgbColor;
use lg_hue_sync::config::NanoleafAlignment;
use lg_hue_sync::config::Scalar;
use lg_hue_sync::ddp::after_send;
use lg_hue_sync::ddp::encode_ddp_frame;
use lg_hue_sync::ddp::encode_packet;
use lg_hue_sync::ddp::next_sequence;
use lg_hue_sync::ddp::DdpError;
use lg_hue_sync::ddp::SendResult;
use lg_hue_sync::ddp::SendStep;
use lg_hue_sync::ddp::WledDdpStreamer;
use lg_hue_sync::ddp::DDP_DATA_TYPE_RGB24;
use lg_hue_sync::ddp::DDP_PUSH;
use lg_hue_sync::ddp::DDP_VERSION_1;
use lg_hue_sync::sampler::remap_colors;
use lg_hue_sync::sampler::ActiveRect;
use lg_hue_sync::sampler::SamplerSetting;
use lg_hue_sync::sampler::WledPerimeterSampler;

fn scalar(value: f32) -> Scalar {
    Scalar { bits: value.to_bits() }
}

#[test]
fn encodes_single_packet_rgb24_frame() {
    let colors = [RgbColor::new(255, 128, 64), RgbColor::new(10, 20, 30)];
    let (packets, final_sequence) = encode_ddp_frame(&colors, 6, 1);

    assert_eq!(packets.len(), 1);
    assert_eq!(final_sequence, 7);
    let packet = &packets[0];
    assert_eq!(packet[0], DDP_VERSION_1 | DDP_PUSH);
    assert_eq!(packet[1], 7);
    assert_eq!(packet[2], DDP_DATA_TYPE_RGB24);
    assert_eq!(packet[3], 1);
    assert_eq!(&packet[4..8], &[0, 0, 0, 0]);
    assert_eq!(&packet[8..10], &[0, 6]);
    assert_eq!(&packet[10..], &[255, 128, 64, 10, 20, 30]);
}

#[test]
fn splits_frames_above_480_leds_and_pushes_only_last_packet() {
    let colors = vec![RgbColor::new(1, 2, 3); 481];
    let (packets, final_sequence) = encode_ddp_frame(&colors, 14, 1);

    assert_eq!(packets.len(), 2);
    assert_eq!(final_sequence, 1);
    assert_eq!(packets[0][0], DDP_VERSION_1);
    assert_eq!(packets[0][1], 15);
    assert_eq!(&packets[0][4..8], &[0, 0, 0, 0]);
    assert_eq!(&packets[0][8..10], &[0x05, 0xA0]);

    assert_eq!(packets[1][0], DDP_VERSION_1 | DDP_PUSH);
    assert_eq!(packets[1][1], 1);
    assert_eq!(&packets[1][4..8], &[0, 0, 5, 0xA0]);
    assert_eq!(&packets[1][8..10], &[0, 3]);
    assert_eq!(&packets[1][10..], &[1, 2, 3]);
}

#[test]
fn sequence_wraps_without_using_zero() {
    assert_eq!(next_sequence(0), 1);
    assert_eq!(next_sequence(14), 15);
    assert_eq!(next_sequence(15), 1);
}

#[test]
fn remaps_canonical_colors_to_wled_indices() {
    let colors = [
        RgbColor::new(1, 0, 0),
        RgbColor::new(2, 0, 0),
        RgbColor::new(3, 0, 0),
        RgbColor::new(4, 0, 0),
    ];
    let output = remap_colors(&colors, &[2, 1, 3, 0]);

    assert_eq!(output[0], colors[3]);
    assert_eq!(output[1], colors[1]);
    assert_eq!(output[2], colors[0]);
    assert_eq!(output[3], colors[2]);
}

#[test]
fn enforces_minimum_four_perimeter_leds() {
    let (sampler, setup) = WledPerimeterSampler::new(
        1,
        false,
        scalar(1.0),
        scalar(0.0),
        scalar(1.0),
        NanoleafAlignment::default(),
    );
    assert_eq!(sampler.led_count(), 4);
    assert_eq!(setup.segments, 4);
    assert_eq!(setup.output_ids, vec![0, 1, 2, 3]);
}

#[test]
fn an_empty_frame_is_one_push_packet() {
    let (packets, last) = encode_ddp_frame(&[], 0, 3);
    assert_eq!(last, 1);
    assert_eq!(packets, vec![vec![0x41, 1, 0x0b, 3, 0, 0, 0, 0, 0, 0]]);
}

#[test]
fn a_full_packet_pushes_and_is_not_split() {
    let colors = vec![RgbColor::new(9, 8, 7); 480];
    let (packets, last) = encode_ddp_frame(&colors, 15, 1);
    assert_eq!(packets.len(), 1);
    assert_eq!(last, 1);
    assert_eq!(packets[0][0], DDP_VERSION_1 | DDP_PUSH);
    assert_eq!(packets[0].len(), 1450);
}

#[test]
fn packets_write_offsets_in_network_order() {
    assert_eq!(
        encode_packet(&[7], 31, 2, 0x0102_0304, false),
        vec![0x40, 15, 0x0b, 2, 1, 2, 3, 4, 0, 1, 7]
    );
}

#[test]
fn sequence_numbers_go_on_from_frame_to_frame() {
    let mut streamer = WledDdpStreamer::new(1).unwrap();
    let colors = vec![RgbColor::new(1, 2, 3); 481];
    let mut seen = Vec::new();
    for _ in 0..10 {
        for packet in streamer.send_frame(&colors) {
            seen.push(packet[1]);
        }
    }
    let expected: Vec<u8> = (0..20).map(|step| step % 15 + 1).collect();
    assert_eq!(seen, expected);
}

#[test]
fn a_receiver_gets_the_frame_back() {
    let colors: Vec<RgbColor> =
        (0..1000u32).map(|i| RgbColor::new(i as u8, (i / 3) as u8, (i / 7) as u8)).collect();
    let (packets, _) = encode_ddp_frame(&colors, 3, 1);
    let mut held = vec![0u8; 3000];
    for packet in &packets {
        let offset = u32::from_be_bytes([packet[4], packet[5], packet[6], packet[7]]) as usize;
        let len = u16::from_be_bytes([packet[8], packet[9]]) as usize;
        held[offset..offset + len].copy_from_slice(&packet[10..]);
    }
    let sent: Vec<u8> = colors.iter().flat_map(|c| [c.r, c.g, c.b]).collect();
    assert_eq!(held, sent);
}

#[test]
fn the_next_full_frame_repairs_a_dropped_one() {
    let put = |held: &mut Vec<u8>, packet: &Vec<u8>| {
        let offset = u32::from_be_bytes([packet[4], packet[5], packet[6], packet[7]]) as usize;
        held[offset..offset + packet.len() - 10].copy_from_slice(&packet[10..]);
    };
    let mut streamer = WledDdpStreamer::new(1).unwrap();
    let mut held = vec![0u8; 3000];
    put(&mut held, &streamer.send_frame(&vec![RgbColor::new(9, 9, 9); 1000])[0]);
    assert_eq!(held[1439..1441], [9, 0]);
    for packet in streamer.send_frame(&vec![RgbColor::new(4, 5, 6); 1000]) {
        put(&mut held, &packet);
    }
    assert!(held.chunks(3).all(|color| color == [4, 5, 6]));
}

#[test]
fn destination_zero_is_refused() {
    let error = WledDdpStreamer::new(0).err().unwrap();
    assert_eq!(error, DdpError::InvalidDestination);
    assert_eq!(
        error.message(),
        "DDP destination ID 0 is invalid; use 1 for the default WLED display"
    );
}

#[test]
fn a_packet_that_cannot_be_sent_now_ends_the_frame_quietly() {
    assert_eq!(after_send(SendResult::Sent), SendStep::Continue);
    assert_eq!(after_send(SendResult::WouldBlock), SendStep::DropFrame);
    assert_eq!(after_send(SendResult::Interrupted), SendStep::DropFrame);
    assert_eq!(after_send(SendResult::Failed), SendStep::Fail);
}

#[test]
fn unpaired_outputs_stay_dark_and_foreign_ids_are_ignored() {
    let colors = [RgbColor::new(1, 1, 1), RgbColor::new(2, 2, 2), RgbColor::new(3, 3, 3)];
    assert_eq!(
        remap_colors(&colors, &[9, 1]),
        vec![RgbColor::new(0, 0, 0), RgbColor::new(2, 2, 2), RgbColor::new(0, 0, 0)]
    );
    assert_eq!(
        remap_colors(&colors, &[0, 0, 2]),
        vec![RgbColor::new(2, 2, 2), RgbColor::new(0, 0, 0), RgbColor::new(3, 3, 3)]
    );
}

#[test]
fn settings_reach_the_edge_sampler_in_order() {
    let (mut sampler, _) = WledPerimeterSampler::new(
        60,
        true,
        scalar(1.5),
        scalar(0.02),
        scalar(1.0),
        NanoleafAlignment::default(),
    );
    let rect = ActiveRect { left: 0, top: 10, right: 320, bottom: 170 };
    sampler.set_smoothing_factor(scalar(0.5));
    sampler.set_hdr_tone_mapping(false);
    sampler.set_active_rect(rect);
    assert_eq!(
        sampler.take_settings(),
        vec![
            SamplerSetting::SmoothingFactor(scalar(0.5)),
            SamplerSetting::HdrToneMapping(false),
            SamplerSetting::ActiveRect(rect),
        ]
    );
    assert!(sampler.take_settings().is_empty());
    assert_eq!(
        sampler.sample_frame(&[RgbColor::new(1, 0, 0), RgbColor::new(2, 0, 0)], &[1, 0]),
        vec![RgbColor::new(2, 0, 0), RgbColor::new(1, 0, 0)]
    );
}

#[test]
fn a_black_frame_turns_every_light_off() {
    assert_eq!(black_frame(3), vec![RgbColor::new(0, 0, 0); 3]);
    assert!(black_frame(0).is_empty());
}

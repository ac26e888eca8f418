use nano_dfu::dfu::{
    dfu_clrstatus, dfu_dnload, dfu_getstatus, dfu_upload, poll_timeout, DfuRequest,
};
use nano_dfu::error::AppleDeviceError;
use nano_dfu::exploit::{check_product_name, hax_plan, patch_bootrom_state, BOOTROM_STATE_LEN};
use nano_dfu::image::{add_img_header, is_wrapped, prepare_image};
use nano_dfu::load::{ImageLoad, LoadAction, LoadPhase};
use nano_dfu::mode::{find_device, is_wanted_device, Mode, APPLE_VENDOR_ID};

fn le32_at(b: &[u8], off: usize) -> u32 {
    u32::from_le_bytes([b[off], b[off + 1], b[off + 2], b[off + 3]])
}

/// Drives a transfer with a device that answers each status query from
/// `busy` (then idle) and the final query with `final_status`. Returns the
/// result, the chunks sent, the number of status queries and the sleeps.
fn drive(
    payload: &[u8],
    busy: &[[u8; 6]],
    final_status: [u8; 6],
) -> (Result<(), AppleDeviceError>, Vec<Vec<u8>>, usize, Vec<u64>) {
    let mut load = ImageLoad::new(Mode::DFU, payload).unwrap();
    let mut chunks = Vec::new();
    let mut queries = 0usize;
    let mut sleeps = Vec::new();
    let mut busy_left = busy.to_vec();
    loop {
        match load.next_action() {
            LoadAction::Request(DfuRequest::Dnload(d)) => {
                if !d.is_empty() {
                    chunks.push(d);
                }
                load.on_sent();
            }
            LoadAction::Request(DfuRequest::GetStatus) => {
                queries += 1;
                if load.current_phase() == LoadPhase::FinalStatus {
                    load.on_status(&final_status);
                } else if !busy_left.is_empty() {
                    let s = busy_left.remove(0);
                    load.on_status(&s);
                } else {
                    load.on_status(&[0, 0, 0, 0, 5, 0]);
                }
            }
            LoadAction::Request(other) => panic!("unexpected request {:?}", other),
            LoadAction::Sleep(ms) => {
                sleeps.push(ms);
                load.on_slept();
            }
            LoadAction::Done(r) => return (r, chunks, queries, sleeps),
        }
    }
}

#[test]
fn mode_lookup_table() {
    assert_eq!(Mode::from(0x1234u16), Mode::DFU);
    assert_eq!(Mode::from(0x1249u16), Mode::WTF);
    assert_eq!(Mode::from(0x124Au16), Mode::WTF);
    assert_eq!(Mode::from(0x1267u16), Mode::DISK);
    assert_eq!(Mode::from(0x1111u16), Mode::Unknown(0x1111));
}

#[test]
fn device_matching() {
    assert!(is_wanted_device(APPLE_VENDOR_ID, 0x1234, Some(Mode::DFU)));
    assert!(!is_wanted_device(APPLE_VENDOR_ID, 0x1249, Some(Mode::DFU)));
    assert!(is_wanted_device(APPLE_VENDOR_ID, 0x9999, None));
    assert!(!is_wanted_device(0x1d6b, 0x1234, None));
    let ids = vec![(0x1d6b, 0x0002), (APPLE_VENDOR_ID, 0x1267), (APPLE_VENDOR_ID, 0x1234)];
    assert_eq!(find_device(&ids, Some(Mode::DFU)), Some(2));
    assert_eq!(find_device(&ids, None), Some(1));
    assert_eq!(find_device(&ids, Some(Mode::WTF)), None);
}

#[test]
fn discovery_without_vendor_finds_nothing() {
    let ids = vec![(0x1d6b, 0x0002), (0x046d, 0x1234), (0x8087, 0x0a2b)];
    assert_eq!(find_device(&ids, None), None);
    assert_eq!(find_device(&ids, Some(Mode::DFU)), None);
    assert_eq!(find_device(&Vec::new(), None), None);
}

#[test]
fn request_setup_fields() {
    let s = dfu_dnload(Mode::DFU, &[1, 2]).unwrap().setup();
    assert_eq!((s.request_type, s.request, s.value, s.index), (0x21, 1, 1, 0));
    let s = dfu_upload(Mode::DFU, 0x40).unwrap().setup();
    assert_eq!((s.request_type, s.request, s.value, s.index), (0xA1, 2, 0, 0));
    let s = dfu_getstatus(Mode::DFU).unwrap().setup();
    assert_eq!((s.request_type, s.request, s.value, s.index), (0xA1, 3, 0, 0));
    let s = dfu_clrstatus(Mode::DFU).unwrap().setup();
    assert_eq!((s.request_type, s.request, s.value, s.index), (0x21, 4, 0, 0));
    assert_eq!(dfu_getstatus(Mode::DFU).unwrap().read_len(), 6);
    assert_eq!(dfu_upload(Mode::DFU, 0x40).unwrap().read_len(), 0x40);
    assert_eq!(dfu_dnload(Mode::DFU, &[1, 2]).unwrap(), DfuRequest::Dnload(vec![1, 2]));
}

#[test]
fn primitives_refuse_other_modes() {
    for mode in [Mode::WTF, Mode::DISK, Mode::UBOOT, Mode::Unknown(7)] {
        assert!(matches!(dfu_dnload(mode, &[1]), Err(AppleDeviceError::WrongMode)));
        assert!(matches!(dfu_upload(mode, 4), Err(AppleDeviceError::WrongMode)));
        assert!(matches!(dfu_getstatus(mode), Err(AppleDeviceError::WrongMode)));
        assert!(matches!(dfu_clrstatus(mode), Err(AppleDeviceError::WrongMode)));
        assert!(matches!(ImageLoad::new(mode, &[1, 2, 3]), Err(AppleDeviceError::WrongMode)));
        let state = vec![0u8; BOOTROM_STATE_LEN];
        assert!(matches!(hax_plan(mode, &state, &[1]), Err(AppleDeviceError::WrongMode)));
    }
}

#[test]
fn poll_timeout_little_endian() {
    assert_eq!(poll_timeout(&[0, 0xB8, 0x0B, 0x00, 7, 0]), 3000);
    assert_eq!(poll_timeout(&[9, 0x01, 0x02, 0x03, 4, 0]), 0x030201);
}

#[test]
fn wrapped_payload_is_kept() {
    let mut p = vec![0xAAu8; 0x400];
    p[..4].copy_from_slice(b"8740");
    assert!(is_wrapped(&p));
    assert_eq!(prepare_image(&p), p);
    let mut short = vec![0u8; 0x3FF];
    short[..4].copy_from_slice(b"8740");
    assert!(!is_wrapped(&short));
    assert_eq!(prepare_image(&short).len(), 0x3FF + 1 + 0x400 + 0x80 + 0x300);
}

#[test]
fn wrap_length_and_padding() {
    let p = vec![7u8; 1000];
    let w = prepare_image(&p);
    assert_eq!(w.len(), 1000 + 8 + 0x400 + 0x80 + 0x300);
    assert_eq!(&w[0x400..0x400 + 1000], &p[..]);
    assert!(w[0x400 + 1000..0x400 + 1008].iter().all(|&b| b == 0));
    assert!(w[0x400 + 1008..0x400 + 1008 + 0x80].iter().all(|&b| b == b'S'));
    assert!(w[0x400 + 1008 + 0x80..].iter().all(|&b| b == b'C'));
    let aligned = vec![1u8; 32];
    assert_eq!(add_img_header(&aligned).len(), 32 + 16 + 0x400 + 0x80 + 0x300);
    assert_eq!(add_img_header(&[]).len(), 16 + 0x400 + 0x80 + 0x300);
}

#[test]
fn header_fields_agree() {
    let w = add_img_header(&vec![3u8; 1000]);
    assert_eq!(&w[0..4], b"8740");
    assert_eq!(&w[4..7], b"2.0");
    assert_eq!(w[7], 4);
    assert_eq!(le32_at(&w, 8), 0);
    assert_eq!(le32_at(&w, 12), 1008);
    assert_eq!(le32_at(&w, 16), 1008 + 0x80 + 0x300);
    assert_eq!(le32_at(&w, 20), 1008 + 0x80);
    assert_eq!(le32_at(&w, 24), 0x300);
    assert!(w[28..0x400].iter().all(|&b| b == 0));
}

#[test]
fn load_scenario_success() {
    let payload = vec![0x11u8; 1000];
    let (r, chunks, queries, sleeps) = drive(&payload, &[], [0, 0xB8, 0x0B, 0, 7, 0]);
    assert!(r.is_ok());
    assert_eq!(chunks.len(), 2);
    assert_eq!(chunks[0].len(), 0x800);
    assert_eq!(chunks[1].len(), 1000 + 8 + 0x400 + 0x80 + 0x300 - 0x800);
    assert_eq!(chunks.concat(), prepare_image(&payload));
    assert_eq!(queries, 3);
    assert!(sleeps.is_empty());
}

#[test]
fn load_scenario_bad_final_status() {
    let (r, _, _, _) = drive(&vec![0x22u8; 1000], &[], [1, 0, 0, 0, 2, 0]);
    assert!(matches!(r, Err(AppleDeviceError::Unknown)));
}

#[test]
fn load_busy_poll() {
    let busy = [[0u8, 50, 0, 0, 4, 0]; 3];
    let mut p = vec![0u8; 0x400];
    p[..4].copy_from_slice(b"8740");
    let (r, chunks, queries, sleeps) = drive(&p, &busy, [0, 0xB8, 0x0B, 0, 7, 0]);
    assert!(r.is_ok());
    assert_eq!(chunks, vec![p.clone()]);
    // four queries for the single chunk, one final
    assert_eq!(queries, 5);
    assert_eq!(sleeps, vec![50, 50, 50]);
}

#[test]
fn load_exact_multiple_of_chunk() {
    let mut p = vec![5u8; 0x1000];
    p[..4].copy_from_slice(b"8740");
    let (r, chunks, queries, _) = drive(&p, &[], [0, 0xB8, 0x0B, 0, 7, 0]);
    assert!(r.is_ok());
    assert_eq!(chunks.len(), 2);
    assert!(chunks.iter().all(|c| c.len() == 0x800));
    assert_eq!(queries, 3);
}

fn sample_state(dfu_buf: u32) -> Vec<u8> {
    let mut s: Vec<u8> = (0..BOOTROM_STATE_LEN).map(|i| (i % 251) as u8).collect();
    s[0..4].copy_from_slice(&dfu_buf.to_le_bytes());
    s
}

#[test]
fn bootrom_state_patches() {
    let s = sample_state(0x2202_0000);
    let p = patch_bootrom_state(&s).unwrap();
    assert_eq!(p.len(), BOOTROM_STATE_LEN);
    assert_eq!(le32_at(&p, 0x3C), 0x2202e380);
    assert_eq!(p[0x10], 0);
    assert_eq!(p[0x29], 0);
    assert_eq!(p[0x28], 1);
    assert_eq!(le32_at(&p, 0x1C), 0x2202_0400);
    for i in 0..BOOTROM_STATE_LEN {
        if !(0x1C..0x20).contains(&i) && !(0x3C..0x40).contains(&i) && ![0x10, 0x28, 0x29].contains(&i) {
            assert_eq!(p[i], s[i]);
        }
    }
}

#[test]
fn bootrom_state_malformed() {
    assert!(matches!(patch_bootrom_state(&[0u8; 0x63F]), Err(AppleDeviceError::Unknown)));
    assert!(matches!(patch_bootrom_state(&[0u8; 0x641]), Err(AppleDeviceError::Unknown)));
    let s = sample_state(0xFFFF_FC00);
    assert!(matches!(patch_bootrom_state(&s), Err(AppleDeviceError::Unknown)));
    assert!(patch_bootrom_state(&sample_state(0xFFFF_FBFF)).is_ok());
    let state = sample_state(0);
    assert!(matches!(hax_plan(Mode::DFU, &state[..0x100], &[1]), Err(AppleDeviceError::Unknown)));
}

#[test]
fn exploit_scenario() {
    let state = sample_state(0x2202_0000);
    let stub = vec![0xE5u8; 0x120];
    let plan = hax_plan(Mode::DFU, &state, &stub).unwrap();
    assert_eq!(plan.len(), 7 + 2 * 88 + 7);
    assert_eq!(plan[0], DfuRequest::ClrStatus);
    match &plan[1] {
        DfuRequest::Dnload(d) => {
            assert_eq!(d.len(), 0x780);
            assert_eq!(&d[0x400..0x520], &stub[..]);
            assert!(d[..0x400].iter().all(|&b| b == 0));
            assert!(d[0x520..].iter().all(|&b| b == 0));
        }
        other => panic!("unexpected {:?}", other),
    }
    assert_eq!(plan[3], DfuRequest::Dnload(vec![0; 0x100]));
    assert_eq!(plan[5], DfuRequest::Dnload(patch_bootrom_state(&state).unwrap()));
    for k in 0..88 {
        assert_eq!(plan[7 + 2 * k], DfuRequest::Dnload(vec![0; 0x40]));
        assert_eq!(plan[8 + 2 * k], DfuRequest::GetStatus);
    }
    let tail = &plan[7 + 176..];
    assert_eq!(tail[0], DfuRequest::Dnload(vec![0; 0x30]));
    assert_eq!(
        tail[2],
        DfuRequest::Dnload(vec![
            0x67, 0x10, 0x58, 0xba, 0x00, 0x00, 0x00, 0x00, 0x80, 0xe3, 0x02, 0x22, 0x00, 0xd9,
            0x02, 0x22
        ])
    );
    assert_eq!(tail[4], DfuRequest::ClrStatus);
    assert_eq!(tail[5], DfuRequest::Upload(0x40));
    assert_eq!(tail[6], DfuRequest::GetStatus);
    assert!(check_product_name("PWN DFU").is_ok());
    assert!(matches!(check_product_name("Apple Mobile Device (DFU Mode)"), Err(AppleDeviceError::Unknown)));
    assert!(matches!(check_product_name("PWN DF"), Err(AppleDeviceError::Unknown)));
    assert!(matches!(check_product_name(""), Err(AppleDeviceError::Unknown)));
}

use eei_vfd::gp1287bi::command::Command;
use eei_vfd::gp1287bi::{UnsupportedOperation, VFD256x50};
use eei_vfd::interface::{
    cmd_with_arg, cmd_with_data, data_x_times, reset, DisplayInterface, Step, MAX_WRITE_LEN,
};
use eei_vfd::traits::Command as _;

fn window(steps: &[Step]) -> Vec<Vec<u8>> {
    assert_eq!(steps.len(), 2);
    match &steps[0] {
        Step::Write(b) => assert!(b.is_empty()),
        other => panic!("expected a settling write, got {:?}", other),
    }
    match &steps[1] {
        Step::Transaction(ws) => ws.clone(),
        other => panic!("expected a transaction, got {:?}", other),
    }
}

fn driver() -> VFD256x50<(), (), ()> {
    VFD256x50::new(DisplayInterface::new((), (), ()))
}

fn count_transactions(steps: &[Step]) -> usize {
    steps
        .iter()
        .filter(|s| matches!(s, Step::Transaction(_)))
        .count()
}

#[test]
fn command_address_is_reversed() {
    let ws = window(&cmd_with_arg(Command::WriteGRAM, &[]));
    assert_eq!(ws, vec![vec![0x0F], vec![]]);
    let ws = window(&cmd_with_arg(Command::VFDModeSetting, &[0x02, 0x00]));
    assert_eq!(ws, vec![vec![0x33], vec![0x02, 0x00]]);
    assert_eq!(Command::UnknownInit.address(), 0x90);
    let ws = window(&cmd_with_arg(Command::UnknownInit, &[0x80]));
    assert_eq!(ws, vec![vec![0x09], vec![0x80]]);
}

#[test]
fn command_stream_is_address_args_data() {
    let data: Vec<u8> = (0..10u8).collect();
    let ws = window(&cmd_with_data(Command::BrightnessSetting, &[1, 2], &data));
    let stream: Vec<u8> = ws.concat();
    let mut expected = vec![0x05, 1, 2];
    expected.extend_from_slice(&data);
    assert_eq!(stream, expected);
}

#[test]
fn large_payload_is_chunked() {
    let data: Vec<u8> = (0..10000u32).map(|i| i as u8).collect();
    let ws = window(&cmd_with_data(Command::WriteGRAM, &[0, 4, 0x37], &data));
    assert_eq!(ws.len(), 2 + 3);
    assert_eq!(ws[2].len(), MAX_WRITE_LEN);
    assert_eq!(ws[3].len(), MAX_WRITE_LEN);
    assert_eq!(ws[4].len(), 10000 - 2 * MAX_WRITE_LEN);
    assert_eq!(ws[2..].concat(), data);
}

#[test]
fn reset_sequence() {
    let steps = reset(10);
    assert!(matches!(
        steps.as_slice(),
        [Step::ResetLow, Step::DelayMs(10), Step::ResetHigh, Step::DelayMs(1)]
    ));
}

#[test]
fn repeated_byte_write() {
    let steps = data_x_times::<3>(0xAB);
    assert!(matches!(steps.as_slice(), [Step::Write(b)] if b == &vec![0xAB; 3]));
}

#[test]
fn brightness_packs_two_bytes() {
    let d = driver();
    let ws = window(&d.brightness_steps(0x3FF));
    assert_eq!(ws, vec![vec![0x05], vec![0x03, 0xFF]]);
    let ws = window(&d.brightness_steps(0x1234));
    assert_eq!(ws, vec![vec![0x05], vec![0x02, 0x34]]);
}

#[test]
fn init_sequence_order() {
    let d = driver();
    let steps = d.init_steps();
    assert!(matches!(
        &steps[..4],
        [Step::ResetLow, Step::DelayMs(1), Step::ResetHigh, Step::DelayMs(1)]
    ));
    assert_eq!(count_transactions(&steps), 11);
    let frames: Vec<Vec<Vec<u8>>> = steps
        .iter()
        .filter_map(|s| match s {
            Step::Transaction(ws) => Some(ws.clone()),
            _ => None,
        })
        .collect();
    assert_eq!(frames[0], vec![vec![0x55], vec![]]);
    assert_eq!(frames[2], vec![vec![0x07], vec![0xFF, 0x31, 0x00, 0x20, 0x00, 0x00, 0x80]]);
    assert_eq!(frames[4], vec![vec![0x05], vec![0x00, 0x30]]);
    assert_eq!(frames[5], vec![vec![0xAA], vec![]]);
    assert_eq!(frames[10], vec![vec![0x10], vec![0x00]]);
    // the clear is followed by its settle time
    let clear_at = steps
        .iter()
        .position(|s| matches!(s, Step::Transaction(ws) if ws[0] == vec![0xAA]))
        .unwrap();
    assert!(matches!(steps[clear_at + 1], Step::DelayMs(10)));
}

#[test]
fn sleep_wake_and_clear() {
    let d = driver();
    assert_eq!(window(&d.sleep_steps()), vec![vec![0x86], vec![]]);
    let wake = d.wake_up_steps();
    assert_eq!(window(&wake[..2]), vec![vec![0xB6], vec![]]);
    assert_eq!(wake.len(), 2 + d.init_steps().len());
    let clear = d.clear_frame_steps();
    assert_eq!(window(&clear[..2]), vec![vec![0xAA], vec![]]);
    assert!(matches!(clear[2], Step::DelayMs(10)));
    assert_eq!(d.width(), 56);
    assert_eq!(d.height(), 256);
}

#[test]
fn frame_update_and_partial_refusal() {
    let d = driver();
    let buffer = vec![0x5Au8; 1792];
    let ws = window(&d.update_frame_steps(&buffer));
    assert_eq!(ws[0], vec![0x0F]);
    assert_eq!(ws[1], vec![0x00, 0x04, 0x37]);
    assert_eq!(ws[2..].concat(), buffer);
    assert_eq!(
        d.update_partial_frame_steps(&buffer, 0, 0, 8, 8).err(),
        Some(UnsupportedOperation)
    );
}

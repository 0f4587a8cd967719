use pico_weather::epd::{
    init_partial_script, init_script, sleep_script, update_partial_script, update_script, EpdOp,
};

fn cmd_data(op: &EpdOp) -> Option<(u8, Vec<u8>)> {
    match op {
        EpdOp::CommandData(c, d) => Some((*c, d.clone())),
        _ => None,
    }
}

#[test]
fn init_starts_with_the_reset_pulse_and_whitens_both_rams() {
    let ops = init_script();
    assert!(matches!(ops[0], EpdOp::SetReset(true)));
    assert!(matches!(ops[1], EpdOp::DelayMs(10)));
    assert!(matches!(ops[2], EpdOp::SetReset(false)));
    assert!(matches!(ops[6], EpdOp::WaitBusy));
    assert!(matches!(ops[7], EpdOp::Command(0x12)));
    assert_eq!(cmd_data(&ops[9]), Some((0x01, vec![0x27, 0x01, 0x00])));
    assert_eq!(cmd_data(&ops[12]), Some((0x45, vec![0x00, 0x00, 0x27, 0x01])));
    let fills: Vec<&Vec<u8>> = ops
        .iter()
        .filter_map(|o| match o {
            EpdOp::Data(d) => Some(d),
            _ => None,
        })
        .collect();
    assert_eq!(fills.len(), 2);
    assert!(fills.iter().all(|d| d.len() == 296 * 17 && d.iter().all(|&b| b == 0xFF)));
    assert_eq!(ops.len(), 29);
    assert!(matches!(ops[28], EpdOp::WaitBusy));
}

#[test]
fn partial_mode_loads_the_waveform_table() {
    let ops = init_partial_script();
    assert!(matches!(ops[0], EpdOp::Command(0x32)));
    match &ops[1] {
        EpdOp::Data(d) => {
            assert_eq!(d.len(), 153);
            assert_eq!(d[1], 0x40);
            assert_eq!(&d[144..153], &[0x22, 0x22, 0x22, 0x22, 0x22, 0x22, 0, 0, 0]);
        },
        _ => panic!("waveform expected"),
    }
    assert_eq!(cmd_data(&ops[3]), Some((0x3F, vec![0x22])));
    assert_eq!(cmd_data(&ops[4]), Some((0x03, vec![0x17])));
    assert_eq!(cmd_data(&ops[5]), Some((0x04, vec![0x41, 0xB0, 0x32])));
    assert_eq!(cmd_data(&ops[6]), Some((0x2C, vec![0x36])));
    assert_eq!(cmd_data(&ops[9]), Some((0x22, vec![0xC0])));
    assert_eq!(ops.len(), 12);
}

#[test]
fn full_refresh_writes_the_frame_twice() {
    let ops = update_script();
    let frames = ops.iter().filter(|o| matches!(o, EpdOp::Frame)).count();
    assert_eq!(frames, 2);
    assert_eq!(cmd_data(&ops[0]), Some((0x4E, vec![0])));
    assert_eq!(cmd_data(&ops[1]), Some((0x4F, vec![0, 0])));
    assert_eq!(cmd_data(&ops[10]), Some((0x22, vec![0xF7])));
    assert_eq!(ops.len(), 13);
}

#[test]
fn partial_refresh_updates_then_copies_to_the_old_ram() {
    let ops = update_partial_script();
    assert_eq!(cmd_data(&ops[0]), Some((0x44, vec![0x00, 0x10])));
    assert!(matches!(ops[5], EpdOp::Command(0x24)));
    assert!(matches!(ops[6], EpdOp::Frame));
    assert_eq!(cmd_data(&ops[7]), Some((0x22, vec![0x0F])));
    assert!(matches!(ops[12], EpdOp::Command(0x26)));
    assert!(matches!(ops[13], EpdOp::Frame));
    assert_eq!(ops.len(), 14);
}

#[test]
fn sleep_is_deep_sleep_mode_one() {
    let ops = sleep_script();
    assert_eq!(cmd_data(&ops[0]), Some((0x10, vec![0x01])));
    assert!(matches!(ops[1], EpdOp::DelayMs(100)));
    assert_eq!(ops.len(), 2);
}

use pico_weather::touch::{touch_read_step, TouchAction, TouchBusResult};
use pico_weather::touch::{
    decode_touch_point, register_address, register_write_frame, touch_count, TouchPoint,
    REG_TOUCH_NUM, REG_VERSION,
};

#[test]
fn register_address_is_big_endian() {
    assert_eq!(register_address(REG_TOUCH_NUM), vec![0x10, 0x01]);
    assert_eq!(register_address(REG_VERSION), vec![0x00, 0x0A]);
}

#[test]
fn register_write_frame_holds_at_most_eight_data_bytes() {
    assert_eq!(register_write_frame(REG_TOUCH_NUM, &[0]), vec![0x10, 0x01, 0]);
    assert_eq!(register_write_frame(0x1234, &[]), vec![0x12, 0x34]);
    let data: Vec<u8> = (1..=10).collect();
    assert_eq!(register_write_frame(0x0001, &data), vec![0, 1, 1, 2, 3, 4, 5, 6, 7, 8]);
}

#[test]
fn touch_count_is_the_low_nibble() {
    assert_eq!(touch_count(0x00), 0);
    assert_eq!(touch_count(0x81), 1);
    assert_eq!(touch_count(0xFF), 15);
}

#[test]
fn touch_record_decodes_little_endian_coordinates() {
    let rec = [0u8, 0x28, 0x01, 0x64, 0x00, 0x30, 0x01];
    assert_eq!(decode_touch_point(&rec), TouchPoint { x: 296, y: 100 });
}

#[test]
fn touch_read_steps() {
    assert!(matches!(touch_read_step(TouchBusResult::Interrupt { high: true }), TouchAction::Finish(None)));
    assert!(matches!(touch_read_step(TouchBusResult::Interrupt { high: false }), TouchAction::ReadStatus));
    assert!(matches!(touch_read_step(TouchBusResult::Status(None)), TouchAction::Finish(None)));
    assert!(matches!(touch_read_step(TouchBusResult::Status(Some(0x80))), TouchAction::ClearThenFinish(None)));
    assert!(matches!(touch_read_step(TouchBusResult::Status(Some(0x01))), TouchAction::ReadRecord));
    assert!(matches!(touch_read_step(TouchBusResult::Record(None)), TouchAction::ClearThenFinish(None)));
    let rec = [0u8, 0x05, 0x01, 0x7F, 0x00, 0, 0];
    assert!(matches!(
        touch_read_step(TouchBusResult::Record(Some(rec))),
        TouchAction::ClearThenFinish(Some(TouchPoint { x: 261, y: 127 }))
    ));
}

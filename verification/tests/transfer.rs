use annepro2::commands::AP2Target;
use annepro2::transfer::{chunk_size, plan_chunks};

fn image_of(len: usize) -> Vec<u8> {
    (0..len).map(|i| (i % 251) as u8).collect()
}

#[test]
fn chunk_size_is_32_only_for_ble_mcu() {
    assert_eq!(chunk_size(AP2Target::McuBle), 32);
    assert_eq!(chunk_size(AP2Target::McuMain), 48);
    assert_eq!(chunk_size(AP2Target::McuLed), 48);
    assert_eq!(chunk_size(AP2Target::UsbHost), 48);
    assert_eq!(chunk_size(AP2Target::BleHost), 48);
}

#[test]
fn chunk_count_is_ceiling_of_length_over_chunk_size() {
    // multiples of the chunk size take exactly len / c writes, no trailing
    // empty write
    assert_eq!(plan_chunks(AP2Target::McuMain, 0, &image_of(96)).len(), 2);
    assert_eq!(plan_chunks(AP2Target::McuMain, 0, &image_of(48)).len(), 1);
    assert_eq!(plan_chunks(AP2Target::McuMain, 0, &image_of(0)).len(), 0);
    // anything else takes one more
    assert_eq!(plan_chunks(AP2Target::McuMain, 0, &image_of(1)).len(), 1);
    assert_eq!(plan_chunks(AP2Target::McuMain, 0, &image_of(49)).len(), 2);
    assert_eq!(plan_chunks(AP2Target::McuMain, 0, &image_of(100)).len(), 3);
    // and the BLE MCU splits at 32
    assert_eq!(plan_chunks(AP2Target::McuBle, 0, &image_of(100)).len(), 4);
    assert_eq!(plan_chunks(AP2Target::McuBle, 0, &image_of(64)).len(), 2);
}

#[test]
fn final_short_chunk_is_zero_padded() {
    let image = image_of(50);
    let plan = plan_chunks(AP2Target::McuMain, 0x4000, &image);
    assert_eq!(plan.len(), 2);
    assert_eq!(plan[1].data.len(), 48);
    assert_eq!(&plan[1].data[..2], &image[48..50]);
    for &b in &plan[1].data[2..] {
        assert_eq!(b, 0);
    }
}

#[test]
fn hundred_byte_image_for_main_mcu() {
    // image = 100 bytes, chunk size 48: writes at base, base+48, base+96,
    // carrying 48, 48 and 4 real bytes, the last padded to 48
    let base = 0x0000_4000;
    let image = image_of(100);
    let plan = plan_chunks(AP2Target::McuMain, base, &image);
    assert_eq!(plan.len(), 3);
    assert_eq!(plan[0].addr, base);
    assert_eq!(plan[1].addr, base + 48);
    assert_eq!(plan[2].addr, base + 96);
    assert_eq!(plan[0].data, image[0..48].to_vec());
    assert_eq!(plan[1].data, image[48..96].to_vec());
    assert_eq!(plan[2].data.len(), 48);
    assert_eq!(&plan[2].data[..4], &image[96..100]);
    for &b in &plan[2].data[4..] {
        assert_eq!(b, 0);
    }
}

use gpio_lines::chip::ChipInfo;
use gpio_lines::fixed_str::FixedStr;
use gpio_lines::line::event::{EventKind, LineEvent, Timestamp};
use gpio_lines::line::option_builder::LineOptionBuilder;
use gpio_lines::line::options::Active;
use gpio_lines::line::set::LineSet;
use gpio_lines::line::values::{values_from_pairs, LineValue};
use gpio_lines::line::{build_line_request, prepare_write, read_reply, read_request};
use gpio_lines::uapi::gpio_chip_info;
use gpio_lines::uapi::v2::{gpio_line_event, gpio_line_values, LINE_EVENT_ID_FALLING_EDGE,
    LINE_EVENT_ID_RISING_EDGE, LINE_FLAG_ACTIVE_LOW, LINE_FLAG_OUTPUT};
use gpio_lines::Error;

#[test]
fn acquisition_lowers_into_one_request() {
    let offsets = LineSet::try_from_iter(&[2, 5, 7]).unwrap();
    let flags = LineOptionBuilder::new().output().with_active(Active::Low).build_v2();
    assert_eq!(flags, LINE_FLAG_OUTPUT | LINE_FLAG_ACTIVE_LOW);

    let consumer = FixedStr::new("blinker").unwrap();
    let req = build_line_request(&offsets, flags, &consumer);

    assert_eq!(req.num_lines, 3);
    assert_eq!(&req.offsets[..3], &[2, 5, 7]);
    assert!(req.offsets[3..].iter().all(|&x| x == 0));
    assert_eq!(req.config.flags, flags);
    assert_eq!(req.config.num_attrs, 0);
    assert_eq!(&req.consumer[..7], b"blinker");
    assert!(req.consumer[7..].iter().all(|&b| b == 0));
    assert_eq!(req.event_buffer_size, 0);
    assert_eq!(req.fd, 0);
}

#[test]
fn write_one_line_and_read_it_back() {
    // The end-to-end value path for offsets {2, 5, 7}: write true to
    // offset 5 only, everything else masked out.
    let offsets = LineSet::try_from_iter(&[2, 5, 7]).unwrap();
    let values = values_from_pairs(&[(5, true)], &offsets).unwrap();
    let data = prepare_write(&offsets, &values);

    // Offset 5 sits at index 1 within the sorted set, so exactly bit 1
    // is set in both words.
    assert_eq!(data.mask, 0b010);
    assert_eq!(data.bits & data.mask, 0b010);

    // Reading the block back pairs the bits with their offsets again.
    let reply = read_reply(&offsets, gpio_line_values { bits: data.bits, mask: data.mask });
    assert_eq!(reply.iter(), vec![(5, LineValue::Active)]);
}

#[test]
fn write_mask_is_clipped_to_held_lines() {
    let offsets = LineSet::try_from_iter(&[2, 5]).unwrap();
    let wide = gpio_lines::line::values::MaskedBits::new(0b1111, 0b1111);
    let data = prepare_write(&offsets, &wide);
    assert_eq!(data.mask, 0b11);
}

#[test]
fn read_request_covers_every_held_line() {
    let offsets = LineSet::try_from_iter(&[2, 5, 7]).unwrap();
    let req = read_request(&offsets);
    assert_eq!(req.bits, 0);
    assert_eq!(req.mask, 0b111);

    let reply = read_reply(&offsets, gpio_line_values { bits: 0b101, mask: 0b111 });
    assert_eq!(
        reply.iter(),
        vec![(2, LineValue::Active), (5, LineValue::Inactive), (7, LineValue::Active)]
    );
}

#[test]
fn chip_info_decodes_names_and_line_count() {
    let mut w = gpio_chip_info { name: vec![0; 32], label: vec![0; 32], lines: 54 };
    w.name[..9].copy_from_slice(b"gpiochip0");
    w.label[..15].copy_from_slice(b"pinctrl-bcm2835");
    let info = ChipInfo::from_wire(w).unwrap();
    assert_eq!(info.name(), "gpiochip0");
    assert_eq!(info.label(), "pinctrl-bcm2835");
    assert_eq!(info.num_lines(), 54);
}

#[test]
fn chip_info_rejects_malformed_names() {
    let mut w = gpio_chip_info { name: vec![0; 32], label: vec![0; 32], lines: 1 };
    w.name[0] = 0xfe;
    assert_eq!(ChipInfo::from_wire(w).unwrap_err(), Error::Malformed);
}

#[test]
fn line_event_decodes_both_edges() {
    let mut e = gpio_line_event::zeroed();
    e.timestamp_ns = 123_456;
    e.id = LINE_EVENT_ID_RISING_EDGE;
    e.offset = 5;
    e.seqno = 9;
    e.line_seqno = 4;
    let ev = LineEvent::from_v2(&e).unwrap();
    assert_eq!(ev.timestamp, Timestamp(123_456));
    assert_eq!(ev.kind, EventKind::Rising);
    assert_eq!(ev.offset, 5);
    assert_eq!(ev.sequence, 9);
    assert_eq!(ev.line_sequence, 4);

    e.id = LINE_EVENT_ID_FALLING_EDGE;
    assert_eq!(LineEvent::from_v2(&e).unwrap().kind, EventKind::Falling);

    e.id = 7;
    assert_eq!(LineEvent::from_v2(&e).unwrap_err(), Error::Malformed);
}

#[test]
fn line_event_parses_from_wire_bytes() {
    let mut bytes = [0u8; 48];
    bytes[..8].copy_from_slice(&0x0102030405060708u64.to_le_bytes());
    bytes[8..12].copy_from_slice(&1u32.to_le_bytes());
    bytes[12..16].copy_from_slice(&21u32.to_le_bytes());
    bytes[16..20].copy_from_slice(&3u32.to_le_bytes());
    bytes[20..24].copy_from_slice(&2u32.to_le_bytes());

    let e = gpio_line_event::from_bytes(&bytes);
    assert_eq!(e.timestamp_ns, 0x0102030405060708);
    assert_eq!(e.id, 1);
    assert_eq!(e.offset, 21);
    assert_eq!(e.seqno, 3);
    assert_eq!(e.line_seqno, 2);
}

#[test]
fn debounce_converts_between_durations_and_micros() {
    let d = gpio_lines::line::options::Debounce::new(1, 500_000).unwrap();
    assert_eq!(d.as_micros(), 1_000_500);
    assert_eq!(d.as_duration(), (1, 500_000));

    // 5000 seconds of microseconds does not fit the 32-bit field.
    assert_eq!(
        gpio_lines::line::options::Debounce::new(5000, 0).unwrap_err(),
        Error::CapacityExceeded
    );
}

#[test]
fn legacy_wire_blocks_start_zeroed() {
    let data = gpio_lines::uapi::v1::gpiohandle_data::zeroed();
    assert_eq!(data.values.len(), 64);
    assert!(data.values.iter().all(|&b| b == 0));

    let ev = gpio_lines::uapi::v1::gpioevent_data { timestamp: 5, id: 1 };
    assert_eq!(ev.timestamp, 5);
    assert_eq!(ev.id, 1);
}

#[test]
fn fixed_str_errors_map_into_the_shared_taxonomy() {
    assert_eq!(
        gpio_lines::fixed_str::FixedStrErr::CapacityOverflow { capacity: 32, required: 40 }
            .as_error(),
        Error::CapacityExceeded
    );
    assert_eq!(gpio_lines::fixed_str::FixedStrErr::Utf8.as_error(), Error::Malformed);
    assert_eq!(gpio_lines::fixed_str::FixedStrErr::TrailingBytes.as_error(), Error::Malformed);
    assert_eq!(gpio_lines::fixed_str::FixedStrErr::EmbeddedNul.as_error(), Error::Malformed);
}

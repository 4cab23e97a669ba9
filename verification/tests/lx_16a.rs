use lx16a_rover::lx_16a::{Command, Lx16aBus, Lx16aMode, ResponseFault, Servo, BROADCAST_ID};
use std::cell::RefCell;
use std::collections::VecDeque;
use std::io::{ErrorKind, Read, Write};
use std::rc::Rc;

/// A port that records what is written and answers from a queue of bytes.
struct MockPort {
    written: Rc<RefCell<Vec<u8>>>,
    replies: VecDeque<u8>,
    flushes: Rc<RefCell<usize>>,
}

impl Write for MockPort {
    fn write(&mut self, buf: &[u8]) -> std::io::Result<usize> {
        self.written.borrow_mut().extend_from_slice(buf);
        Ok(buf.len())
    }
    fn flush(&mut self) -> std::io::Result<()> {
        *self.flushes.borrow_mut() += 1;
        Ok(())
    }
}

impl Read for MockPort {
    fn read(&mut self, buf: &mut [u8]) -> std::io::Result<usize> {
        let mut n = 0;
        while n < buf.len() {
            match self.replies.pop_front() {
                Some(b) => {
                    buf[n] = b;
                    n += 1;
                }
                None => break,
            }
        }
        Ok(n)
    }
}

fn mock(replies: &[u8]) -> (MockPort, Rc<RefCell<Vec<u8>>>, Rc<RefCell<usize>>) {
    let written = Rc::new(RefCell::new(Vec::new()));
    let flushes = Rc::new(RefCell::new(0));
    (
        MockPort {
            written: written.clone(),
            replies: replies.iter().copied().collect(),
            flushes: flushes.clone(),
        },
        written,
        flushes,
    )
}

fn frame(id: u8, cmd: u8, params: &[u8]) -> Vec<u8> {
    let mut buf = [0u8; 32];
    let n = Servo::<MockPort>::form_packet(&mut buf, id, cmd, params);
    buf[..n].to_vec()
}

#[test]
fn checksum_inverts_low_byte_of_sum() {
    // 1 + 7 + 1 + 0xF4 + 0x01 + 0xE8 + 0x03 = 489 = 0x1E9; !0xE9 = 0x16
    assert_eq!(Servo::<MockPort>::checksum(&[0x01, 0x07, 0x01, 0xF4, 0x01, 0xE8, 0x03]), 0x16);
    assert_eq!(Servo::<MockPort>::checksum(&[]), 0xFF);
    assert_eq!(Servo::<MockPort>::checksum(&[0xFF, 0x01]), 0xFF);
    assert_eq!(Servo::<MockPort>::checksum(&[0x80, 0x7F]), 0x00);
}

#[test]
fn form_packet_frames_move_command() {
    let mut buf = [0xAAu8; 32];
    let n = Servo::<MockPort>::form_packet(&mut buf, 1, 1, &[0xF4, 0x01, 0xE8, 0x03]);
    assert_eq!(n, 10);
    assert_eq!(&buf[..n], &[0x55, 0x55, 0x01, 0x07, 0x01, 0xF4, 0x01, 0xE8, 0x03, 0x16]);
    assert!(buf[n..].iter().all(|&b| b == 0xAA));
}

#[test]
fn form_packet_without_params() {
    let mut buf = [0u8; 6];
    let n = Servo::<MockPort>::form_packet(&mut buf, 5, 11, &[]);
    assert_eq!(n, 6);
    // 5 + 3 + 11 = 19 = 0x13; !0x13 = 0xEC
    assert_eq!(buf, [0x55, 0x55, 0x05, 0x03, 0x0B, 0xEC]);
}

#[test]
fn formed_packet_checksum_cancels() {
    let p = frame(7, 28, &[0x12, 0x34]);
    assert_eq!(Servo::<MockPort>::checksum(&p[2..]), 0);
}

#[test]
fn servo_and_broadcast_ids() {
    let (port, _, _) = mock(&[]);
    let bus = Lx16aBus::new(port);
    assert_eq!(bus.servo(9).get_id(), 9);
    assert_eq!(bus.broadcast().get_id(), BROADCAST_ID);
    assert_eq!(BROADCAST_ID, 254);
}

#[test]
fn move_time_writes_position_and_time_little_endian() {
    let (port, written, flushes) = mock(&[]);
    let bus = Lx16aBus::new(port);
    bus.servo(1).move_time(500, 1000).unwrap();
    assert_eq!(*written.borrow(), vec![0x55, 0x55, 0x01, 0x07, 0x01, 0xF4, 0x01, 0xE8, 0x03, 0x16]);
    assert_eq!(*flushes.borrow(), 1);
}

#[test]
fn move_wait_and_start() {
    let (port, written, _) = mock(&[]);
    let bus = Lx16aBus::new(port);
    bus.servo(3).move_wait(-1000, 20).unwrap();
    bus.broadcast().move_start().unwrap();
    let mut expected = frame(3, 7, &[0x18, 0xFC, 0x14, 0x00]);
    expected.extend(frame(254, 11, &[]));
    assert_eq!(*written.borrow(), expected);
}

#[test]
fn set_mode_and_power_commands() {
    let (port, written, _) = mock(&[]);
    let bus = Lx16aBus::new(port);
    let s = bus.servo(2);
    s.set_mode(Lx16aMode::Speed(-300)).unwrap();
    s.set_mode(Lx16aMode::Servo).unwrap();
    s.set_powered(true).unwrap();
    s.set_powered(false).unwrap();
    let mut expected = frame(2, 29, &[1, 0, 0xD4, 0xFE]);
    expected.extend(frame(2, 29, &[0, 0, 0, 0]));
    expected.extend(frame(2, 31, &[1]));
    expected.extend(frame(2, 31, &[0]));
    assert_eq!(*written.borrow(), expected);
}

#[test]
fn read_pos_decodes_valid_response() {
    let reply = frame(4, 28, &[0x2C, 0x01]);
    let (port, written, _) = mock(&reply);
    let bus = Lx16aBus::new(port);
    assert_eq!(bus.servo(4).read_pos().unwrap(), 300);
    assert_eq!(*written.borrow(), frame(4, 28, &[]));
}

#[test]
fn read_pos_negative_position() {
    let reply = frame(4, 28, &[0xF6, 0xFF]);
    let (port, _, _) = mock(&reply);
    let bus = Lx16aBus::new(port);
    assert_eq!(bus.servo(4).read_pos().unwrap(), -10);
}

#[test]
fn read_vin_temp_and_id() {
    let mut replies = frame(6, 27, &[0x4C, 0x1D]);
    replies.extend(frame(6, 26, &[0xF6]));
    replies.extend(frame(6, 14, &[6]));
    let (port, _, _) = mock(&replies);
    let bus = Lx16aBus::new(port);
    let s = bus.servo(6);
    assert_eq!(s.read_vin_mv().unwrap(), 7500);
    assert_eq!(s.read_temp_c().unwrap(), -10);
    assert_eq!(s.read_servo_id().unwrap(), 6);
}

#[test]
fn read_refuses_bad_checksum() {
    let mut reply = frame(4, 28, &[0x2C, 0x01]);
    reply[7] ^= 0x01;
    let (port, _, _) = mock(&reply);
    let bus = Lx16aBus::new(port);
    let err = bus.servo(4).read_pos().unwrap_err();
    assert_eq!(err.kind(), ErrorKind::InvalidData);
    assert_eq!(err.to_string(), "Checksum error");
}

#[test]
fn read_refuses_response_of_other_servo() {
    let reply = frame(5, 28, &[0x2C, 0x01]);
    let (port, _, _) = mock(&reply);
    let bus = Lx16aBus::new(port);
    let err = bus.servo(4).read_pos().unwrap_err();
    assert_eq!(err.kind(), ErrorKind::InvalidData);
    assert_eq!(err.to_string(), "Bad response");
}

#[test]
fn read_refuses_wrong_command_and_header() {
    let reply = frame(4, 27, &[0x2C, 0x01]);
    let (port, _, _) = mock(&reply);
    let bus = Lx16aBus::new(port);
    assert_eq!(bus.servo(4).read_pos().unwrap_err().to_string(), "Bad response");

    let mut reply = frame(4, 28, &[0x2C, 0x01]);
    reply[0] = 0x54;
    let (port, _, _) = mock(&reply);
    let bus = Lx16aBus::new(port);
    assert_eq!(bus.servo(4).read_pos().unwrap_err().to_string(), "Bad response");
}

#[test]
fn read_reports_short_answer() {
    let (port, _, _) = mock(&[0x55, 0x55, 0x04]);
    let bus = Lx16aBus::new(port);
    assert_eq!(bus.servo(4).read_pos().unwrap_err().kind(), ErrorKind::UnexpectedEof);
}

#[test]
fn every_single_byte_corruption_is_refused() {
    let reply = frame(4, 28, &[0x2C, 0x01]);
    for k in 2..reply.len() {
        let mut bad = reply.clone();
        bad[k] = bad[k].wrapping_add(0x5B);
        let (port, _, _) = mock(&bad);
        let bus = Lx16aBus::new(port);
        assert!(bus.servo(4).read_pos().is_err());
    }
}

#[test]
fn bus_write_read_fills_buffer() {
    let (port, written, flushes) = mock(&[1, 2, 3, 4]);
    let bus = Lx16aBus::new(port);
    let mut rx = [0u8; 3];
    assert_eq!(bus.write_read(&[9, 8], &mut rx).unwrap(), 3);
    assert_eq!(rx, [1, 2, 3]);
    bus.write(&[7]).unwrap();
    assert_eq!(*written.borrow(), vec![9, 8, 7]);
    assert_eq!(*flushes.borrow(), 2);
}

#[test]
fn hand_written_response_is_the_framed_packet() {
    // 0x04 + 0x05 + 0x1C + 0x2C + 0x01 = 0x52; !0x52 = 0xAD
    let reply = vec![0x55, 0x55, 0x04, 0x05, 0x1C, 0x2C, 0x01, 0xAD];
    assert_eq!(frame(4, 28, &[0x2C, 0x01]), reply);
    let (port, _, _) = mock(&reply);
    let bus = Lx16aBus::new(port);
    assert_eq!(bus.servo(4).read_pos().unwrap(), 300);
}

#[test]
fn parse_response_returns_payload_or_fault() {
    let reply = frame(4, 28, &[0x2C, 0x01]);
    assert_eq!(Servo::<MockPort>::parse_response(&reply, 4, 28, 2).ok(), Some(vec![0x2C, 0x01]));

    let mut bad_sum = reply.clone();
    bad_sum[5] = 0x2D;
    assert!(matches!(Servo::<MockPort>::parse_response(&bad_sum, 4, 28, 2), Err(ResponseFault::Checksum)));

    assert!(matches!(Servo::<MockPort>::parse_response(&reply, 5, 28, 2), Err(ResponseFault::BadResponse)));
    assert!(matches!(Servo::<MockPort>::parse_response(&reply, 4, 27, 2), Err(ResponseFault::BadResponse)));

    // a bad header with a good checksum is refused as a bad response
    let mut bad_header = reply.clone();
    bad_header[1] = 0x00;
    assert!(matches!(Servo::<MockPort>::parse_response(&bad_header, 4, 28, 2), Err(ResponseFault::BadResponse)));

    let empty = frame(9, 11, &[]);
    assert_eq!(Servo::<MockPort>::parse_response(&empty, 9, 11, 0).ok(), Some(vec![]));
}

#[test]
fn command_packets_are_exact() {
    assert_eq!(
        Servo::<MockPort>::command_packet(1, Command::MoveTime(500, 1000)),
        vec![0x55, 0x55, 0x01, 0x07, 0x01, 0xF4, 0x01, 0xE8, 0x03, 0x16]
    );
    assert_eq!(
        Servo::<MockPort>::command_packet(1, Command::MoveWait(500, 1000)),
        vec![0x55, 0x55, 0x01, 0x07, 0x07, 0xF4, 0x01, 0xE8, 0x03, 0x10]
    );
    assert_eq!(Servo::<MockPort>::command_packet(254, Command::MoveStart), vec![0x55, 0x55, 0xFE, 0x03, 0x0B, 0xF3]);
    assert_eq!(Servo::<MockPort>::command_packet(2, Command::SetPowered(true)), frame(2, 31, &[1]));
    assert_eq!(Servo::<MockPort>::command_packet(2, Command::SetPowered(false)), frame(2, 31, &[0]));
    assert_eq!(
        Servo::<MockPort>::command_packet(2, Command::SetMode(Lx16aMode::Speed(-300))),
        frame(2, 29, &[1, 0, 0xD4, 0xFE])
    );
    assert_eq!(Servo::<MockPort>::command_packet(2, Command::SetMode(Lx16aMode::Servo)), frame(2, 29, &[0, 0, 0, 0]));
}

#[test]
fn request_packets_of_reads() {
    assert_eq!(Servo::<MockPort>::request_packet(1, 14, &[]), vec![0x55, 0x55, 0x01, 0x03, 0x0E, 0xED]);
    assert_eq!(Servo::<MockPort>::request_packet(1, 26, &[]), vec![0x55, 0x55, 0x01, 0x03, 0x1A, 0xE1]);
    assert_eq!(Servo::<MockPort>::request_packet(1, 27, &[]), vec![0x55, 0x55, 0x01, 0x03, 0x1B, 0xE0]);
    assert_eq!(Servo::<MockPort>::request_packet(1, 28, &[]), vec![0x55, 0x55, 0x01, 0x03, 0x1C, 0xDF]);
    let long: Vec<u8> = (0..200).map(|i| i as u8).collect();
    let p = Servo::<MockPort>::request_packet(3, 40, &long);
    assert_eq!(p.len(), 206);
    assert_eq!(p[3], 203);
    assert_eq!(Servo::<MockPort>::checksum(&p[2..]), 0);
}

#[test]
fn fault_messages() {
    assert_eq!(Servo::<MockPort>::fault_message(ResponseFault::Checksum), "Checksum error");
    assert_eq!(Servo::<MockPort>::fault_message(ResponseFault::BadResponse), "Bad response");
}

#[test]
fn parse_long_response() {
    let payload: Vec<u8> = (0..252).map(|i| (i * 7) as u8).collect();
    let reply = Servo::<MockPort>::request_packet(8, 50, &payload);
    assert_eq!(reply[3], 255);
    assert_eq!(Servo::<MockPort>::parse_response(&reply, 8, 50, 252).ok(), Some(payload));
}

#[test]
fn reads_send_exact_requests() {
    let mut replies = vec![0x55, 0x55, 0x01, 0x04, 0x0E, 0x01, 0xEB];
    replies.extend([0x55, 0x55, 0x01, 0x04, 0x1A, 0x28, 0xB8]);
    replies.extend([0x55, 0x55, 0x01, 0x05, 0x1B, 0x70, 0x1D, 0x51]);
    replies.extend([0x55, 0x55, 0x01, 0x05, 0x1C, 0xF6, 0xFF, 0xE8]);
    let (port, written, _) = mock(&replies);
    let bus = Lx16aBus::new(port);
    let s = bus.servo(1);
    assert_eq!(s.read_servo_id().unwrap(), 1);
    assert_eq!(s.read_temp_c().unwrap(), 40);
    assert_eq!(s.read_vin_mv().unwrap(), 7536);
    assert_eq!(s.read_pos().unwrap(), -10);
    let mut expected = vec![0x55, 0x55, 0x01, 0x03, 0x0E, 0xED];
    expected.extend([0x55, 0x55, 0x01, 0x03, 0x1A, 0xE1]);
    expected.extend([0x55, 0x55, 0x01, 0x03, 0x1B, 0xE0]);
    expected.extend([0x55, 0x55, 0x01, 0x03, 0x1C, 0xDF]);
    assert_eq!(*written.borrow(), expected);
}

#[test]
fn decoders_fix_the_values_read() {
    assert_eq!(
        Servo::<MockPort>::decode_byte_response(&[0x55, 0x55, 0x01, 0x04, 0x0E, 0x01, 0xEB], 1, 14).ok(),
        Some(1)
    );
    assert_eq!(
        Servo::<MockPort>::decode_signed_byte_response(&[0x55, 0x55, 0x01, 0x04, 0x1A, 0x28, 0xB8], 1, 26).ok(),
        Some(40)
    );
    let hot = frame(1, 26, &[0xC8]);
    assert_eq!(Servo::<MockPort>::decode_signed_byte_response(&hot, 1, 26).ok(), Some(-56));
    assert_eq!(
        Servo::<MockPort>::decode_word_response(&[0x55, 0x55, 0x01, 0x05, 0x1B, 0x70, 0x1D, 0x51], 1, 27).ok(),
        Some(7536)
    );
    assert_eq!(
        Servo::<MockPort>::decode_word_response(&[0x55, 0x55, 0x01, 0x05, 0x1C, 0xF6, 0xFF, 0xE8], 1, 28).ok(),
        Some(-10)
    );
    assert!(matches!(
        Servo::<MockPort>::decode_word_response(&[0x55, 0x55, 0x01, 0x05, 0x1C, 0xF6, 0xFF, 0xE9], 1, 28),
        Err(ResponseFault::Checksum)
    ));
    assert!(matches!(
        Servo::<MockPort>::decode_byte_response(&[0x55, 0x55, 0x01, 0x04, 0x0E, 0x01, 0xEB], 2, 14),
        Err(ResponseFault::BadResponse)
    ));
}

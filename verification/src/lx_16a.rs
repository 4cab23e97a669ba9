//! A bus of LX-16A serial servos, and the commands that one servo on it
//! understands.
use crate::byte_order::{le_high, le_low, le_word, read_i16_le, write_i16_le, write_u16_le};
use crate::packet::{
    checksum_of, length_field, packet, packet_body, response_accepted, response_payload, byte_sum,
    HEADER_BYTE,
};
use crate::port::{
    guard_of_poisoned, invalid_data_error, lock_port, new_port_lock, port_flush, port_read_exact, port_write,
};
use std::io::{Error, Read, Write};
use std::sync::Mutex;
use vstd::prelude::*;

verus! {

/// The id that addresses every servo on the bus at once.
pub const BROADCAST_ID: u8 = 254;

/// Command: move to a position within a time, at once.
pub const SERVO_MOVE_TIME_WRITE: u8 = 1;

/// Command: store a position and a time, to move on `SERVO_MOVE_START`.
pub const SERVO_MOVE_TIME_WAIT_WRITE: u8 = 7;

/// Command: start the stored move.
pub const SERVO_MOVE_START: u8 = 11;

/// Command: read the servo's id.
pub const SERVO_ID_READ: u8 = 14;

/// Command: read the temperature, in degrees Celsius.
pub const SERVO_TEMP_READ: u8 = 26;

/// Command: read the input voltage, in millivolts.
pub const SERVO_VIN_READ: u8 = 27;

/// Command: read the position.
pub const SERVO_POS_READ: u8 = 28;

/// Command: choose position control or continuous rotation at a speed.
/// Its number and its parameters (mode, an unused byte, the speed least
/// significant byte first) are those of `SERVO_OR_MOTOR_MODE_WRITE` in the
/// LX-16A bus servo communication protocol of the servo's maker.
pub const SERVO_OR_MOTOR_MODE_WRITE: u8 = 29;

/// Command: switch the motor's torque on or off. Its number and its one
/// parameter (1 on, 0 off) are those of `SERVO_LOAD_OR_UNLOAD_WRITE` in the
/// LX-16A bus servo communication protocol of the servo's maker.
pub const SERVO_LOAD_OR_UNLOAD_WRITE: u8 = 31;

/// The most parameter bytes that a request sent by a servo here carries:
/// a request is at most 32 bytes long.
pub const MAX_PARAMS: usize = 26;

/// The most parameter bytes that a packet can carry: its length byte
/// counts them plus 3.
pub const MAX_PACKET_PARAMS: usize = 252;

/// A serial bus of LX-16A servos, behind a lock so that one request and its
/// response are never interleaved with another.
#[verifier::reject_recursive_types(T)]
pub struct Lx16aBus<T> {
    port: Mutex<T>,
}

/// One servo on a bus, addressed by its id.
#[verifier::reject_recursive_types(T)]
pub struct Servo<'a, T> {
    id: u8,
    bus: &'a Lx16aBus<T>,
}

/// How a servo turns its motor.
pub enum Lx16aMode {
    /// Position control: the servo holds the position it was moved to.
    Servo,
    /// Continuous rotation at a speed from -1000 to 1000.
    Speed(i16),
}

/// A command that a servo carries out without answering.
pub enum Command {
    /// Move to a position within a time (ms), at once.
    MoveTime(i16, u16),
    /// Store a move to a position within a time (ms), for `MoveStart`.
    MoveWait(i16, u16),
    /// Start the stored move.
    MoveStart,
    /// Choose position control or rotation at a speed.
    SetMode(Lx16aMode),
    /// Switch the motor's torque on or off.
    SetPowered(bool),
}

/// The command byte of `c`.
pub open spec fn command_code(c: Command) -> u8 {
    match c {
        Command::MoveTime(_, _) => SERVO_MOVE_TIME_WRITE,
        Command::MoveWait(_, _) => SERVO_MOVE_TIME_WAIT_WRITE,
        Command::MoveStart => SERVO_MOVE_START,
        Command::SetMode(_) => SERVO_OR_MOTOR_MODE_WRITE,
        Command::SetPowered(_) => SERVO_LOAD_OR_UNLOAD_WRITE,
    }
}

/// The parameter bytes of a timed move: position, then time, each least
/// significant byte first.
pub open spec fn move_params(pos: i16, time_ms: u16) -> Seq<u8> {
    seq![le_low(pos as u16), le_high(pos as u16), le_low(time_ms), le_high(time_ms)]
}

/// The parameter bytes of a mode change: 0 for position control or 1 for
/// rotation, an unused byte, then the speed least significant byte first.
pub open spec fn mode_param_bytes(mode: Lx16aMode) -> Seq<u8> {
    match mode {
        Lx16aMode::Servo => seq![0u8, 0u8, 0u8, 0u8],
        Lx16aMode::Speed(speed) => seq![1u8, 0u8, le_low(speed as u16), le_high(speed as u16)],
    }
}

/// The parameter bytes of `c`.
pub open spec fn command_params(c: Command) -> Seq<u8> {
    match c {
        Command::MoveTime(pos, time_ms) => move_params(pos, time_ms),
        Command::MoveWait(pos, time_ms) => move_params(pos, time_ms),
        Command::MoveStart => Seq::<u8>::empty(),
        Command::SetMode(mode) => mode_param_bytes(mode),
        Command::SetPowered(powered) => seq![if powered { 1u8 } else { 0u8 }],
    }
}

/// The packet of every command is addressed to the id it is framed for,
/// carries that command's byte, and a mode change to rotation selects
/// motor mode (1) at every speed, zero included, with the speed least
/// significant byte first; a change to position control sends zeros.
pub proof fn law_command_packet_addressed(id: u8, c: Command)
    ensures
        packet(id, command_code(c), command_params(c))[2] == id,
        packet(id, command_code(c), command_params(c))[4] == command_code(c),
        c matches Command::SetMode(Lx16aMode::Speed(s)) ==> {
            let p = packet(id, command_code(c), command_params(c));
            &&& p[4] == 29
            &&& p[5] == 1
            &&& p[6] == 0
            &&& le_word(p[7], p[8]) as i16 == s
        },
        c matches Command::SetMode(Lx16aMode::Servo) ==> {
            let p = packet(id, command_code(c), command_params(c));
            &&& p[4] == 29
            &&& p[5] == 0 && p[6] == 0 && p[7] == 0 && p[8] == 0
        },
        c is MoveStart ==> packet(id, command_code(c), command_params(c)).len() == 6 && packet(
            id,
            command_code(c),
            command_params(c),
        )[4] == 11,
{
    if let Command::SetMode(Lx16aMode::Speed(s)) = c {
        crate::byte_order::law_i16_le_round_trip(s);
    }
}

/// Why a response was refused.
pub enum ResponseFault {
    /// The checksum does not cancel out.
    Checksum,
    /// Header, id, length or command are not the expected ones.
    BadResponse,
}

impl<T> Servo<'_, T> {
    /// The id that this servo's requests carry.
    pub closed spec fn servo_id(&self) -> u8 {
        self.id
    }

    /// The bus that this servo talks on.
    pub closed spec fn servo_bus(&self) -> Lx16aBus<T> {
        *self.bus
    }
}

impl<'a, T: Read + Write> Lx16aBus<T> {
    /// Creates a bus on anything that reads and writes bytes.
    pub fn new(port: T) -> Lx16aBus<T> {
        Lx16aBus { port: new_port_lock(port) }
    }

    /// The servo that addresses every servo on the bus at once.
    pub fn broadcast(&'a self) -> (servo: Servo<'a, T>)
        ensures
            servo.servo_id() == BROADCAST_ID,
            servo.servo_bus() == *self,
    {
        Servo::new(BROADCAST_ID, self)
    }

    /// The servo with id `id` on this bus.
    pub fn servo(&'a self, id: u8) -> (servo: Servo<'a, T>)
        ensures
            servo.servo_id() == id,
            servo.servo_bus() == *self,
    {
        Servo::new(id, self)
    }

    /// Writes `out_data` to the port and flushes it, holding the port
    /// throughout. The result is what the port reports. A lock poisoned by a
    /// panic in another thread is taken over rather than panicking.
    pub fn write(&self, out_data: &[u8]) -> Result<(), Error> {
        // A port whose lock was poisoned by a panic in another thread is
        // still used: the library does not panic in its place.
        let mut port = match lock_port(&self.port) {
            Ok(guard) => guard,
            Err(poisoned) => guard_of_poisoned(poisoned),
        };
        port_write(&mut port, out_data)?;
        port_flush(&mut port)?;
        Ok(())
    }

    /// Writes `out_data`, flushes, then reads exactly `rx_data.len()` bytes
    /// into `rx_data`, holding the port throughout. On success the number of
    /// bytes read is returned. A lock poisoned by a panic in another thread is
    /// taken over rather than panicking.
    pub fn write_read(&self, out_data: &[u8], rx_data: &mut [u8]) -> (r: Result<usize, Error>)
        ensures
            final(rx_data)@.len() == old(rx_data)@.len(),
            r matches Ok(n) ==> n == old(rx_data)@.len(),
    {
        // A port whose lock was poisoned by a panic in another thread is
        // still used: the library does not panic in its place.
        let mut port = match lock_port(&self.port) {
            Ok(guard) => guard,
            Err(poisoned) => guard_of_poisoned(poisoned),
        };
        port_write(&mut port, out_data)?;
        port_flush(&mut port)?;
        port_read_exact(&mut port, rx_data)?;
        Ok(rx_data.len())
    }
}

impl<'a, T> Servo<'a, T> {
    fn new(id: u8, bus: &'a Lx16aBus<T>) -> (servo: Servo<'a, T>)
        ensures
            servo.servo_id() == id,
            servo.servo_bus() == *bus,
    {
        Servo { id, bus }
    }

    /// The checksum of `msg`: the low byte of the sum of its bytes, with
    /// every bit inverted.
    pub fn checksum(msg: &[u8]) -> (sum: u8)
        ensures
            sum == checksum_of(msg@),
    {
        let mut acc: u8 = 0;
        let mut i: usize = 0;
        while i < msg.len()
            invariant
                i <= msg@.len(),
                acc == byte_sum(msg@.take(i as int)) % 256,
            decreases msg@.len() - i,
        {
            assert(msg@.take(i + 1).drop_last() =~= msg@.take(i as int));
            let b = msg[i];
            assert((acc + b) % 256 == (byte_sum(msg@.take(i as int)) + b) % 256) by (nonlinear_arith)
                requires
                    acc == byte_sum(msg@.take(i as int)) % 256,
            ;
            acc = acc.wrapping_add(b);
            i = i + 1;
        }
        assert(msg@.take(msg@.len() as int) =~= msg@);
        assert(acc ^ 0xFF == 255 - acc) by (bit_vector);
        acc ^ 0xFF
    }

    /// Frames the packet that carries `cmd` with `params` to servo `id` at the
    /// start of `tx_data`, and returns its length. The rest of `tx_data` is
    /// left as it was.
    pub fn form_packet(tx_data: &mut [u8], id: u8, cmd: u8, params: &[u8]) -> (len: usize)
        requires
            old(tx_data)@.len() >= params@.len() + 6,
            params@.len() % 256 <= 252,
        ensures
            len == params@.len() + 6,
            final(tx_data)@.len() == old(tx_data)@.len(),
            final(tx_data)@.subrange(0, len as int) == packet(id, cmd, params@),
            final(tx_data)@.subrange(len as int, final(tx_data)@.len() as int) == old(
                tx_data,
            )@.subrange(len as int, old(tx_data)@.len() as int),
    {
        let n = params.len();
        assert(n as u8 == n % 256) by (bit_vector);
        let len_field = 3u8 + n as u8;
        assert((3 + n) as u8 == 3 + (n as u8)) by (bit_vector)
            requires
                n as u8 <= 252,
        ;
        assert(len_field == length_field(n as nat));
        tx_data[0] = HEADER_BYTE;
        tx_data[1] = HEADER_BYTE;
        tx_data[2] = id;
        tx_data[3] = len_field;
        tx_data[4] = cmd;
        let mut len: usize = 5;
        let mut i: usize = 0;
        while i < n
            invariant
                n == params@.len(),
                len == 5 + i,
                i <= n,
                tx_data@.len() == old(tx_data)@.len(),
                tx_data@.len() >= n + 6,
                tx_data@[0] == HEADER_BYTE,
                tx_data@[1] == HEADER_BYTE,
                tx_data@[2] == id,
                tx_data@[3] == len_field,
                tx_data@[4] == cmd,
                forall|j: int| 0 <= j < i ==> tx_data@[5 + j] == params@[j],
                forall|j: int| 5 + i <= j < tx_data@.len() ==> tx_data@[j] == old(tx_data)@[j],
            decreases n - i,
        {
            tx_data[len] = params[i];
            len = len + 1;
            i = i + 1;
        }
        let sum = Self::checksum(&tx_data[2..len]);
        assert(tx_data@.subrange(2, len as int) =~= packet_body(id, cmd, params@));
        tx_data[len] = sum;
        len = len + 1;
        assert(tx_data@.subrange(0, len as int) =~= packet(id, cmd, params@));
        assert(tx_data@.subrange(len as int, tx_data@.len() as int) =~= old(tx_data)@.subrange(
            len as int,
            old(tx_data)@.len() as int,
        ));
        len
    }

    /// The packet that carries `cmd` with `params` to servo `id`.
    pub fn request_packet(id: u8, cmd: u8, params: &[u8]) -> (p: Vec<u8>)
        requires
            params@.len() <= MAX_PACKET_PARAMS,
        ensures
            p@ == packet(id, cmd, params@),
    {
        let mut tx_data: Vec<u8> = vec![0u8; params.len() + 6];
        let len = Self::form_packet(tx_data.as_mut_slice(), id, cmd, params);
        assert(tx_data@.subrange(0, len as int) =~= tx_data@);
        tx_data
    }

    /// The packet that carries command `c` to servo `id`.
    pub fn command_packet(id: u8, c: Command) -> (p: Vec<u8>)
        ensures
            p@ == packet(id, command_code(c), command_params(c)),
    {
        match c {
            Command::MoveTime(pos, time_ms) => {
                let params = position_time_params(pos, time_ms);
                Self::request_packet(id, SERVO_MOVE_TIME_WRITE, &params)
            },
            Command::MoveWait(pos, time_ms) => {
                let params = position_time_params(pos, time_ms);
                Self::request_packet(id, SERVO_MOVE_TIME_WAIT_WRITE, &params)
            },
            Command::MoveStart => {
                let params: [u8; 0] = [];
                assert(params@ =~= Seq::<u8>::empty());
                Self::request_packet(id, SERVO_MOVE_START, &params)
            },
            Command::SetMode(mode) => {
                let params = mode_params(mode);
                Self::request_packet(id, SERVO_OR_MOTOR_MODE_WRITE, &params)
            },
            Command::SetPowered(powered) => {
                let params: [u8; 1] = [if powered { 1u8 } else { 0u8 }];
                assert(params@ =~= seq![if powered { 1u8 } else { 0u8 }]);
                Self::request_packet(id, SERVO_LOAD_OR_UNLOAD_WRITE, &params)
            },
        }
    }

    /// The message of the `InvalidData` error that a refused response
    /// gives.
    pub fn fault_message(f: ResponseFault) -> (msg: &'static str)
        ensures
            msg@ == match f {
                ResponseFault::Checksum => "Checksum error"@,
                ResponseFault::BadResponse => "Bad response"@,
            },
    {
        match f {
            ResponseFault::Checksum => "Checksum error",
            ResponseFault::BadResponse => "Bad response",
        }
    }

    /// Takes the response of servo `id` to `cmd` that the port delivered,
    /// with `params_len` parameter bytes: refuses it when its checksum fails
    /// or, failing that, when its header, id, length or command are not the
    /// expected ones, and otherwise returns its parameter bytes.
    pub fn parse_response(rx: &[u8], id: u8, cmd: u8, params_len: usize) -> (r: Result<
        Vec<u8>,
        ResponseFault,
    >)
        requires
            rx@.len() == params_len + 6,
            params_len <= MAX_PACKET_PARAMS,
        ensures
            r is Ok <==> response_accepted(rx@, id, cmd, params_len as nat),
            r matches Ok(v) ==> v@ == response_payload(rx@, params_len as nat),
            r matches Err(f) ==> (f is Checksum <==> checksum_of(rx@.subrange(2, rx@.len() as int))
                != 0),
    {
        match Self::check_response(rx, id, cmd, params_len) {
            Err(fault) => Err(fault),
            Ok(()) => {
                let mut payload: Vec<u8> = Vec::new();
                let payload_end = 5 + params_len;
                let mut i: usize = 5;
                while i < payload_end
                    invariant
                        5 <= i <= payload_end,
                        payload_end == params_len + 5,
                        rx@.len() == params_len + 6,
                        payload@ == rx@.subrange(5, i as int),
                    decreases payload_end - i,
                {
                    payload.push(rx[i]);
                    i = i + 1;
                    assert(payload@ =~= rx@.subrange(5, i as int));
                }
                assert(payload@ =~= response_payload(rx@, params_len as nat));
                Ok(payload)
            },
        }
    }

    /// Decodes the response of servo `id` to `cmd` that carries one byte:
    /// refused as `parse_response` refuses, otherwise that byte.
    pub fn decode_byte_response(rx: &[u8], id: u8, cmd: u8) -> (r: Result<u8, ResponseFault>)
        requires
            rx@.len() == 7,
        ensures
            r is Ok <==> response_accepted(rx@, id, cmd, 1),
            r matches Ok(v) ==> v == rx@[5],
            r matches Err(f) ==> (f is Checksum <==> checksum_of(rx@.subrange(2, 7)) != 0),
    {
        match Self::parse_response(rx, id, cmd, 1) {
            Err(fault) => Err(fault),
            Ok(payload) => Ok(payload[0]),
        }
    }

    /// Decodes the response of servo `id` to `cmd` that carries one signed
    /// byte: refused as `parse_response` refuses, otherwise that byte's bits
    /// taken as an `i8`.
    pub fn decode_signed_byte_response(rx: &[u8], id: u8, cmd: u8) -> (r: Result<i8, ResponseFault>)
        requires
            rx@.len() == 7,
        ensures
            r is Ok <==> response_accepted(rx@, id, cmd, 1),
            r matches Ok(v) ==> v == rx@[5] as i8,
            r matches Err(f) ==> (f is Checksum <==> checksum_of(rx@.subrange(2, 7)) != 0),
    {
        match Self::parse_response(rx, id, cmd, 1) {
            Err(fault) => Err(fault),
            Ok(payload) => Ok(payload[0] as i8),
        }
    }

    /// Decodes the response of servo `id` to `cmd` that carries one 16-bit
    /// word: refused as `parse_response` refuses, otherwise the word, least
    /// significant byte first, taken as an `i16`.
    pub fn decode_word_response(rx: &[u8], id: u8, cmd: u8) -> (r: Result<i16, ResponseFault>)
        requires
            rx@.len() == 8,
        ensures
            r is Ok <==> response_accepted(rx@, id, cmd, 2),
            r matches Ok(v) ==> v == le_word(rx@[5], rx@[6]) as i16,
            r matches Err(f) ==> (f is Checksum <==> checksum_of(rx@.subrange(2, 8)) != 0),
    {
        match Self::parse_response(rx, id, cmd, 2) {
            Err(fault) => Err(fault),
            Ok(payload) => Ok(read_i16_le(payload.as_slice())),
        }
    }

    /// Checks a response of servo `id` to `cmd` with `params_len` parameter
    /// bytes: first its checksum, then its header, id, length and command.
    fn check_response(rx: &[u8], id: u8, cmd: u8, params_len: usize) -> (r: Result<(), ResponseFault>)
        requires
            rx@.len() == params_len + 6,
            params_len <= MAX_PACKET_PARAMS,
        ensures
            r is Ok <==> response_accepted(rx@, id, cmd, params_len as nat),
            r matches Err(f) ==> (f is Checksum <==> checksum_of(rx@.subrange(2, rx@.len() as int)) != 0),
    {
        let resp_len = params_len + 6;
        assert((3 + params_len) as u8 == 3 + (params_len as u8)) by (bit_vector)
            requires
                params_len <= 252,
        ;
        if Self::checksum(&rx[2..resp_len]) != 0 {
            Err(ResponseFault::Checksum)
        } else if rx[0] != HEADER_BYTE || rx[1] != HEADER_BYTE || rx[2] != id || rx[3] != 3u8
            + params_len as u8 || rx[4] != cmd {
            Err(ResponseFault::BadResponse)
        } else {
            Ok(())
        }
    }

}


impl<'a, T: Read + Write> Servo<'a, T> {
    /// The id associated with this servo.
    pub fn get_id(&self) -> (id: u8)
        ensures
            id == self.servo_id(),
    {
        self.id
    }

    /// Moves to `pos` over `time_ms` milliseconds, starting at once.
    pub fn move_time(&self, pos: i16, time_ms: u16) -> Result<(), Error> {
        self.write(Command::MoveTime(pos, time_ms))?;
        Ok(())
    }

    /// Stores a move to `pos` over `time_ms` milliseconds, which starts on
    /// `move_start`.
    pub fn move_wait(&self, pos: i16, time_ms: u16) -> Result<(), Error> {
        self.write(Command::MoveWait(pos, time_ms))?;
        Ok(())
    }

    /// Starts the stored move.
    pub fn move_start(&self) -> Result<(), Error> {
        self.write(Command::MoveStart)?;
        Ok(())
    }

    /// Sets position control, or continuous rotation at a speed.
    pub fn set_mode(&self, mode: Lx16aMode) -> Result<(), Error> {
        self.write(Command::SetMode(mode))?;
        Ok(())
    }

    /// Switches the motor's torque on (`true`) or off (`false`).
    pub fn set_powered(&self, powered: bool) -> Result<(), Error> {
        self.write(Command::SetPowered(powered))?;
        Ok(())
    }

    /// Reads the id that the servo reports.
    pub fn read_servo_id(&self) -> (r: Result<u8, Error>)
        ensures
            r matches Ok(v) ==> exists|rx: Seq<u8>|
                #[trigger] response_accepted(rx, self.servo_id(), SERVO_ID_READ, 1) && v
                    == rx[5],
    {
        let reply = self.read(self.id, SERVO_ID_READ, &[], 1)?;
        match Self::decode_byte_response(reply.as_slice(), self.id, SERVO_ID_READ) {
            Ok(v) => {
                assert(response_accepted(reply@, self.servo_id(), SERVO_ID_READ, 1));
                Ok(v)
            },
            Err(fault) => Err(invalid_data_error(Self::fault_message(fault))),
        }
    }

    /// Reads the temperature, in degrees Celsius.
    pub fn read_temp_c(&self) -> (r: Result<i8, Error>)
        ensures
            r matches Ok(v) ==> exists|rx: Seq<u8>|
                #[trigger] response_accepted(rx, self.servo_id(), SERVO_TEMP_READ, 1) && v
                    == rx[5] as i8,
    {
        let reply = self.read(self.id, SERVO_TEMP_READ, &[], 1)?;
        match Self::decode_signed_byte_response(reply.as_slice(), self.id, SERVO_TEMP_READ) {
            Ok(v) => {
                assert(response_accepted(reply@, self.servo_id(), SERVO_TEMP_READ, 1));
                Ok(v)
            },
            Err(fault) => Err(invalid_data_error(Self::fault_message(fault))),
        }
    }

    /// Reads the input voltage, in millivolts.
    pub fn read_vin_mv(&self) -> (r: Result<i16, Error>)
        ensures
            r matches Ok(v) ==> exists|rx: Seq<u8>|
                #[trigger] response_accepted(rx, self.servo_id(), SERVO_VIN_READ, 2) && v
                    == le_word(rx[5], rx[6]) as i16,
    {
        let reply = self.read(self.id, SERVO_VIN_READ, &[], 2)?;
        match Self::decode_word_response(reply.as_slice(), self.id, SERVO_VIN_READ) {
            Ok(v) => {
                assert(response_accepted(reply@, self.servo_id(), SERVO_VIN_READ, 2));
                Ok(v)
            },
            Err(fault) => Err(invalid_data_error(Self::fault_message(fault))),
        }
    }

    /// Reads the position.
    pub fn read_pos(&self) -> (r: Result<i16, Error>)
        ensures
            r matches Ok(v) ==> exists|rx: Seq<u8>|
                #[trigger] response_accepted(rx, self.servo_id(), SERVO_POS_READ, 2) && v
                    == le_word(rx[5], rx[6]) as i16,
    {
        let reply = self.read(self.id, SERVO_POS_READ, &[], 2)?;
        match Self::decode_word_response(reply.as_slice(), self.id, SERVO_POS_READ) {
            Ok(v) => {
                assert(response_accepted(reply@, self.servo_id(), SERVO_POS_READ, 2));
                Ok(v)
            },
            Err(fault) => Err(invalid_data_error(Self::fault_message(fault))),
        }
    }

    /// Frames command `c` for this servo and writes the packet to the bus,
    /// as it is.
    fn write(&self, c: Command) -> Result<(), Error> {
        let packet = Self::command_packet(self.id, c);
        self.bus.write(packet.as_slice())?;
        Ok(())
    }

    /// Frames `cmd` with `params` for servo `id`, writes it, and reads the
    /// response, which has `params_len` parameter bytes, as it came from the
    /// port. Checking it is for the caller's decoder.
    fn read(&self, id: u8, cmd: u8, params: &[u8], params_len: usize) -> (r: Result<Vec<u8>, Error>)
        requires
            params@.len() <= MAX_PARAMS,
            params_len <= MAX_PACKET_PARAMS,
        ensures
            r matches Ok(reply) ==> reply@.len() == params_len + 6,
    {
        let request = Self::request_packet(id, cmd, params);
        let resp_len = params_len + 6;
        let mut rx_buf: Vec<u8> = vec![0u8; resp_len];
        self.bus.write_read(request.as_slice(), rx_buf.as_mut_slice())?;
        Ok(rx_buf)
    }
}

/// The parameters of a timed move: position, then time, each least
/// significant byte first.
fn position_time_params(pos: i16, time_ms: u16) -> (params: [u8; 4])
    ensures
        params@ == move_params(pos, time_ms),
{
    let mut pos_bytes: [u8; 2] = [0; 2];
    write_i16_le(&mut pos_bytes, pos);
    let mut time_bytes: [u8; 2] = [0; 2];
    write_u16_le(&mut time_bytes, time_ms);
    let params = [pos_bytes[0], pos_bytes[1], time_bytes[0], time_bytes[1]];
    assert(params@ =~= seq![le_low(pos as u16), le_high(pos as u16), le_low(time_ms), le_high(time_ms)]);
    params
}

/// The parameters of a mode change: 0 for position control or 1 for
/// rotation, an unused byte, then the speed least significant byte first.
fn mode_params(mode: Lx16aMode) -> (params: [u8; 4])
    ensures
        params@ == mode_param_bytes(mode),
{
    match mode {
        Lx16aMode::Servo => {
            let params: [u8; 4] = [0, 0, 0, 0];
            assert(params@ =~= seq![0u8, 0u8, 0u8, 0u8]);
            params
        },
        Lx16aMode::Speed(speed) => {
            let mut speed_bytes: [u8; 2] = [0; 2];
            write_i16_le(&mut speed_bytes, speed);
            let params: [u8; 4] = [1, 0, speed_bytes[0], speed_bytes[1]];
            assert(params@ =~= seq![1u8, 0u8, le_low(speed as u16), le_high(speed as u16)]);
            params
        },
    }
}

} // verus!

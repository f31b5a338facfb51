//! Frame codec: encodes one logical command as the fixed 20-byte wire frame.
//!
//! A frame is the command bytes placed at the start of a 19-byte buffer,
//! zero-padded, followed by a trailing checksum byte equal to the XOR of the
//! 19 preceding bytes.

use vstd::prelude::*;

verus! {

/// Number of payload bytes that precede the checksum byte.
pub const FRAME_PAYLOAD_LEN: usize = 19;

/// Total length of an encoded frame, checksum byte included.
pub const FRAME_LEN: usize = 20;

/// XOR of the first `n` bytes of `s`.
pub open spec fn xor_prefix(s: Seq<u8>, n: int) -> u8
    decreases n,
{
    if n <= 0 {
        0u8
    } else {
        xor_prefix(s, n - 1) ^ s[n - 1]
    }
}

/// XOR of all bytes of `s`.
pub open spec fn xor_all(s: Seq<u8>) -> u8 {
    xor_prefix(s, s.len() as int)
}

/// The command bytes zero-padded to the 19-byte frame payload.
pub open spec fn padded_spec(cmd: Seq<u8>) -> Seq<u8>
    recommends
        cmd.len() <= FRAME_PAYLOAD_LEN,
{
    cmd + Seq::new((FRAME_PAYLOAD_LEN - cmd.len()) as nat, |i: int| 0u8)
}

/// The full 20-byte frame for a command: padded payload plus checksum byte.
pub open spec fn frame_spec(cmd: Seq<u8>) -> Seq<u8>
    recommends
        cmd.len() <= FRAME_PAYLOAD_LEN,
{
    padded_spec(cmd).push(xor_all(padded_spec(cmd)))
}

/// Extends the command bytes in `bytes` into a complete wire frame: pads with
/// zeros to 19 bytes, then appends the XOR checksum of those 19 bytes.
pub fn create_frame(bytes: &mut Vec<u8>)
    requires
        old(bytes)@.len() <= FRAME_PAYLOAD_LEN,
    ensures
        final(bytes)@ == frame_spec(old(bytes)@),
        final(bytes)@.len() == FRAME_LEN,
{
    let ghost orig: Seq<u8> = bytes@;
    while bytes.len() < FRAME_PAYLOAD_LEN
        invariant
            orig.len() <= bytes@.len() <= FRAME_PAYLOAD_LEN,
            bytes@.take(orig.len() as int) == orig,
            forall|j: int| orig.len() <= j < bytes@.len() ==> bytes@[j] == 0u8,
        decreases FRAME_PAYLOAD_LEN - bytes@.len(),
    {
        bytes.push(0u8);
    }
    assert(bytes@ =~= padded_spec(orig));
    let mut checksum: u8 = 0;
    let mut i: usize = 0;
    while i < FRAME_PAYLOAD_LEN
        invariant
            i <= FRAME_PAYLOAD_LEN,
            bytes@ == padded_spec(orig),
            bytes@.len() == FRAME_PAYLOAD_LEN,
            checksum == xor_prefix(bytes@, i as int),
        decreases FRAME_PAYLOAD_LEN - i,
    {
        checksum = checksum ^ bytes[i];
        i = i + 1;
    }
    bytes.push(checksum);
    assert(bytes@ =~= frame_spec(orig));
}

/// A complete encoded command frame: immutable once built, always 20 bytes
/// with a valid trailing checksum.
#[derive(Debug, PartialEq, Eq)]
pub struct CommandFrame {
    bytes: Vec<u8>,
}

impl View for CommandFrame {
    type V = Seq<u8>;

    closed spec fn view(&self) -> Seq<u8> {
        self.bytes@
    }
}

impl CommandFrame {
    /// The encoded bytes, for handing to a transport write.
    pub fn bytes(&self) -> (r: &Vec<u8>)
        ensures
            r@ == self@,
    {
        &self.bytes
    }

    /// Frame length in bytes.
    pub fn len(&self) -> (n: usize)
        ensures
            n == self@.len(),
    {
        self.bytes.len()
    }
}

/// Encodes a logical command (opcode plus payload bytes) as a wire frame.
pub fn encode(command: &Vec<u8>) -> (f: CommandFrame)
    requires
        command@.len() <= FRAME_PAYLOAD_LEN,
    ensures
        f@ == frame_spec(command@),
        f@.len() == FRAME_LEN,
{
    let mut bytes: Vec<u8> = Vec::new();
    let mut i: usize = 0;
    while i < command.len()
        invariant
            i <= command@.len(),
            bytes@ == command@.take(i as int),
        decreases command@.len() - i,
    {
        bytes.push(command[i]);
        assert(bytes@ =~= command@.take(i + 1 as int));
        i = i + 1;
    }
    assert(bytes@ =~= command@);
    create_frame(&mut bytes);
    CommandFrame { bytes }
}

/// Opcode and payload of the power command.
pub open spec fn power_command(power: bool) -> Seq<u8> {
    seq![0x33u8, 0x01u8, if power {
        1u8
    } else {
        0u8
    }]
}

/// Opcode and payload of the brightness command.
pub open spec fn brightness_command(brightness: u8) -> Seq<u8> {
    seq![0x33u8, 0x04u8, brightness]
}

/// Opcode and payload of the color command.
pub open spec fn color_command(r: u8, g: u8, b: u8) -> Seq<u8> {
    seq![0x33u8, 0x05u8, 0x02u8, r, g, b]
}

/// Encodes the power on/off command as a wire frame.
pub fn encode_power(power: bool) -> (f: CommandFrame)
    ensures
        f@ == frame_spec(power_command(power)),
{
    let mut cmd: Vec<u8> = Vec::new();
    cmd.push(0x33);
    cmd.push(0x01);
    cmd.push(if power { 1 } else { 0 });
    assert(cmd@ =~= power_command(power));
    encode(&cmd)
}

/// Encodes the brightness command as a wire frame.
pub fn encode_brightness(brightness: u8) -> (f: CommandFrame)
    ensures
        f@ == frame_spec(brightness_command(brightness)),
{
    let mut cmd: Vec<u8> = Vec::new();
    cmd.push(0x33);
    cmd.push(0x04);
    cmd.push(brightness);
    assert(cmd@ =~= brightness_command(brightness));
    encode(&cmd)
}

/// Encodes the RGB color command as a wire frame.
pub fn encode_color(r: u8, g: u8, b: u8) -> (f: CommandFrame)
    ensures
        f@ == frame_spec(color_command(r, g, b)),
{
    let mut cmd: Vec<u8> = Vec::new();
    cmd.push(0x33);
    cmd.push(0x05);
    cmd.push(0x02);
    cmd.push(r);
    cmd.push(g);
    cmd.push(b);
    assert(cmd@ =~= color_command(r, g, b));
    encode(&cmd)
}

/// Law: encoding is deterministic and stateless — two frames encoded from
/// the same command bytes are identical, however often and in whatever order
/// they were produced.
pub proof fn lemma_encode_deterministic(cmd: Seq<u8>, f1: Seq<u8>, f2: Seq<u8>)
    requires
        f1 == frame_spec(cmd),
        f2 == frame_spec(cmd),
    ensures
        f1 == f2,
{
}

/// Law: a frame is 20 bytes and its final byte is the XOR of the 19 bytes
/// before it; the command bytes stand unchanged at the front and the rest of
/// the payload is zero.
pub proof fn lemma_frame_checksum(cmd: Seq<u8>)
    requires
        cmd.len() <= FRAME_PAYLOAD_LEN,
    ensures
        frame_spec(cmd).len() == FRAME_LEN,
        frame_spec(cmd)[FRAME_LEN - 1] == xor_all(frame_spec(cmd).take(FRAME_PAYLOAD_LEN as int)),
        frame_spec(cmd).take(FRAME_PAYLOAD_LEN as int) == padded_spec(cmd),
        forall|i: int| 0 <= i < cmd.len() ==> frame_spec(cmd)[i] == cmd[i],
        forall|i: int| cmd.len() <= i < FRAME_PAYLOAD_LEN ==> frame_spec(cmd)[i] == 0u8,
{
    assert(frame_spec(cmd).take(FRAME_PAYLOAD_LEN as int) =~= padded_spec(cmd));
}

} // verus!

//! The ArtDmx packet: a fixed header of 18 bytes, then the channel data.

use crate::dmx_data::valid_length;
use crate::dmx_data::DMXData;
use crate::port_address::le_bytes;
use crate::port_address::PortAddress;
use crate::port_address::MAX_PORT_ADDRESS;
use vstd::prelude::*;

verus! {

/// The length of everything that stands before the channel data.
pub const HEADER_LENGTH: usize = 18;

/// The packet ID: the text "Art-Net" and a zero byte.
pub open spec fn packet_id() -> Seq<u8> {
    seq![65u8, 114u8, 116u8, 45u8, 78u8, 101u8, 116u8, 0u8]
}

/// OpOutput, 0x5000, low byte first.
pub open spec fn op_code() -> Seq<u8> {
    seq![0x00u8, 0x50u8]
}

/// Protocol version 14, high byte first.
pub open spec fn protocol_version() -> Seq<u8> {
    seq![0x00u8, 0x0eu8]
}

/// A 16-bit number as two bytes, high byte first.
pub open spec fn be_bytes(value: u16) -> Seq<u8> {
    seq![(value / 256) as u8, (value % 256) as u8]
}

/// The channel data as the packet carries it: of even length, with one zero
/// byte added where the frame has an odd number of channels.
pub open spec fn padded(data: Seq<u8>) -> Seq<u8> {
    if data.len() % 2 == 1 {
        data.push(0u8)
    } else {
        data
    }
}

/// The ArtDmx packet for the universe `address` and the channel values
/// `data`: ID, OpCode, protocol version, a sequence byte and a physical port
/// byte that are both zero, the Port-Address low byte first, the length of
/// the data high byte first, and the data, padded to even length.
pub open spec fn art_dmx_packet(address: u16, data: Seq<u8>) -> Seq<u8> {
    packet_id() + op_code() + protocol_version() + seq![0x00u8] + seq![0x00u8] + le_bytes(address)
        + be_bytes(padded(data).len() as u16) + padded(data)
}

/// Builds the ArtDmx packet that carries `dmx_data` to `universe`.
pub fn create_art_dmx_packet(universe: &PortAddress, dmx_data: &DMXData) -> (packet: Vec<u8>)
    ensures
        packet@ == art_dmx_packet(universe@, dmx_data@),
{
    let data = dmx_data.as_slice();
    let is_odd = data.len() % 2 == 1;
    let length: u16 = if is_odd {
        (data.len() + 1) as u16
    } else {
        data.len() as u16
    };
    let address = universe.to_le_bytes();
    let mut packet: Vec<u8> = Vec::with_capacity(HEADER_LENGTH + length as usize);
    // ID[0..7] and its null termination
    packet.push(65);
    packet.push(114);
    packet.push(116);
    packet.push(45);
    packet.push(78);
    packet.push(101);
    packet.push(116);
    packet.push(0x00);
    // OpOutput = 0x5000, low byte first
    packet.push(0x00);
    packet.push(0x50);
    // ProtVer = 14, high byte first
    packet.push(0x00);
    packet.push(0x0e);
    // Sequence, 0x00 to disable
    packet.push(0x00);
    // Physical, 0x00 to disable
    packet.push(0x00);
    // Port-Address, low byte first
    packet.push(address[0]);
    packet.push(address[1]);
    // Length of the data, high byte first
    packet.push((length / 256) as u8);
    packet.push((length % 256) as u8);
    packet.extend_from_slice(data);
    if is_odd {
        packet.push(0);
    }
    packet
}

/// Two packets made for the same universe from the same channel values hold
/// the same bytes: what `create_art_dmx_packet` returns depends on nothing
/// but the address number and the channel values.
pub proof fn lemma_encoding_is_deterministic(
    universe: PortAddress,
    dmx_data: DMXData,
    first: Vec<u8>,
    same_universe: PortAddress,
    same_data: DMXData,
    second: Vec<u8>,
)
    requires
        universe@ == same_universe@,
        dmx_data@ == same_data@,
        call_ensures(create_art_dmx_packet, (&universe, &dmx_data), first),
        call_ensures(create_art_dmx_packet, (&same_universe, &same_data), second),
    ensures
        first@ == second@,
{
}

/// Where the frame has an odd number of channels, the length that the packet
/// states is one more than that number, and the last byte of the packet is
/// the zero that was added.
pub proof fn lemma_odd_length_is_padded(address: u16, data: Seq<u8>)
    requires
        address <= MAX_PORT_ADDRESS,
        valid_length(data.len()),
        data.len() % 2 == 1,
    ensures
        ({
            let packet = art_dmx_packet(address, data);
            &&& packet.len() == HEADER_LENGTH + data.len() + 1
            &&& 256 * packet[16] + packet[17] == data.len() + 1
            &&& packet.last() == 0
        }),
{
}

/// The layout of a packet, field by field: the 18 bytes of the header, of
/// which only the Port-Address and the length vary, and then the channel
/// values in their order, followed by at most one zero byte. The length that
/// the packet states is even, lies between 2 and 512, and is the number of
/// bytes that follow the header.
pub proof fn lemma_packet_layout(address: u16, data: Seq<u8>)
    requires
        address <= MAX_PORT_ADDRESS,
        valid_length(data.len()),
    ensures
        ({
            let packet = art_dmx_packet(address, data);
            let length = 256 * packet[16] + packet[17];
            &&& packet.len() == HEADER_LENGTH + length
            &&& packet.subrange(0, 8) == packet_id()
            &&& packet.subrange(8, 10) == op_code()
            &&& packet.subrange(10, 12) == protocol_version()
            &&& packet[12] == 0
            &&& packet[13] == 0
            &&& packet[14] + 256 * packet[15] == address
            &&& packet[15] < 128
            &&& length % 2 == 0
            &&& 2 <= length <= 512
            &&& data.len() <= length <= data.len() + 1
            &&& packet.subrange(18, 18 + data.len() as int) == data
            &&& length > data.len() ==> packet.last() == 0
        }),
{
    let packet = art_dmx_packet(address, data);
}

} // verus!

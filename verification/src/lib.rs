//! Packs DMX channel data into ArtDmx packets for sending over Art-Net.
//!
//! The packets follow Art-Net 4, of which only the ArtDmx packet is made.
//! Unchanged data is packed again only every 800 ms; in between it is held
//! back, which is called suppression, as in sACN.
//!
//! An [`ArtPacker`] keeps track of what was packed before. At every tick of a
//! render loop it takes the channel values of each universe as an
//! [`AddressMap`] from [`PortAddress`] to [`DMXData`], together with the time
//! of the tick, and hands back the packets that have to be sent now, as
//! bytes, one for each universe that needs one. Sending them is left to the
//! caller, and so is reading the clock: the time is a number of milliseconds
//! on any clock that never runs backwards. Pack and send at least every
//! 4 seconds to comply with Art-Net.
//!
//! What each function returns is stated over plain sequences and maps: a
//! frame is the sequence of its bytes, a Port-Address is its number, a map is
//! the map from address numbers to what it holds, and a packer is the map
//! from address numbers to what its suppressors remember.
//!
//! Art-Net™ Designed by and Copyright Artistic Licence Holdings Ltd

pub mod address_map;
pub mod create_art_dmx_packet;
pub mod dmx_data;
pub mod error;
pub mod packer;
pub mod port_address;
pub mod suppressor;

pub use address_map::AddressMap;
pub use create_art_dmx_packet::create_art_dmx_packet;
pub use dmx_data::DMXData;
pub use error::ValueError;
pub use packer::ArtPacker;
pub use port_address::PortAddress;
pub use suppressor::Suppressor;

//! IEX Transport Protocol: the outer framing of TOPS, DEEP and DEEP+ messages.
use vstd::prelude::*;
use crate::common::Timestamp;
use crate::endian::Little;
use crate::wire::{copy_field, read_i64_le, read_u16_le, read_u32_le, i64_le_at, u16_le_at, u32_le_at};

verus! {

/// Protocol version.
#[derive(Debug, Clone, Copy, PartialEq, Eq, Hash, Structural)]
pub struct Version(pub u8);

impl Version {
    /// Version 1 of the transport protocol.
    #[allow(non_snake_case)]
    pub fn V1() -> (r: Self)
        ensures
            r == Version(1),
    {
        Self(1)
    }
}

/// Identifies the protocol of the messages carried in a transport packet.
#[derive(Debug, Clone, Copy, PartialEq, Eq, Hash)]
pub struct MessageProtocolId(pub Little<u16>);

impl MessageProtocolId {
    /// The in-memory representation of the little-endian identifier.
    pub fn raw(&self) -> (r: u16)
        ensures
            r == crate::endian::host_le_u16(self.0@),
    {
        self.0.to_raw()
    }

    /// The identifier's value.
    pub fn native(&self) -> (r: u16)
        ensures
            r == self.0@,
    {
        self.0.to_native()
    }


    /// Identifier of TOPS version 0 messages.
    #[allow(non_snake_case)]
    pub fn TOPS_V0() -> (r: Self)
        ensures
            r.0@ == 0x8002,
    {
        Self(Little::<u16>::from_native(0x8002))
    }

    /// Identifier of TOPS version 1 messages.
    #[allow(non_snake_case)]
    pub fn TOPS_V1() -> (r: Self)
        ensures
            r.0@ == 0x8003,
    {
        Self(Little::<u16>::from_native(0x8003))
    }

    /// Identifier of DEEP messages.
    #[allow(non_snake_case)]
    pub fn DEEP() -> (r: Self)
        ensures
            r.0@ == 0x8004,
    {
        Self(Little::<u16>::from_native(0x8004))
    }

    /// Identifier of DEEP+ messages.
    #[allow(non_snake_case)]
    pub fn DEEP_PLUS() -> (r: Self)
        ensures
            r.0@ == 0x8005,
    {
        Self(Little::<u16>::from_native(0x8005))
    }
}

/// Header of a transport packet, 40 bytes on the wire.
#[derive(Debug, Clone, Copy, PartialEq, Eq, Hash)]
pub struct TransportProtocalHeader {
    pub version: Version,
    pub reserved: Little<u8>,
    pub message_protocol_id: MessageProtocolId,
    pub channel_id: Little<u32>,
    pub session_id: Little<u32>,
    /// Payload Length field value does not include the length of the IEX-TP Header
    pub payload_length: Little<u16>,
    pub message_count: Little<u16>,
    pub stream_offset: Little<i64>,
    pub first_message: Little<i64>,
    pub send_time: Timestamp,
}

/// The length of the message block that follows the header `s`.
pub open spec fn header_payload_length(s: Seq<u8>) -> u16 {
    u16_le_at(s, 12)
}

/// The number of messages that the header `s` announces.
pub open spec fn header_message_count(s: Seq<u8>) -> u16 {
    u16_le_at(s, 14)
}

/// The message block of the packet `s`: the `payload_length` bytes after the header.
pub open spec fn packet_message_block(s: Seq<u8>) -> Seq<u8> {
    s.subrange(
        TransportProtocalHeader::SIZE as int,
        TransportProtocalHeader::SIZE + header_payload_length(s),
    )
}

/// True when `parse_packet` accepts the packet `s`: the header is complete and, when it
/// announces messages, the message block is complete and starts with a complete block.
pub open spec fn packet_ok(s: Seq<u8>) -> bool {
    &&& s.len() >= TransportProtocalHeader::SIZE
    &&& header_message_count(s) != 0 ==> {
        &&& s.len() >= TransportProtocalHeader::SIZE + header_payload_length(s)
        &&& block_ok(packet_message_block(s))
    }
}

impl TransportProtocalHeader {
    /// The header's size on the wire.
    pub const SIZE: usize = 40;

    /// True when the fields of `self` are those encoded in the first 40 bytes of `s`.
    pub open spec fn decoded_from(self, s: Seq<u8>) -> bool {
        &&& self.version == Version(s[0])
        &&& self.reserved@ == s[1]
        &&& self.message_protocol_id.0@ == u16_le_at(s, 2)
        &&& self.channel_id@ == u32_le_at(s, 4)
        &&& self.session_id@ == u32_le_at(s, 8)
        &&& self.payload_length@ == u16_le_at(s, 12)
        &&& self.message_count@ == u16_le_at(s, 14)
        &&& self.stream_offset@ == i64_le_at(s, 16)
        &&& self.first_message@ == i64_le_at(s, 24)
        &&& self.send_time.0@ == i64_le_at(s, 32)
    }

    /// Every 40 byte header is accepted.
    pub fn is_vaild(_bytes: &[u8; 40]) -> (r: bool)
        ensures
            r,
    {
        true
    }

    fn decode(bytes: &[u8]) -> (r: Self)
        requires
            bytes.len() >= Self::SIZE,
        ensures
            r.decoded_from(bytes@),
    {
        TransportProtocalHeader {
            version: Version(bytes[0]),
            reserved: Little::<u8>::from_native(bytes[1]),
            message_protocol_id: MessageProtocolId(Little::<u16>::from_native(read_u16_le(bytes, 2))),
            channel_id: Little::<u32>::from_native(read_u32_le(bytes, 4)),
            session_id: Little::<u32>::from_native(read_u32_le(bytes, 8)),
            payload_length: Little::<u16>::from_native(read_u16_le(bytes, 12)),
            message_count: Little::<u16>::from_native(read_u16_le(bytes, 14)),
            stream_offset: Little::<i64>::from_native(read_i64_le(bytes, 16)),
            first_message: Little::<i64>::from_native(read_i64_le(bytes, 24)),
            send_time: Timestamp(Little::<i64>::from_native(read_i64_le(bytes, 32))),
        }
    }

    /// Splits a transport packet into its header and, when the header announces messages,
    /// the message block of `payload_length` bytes that follows it.
    ///
    /// `None` when the packet is too short for its header or its message block, or when the
    /// message block does not start with a complete block.
    pub fn parse_packet<'a>(bytes: &'a [u8]) -> (r: Option<(Self, Option<MessageBlockPacket<'a>>)>)
        ensures
            r is Some <==> packet_ok(bytes@),
            r matches Some((header, messages)) ==> {
                &&& header.decoded_from(bytes@)
                &&& messages is None <==> header_message_count(bytes@) == 0
                &&& messages matches Some(m) ==> m.0@ == packet_message_block(bytes@)
            },
    {
        if bytes.len() < Self::SIZE {
            return None;
        }
        if !Self::is_vaild(&copy_field::<40>(bytes, 0)) {
            return None;
        }
        let this = Self::decode(bytes);
        if this.message_count.to_native() == 0 {
            return Some((this, None));
        }
        let payload_length = this.payload_length.to_native() as usize;
        if bytes.len() - Self::SIZE < payload_length {
            return None;
        }
        let message_block = vstd::slice::slice_subrange(bytes, Self::SIZE, Self::SIZE + payload_length);
        let message = MessageBlockPacket::new_checked(message_block);
        if message.is_none() {
            return None;
        }
        Some((this, message))
    }
}

/// The length prefix of a message in a message block.
#[derive(Debug, Clone, Copy, PartialEq, Eq, Hash)]
pub struct MessageBlock {
    pub length: Little<u16>,
}

impl MessageBlock {
    /// The length prefix's size on the wire.
    pub const SIZE: usize = 2;
}

/// The length of the first message of the message block `s`.
pub open spec fn block_length(s: Seq<u8>) -> u16 {
    u16_le_at(s, 0)
}

/// True when `s` starts with a length prefix followed by at least that many bytes.
pub open spec fn block_ok(s: Seq<u8>) -> bool {
    &&& s.len() >= MessageBlock::SIZE
    &&& s.len() >= MessageBlock::SIZE + block_length(s)
}

/// The first message of the message block `s`.
pub open spec fn block_payload(s: Seq<u8>) -> Seq<u8> {
    s.subrange(MessageBlock::SIZE as int, MessageBlock::SIZE + block_length(s))
}

/// What follows the first message of the message block `s`.
pub open spec fn block_rest(s: Seq<u8>) -> Seq<u8> {
    s.subrange(MessageBlock::SIZE + block_length(s), s.len() as int)
}

/// A message block positioned at a message: a length prefix, the message, then the rest.
pub struct MessageBlockPacket<'a>(pub &'a [u8]);

impl<'a> MessageBlockPacket<'a> {
    /// True when the data starts with a complete message.
    pub open spec fn well_formed(&self) -> bool {
        block_ok(self.0@)
    }

    /// `None` unless `data` starts with a length prefix followed by at least that many bytes.
    pub fn new_checked(data: &'a [u8]) -> (r: Option<Self>)
        ensures
            r is Some <==> block_ok(data@),
            r matches Some(p) ==> p.0@ == data@,
    {
        if data.len() < MessageBlock::SIZE {
            return None;
        }
        let block = read_u16_le(data, 0);
        if data.len() < MessageBlock::SIZE + block as usize {
            return None;
        }
        Some(Self(data))
    }

    /// The length prefix of the current message.
    pub fn block(&self) -> (r: MessageBlock)
        requires
            self.well_formed(),
        ensures
            r.length@ == block_length(self.0@),
    {
        MessageBlock { length: Little::<u16>::from_native(read_u16_le(self.0, 0)) }
    }

    /// The current message.
    pub fn current_payload(&self) -> (r: &'a [u8])
        requires
            self.well_formed(),
        ensures
            r@ == block_payload(self.0@),
    {
        let length = self.block().length;
        vstd::slice::slice_subrange(
            self.0,
            MessageBlock::SIZE,
            MessageBlock::SIZE + length.to_native() as usize,
        )
    }

    /// The block positioned at the next message; `None` when no complete message follows.
    pub fn next(&self) -> (r: Option<Self>)
        requires
            self.well_formed(),
        ensures
            r is Some <==> block_ok(block_rest(self.0@)),
            r matches Some(p) ==> p.0@ == block_rest(self.0@),
    {
        let block_length = self.block().length;
        let offset = MessageBlock::SIZE + block_length.to_native() as usize;
        let next_size = self.0.len().checked_sub(offset);
        if next_size.is_none() {
            return None;
        }
        let next_storage = vstd::slice::slice_subrange(self.0, offset, self.0.len());
        Self::new_checked(next_storage)
    }
}

/// Kind of a gap fill request.
#[derive(Debug, Clone, Copy, PartialEq, Eq, Hash, Structural)]
pub enum RequestType {
    SequencedMessages,
    Bytestream,
}

impl RequestType {
    /// The code of the request type on the wire.
    pub open spec fn spec_to_byte(self) -> u8 {
        match self {
            RequestType::SequencedMessages => 0x1,
            RequestType::Bytestream => 0x2,
        }
    }

    /// The code of the request type on the wire.
    pub fn to_byte(&self) -> (r: u8)
        ensures
            r == self.spec_to_byte(),
    {
        match self {
            RequestType::SequencedMessages => 0x1,
            RequestType::Bytestream => 0x2,
        }
    }

    /// The wire codes of request types: 0x1 is a sequenced messages request and 0x2 a
    /// bytestream request; each type has its own code.
    pub proof fn law_wire_codes(t: RequestType)
        ensures
            (t.spec_to_byte() == 0x1) <==> t == RequestType::SequencedMessages,
            (t.spec_to_byte() == 0x2) <==> t == RequestType::Bytestream,
    {
    }

    /// True when `src` is the code of a request type.
    pub fn is_vaild(src: u8) -> (r: bool)
        ensures
            r == (src == RequestType::SequencedMessages.spec_to_byte()
                || src == RequestType::Bytestream.spec_to_byte()),
    {
        (src == RequestType::SequencedMessages.to_byte()) || (src == RequestType::Bytestream.to_byte())
    }
}

/// Range of stream offsets asked for by a bytestream gap fill request.
#[derive(Debug, Clone, Copy, PartialEq, Eq, Hash, Structural)]
pub struct BytestreamRequestRangeBlock {
    pub start_offset: u64,
    pub end_offset: u64,
}

impl BytestreamRequestRangeBlock {
    /// The request type that carries range blocks.
    #[allow(non_snake_case)]
    pub fn KIND() -> (r: RequestType)
        ensures
            r == RequestType::Bytestream,
    {
        RequestType::Bytestream
    }
}

/// Gap fill request, 16 bytes on the wire.
#[derive(Debug, Clone, Copy, PartialEq, Eq, Hash)]
pub struct GapFillRequest {
    pub version: Little<u8>,
    pub request_type: RequestType,
    pub message_protocol_id: MessageProtocolId,
    pub channel_id: Little<u32>,
    pub session_id: Little<u32>,
    pub request_range_count: Little<u32>,
}

impl GapFillRequest {
    /// The request's size on the wire.
    pub const SIZE: usize = 16;

    /// True when the request type byte (at offset 1) is the code of a request type.
    pub fn is_vaild(bytes: &[u8; 16]) -> (r: bool)
        ensures
            r == (bytes@[1] == 0x1 || bytes@[1] == 0x2),
    {
        RequestType::is_vaild(bytes[1])
    }
}

/// A message block is its length prefix, then its first message of the announced length,
/// then the rest: `next` resumes exactly where `current_payload` ends.
pub proof fn law_block_split(s: Seq<u8>)
    requires
        block_ok(s),
    ensures
        block_payload(s).len() == block_length(s),
        s =~= s.take(MessageBlock::SIZE as int) + block_payload(s) + block_rest(s),
{
}

} // verus!

use serde_via::formats::protobuf::ProtoMessage;
use serde_via::Deserializer;
use serde_via::Protobuf;
use serde_via::ProtobufCodingFailure;
use serde_via::Schema;
use serde_via::Serializer;

/// The domain value: a record whose id must be present.
#[derive(Debug, Clone, PartialEq, Eq)]
struct Record {
    id: u64,
}

/// The intermediate protocol-buffer message: the id is optional on the wire.
#[derive(Debug, Clone, Default, PartialEq)]
struct RecordProto {
    id: Option<u64>,
}

impl prost::Message for RecordProto {
    fn encode_raw(&self, buf: &mut impl prost::bytes::BufMut) {
        if let Some(value) = self.id {
            prost::encoding::uint64::encode(1, &value, buf);
        }
    }

    fn merge_field(
        &mut self,
        tag: u32,
        wire_type: prost::encoding::WireType,
        buf: &mut impl prost::bytes::Buf,
        ctx: prost::encoding::DecodeContext,
    ) -> Result<(), prost::DecodeError> {
        match tag {
            1 => {
                let mut value = self.id.take().unwrap_or(0);
                prost::encoding::uint64::merge(wire_type, &mut value, buf, ctx)?;
                self.id = Some(value);
                Ok(())
            }
            _ => prost::encoding::skip_field(wire_type, tag, buf, ctx),
        }
    }

    fn encoded_len(&self) -> usize {
        self.id
            .as_ref()
            .map_or(0, |value| prost::encoding::uint64::encoded_len(1, value))
    }

    fn clear(&mut self) {
        self.id = None;
    }
}

impl Schema for RecordProto {
    type Source = Record;
}

impl ProtoMessage for RecordProto {
    // The two spec members exist only for specification: nothing can call
    // them at run time, so their bodies are unreachable.
    fn encoded_spec(&self) -> vstd::seq::Seq<u8> {
        unreachable!()
    }

    fn decode_spec(_data: vstd::seq::Seq<u8>) -> Result<Self, prost::DecodeError> {
        unreachable!()
    }

    fn encode_message(&self) -> Box<[u8]> {
        prost::Message::encode_to_vec(self).into_boxed_slice()
    }

    fn decode_message(data: &[u8]) -> Result<Self, prost::DecodeError> {
        prost::Message::decode(data)
    }
}

impl From<Record> for RecordProto {
    fn from(value: Record) -> Self {
        RecordProto { id: Some(value.id) }
    }
}

impl TryFrom<RecordProto> for Record {
    type Error = ProtobufCodingFailure;

    fn try_from(value: RecordProto) -> Result<Self, Self::Error> {
        match value.id {
            Some(id) => Ok(Record { id }),
            None => Err(ProtobufCodingFailure::OptionalFieldAbsent(
                "id",
                String::from("Record"),
            )),
        }
    }
}

type RecordBinding = Protobuf<Record, RecordProto>;

#[test]
fn protobuf_round_trip_reproduces_source() {
    let value = Record { id: 42 };
    let encoded = RecordBinding::new(value.clone()).serialize();
    let decoded: Record = RecordBinding::deserialize(&encoded).unwrap();
    assert_eq!(decoded, value);
}

#[test]
fn protobuf_round_trip_large_id() {
    let value = Record { id: u64::MAX };
    let encoded = RecordBinding::new(value.clone()).serialize();
    let decoded: Record = RecordBinding::deserialize(&encoded).unwrap();
    assert_eq!(decoded, value);
}

#[test]
fn truncated_bytes_are_rejected_with_decode_error() {
    let value = Record { id: u64::MAX };
    let encoded = RecordBinding::new(value).serialize();
    let truncated = &encoded[..encoded.len() - 1];
    let result = RecordBinding::deserialize(truncated);
    assert!(matches!(result, Err(ProtobufCodingFailure::Decode(_))));
}

#[test]
fn corrupted_varint_is_rejected_with_decode_error() {
    // Field 1, varint wire type, but the continuation bit of the last byte is
    // set and the buffer ends.
    let corrupted: Vec<u8> = vec![0x08, 0x96];
    let result = RecordBinding::deserialize(&corrupted);
    assert!(matches!(result, Err(ProtobufCodingFailure::Decode(_))));
}

#[test]
fn missing_field_is_rejected_not_defaulted() {
    // An empty buffer is a structurally valid message with no fields set.
    let empty: Vec<u8> = Vec::new();
    let result = RecordBinding::deserialize(&empty);
    match result {
        Err(ProtobufCodingFailure::OptionalFieldAbsent(field, ty)) => {
            assert_eq!(field, "id");
            assert_eq!(ty, "Record");
        }
        other => panic!("expected OptionalFieldAbsent, got {:?}", other),
    }
}

//! The path segment codec: logical addressing paths (class / instance /
//! attribute identifiers), each segment a packed descriptor byte followed by
//! 8- or 16-bit data.

use vstd::prelude::*;

use crate::codec::{le16, le16_val, push_le16, read_le16, resolves_exact, CodecError};

verus! {

/// The three segment-type bits of a path segment descriptor byte.
/// Unrecognized codes are carried through rather than rejected.
#[derive(Debug, Clone, Copy, PartialEq, Eq)]
pub enum SegmentType {
    LogicalSegment,
    Unknown(u8),
}

impl SegmentType {
    /// The raw three-bit code.
    pub open spec fn spec_bits(self) -> u8 {
        match self {
            SegmentType::LogicalSegment => 1,
            SegmentType::Unknown(v) => v,
        }
    }

    /// The variant selected by a three-bit code.
    pub open spec fn spec_from_bits(b: u8) -> SegmentType {
        if b == 1 {
            SegmentType::LogicalSegment
        } else {
            SegmentType::Unknown(b)
        }
    }

    /// The raw code fits in three bits and an `Unknown` never shadows a
    /// named variant.
    pub open spec fn wf(self) -> bool {
        match self {
            SegmentType::LogicalSegment => true,
            SegmentType::Unknown(v) => v < 8 && v != 1,
        }
    }

    /// The raw three-bit code.
    pub fn bits(&self) -> (r: u8)
        ensures
            r == self.spec_bits(),
            self.wf() ==> r < 8,
    {
        match self {
            SegmentType::LogicalSegment => 1,
            SegmentType::Unknown(v) => *v,
        }
    }

    /// The variant selected by a three-bit code.
    pub fn from_bits(b: u8) -> (r: SegmentType)
        requires
            b < 8,
        ensures
            r == SegmentType::spec_from_bits(b),
            r.wf(),
    {
        if b == 1 {
            SegmentType::LogicalSegment
        } else {
            SegmentType::Unknown(b)
        }
    }
}

/// The three logical-segment-kind bits: which identifier the segment's data
/// names.  Unrecognized codes are carried through rather than rejected.
#[derive(Debug, Clone, Copy, PartialEq, Eq)]
pub enum LogicalSegmentType {
    ClassId,
    InstanceId,
    AttributeId,
    Unknown(u8),
}

impl LogicalSegmentType {
    /// The raw three-bit code.
    pub open spec fn spec_bits(self) -> u8 {
        match self {
            LogicalSegmentType::ClassId => 0,
            LogicalSegmentType::InstanceId => 1,
            LogicalSegmentType::AttributeId => 4,
            LogicalSegmentType::Unknown(v) => v,
        }
    }

    /// The variant selected by a three-bit code.
    pub open spec fn spec_from_bits(b: u8) -> LogicalSegmentType {
        if b == 0 {
            LogicalSegmentType::ClassId
        } else if b == 1 {
            LogicalSegmentType::InstanceId
        } else if b == 4 {
            LogicalSegmentType::AttributeId
        } else {
            LogicalSegmentType::Unknown(b)
        }
    }

    /// The raw code fits in three bits and an `Unknown` never shadows a
    /// named variant.
    pub open spec fn wf(self) -> bool {
        match self {
            LogicalSegmentType::Unknown(v) => v < 8 && v != 0 && v != 1 && v != 4,
            _ => true,
        }
    }

    /// The raw three-bit code.
    pub fn bits(&self) -> (r: u8)
        ensures
            r == self.spec_bits(),
            self.wf() ==> r < 8,
    {
        match self {
            LogicalSegmentType::ClassId => 0,
            LogicalSegmentType::InstanceId => 1,
            LogicalSegmentType::AttributeId => 4,
            LogicalSegmentType::Unknown(v) => *v,
        }
    }

    /// The variant selected by a three-bit code.
    pub fn from_bits(b: u8) -> (r: LogicalSegmentType)
        requires
            b < 8,
        ensures
            r == LogicalSegmentType::spec_from_bits(b),
            r.wf(),
    {
        if b == 0 {
            LogicalSegmentType::ClassId
        } else if b == 1 {
            LogicalSegmentType::InstanceId
        } else if b == 4 {
            LogicalSegmentType::AttributeId
        } else {
            LogicalSegmentType::Unknown(b)
        }
    }
}

/// The two format bits: whether the segment's data is one byte or a padded
/// little-endian word.  An unrecognized code decodes to `Unknown` but a
/// segment with such a format cannot be parsed, since the data width would
/// be unknown.
#[derive(Debug, Clone, Copy, PartialEq, Eq)]
pub enum LogicalSegmentFormat {
    FormatAsU8,
    FormatAsU16,
    Unknown(u8),
}

impl LogicalSegmentFormat {
    /// The raw two-bit code.
    pub open spec fn spec_bits(self) -> u8 {
        match self {
            LogicalSegmentFormat::FormatAsU8 => 0,
            LogicalSegmentFormat::FormatAsU16 => 1,
            LogicalSegmentFormat::Unknown(v) => v,
        }
    }

    /// The variant selected by a two-bit code.
    pub open spec fn spec_from_bits(b: u8) -> LogicalSegmentFormat {
        if b == 0 {
            LogicalSegmentFormat::FormatAsU8
        } else if b == 1 {
            LogicalSegmentFormat::FormatAsU16
        } else {
            LogicalSegmentFormat::Unknown(b)
        }
    }

    /// The raw code fits in two bits and an `Unknown` never shadows a named
    /// variant.
    pub open spec fn wf(self) -> bool {
        match self {
            LogicalSegmentFormat::Unknown(v) => v < 4 && v != 0 && v != 1,
            _ => true,
        }
    }

    /// The raw two-bit code.
    pub fn bits(&self) -> (r: u8)
        ensures
            r == self.spec_bits(),
            self.wf() ==> r < 4,
    {
        match self {
            LogicalSegmentFormat::FormatAsU8 => 0,
            LogicalSegmentFormat::FormatAsU16 => 1,
            LogicalSegmentFormat::Unknown(v) => *v,
        }
    }

    /// The variant selected by a two-bit code.
    pub fn from_bits(b: u8) -> (r: LogicalSegmentFormat)
        requires
            b < 4,
        ensures
            r == LogicalSegmentFormat::spec_from_bits(b),
            r.wf(),
    {
        if b == 0 {
            LogicalSegmentFormat::FormatAsU8
        } else if b == 1 {
            LogicalSegmentFormat::FormatAsU16
        } else {
            LogicalSegmentFormat::Unknown(b)
        }
    }
}

/// The packed descriptor byte of a path segment: format in the two low
/// bits, logical segment kind in the middle three, segment type in the
/// three high bits.
#[derive(Debug, Clone, Copy, PartialEq, Eq)]
pub struct LogicalPathDefinition {
    pub logical_segment_format: LogicalSegmentFormat,
    pub logical_segment_type: LogicalSegmentType,
    pub segment_type: SegmentType,
}

impl LogicalPathDefinition {
    /// All three bit fields are in range.
    pub open spec fn wf(self) -> bool {
        &&& self.logical_segment_format.wf()
        &&& self.logical_segment_type.wf()
        &&& self.segment_type.wf()
    }

    /// The packed byte.
    pub open spec fn spec_byte(self) -> u8 {
        (self.logical_segment_format.spec_bits() + self.logical_segment_type.spec_bits() * 4
            + self.segment_type.spec_bits() * 32) as u8
    }

    /// The descriptor unpacked from a byte.
    pub open spec fn spec_of_byte(b: u8) -> LogicalPathDefinition {
        LogicalPathDefinition {
            logical_segment_format: LogicalSegmentFormat::spec_from_bits((b % 4) as u8),
            logical_segment_type: LogicalSegmentType::spec_from_bits(((b / 4) % 8) as u8),
            segment_type: SegmentType::spec_from_bits((b / 32) as u8),
        }
    }

    /// Packs the three bit fields into one descriptor.
    pub fn new(
        logical_segment_format: LogicalSegmentFormat,
        logical_segment_type: LogicalSegmentType,
        segment_type: SegmentType,
    ) -> (r: LogicalPathDefinition)
        ensures
            r == (LogicalPathDefinition {
                logical_segment_format,
                logical_segment_type,
                segment_type,
            }),
    {
        LogicalPathDefinition { logical_segment_format, logical_segment_type, segment_type }
    }

    /// The packed byte.
    pub fn byte(&self) -> (r: u8)
        requires
            self.wf(),
        ensures
            r == self.spec_byte(),
    {
        self.logical_segment_format.bits() + self.logical_segment_type.bits() * 4
            + self.segment_type.bits() * 32
    }

    /// The descriptor unpacked from a byte.
    pub fn of_byte(b: u8) -> (r: LogicalPathDefinition)
        ensures
            r == LogicalPathDefinition::spec_of_byte(b),
            r.wf(),
    {
        LogicalPathDefinition {
            logical_segment_format: LogicalSegmentFormat::from_bits(b % 4),
            logical_segment_type: LogicalSegmentType::from_bits((b / 4) % 8),
            segment_type: SegmentType::from_bits(b / 32),
        }
    }
}

/// Unpacking the packed descriptor byte yields the descriptor again.
pub proof fn lemma_definition_byte_roundtrip(d: LogicalPathDefinition)
    requires
        d.wf(),
    ensures
        LogicalPathDefinition::spec_of_byte(d.spec_byte()) == d,
{
    let f = d.logical_segment_format.spec_bits();
    let k = d.logical_segment_type.spec_bits();
    let s = d.segment_type.spec_bits();
    assert(f < 4 && k < 8 && s < 8);
    let b = d.spec_byte();
    assert(b == f + k * 4 + s * 32);
    assert(b % 4 == f && (b / 4) % 8 == k && b / 32 == s) by (nonlinear_arith)
        requires
            f < 4 && k < 8 && s < 8 && b == f + k * 4 + s * 32,
    ;
}

/// A path segment's data, in the width selected by the descriptor's format
/// bits.
#[derive(Debug, Clone, Copy, PartialEq, Eq)]
pub enum PathData {
    FormatAsU8(u8),
    FormatAsU16(u16),
}

impl PathData {
    /// The data value, widened to sixteen bits whatever the wire width.
    pub open spec fn spec_value(self) -> u16 {
        match self {
            PathData::FormatAsU8(d) => d as u16,
            PathData::FormatAsU16(d) => d,
        }
    }
}

impl From<PathData> for u16 {
    /// Converts the path data to a `u16`, regardless of its underlying
    /// format.
    fn from(data: PathData) -> (r: u16) {
        match data {
            PathData::FormatAsU8(d) => d as u16,
            PathData::FormatAsU16(d) => d,
        }
    }
}

impl vstd::std_specs::convert::FromSpecImpl<PathData> for u16 {
    open spec fn obeys_from_spec() -> bool {
        true
    }

    open spec fn from_spec(data: PathData) -> u16 {
        data.spec_value()
    }
}

impl<'a> From<&'a PathData> for u16 {
    /// Converts the path data to a `u16`, regardless of its underlying
    /// format.
    fn from(data: &'a PathData) -> (r: u16) {
        match data {
            PathData::FormatAsU8(d) => *d as u16,
            PathData::FormatAsU16(d) => *d,
        }
    }
}

impl<'a> vstd::std_specs::convert::FromSpecImpl<&'a PathData> for u16 {
    open spec fn obeys_from_spec() -> bool {
        true
    }

    open spec fn from_spec(data: &'a PathData) -> u16 {
        data.spec_value()
    }
}

/// One logical path segment: the packed descriptor byte, a padding byte
/// (16-bit format only), and the 8- or 16-bit data.
#[derive(Debug, Clone, Copy, PartialEq, Eq)]
pub struct LogicalPathSegment {
    pub path_definition: LogicalPathDefinition,
    pub u16_padding: Option<u8>,
    pub data: PathData,
}

impl LogicalPathSegment {
    /// The descriptor is in range, its format is a known one, and the
    /// padding and data width agree with that format.
    pub open spec fn wf(self) -> bool {
        &&& self.path_definition.wf()
        &&& match self.path_definition.logical_segment_format {
            LogicalSegmentFormat::FormatAsU8 => self.u16_padding is None && self.data
                is FormatAsU8,
            LogicalSegmentFormat::FormatAsU16 => self.u16_padding is Some && self.data
                is FormatAsU16,
            LogicalSegmentFormat::Unknown(_) => false,
        }
    }

    /// The wire form: descriptor byte, optional padding byte, then the data
    /// in its width, little-endian.
    pub open spec fn enc(self) -> Seq<u8> {
        seq![self.path_definition.spec_byte()] + (match self.u16_padding {
            Some(p) => seq![p],
            None => Seq::<u8>::empty(),
        }) + (match self.data {
            PathData::FormatAsU8(d) => seq![d],
            PathData::FormatAsU16(d) => le16(d),
        })
    }

    /// Builds an 8-bit logical segment of the given kind.
    pub fn new_u8(logical_segment_type: LogicalSegmentType, data: u8) -> (r: LogicalPathSegment)
        requires
            logical_segment_type.wf(),
        ensures
            r == (LogicalPathSegment {
                path_definition: LogicalPathDefinition {
                    logical_segment_format: LogicalSegmentFormat::FormatAsU8,
                    logical_segment_type,
                    segment_type: SegmentType::LogicalSegment,
                },
                u16_padding: None,
                data: PathData::FormatAsU8(data),
            }),
            r.wf(),
            r.enc().len() == 2,
    {
        let r = LogicalPathSegment {
            path_definition: LogicalPathDefinition::new(
                LogicalSegmentFormat::FormatAsU8,
                logical_segment_type,
                SegmentType::LogicalSegment,
            ),
            u16_padding: None,
            data: PathData::FormatAsU8(data),
        };
        proof {
            assert(r.enc().len() == 2);
        }
        r
    }

    /// Builds a 16-bit logical segment of the given kind, with a zero
    /// padding byte.
    pub fn new_u16(logical_segment_type: LogicalSegmentType, data: u16) -> (r: LogicalPathSegment)
        requires
            logical_segment_type.wf(),
        ensures
            r == (LogicalPathSegment {
                path_definition: LogicalPathDefinition {
                    logical_segment_format: LogicalSegmentFormat::FormatAsU16,
                    logical_segment_type,
                    segment_type: SegmentType::LogicalSegment,
                },
                u16_padding: Some(0u8),
                data: PathData::FormatAsU16(data),
            }),
            r.wf(),
            r.enc().len() == 4,
    {
        let r = LogicalPathSegment {
            path_definition: LogicalPathDefinition::new(
                LogicalSegmentFormat::FormatAsU16,
                logical_segment_type,
                SegmentType::LogicalSegment,
            ),
            u16_padding: Some(0x0),
            data: PathData::FormatAsU16(data),
        };
        proof {
            assert(r.enc().len() == 4);
        }
        r
    }

    /// A well-formed segment occupies two bytes in the 8-bit format and
    /// four in the 16-bit one.
    pub proof fn lemma_enc_len(self)
        requires
            self.wf(),
        ensures
            self.enc().len() == if self.path_definition.logical_segment_format
                is FormatAsU16 { 4int } else { 2int },
    {
    }

    /// Appends the wire form of the segment.
    pub fn write(&self, out: &mut Vec<u8>)
        requires
            self.wf(),
        ensures
            final(out)@ == old(out)@ + self.enc(),
    {
        out.push(self.path_definition.byte());
        match self.u16_padding {
            Some(p) => out.push(p),
            None => (),
        }
        match self.data {
            PathData::FormatAsU8(d) => out.push(d),
            PathData::FormatAsU16(d) => push_le16(out, d),
        }
        proof {
            assert(out@ =~= old(out)@ + self.enc());
        }
    }

    /// The spec-level parser for one segment: the descriptor byte selects
    /// the data width; an unknown format is rejected.
    pub open spec fn parse(s: Seq<u8>) -> Result<(LogicalPathSegment, int), CodecError> {
        if s.len() < 1 {
            Err(CodecError::Truncated)
        } else {
            let def = LogicalPathDefinition::spec_of_byte(s[0]);
            match def.logical_segment_format {
                LogicalSegmentFormat::FormatAsU8 => if s.len() < 2 {
                    Err(CodecError::Truncated)
                } else {
                    Ok((
                        LogicalPathSegment {
                            path_definition: def,
                            u16_padding: None,
                            data: PathData::FormatAsU8(s[1]),
                        },
                        2,
                    ))
                },
                LogicalSegmentFormat::FormatAsU16 => if s.len() < 4 {
                    Err(CodecError::Truncated)
                } else {
                    Ok((
                        LogicalPathSegment {
                            path_definition: def,
                            u16_padding: Some(s[1]),
                            data: PathData::FormatAsU16(le16_val(s[2], s[3])),
                        },
                        4,
                    ))
                },
                LogicalSegmentFormat::Unknown(v) => Err(CodecError::UnknownSegmentFormat(v)),
            }
        }
    }

    /// Reads one segment from `buf` at `pos`.
    pub fn read(buf: &[u8], pos: usize) -> (r: Result<(LogicalPathSegment, usize), CodecError>)
        requires
            pos <= buf@.len(),
        ensures
            resolves_exact(r, pos as int, LogicalPathSegment::parse(buf@.skip(pos as int))),
            r matches Ok((v, _)) ==> v.wf(),
    {
        let len = buf.len();
        proof {
            let s = buf@.skip(pos as int);
            assert forall|i: int| 0 <= i < s.len() implies s[i] == buf@[pos + i] by {}
        }
        if pos >= len {
            return Err(CodecError::Truncated);
        }
        let def = LogicalPathDefinition::of_byte(buf[pos]);
        match def.logical_segment_format {
            LogicalSegmentFormat::FormatAsU8 => {
                if len - pos < 2 {
                    return Err(CodecError::Truncated);
                }
                Ok((
                    LogicalPathSegment {
                        path_definition: def,
                        u16_padding: None,
                        data: PathData::FormatAsU8(buf[pos + 1]),
                    },
                    pos + 2,
                ))
            },
            LogicalSegmentFormat::FormatAsU16 => {
                if len - pos < 4 {
                    return Err(CodecError::Truncated);
                }
                Ok((
                    LogicalPathSegment {
                        path_definition: def,
                        u16_padding: Some(buf[pos + 1]),
                        data: PathData::FormatAsU16(read_le16(buf, pos + 2)),
                    },
                    pos + 4,
                ))
            },
            LogicalSegmentFormat::Unknown(v) => Err(CodecError::UnknownSegmentFormat(v)),
        }
    }
}

/// Parsing the wire form of a well-formed segment yields the segment again
/// and consumes exactly its bytes, whatever follows.
pub proof fn lemma_segment_roundtrip(seg: LogicalPathSegment, rest: Seq<u8>)
    requires
        seg.wf(),
    ensures
        LogicalPathSegment::parse(seg.enc() + rest) == Ok::<_, CodecError>((
            seg,
            seg.enc().len() as int,
        )),
{
    let s = seg.enc() + rest;
    lemma_definition_byte_roundtrip(seg.path_definition);
    assert(s[0] == seg.path_definition.spec_byte());
    match seg.path_definition.logical_segment_format {
        LogicalSegmentFormat::FormatAsU8 => {
            assert(s[1] == seg.enc()[1]);
        },
        LogicalSegmentFormat::FormatAsU16 => {
            assert(s[1] == seg.enc()[1]);
            assert(s[2] == seg.enc()[2]);
            assert(s[3] == seg.enc()[3]);
            let d = seg.data->FormatAsU16_0;
            crate::codec::lemma_le16_roundtrip(d);
        },
        LogicalSegmentFormat::Unknown(_) => {
        },
    }
}

/// A CIP addressing path: a class segment, an instance segment, and an
/// optional attribute segment.  Whether the attribute segment is present on
/// the wire is not marked in band: it is decided by the declared path size
/// in words that an enclosing request carries.
#[derive(Debug, Clone, Copy, PartialEq, Eq)]
pub struct CipPath {
    pub class_id_segment: LogicalPathSegment,
    pub instance_id_segment: LogicalPathSegment,
    pub attribute_id_segment: Option<LogicalPathSegment>,
}

impl CipPath {
    /// Every segment present is well-formed.
    pub open spec fn wf(self) -> bool {
        &&& self.class_id_segment.wf()
        &&& self.instance_id_segment.wf()
        &&& match self.attribute_id_segment {
            Some(a) => a.wf(),
            None => true,
        }
    }

    /// The wire form: class, then instance, then the attribute segment when
    /// present.
    pub open spec fn enc(self) -> Seq<u8> {
        self.class_id_segment.enc() + self.instance_id_segment.enc() + (
        match self.attribute_id_segment {
            Some(a) => a.enc(),
            None => Seq::<u8>::empty(),
        })
    }

    /// The size of the encoded path in 16-bit words.
    pub open spec fn word_len(self) -> int {
        self.enc().len() as int / 2
    }

    /// A well-formed path's declared word size singles out the attribute
    /// segment correctly: three words mean class + instance + attribute,
    /// anything else means class + instance alone.  This is exactly the
    /// condition under which a decoded path matches the encoded one.
    pub open spec fn word_size_separates(self) -> bool {
        match self.attribute_id_segment {
            Some(_) => self.word_len() == 3,
            None => self.word_len() != 3,
        }
    }

    /// The value `new` builds: a two-segment path of 16-bit class and
    /// instance identifiers.
    pub open spec fn spec_new(class_id: u16, instance_id: u16) -> CipPath {
        CipPath {
            class_id_segment: LogicalPathSegment {
                path_definition: LogicalPathDefinition {
                    logical_segment_format: LogicalSegmentFormat::FormatAsU16,
                    logical_segment_type: LogicalSegmentType::ClassId,
                    segment_type: SegmentType::LogicalSegment,
                },
                u16_padding: Some(0u8),
                data: PathData::FormatAsU16(class_id),
            },
            instance_id_segment: LogicalPathSegment {
                path_definition: LogicalPathDefinition {
                    logical_segment_format: LogicalSegmentFormat::FormatAsU16,
                    logical_segment_type: LogicalSegmentType::InstanceId,
                    segment_type: SegmentType::LogicalSegment,
                },
                u16_padding: Some(0u8),
                data: PathData::FormatAsU16(instance_id),
            },
            attribute_id_segment: None,
        }
    }

    /// Builds a two-segment path of 16-bit class and instance identifiers.
    pub fn new(class_id: u16, instance_id: u16) -> (r: CipPath)
        ensures
            r == CipPath::spec_new(class_id, instance_id),
            r.wf(),
            r.enc().len() == 8,
            r.word_size_separates(),
    {
        let r = CipPath {
            class_id_segment: LogicalPathSegment::new_u16(LogicalSegmentType::ClassId, class_id),
            instance_id_segment: LogicalPathSegment::new_u16(
                LogicalSegmentType::InstanceId,
                instance_id,
            ),
            attribute_id_segment: None,
        };
        proof {
            assert(r.enc().len() == 8);
        }
        r
    }

    /// The value `new_full` builds: a three-segment path of 8-bit class,
    /// instance and attribute identifiers.
    pub open spec fn spec_new_full(class_id: u8, instance_id: u8, attribute_id: u8) -> CipPath {
        CipPath {
            class_id_segment: LogicalPathSegment {
                path_definition: LogicalPathDefinition {
                    logical_segment_format: LogicalSegmentFormat::FormatAsU8,
                    logical_segment_type: LogicalSegmentType::ClassId,
                    segment_type: SegmentType::LogicalSegment,
                },
                u16_padding: None,
                data: PathData::FormatAsU8(class_id),
            },
            instance_id_segment: LogicalPathSegment {
                path_definition: LogicalPathDefinition {
                    logical_segment_format: LogicalSegmentFormat::FormatAsU8,
                    logical_segment_type: LogicalSegmentType::InstanceId,
                    segment_type: SegmentType::LogicalSegment,
                },
                u16_padding: None,
                data: PathData::FormatAsU8(instance_id),
            },
            attribute_id_segment: Some(
                LogicalPathSegment {
                    path_definition: LogicalPathDefinition {
                        logical_segment_format: LogicalSegmentFormat::FormatAsU8,
                        logical_segment_type: LogicalSegmentType::AttributeId,
                        segment_type: SegmentType::LogicalSegment,
                    },
                    u16_padding: None,
                    data: PathData::FormatAsU8(attribute_id),
                },
            ),
        }
    }

    /// Builds a three-segment path of 8-bit class, instance and attribute
    /// identifiers.
    pub fn new_full(class_id: u8, instance_id: u8, attribute_id: u8) -> (r: CipPath)
        ensures
            r == CipPath::spec_new_full(class_id, instance_id, attribute_id),
            r.wf(),
            r.enc().len() == 6,
            r.word_size_separates(),
    {
        let r = CipPath {
            class_id_segment: LogicalPathSegment::new_u8(LogicalSegmentType::ClassId, class_id),
            instance_id_segment: LogicalPathSegment::new_u8(
                LogicalSegmentType::InstanceId,
                instance_id,
            ),
            attribute_id_segment: Some(
                LogicalPathSegment::new_u8(LogicalSegmentType::AttributeId, attribute_id),
            ),
        };
        proof {
            assert(r.enc().len() == 6);
        }
        r
    }

    /// A well-formed path encodes to an even number of bytes, between four
    /// and twelve.
    pub proof fn lemma_enc_len(self)
        requires
            self.wf(),
        ensures
            self.enc().len() % 2 == 0,
            4 <= self.enc().len() <= 12,
    {
        self.class_id_segment.lemma_enc_len();
        self.instance_id_segment.lemma_enc_len();
        match self.attribute_id_segment {
            Some(a) => a.lemma_enc_len(),
            None => (),
        }
    }

    /// Appends the wire form of the path.
    pub fn write(&self, out: &mut Vec<u8>)
        requires
            self.wf(),
        ensures
            final(out)@ == old(out)@ + self.enc(),
    {
        self.class_id_segment.write(out);
        self.instance_id_segment.write(out);
        match &self.attribute_id_segment {
            Some(a) => a.write(out),
            None => (),
        }
        proof {
            assert(out@ =~= old(out)@ + self.enc());
        }
    }

    /// The spec-level parser for a path: class, then instance, then the
    /// attribute segment exactly when the declared path size is three
    /// words.
    pub open spec fn parse(s: Seq<u8>, path_length: u8) -> Result<(CipPath, int), CodecError> {
        match LogicalPathSegment::parse(s) {
            Err(e) => Err(e),
            Ok((class_seg, n1)) => match LogicalPathSegment::parse(s.skip(n1)) {
                Err(e) => Err(e),
                Ok((instance_seg, n2)) => if path_length == 3 {
                    match LogicalPathSegment::parse(s.skip(n1 + n2)) {
                        Err(e) => Err(e),
                        Ok((attr_seg, n3)) => Ok((
                            CipPath {
                                class_id_segment: class_seg,
                                instance_id_segment: instance_seg,
                                attribute_id_segment: Some(attr_seg),
                            },
                            n1 + n2 + n3,
                        )),
                    }
                } else {
                    Ok((
                        CipPath {
                            class_id_segment: class_seg,
                            instance_id_segment: instance_seg,
                            attribute_id_segment: None,
                        },
                        n1 + n2,
                    ))
                },
            },
        }
    }

    /// Reads a path from `buf` at `pos`; `path_length` is the declared path
    /// size in words from the enclosing request.
    pub fn read(buf: &[u8], pos: usize, path_length: u8) -> (r: Result<
        (CipPath, usize),
        CodecError,
    >)
        requires
            pos <= buf@.len(),
        ensures
            resolves_exact(r, pos as int, CipPath::parse(buf@.skip(pos as int), path_length)),
            r matches Ok((v, _)) ==> v.wf(),
    {
        let (class_seg, p1) = match LogicalPathSegment::read(buf, pos) {
            Ok(v) => v,
            Err(e) => {
                return Err(e);
            },
        };
        proof {
            crate::codec::lemma_skip_skip(buf@, pos as int, p1 - pos);
        }
        let (instance_seg, p2) = match LogicalPathSegment::read(buf, p1) {
            Ok(v) => v,
            Err(e) => {
                return Err(e);
            },
        };
        proof {
            crate::codec::lemma_skip_skip(buf@, pos as int, p2 - pos);
        }
        if path_length == 3 {
            let (attr_seg, p3) = match LogicalPathSegment::read(buf, p2) {
                Ok(v) => v,
                Err(e) => {
                    return Err(e);
                },
            };
            Ok((
                CipPath {
                    class_id_segment: class_seg,
                    instance_id_segment: instance_seg,
                    attribute_id_segment: Some(attr_seg),
                },
                p3,
            ))
        } else {
            Ok((
                CipPath {
                    class_id_segment: class_seg,
                    instance_id_segment: instance_seg,
                    attribute_id_segment: None,
                },
                p2,
            ))
        }
    }
}

/// Parsing the wire form of a well-formed path whose declared word size
/// singles out the attribute segment yields the path again and consumes
/// exactly its bytes, whatever follows.
pub proof fn lemma_path_roundtrip(path: CipPath, path_length: u8, rest: Seq<u8>)
    requires
        path.wf(),
        (path_length == 3) <==> path.attribute_id_segment is Some,
    ensures
        CipPath::parse(path.enc() + rest, path_length) == Ok::<_, CodecError>((
            path,
            path.enc().len() as int,
        )),
{
    let c = path.class_id_segment;
    let i = path.instance_id_segment;
    let a_enc = match path.attribute_id_segment {
        Some(a) => a.enc(),
        None => Seq::<u8>::empty(),
    };
    let s = path.enc() + rest;
    let n1 = c.enc().len() as int;
    let n2 = i.enc().len() as int;
    assert(s =~= c.enc() + (i.enc() + (a_enc + rest)));
    lemma_segment_roundtrip(c, i.enc() + (a_enc + rest));
    assert(LogicalPathSegment::parse(s) == Ok::<_, CodecError>((c, n1)));
    assert(s.skip(n1) =~= i.enc() + (a_enc + rest));
    lemma_segment_roundtrip(i, a_enc + rest);
    assert(LogicalPathSegment::parse(s.skip(n1)) == Ok::<_, CodecError>((i, n2)));
    match path.attribute_id_segment {
        Some(a) => {
            assert(s.skip(n1 + n2) =~= a.enc() + rest);
            lemma_segment_roundtrip(a, rest);
            assert(LogicalPathSegment::parse(s.skip(n1 + n2)) == Ok::<_, CodecError>((
                a,
                a.enc().len() as int,
            )));
        },
        None => (),
    }
}

} // verus!

//! Connections between map objects.
use vstd::prelude::*;
use crate::bytes::{Reader, parse_u8, parse_u32, parse_i32, le_u32, le_i32, write_u8, write_u32, write_i32, write_all, lemma_u32_at, lemma_i32_at};
use crate::error::Error;
use crate::guid::{Guid, parse_guid, ser_guid, lemma_guid_at};
use crate::repeat::{parse_repeat, ser_repeat, parse_in_bounds, lemma_repeat_fail, lemma_repeat_roundtrip, lemma_repeat_bounds, lemma_assoc};

verus! {

broadcast use crate::bytes::group_codec, crate::guid::lemma_guid_roundtrip, crate::repeat::lemma_skip_skip;

/// A connection target: a model instance and an index.
#[derive(Clone, Copy, Debug, PartialEq, Eq)]
pub struct PalConnectInfoItem {
    pub connect_to_model_instance_id: Guid,
    pub index: u8,
}

/// The connections of a connector.
#[derive(Debug, PartialEq, Eq)]
pub struct PalConnect {
    pub index: u8,
    pub any_place: Vec<PalConnectInfoItem>,
}

/// A connector payload; the bytes after the connections are kept as they are.
#[derive(Debug, PartialEq, Eq)]
pub struct PalConnector {
    pub supported_level: i32,
    pub connect: PalConnect,
    pub unknown_bytes: Vec<u8>,
}

/// Model of [`PalConnector`].
pub ghost struct PalConnectorView {
    pub supported_level: i32,
    pub index: u8,
    pub any_place: Seq<PalConnectInfoItem>,
    pub unknown_bytes: Seq<u8>,
}

impl View for PalConnector {
    type V = PalConnectorView;

    open spec fn view(&self) -> PalConnectorView {
        PalConnectorView {
            supported_level: self.supported_level,
            index: self.connect.index,
            any_place: self.connect.any_place@,
            unknown_bytes: self.unknown_bytes@,
        }
    }
}

/// Parse of a connection target: a GUID and a byte.
pub open spec fn parse_connect_info_item(s: Seq<u8>) -> Option<(PalConnectInfoItem, int)> {
    match parse_guid(s) {
        None => None,
        Some((g, _)) => match parse_u8(s.skip(16)) {
            None => None,
            Some((i, _)) => Some((PalConnectInfoItem { connect_to_model_instance_id: g, index: i }, 17)),
        },
    }
}

/// Encoding of a connection target.
pub open spec fn ser_connect_info_item(v: PalConnectInfoItem) -> Seq<u8> {
    ser_guid(v.connect_to_model_instance_id) + seq![v.index]
}

/// [`parse_connect_info_item`] as a value.
pub open spec fn connect_info_item_parser() -> spec_fn(Seq<u8>) -> Option<(PalConnectInfoItem, int)> {
    |t: Seq<u8>| parse_connect_info_item(t)
}

/// [`ser_connect_info_item`] as a value.
pub open spec fn connect_info_item_writer() -> spec_fn(PalConnectInfoItem) -> Seq<u8> {
    |v: PalConnectInfoItem| ser_connect_info_item(v)
}

/// Parse of a connector: level, index, counted targets, then all remaining bytes.
pub open spec fn parse_connector(s: Seq<u8>) -> Option<PalConnectorView> {
    match parse_i32(s) {
        None => None,
        Some((level, _)) => match parse_u8(s.skip(4)) {
            None => None,
            Some((index, _)) => match parse_u32(s.skip(4).skip(1)) {
                None => None,
                Some((count, _)) => {
                    let t = s.skip(4).skip(1).skip(4);
                    match parse_repeat(connect_info_item_parser(), t, count as nat) {
                        None => None,
                        Some((items, n)) => Some(PalConnectorView {
                            supported_level: level,
                            index,
                            any_place: items,
                            unknown_bytes: t.skip(n),
                        }),
                    }
                },
            },
        },
    }
}

/// Encoding of a connector.
pub open spec fn ser_connector(v: PalConnectorView) -> Seq<u8> {
    le_i32(v.supported_level) + seq![v.index] + le_u32(v.any_place.len() as u32)
        + ser_repeat(connect_info_item_writer(), v.any_place) + v.unknown_bytes
}

/// Connectors whose target count fits the count field.
pub open spec fn connector_ok(v: PalConnectorView) -> bool {
    v.any_place.len() <= u32::MAX
}

impl PalConnectInfoItem {
    /// Reads a connection target.
    pub fn read(r: &mut Reader) -> (res: Result<Self, Error>)
        requires
            old(r).valid(),
        ensures
            final(r).valid(),
            final(r).data() == old(r).data(),
            match parse_connect_info_item(old(r).rest()) {
                Some((v, n)) => res == Ok::<Self, Error>(v) && final(r).position() == old(r).position() + n
                    && final(r).rest() == old(r).rest().skip(n),
                None => res == Err::<Self, Error>(Error::UnexpectedEof),
            },
    {
        let g = Guid::read(r)?;
        let index = r.read_u8()?;
        Ok(PalConnectInfoItem { connect_to_model_instance_id: g, index })
    }

    /// Writes a connection target.
    pub fn write(&self, out: &mut Vec<u8>)
        ensures
            final(out)@ == old(out)@ + ser_connect_info_item(*self),
    {
        self.connect_to_model_instance_id.write(out);
        write_u8(out, self.index);
        assert(out@ =~= old(out)@ + ser_connect_info_item(*self));
    }
}

impl PalConnector {
    /// Reads a connector, taking all of the remaining bytes.
    pub fn read(r: &mut Reader) -> (res: Result<Self, Error>)
        requires
            old(r).valid(),
        ensures
            final(r).valid(),
            final(r).data() == old(r).data(),
            match parse_connector(old(r).rest()) {
                Some(v) => res matches Ok(x) && x@ == v && final(r).rest().len() == 0,
                None => res == Err::<Self, Error>(Error::UnexpectedEof),
            },
    {
        let supported_level = r.read_i32()?;
        let index = r.read_u8()?;
        let count = r.read_u32()?;
        let ghost t = r.rest();
        let ghost p0 = r.position();
        let mut any_place: Vec<PalConnectInfoItem> = Vec::new();
        let mut i: u32 = 0;
        proof {
            lemma_connect_info_item_parser_in_bounds();
        }
        while i < count
            invariant
                r.valid(),
                r.data() == old(r).data(),
                i <= count,
                parse_i32(old(r).rest()) == Some((supported_level, 4int)),
                parse_u8(old(r).rest().skip(4)) == Some((index, 1int)),
                parse_u32(old(r).rest().skip(4).skip(1)) == Some((count, 4int)),
                t == old(r).rest().skip(4).skip(1).skip(4),
                0 <= p0 <= r.position(),
                t == r.data().skip(p0),
                parse_in_bounds(connect_info_item_parser()),
                parse_repeat(connect_info_item_parser(), t, i as nat) == Some((any_place@, r.position() - p0)),
                r.rest() == t.skip(r.position() - p0),
            decreases count - i,
        {
            let item = match PalConnectInfoItem::read(r) {
                Ok(item) => item,
                Err(e) => {
                    proof {
                        lemma_repeat_fail(connect_info_item_parser(), t, (i + 1) as nat, count as nat);
                    }
                    return Err(e);
                },
            };
            any_place.push(item);
            i = i + 1;
        }
        let unknown_bytes = r.read_to_end();
        Ok(PalConnector { supported_level, connect: PalConnect { index, any_place }, unknown_bytes })
    }

    /// Writes a connector.
    pub fn write(&self, out: &mut Vec<u8>)
        requires
            connector_ok(self@),
        ensures
            final(out)@ == old(out)@ + ser_connector(self@),
    {
        write_i32(out, self.supported_level);
        write_u8(out, self.connect.index);
        write_u32(out, self.connect.any_place.len() as u32);
        let ghost mid = out@;
        let mut i: usize = 0;
        while i < self.connect.any_place.len()
            invariant
                i <= self.connect.any_place@.len(),
                out@ == mid + ser_repeat(connect_info_item_writer(), self.connect.any_place@.take(i as int)),
            decreases self.connect.any_place@.len() - i,
        {
            self.connect.any_place[i].write(out);
            proof {
                assert(self.connect.any_place@.take(i + 1).drop_last() =~= self.connect.any_place@.take(i as int));
            }
            i = i + 1;
        }
        assert(self.connect.any_place@.take(i as int) =~= self.connect.any_place@);
        write_all(out, self.unknown_bytes.as_slice());
        assert(out@ =~= old(out)@ + ser_connector(self@));
    }
}

/// A written connection target reads back.
pub broadcast proof fn lemma_connect_info_item_roundtrip(v: PalConnectInfoItem, rest: Seq<u8>)
    ensures
        #[trigger] parse_connect_info_item(ser_connect_info_item(v) + rest) == Some((v, 17int)),
        #[trigger] ser_connect_info_item(v).len() == 17,
{
    assert(ser_connect_info_item(v) + rest =~= ser_guid(v.connect_to_model_instance_id) + (seq![v.index] + rest));
}

/// A written connector reads back.
pub proof fn lemma_connector_roundtrip(v: PalConnectorView)
    requires
        connector_ok(v),
    ensures
        parse_connector(ser_connector(v)) == Some(v),
{
    let p = connect_info_item_parser();
    let f = connect_info_item_writer();
    let ok = |x: PalConnectInfoItem| true;
    assert forall|x: PalConnectInfoItem, r: Seq<u8>| ok(x) implies #[trigger] p(f(x) + r) == Some((x, f(x).len() as int)) by {
        lemma_connect_info_item_roundtrip(x, r);
    }
    lemma_repeat_roundtrip(p, f, ok, v.any_place, v.unknown_bytes);
    let items = ser_repeat(f, v.any_place);
    let head = le_i32(v.supported_level) + seq![v.index] + le_u32(v.any_place.len() as u32);
    lemma_assoc(head, items, v.unknown_bytes);
    assert(head + (items + v.unknown_bytes) =~= le_i32(v.supported_level) + (seq![v.index]
        + (le_u32(v.any_place.len() as u32) + (items + v.unknown_bytes))));
    let t = items + v.unknown_bytes;
    assert(t.skip(items.len() as int) =~= v.unknown_bytes);
}

/// A connection target against its bytes: the model's instance id (0..16)
/// and the index (byte 16).
pub proof fn lemma_connect_info_item_layout(s: Seq<u8>)
    requires
        parse_connect_info_item(s) is Some,
    ensures
        ser_guid((parse_connect_info_item(s)->0).0.connect_to_model_instance_id) == s.subrange(0, 16),
        (parse_connect_info_item(s)->0).0.index == s[16],
{
    lemma_guid_at(s, 0);
    assert(s.skip(0) =~= s);
}

/// A connector against its bytes: the supported level (0..4), the index
/// (byte 4), the count of targets (5..9), the targets from byte 9 on, and
/// every byte after the targets kept as it is.
pub proof fn lemma_connector_layout(s: Seq<u8>)
    requires
        parse_connector(s) is Some,
    ensures
        ({
            let v = parse_connector(s)->0;
            let count = (parse_u32(s.skip(5))->0).0;
            let (items, n) = parse_repeat(connect_info_item_parser(), s.skip(9), count as nat)->0;
            &&& le_i32(v.supported_level) == s.subrange(0, 4)
            &&& v.index == s[4]
            &&& le_u32(v.any_place.len() as u32) == s.subrange(5, 9)
            &&& v.any_place == items
            &&& v.unknown_bytes == s.skip(9 + n)
        }),
{
    lemma_i32_at(s, 0);
    lemma_u32_at(s, 5);
    assert(s.skip(0) =~= s);
    assert(s.skip(4).skip(1) =~= s.skip(5));
    assert(s.skip(4).skip(1).skip(4) =~= s.skip(9));
    let count = (parse_u32(s.skip(5))->0).0;
    lemma_connect_info_item_parser_in_bounds();
    lemma_repeat_bounds(connect_info_item_parser(), s.skip(9), count as nat);
    let n = (parse_repeat(connect_info_item_parser(), s.skip(9), count as nat)->0).1;
    assert(s.skip(9).skip(n) =~= s.skip(9 + n));
}

proof fn lemma_connect_info_item_parser_in_bounds()
    ensures
        parse_in_bounds(connect_info_item_parser()),
{
}

} // verus!

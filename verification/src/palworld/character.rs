//! Character data and character container slots.
use vstd::prelude::*;
use crate::bytes::{Reader, parse_u8, parse_bytes, write_u8, write_all};
use crate::properties::{Properties, PropertyView, parse_properties, properties_error, properties_writable, ser_properties, properties_ok, lemma_properties_roundtrip};
use crate::error::Error;
use crate::guid::{Guid, parse_guid, ser_guid, lemma_guid_at};
use crate::palworld::items::{opt_bytes_view, nonempty, ser_opt_bytes};
use crate::repeat::lemma_assoc;

verus! {

broadcast use crate::bytes::group_codec, crate::guid::lemma_guid_roundtrip, crate::repeat::lemma_skip_skip;

/// A character's save parameters: a property list, then a group id, with four
/// bytes on either side of it in saves of older game versions.
#[derive(Debug, PartialEq, Eq)]
pub struct PalCharacterData {
    pub object: Properties,
    /// Present in saves of older game versions, absent in newer ones; read
    /// when at least 24 bytes follow the property list.
    pub unknown_bytes: Option<[u8; 4]>,
    pub group_id: Guid,
    /// Present exactly when [`Self::unknown_bytes`] is.
    pub trailing_bytes: Option<[u8; 4]>,
}

/// Model of [`PalCharacterData`].
pub ghost struct PalCharacterDataView {
    pub object: Seq<PropertyView>,
    pub unknown_bytes: Option<Seq<u8>>,
    pub group_id: Guid,
    pub trailing_bytes: Option<Seq<u8>>,
}

/// The model of an optional 4-byte array.
pub open spec fn opt_array_view(v: Option<[u8; 4]>) -> Option<Seq<u8>> {
    match v {
        Some(a) => Some(a@),
        None => None,
    }
}

impl View for PalCharacterData {
    type V = PalCharacterDataView;

    open spec fn view(&self) -> PalCharacterDataView {
        PalCharacterDataView {
            object: self.object@,
            unknown_bytes: opt_array_view(self.unknown_bytes),
            group_id: self.group_id,
            trailing_bytes: opt_array_view(self.trailing_bytes),
        }
    }
}

/// Parse of what follows the property list of character data: with at least
/// 24 bytes left, four bytes, the group id and four more; else the group id alone.
pub open spec fn parse_character_trailer(ps: Seq<PropertyView>, t: Seq<u8>) -> Option<(PalCharacterDataView, int)> {
    if t.len() >= 24 {
        match parse_bytes(t, 4) {
            None => None,
            Some((u, _)) => match parse_guid(t.skip(4)) {
                None => None,
                Some((g, _)) => match parse_bytes(t.skip(4).skip(16), 4) {
                    None => None,
                    Some((tb, _)) => Some(
                        (PalCharacterDataView { object: ps, unknown_bytes: Some(u), group_id: g, trailing_bytes: Some(tb) }, 24),
                    ),
                },
            },
        }
    } else {
        match parse_guid(t) {
            None => None,
            Some((g, _)) => Some(
                (PalCharacterDataView { object: ps, unknown_bytes: None, group_id: g, trailing_bytes: None }, 16),
            ),
        }
    }
}

/// Parse of character data at the start of a byte range that holds nothing else.
pub open spec fn parse_character_data(s: Seq<u8>) -> Option<(PalCharacterDataView, int)> {
    match parse_properties(s) {
        None => None,
        Some((ps, n)) => match parse_character_trailer(ps, s.skip(n)) {
            None => None,
            Some((v, m)) => Some((v, n + m)),
        },
    }
}

/// Why character data fails to parse: its property list's error, or else
/// too few bytes.
pub open spec fn character_data_error(s: Seq<u8>) -> Error {
    match parse_properties(s) {
        None => properties_error(s),
        Some(_) => Error::UnexpectedEof,
    }
}

/// Encoding of character data.
pub open spec fn ser_character_data(v: PalCharacterDataView) -> Seq<u8> {
    ser_properties(v.object) + ser_opt_bytes(v.unknown_bytes) + ser_guid(v.group_id) + ser_opt_bytes(v.trailing_bytes)
}

/// Character data that the encoding carries unchanged: an encodable property
/// list, and the two 4-byte fields both present or both absent.
pub open spec fn character_data_ok(v: PalCharacterDataView) -> bool {
    &&& properties_ok(v.object)
    &&& v.unknown_bytes.is_some() == v.trailing_bytes.is_some()
    &&& v.unknown_bytes matches Some(u) ==> u.len() == 4
    &&& v.trailing_bytes matches Some(t) ==> t.len() == 4
}

impl PalCharacterData {
    /// Reads character data from a reader whose remaining bytes are this entry's.
    pub fn read(r: &mut Reader) -> (res: Result<Self, Error>)
        requires
            old(r).valid(),
        ensures
            final(r).valid(),
            final(r).data() == old(r).data(),
            match parse_character_data(old(r).rest()) {
                Some((v, n)) => res matches Ok(x) && x@ == v && final(r).position() == old(r).position() + n
                    && final(r).rest() == old(r).rest().skip(n),
                None => res == Err::<Self, Error>(character_data_error(old(r).rest())),
            },
    {
        proof {
            crate::properties::lemma_properties_bounds(old(r).rest());
        }
        let object = Properties::read(r)?;
        Self::read_trailer(r, object)
    }

    fn read_trailer(r: &mut Reader, object: Properties) -> (res: Result<Self, Error>)
        requires
            old(r).valid(),
        ensures
            final(r).valid(),
            final(r).data() == old(r).data(),
            match parse_character_trailer(object@, old(r).rest()) {
                Some((v, n)) => res matches Ok(x) && x@ == v && final(r).position() == old(r).position() + n
                    && final(r).rest() == old(r).rest().skip(n),
                None => res == Err::<Self, Error>(Error::UnexpectedEof),
            },
    {
        if r.remaining() >= 24 {
            let u = r.read_array::<4>()?;
            let group_id = Guid::read(r)?;
            let t = r.read_array::<4>()?;
            Ok(PalCharacterData { object, unknown_bytes: Some(u), group_id, trailing_bytes: Some(t) })
        } else {
            let group_id = Guid::read(r)?;
            Ok(PalCharacterData { object, unknown_bytes: None, group_id, trailing_bytes: None })
        }
    }

    /// Writes character data.
    pub fn write(&self, out: &mut Vec<u8>)
        requires
            properties_writable(self.object@),
        ensures
            final(out)@ == old(out)@ + ser_character_data(self@),
    {
        self.object.write(out);
        match &self.unknown_bytes {
            Some(b) => write_all(out, b.as_slice()),
            None => {},
        }
        self.group_id.write(out);
        match &self.trailing_bytes {
            Some(b) => write_all(out, b.as_slice()),
            None => {},
        }
        assert(out@ =~= old(out)@ + ser_character_data(self@));
    }
}

/// Bytes that hold character data resave unchanged: reading the bytes of
/// character data that reads back as written consumes all of them, in the
/// older layout (with its two 4-byte fields) or the newer one, and writing
/// what was read gives the same bytes.
pub proof fn lemma_character_data_resave(v: PalCharacterDataView, b: Seq<u8>)
    requires
        character_data_ok(v),
        b == ser_character_data(v),
    ensures
        parse_character_data(b) matches Some((w, n)) && n == b.len() && properties_writable(w.object)
            && ser_character_data(w) == b,
{
    lemma_character_data_roundtrip(v);
    crate::properties::lemma_properties_ok_writable(v.object);
}

/// Bytes that read as character data, all of them consumed, write back
/// unchanged when the property list is in the form that writing gives it:
/// the older layout (24 bytes after the list: both 4-byte fields present)
/// and the newer one (16 bytes: both absent) each resave byte for byte.
#[verifier::spinoff_prover]
#[verifier::rlimit(40)]
pub proof fn lemma_character_data_bytes_resave(b: Seq<u8>)
    requires
        parse_character_data(b) matches Some((_, n)) && n == b.len(),
        crate::properties::properties_canonical(b),
    ensures
        ser_character_data((parse_character_data(b)->0).0) == b,
        ({
            let v = (parse_character_data(b)->0).0;
            v.unknown_bytes is Some == v.trailing_bytes is Some
        }),
{
    crate::properties::lemma_properties_resave(b);
    crate::properties::lemma_properties_bounds(b);
    let (ps, n) = parse_properties(b)->0;
    let t = b.skip(n);
    let (v, m) = parse_character_trailer(ps, t)->0;
    let p = ser_properties(ps);
    assert(p == b.take(n));
    if t.len() >= 24 {
        crate::guid::lemma_guid_reencode(t.skip(4));
        assert(t.len() == 24);
        let u = t.take(4);
        let tb = t.skip(4).skip(16).take(4);
        assert(ser_opt_bytes(v.unknown_bytes) == u);
        assert(ser_opt_bytes(v.trailing_bytes) == tb);
        assert(u + ser_guid(v.group_id) + tb =~= t);
        assert(ser_character_data(v) == p + u + ser_guid(v.group_id) + tb);
        lemma_assoc(p + u, ser_guid(v.group_id), tb);
        lemma_assoc(p, u, ser_guid(v.group_id) + tb);
        lemma_assoc(u, ser_guid(v.group_id), tb);
    } else {
        crate::guid::lemma_guid_reencode(t);
        assert(t.len() == 16);
        assert(ser_guid(v.group_id) =~= t);
        assert(ser_opt_bytes(v.unknown_bytes) =~= Seq::<u8>::empty());
        assert(ser_opt_bytes(v.trailing_bytes) =~= Seq::<u8>::empty());
        assert(ser_character_data(v) =~= p + t);
    }
    assert(b.take(n) + b.skip(n) =~= b);
}

/// Written character data reads back from a byte range that holds just it:
/// the two 4-byte fields are present exactly when they were written.
pub proof fn lemma_character_data_roundtrip(v: PalCharacterDataView)
    requires
        character_data_ok(v),
    ensures
        parse_character_data(ser_character_data(v)) == Some((v, ser_character_data(v).len() as int)),
{
    let p = ser_properties(v.object);
    let t = ser_opt_bytes(v.unknown_bytes) + ser_guid(v.group_id) + ser_opt_bytes(v.trailing_bytes);
    lemma_assoc(p + ser_opt_bytes(v.unknown_bytes), ser_guid(v.group_id), ser_opt_bytes(v.trailing_bytes));
    lemma_assoc(p, ser_opt_bytes(v.unknown_bytes), ser_guid(v.group_id) + ser_opt_bytes(v.trailing_bytes));
    lemma_assoc(ser_opt_bytes(v.unknown_bytes), ser_guid(v.group_id), ser_opt_bytes(v.trailing_bytes));
    assert(ser_character_data(v) == p + t);
    lemma_properties_roundtrip(v.object, t);
    assert((p + t).skip(p.len() as int) == t);
    match v.unknown_bytes {
        Some(u) => {
            let tb = v.trailing_bytes->0;
            assert(t == u + (ser_guid(v.group_id) + (tb + Seq::<u8>::empty())));
            assert(t.len() == 24);
        },
        None => {
            assert(t == ser_guid(v.group_id) + Seq::<u8>::empty());
        },
    }
}

/// A character container slot; bytes after the tribe id, if any, are kept as they are.
#[derive(Debug, PartialEq, Eq)]
pub struct PalCharacterContainer {
    pub player_uid: Guid,
    pub instance_id: Guid,
    pub permission_tribe_id: u8,
    pub trailing_bytes: Option<Vec<u8>>,
}

/// Model of [`PalCharacterContainer`].
pub ghost struct PalCharacterContainerView {
    pub player_uid: Guid,
    pub instance_id: Guid,
    pub permission_tribe_id: u8,
    pub trailing_bytes: Option<Seq<u8>>,
}

impl View for PalCharacterContainer {
    type V = PalCharacterContainerView;

    open spec fn view(&self) -> PalCharacterContainerView {
        PalCharacterContainerView {
            player_uid: self.player_uid,
            instance_id: self.instance_id,
            permission_tribe_id: self.permission_tribe_id,
            trailing_bytes: opt_bytes_view(self.trailing_bytes),
        }
    }
}

/// Parse of a character container slot: two GUIDs, a byte, then the remaining bytes if any.
pub open spec fn parse_character_container(s: Seq<u8>) -> Option<PalCharacterContainerView> {
    match parse_guid(s) {
        None => None,
        Some((uid, _)) => match parse_guid(s.skip(16)) {
            None => None,
            Some((iid, _)) => match parse_u8(s.skip(16).skip(16)) {
                None => None,
                Some((tribe, _)) => Some(PalCharacterContainerView {
                    player_uid: uid,
                    instance_id: iid,
                    permission_tribe_id: tribe,
                    trailing_bytes: nonempty(s.skip(16).skip(16).skip(1)),
                }),
            },
        },
    }
}

/// Encoding of a character container slot.
pub open spec fn ser_character_container(v: PalCharacterContainerView) -> Seq<u8> {
    ser_guid(v.player_uid) + ser_guid(v.instance_id) + seq![v.permission_tribe_id] + ser_opt_bytes(v.trailing_bytes)
}

/// Slots that the encoding carries unchanged: kept trailing bytes are not empty.
pub open spec fn character_container_ok(v: PalCharacterContainerView) -> bool {
    v.trailing_bytes matches Some(t) ==> t.len() > 0
}

impl PalCharacterContainer {
    /// Reads a character container slot, taking all of the remaining bytes.
    pub fn read(r: &mut Reader) -> (res: Result<Self, Error>)
        requires
            old(r).valid(),
        ensures
            final(r).valid(),
            final(r).data() == old(r).data(),
            match parse_character_container(old(r).rest()) {
                Some(v) => res matches Ok(x) && x@ == v && final(r).rest().len() == 0,
                None => res == Err::<Self, Error>(Error::UnexpectedEof),
            },
    {
        let player_uid = Guid::read(r)?;
        let instance_id = Guid::read(r)?;
        let permission_tribe_id = r.read_u8()?;
        let trailing = r.read_to_end();
        if trailing.len() > 0 {
            Ok(PalCharacterContainer { player_uid, instance_id, permission_tribe_id, trailing_bytes: Some(trailing) })
        } else {
            Ok(PalCharacterContainer { player_uid, instance_id, permission_tribe_id, trailing_bytes: None })
        }
    }

    /// Writes a character container slot.
    pub fn write(&self, out: &mut Vec<u8>)
        ensures
            final(out)@ == old(out)@ + ser_character_container(self@),
    {
        self.player_uid.write(out);
        self.instance_id.write(out);
        write_u8(out, self.permission_tribe_id);
        match &self.trailing_bytes {
            Some(t) => write_all(out, t.as_slice()),
            None => {},
        }
        assert(out@ =~= old(out)@ + ser_character_container(self@));
    }
}

/// A written character container slot reads back.
pub proof fn lemma_character_container_roundtrip(v: PalCharacterContainerView)
    requires
        character_container_ok(v),
    ensures
        parse_character_container(ser_character_container(v)) == Some(v),
{
    let t = ser_opt_bytes(v.trailing_bytes);
    assert(ser_character_container(v) =~= ser_guid(v.player_uid) + (ser_guid(v.instance_id) + (seq![v.permission_tribe_id] + t)));
}

/// A character container slot against its bytes: the player's GUID
/// (0..16), the character's instance id (16..32), the permission tribe
/// (byte 32), and any bytes after it.
pub proof fn lemma_character_container_layout(s: Seq<u8>)
    requires
        parse_character_container(s) is Some,
    ensures
        ({
            let v = parse_character_container(s)->0;
            &&& ser_guid(v.player_uid) == s.subrange(0, 16)
            &&& ser_guid(v.instance_id) == s.subrange(16, 32)
            &&& v.permission_tribe_id == s[32]
            &&& v.trailing_bytes == (if s.len() > 33 { Some(s.skip(33)) } else { None::<Seq<u8>> })
        }),
{
    lemma_guid_at(s, 0);
    lemma_guid_at(s, 16);
    assert(s.skip(0) =~= s);
    assert(s.skip(16).skip(16) =~= s.skip(32));
    assert(s.skip(16).skip(16).skip(1) =~= s.skip(33));
}

/// Character data against its bytes, after its property list of `n` bytes:
/// with 24 bytes or more left, four bytes, the group id, four bytes; with
/// fewer, the group id alone.
pub proof fn lemma_character_data_layout(s: Seq<u8>)
    requires
        parse_character_data(s) is Some,
    ensures
        ({
            let v = (parse_character_data(s)->0).0;
            let n = (parse_properties(s)->0).1;
            &&& v.object == (parse_properties(s)->0).0
            &&& if s.len() - n >= 24 {
                &&& v.unknown_bytes == Some(s.subrange(n, n + 4))
                &&& ser_guid(v.group_id) == s.subrange(n + 4, n + 20)
                &&& v.trailing_bytes == Some(s.subrange(n + 20, n + 24))
            } else {
                &&& v.unknown_bytes is None
                &&& ser_guid(v.group_id) == s.subrange(n, n + 16)
                &&& v.trailing_bytes is None
            }
        }),
{
    crate::properties::lemma_properties_bounds(s);
    let n = (parse_properties(s)->0).1;
    let t = s.skip(n);
    if t.len() >= 24 {
        lemma_guid_at(s, n + 4);
        assert(t.skip(4) =~= s.skip(n + 4));
        assert(t.take(4) =~= s.subrange(n, n + 4));
        assert(t.skip(4).skip(16).take(4) =~= s.subrange(n + 20, n + 24));
    } else {
        lemma_guid_at(s, n);
    }
}

} // verus!

use uesave::bytes::Reader;
use uesave::error::Error;
use uesave::palworld::embedded::{process_property_for_read, read_pal_struct};
use uesave::palworld::groups::PalGroupData;
use uesave::palworld::map_concrete_model_module::PalMapConcreteModelModule;
use uesave::palworld::types::{PalItemId, PalPlayerInfo};
use uesave::properties::Properties;
use uesave::struct_types::StructType;

/// A wide string of one unit, a lone high surrogate, then its terminator.
const BAD_WIDE: [u8; 8] = [0xfe, 0xff, 0xff, 0xff, 0x00, 0xd8, 0, 0];

fn ascii(s: &str) -> Vec<u8> {
    let mut out = ((s.len() + 1) as u32).to_le_bytes().to_vec();
    out.extend_from_slice(s.as_bytes());
    out.push(0);
    out
}

#[test]
fn item_id_with_a_bad_wide_string() {
    let mut data = BAD_WIDE.to_vec();
    data.extend_from_slice(&[0; 32]);
    let mut r = Reader::new(&data);
    assert_eq!(PalItemId::read(&mut r), Err(Error::InvalidUtf16));
}

#[test]
fn item_id_short_of_its_dynamic_id() {
    let mut data = ascii("Stone");
    data.extend_from_slice(&[0; 31]);
    let mut r = Reader::new(&data);
    assert_eq!(PalItemId::read(&mut r), Err(Error::UnexpectedEof));
}

#[test]
fn player_name_that_is_not_utf16() {
    let mut data = vec![0u8; 24];
    data.extend_from_slice(&BAD_WIDE);
    let mut r = Reader::new(&data);
    assert_eq!(PalPlayerInfo::read(&mut r), Err(Error::InvalidUtf16));
    let mut r = Reader::new(&data[..20]);
    assert_eq!(PalPlayerInfo::read(&mut r), Err(Error::UnexpectedEof));
}

#[test]
fn group_name_errors() {
    let mut data = vec![7u8; 16];
    data.extend_from_slice(&BAD_WIDE);
    let mut r = Reader::new(&data);
    assert_eq!(PalGroupData::read(&mut r), Err(Error::InvalidUtf16));
    let mut data = vec![7u8; 16];
    data.extend_from_slice(&ascii("G"));
    data.extend_from_slice(&[1, 0, 0, 0]);
    data.extend_from_slice(&[0; 31]);
    let mut r = Reader::new(&data);
    assert_eq!(PalGroupData::read(&mut r), Err(Error::UnexpectedEof));
}

#[test]
fn property_type_that_is_not_utf16() {
    let mut data = ascii("Level");
    data.extend_from_slice(&BAD_WIDE);
    let mut r = Reader::new(&data);
    assert_eq!(Properties::read(&mut r), Err(Error::InvalidUtf16));
}

#[test]
fn second_property_error_is_reported() {
    let mut data = ascii("Level");
    data.extend_from_slice(&ascii("IntProperty"));
    data.extend_from_slice(&4u32.to_le_bytes());
    data.extend_from_slice(&0i32.to_le_bytes());
    data.push(0);
    data.extend_from_slice(&12i32.to_le_bytes());
    data.extend_from_slice(&BAD_WIDE);
    let mut r = Reader::new(&data);
    assert_eq!(Properties::read(&mut r), Err(Error::InvalidUtf16));
}

#[test]
fn guild_lab_research_id_errors() {
    let mut data = 1u32.to_le_bytes().to_vec();
    data.extend_from_slice(&BAD_WIDE);
    assert_eq!(read_pal_struct(&data, &StructType::PalGuildLab), Err(Error::InvalidUtf16));
    let mut data = 0u32.to_le_bytes().to_vec();
    data.extend_from_slice(&BAD_WIDE);
    assert_eq!(read_pal_struct(&data, &StructType::PalGuildLab), Err(Error::InvalidUtf16));
    let data = 2u32.to_le_bytes().to_vec();
    assert_eq!(read_pal_struct(&data, &StructType::PalGuildLab), Err(Error::UnexpectedEof));
}

#[test]
fn password_lock_with_a_bad_password() {
    let mut data = vec![1u8];
    data.extend_from_slice(&BAD_WIDE);
    let t = "EPalMapObjectConcreteModelModuleType::PasswordLock";
    assert_eq!(
        PalMapConcreteModelModule::read_with_module_type(&data, t, Vec::new()),
        Err(Error::InvalidUtf16)
    );
    let mut data = vec![1u8];
    data.extend_from_slice(&ascii("1234"));
    assert_eq!(
        PalMapConcreteModelModule::read_with_module_type(&data, t, Vec::new()),
        Err(Error::UnexpectedEof)
    );
}

#[test]
fn failed_embedded_read_passes_its_error_on() {
    let mut data = vec![0u8; 16];
    data.extend_from_slice(&BAD_WIDE);
    assert_eq!(
        process_property_for_read(Some(&StructType::PalGroupData), "a.b", Some(&data), None, false),
        Err(Error::InvalidUtf16)
    );
    assert_eq!(
        process_property_for_read(Some(&StructType::PalBuildProcess), "a.b", Some(&[0u8; 30]), None, false),
        Err(Error::TrailingData)
    );
}

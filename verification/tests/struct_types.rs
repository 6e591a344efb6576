use uesave::error::Error;
use uesave::palworld::{build_types, is_pal_struct_type, palworld_types};
use uesave::struct_types::{parse_type, StructType, Types};

#[test]
fn type_names() {
    assert_eq!(StructType::from_name("Guid"), StructType::Guid);
    assert_eq!(StructType::from_name("Struct"), StructType::Struct(None));
    assert_eq!(StructType::from_name("Vector"), StructType::Struct(Some("Vector".to_string())));
}

#[test]
fn parse_type_splits_at_the_last_equals_sign() {
    assert_eq!(
        parse_type(".UnlockedItemSkins.Skins=Guid"),
        Ok((".UnlockedItemSkins.Skins".to_string(), StructType::Guid))
    );
    assert_eq!(
        parse_type(".EnemiesKilled.Value=Struct"),
        Ok((".EnemiesKilled.Value".to_string(), StructType::Struct(None)))
    );
    assert_eq!(parse_type("a=b=Guid"), Ok(("a=b".to_string(), StructType::Guid)));
    assert_eq!(parse_type("a=Weird"), Ok(("a".to_string(), StructType::Struct(Some("Weird".to_string())))));
    assert_eq!(parse_type("é=Guid"), Ok(("é".to_string(), StructType::Guid)));
    assert_eq!(parse_type("x="), Ok(("x".to_string(), StructType::Struct(Some(String::new())))));
}

#[test]
fn parse_type_without_equals_sign_fails() {
    assert_eq!(parse_type("NoEquals"), Err(Error::MalformedType));
    assert_eq!(parse_type(""), Err(Error::MalformedType));
}

#[test]
fn later_hints_replace_earlier_ones() {
    let mut t = Types::new();
    assert!(t.get("a").is_none());
    t.add("a".to_string(), StructType::Guid);
    t.add("b".to_string(), StructType::Struct(None));
    t.add("a".to_string(), StructType::PalWork);
    assert_eq!(t.get("a"), Some(&StructType::PalWork));
    assert_eq!(t.get("b"), Some(&StructType::Struct(None)));
    assert!(t.get("c").is_none());
}

#[test]
fn palworld_hints() {
    let t = palworld_types();
    assert_eq!(t.get("worldSaveData.MapObjectSaveData"), Some(&StructType::Struct(None)));
    assert_eq!(t.get("worldSaveData.BaseCampSaveData.Key"), Some(&StructType::Guid));
    assert_eq!(t.get("worldSaveData.CharacterSaveParameterMap.RawData"), Some(&StructType::PalCharacterData));
    assert_eq!(t.get("worldSaveData.WorkSaveData"), Some(&StructType::PalWork));
    assert_eq!(t.get("worldSaveData.DynamicItemSaveData.RawData"), Some(&StructType::PalDynamicItem));
    assert_eq!(t.get("worldSaveData.GuildExtraSaveDataMap.Lab.RawData"), Some(&StructType::PalGuildLab));
    assert!(t.get("worldSaveData.Unknown").is_none());
}

#[test]
fn overrides_go_on_top() {
    let t = build_types(
        true,
        vec![
            ("worldSaveData.BaseCampSaveData.Key".to_string(), StructType::Struct(None)),
            ("x.y".to_string(), StructType::Guid),
        ],
    );
    assert_eq!(t.get("worldSaveData.BaseCampSaveData.Key"), Some(&StructType::Struct(None)));
    assert_eq!(t.get("x.y"), Some(&StructType::Guid));
    assert_eq!(t.get("worldSaveData.WorkSaveData"), Some(&StructType::PalWork));

    let plain = build_types(false, vec![("x.y".to_string(), StructType::Guid)]);
    assert!(plain.get("worldSaveData.WorkSaveData").is_none());
    assert_eq!(plain.get("x.y"), Some(&StructType::Guid));
}

#[test]
fn pal_struct_types() {
    assert!(is_pal_struct_type(&StructType::PalCharacterData));
    assert!(is_pal_struct_type(&StructType::PalMapConcreteModelModule));
    assert!(!is_pal_struct_type(&StructType::PalWorkAssign));
    assert!(!is_pal_struct_type(&StructType::Guid));
    assert!(!is_pal_struct_type(&StructType::Struct(None)));
}

#[test]
fn duplicate_copies() {
    let t = StructType::Struct(Some("Name".to_string()));
    assert_eq!(t.duplicate(), t);
}

use std::collections::HashMap;

use gw2lib::characters::Profession as Playable;
use gw2lib::professions::Profession;
use gw2lib::skills::skill_schema;
use gw2lib::specializations::Specialization;

#[test]
fn specialization_id_and_schema() {
    let s = Specialization {
        id: 72,
        name: "Untamed".to_string(),
        profession: Playable::Ranger,
        elite: true,
        icon: String::new(),
        background: String::new(),
        minor_traits: vec![1, 2, 3],
        major_traits: vec![],
    };
    assert_eq!(*s.id(), 72);
    let schema = Specialization::schema();
    assert_eq!(schema.path, "v2/specializations");
    assert!(schema.locale && schema.supports_all && !schema.authenticated);
}

#[test]
fn profession_id_and_schema() {
    let p = Profession {
        id: "Guardian".to_string(),
        name: "Guardian".to_string(),
        code: Some(1),
        icon: String::new(),
        icon_big: String::new(),
        specializations: vec![13, 16],
        training: vec![],
        weapons: HashMap::new(),
        flags: vec![],
        skills_by_palette: None,
        skills: vec![],
    };
    assert_eq!(p.id(), "Guardian");
    assert_eq!(Profession::schema().path, "v2/professions");
    assert_eq!(skill_schema().path, "v2/skills");
}

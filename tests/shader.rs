use learn_opengl::shader::{
    ShaderType, TextureError, TextureIndex, TextureSlots, TEXTURE_SLOTS, TEXTURE_UNIT_BASE,
};

#[test]
fn index_round_trips() {
    for i in 0..TEXTURE_SLOTS {
        let t = TextureIndex::from_index(i).unwrap();
        assert_eq!(t.index(), i);
    }
    assert!(TextureIndex::from_index(TEXTURE_SLOTS).is_none());
    assert!(TextureIndex::from_index(usize::MAX).is_none());
}

#[test]
fn texture_units_follow_unit_zero() {
    assert_eq!(TEXTURE_UNIT_BASE, 0x84C0);
    assert_eq!(TextureIndex::Index0.texture_unit(), 0x84C0);
    assert_eq!(TextureIndex::Index1.texture_unit(), 0x84C1);
    assert_eq!(TextureIndex::Index15.texture_unit(), 0x84CF);
}

#[test]
fn shader_kinds() {
    assert_eq!(ShaderType::VertexShader.gl_kind(), 0x8B31);
    assert_eq!(ShaderType::FragmentShader.gl_kind(), 0x8B30);
}

#[test]
fn new_table_is_empty() {
    let slots: TextureSlots<u32> = TextureSlots::new();
    assert!(slots.occupied().is_empty());
    for i in 0..TEXTURE_SLOTS {
        assert!(slots.get(TextureIndex::from_index(i).unwrap()).is_none());
    }
}

#[test]
fn add_to_free_unit() {
    let mut slots: TextureSlots<&str> = TextureSlots::new();
    assert_eq!(slots.add_texture("diffuse", TextureIndex::Index0), Ok(()));
    assert_eq!(slots.get(TextureIndex::Index0), Some(&"diffuse"));
    assert!(slots.get(TextureIndex::Index1).is_none());
}

#[test]
fn add_to_taken_unit_fails_and_keeps_first() {
    let mut slots: TextureSlots<&str> = TextureSlots::new();
    assert_eq!(slots.add_texture("diffuse", TextureIndex::Index1), Ok(()));
    assert_eq!(
        slots.add_texture("specular", TextureIndex::Index1),
        Err(TextureError::TextureIndexTaken { index: TextureIndex::Index1 })
    );
    assert_eq!(slots.get(TextureIndex::Index1), Some(&"diffuse"));
    assert_eq!(slots.occupied(), vec![TextureIndex::Index1]);
}

#[test]
fn occupied_units_in_increasing_order() {
    let mut slots: TextureSlots<u8> = TextureSlots::new();
    assert_eq!(slots.add_texture(15, TextureIndex::Index15), Ok(()));
    assert_eq!(slots.add_texture(3, TextureIndex::Index3), Ok(()));
    assert_eq!(slots.add_texture(0, TextureIndex::Index0), Ok(()));
    assert_eq!(
        slots.occupied(),
        vec![TextureIndex::Index0, TextureIndex::Index3, TextureIndex::Index15]
    );
}

#[test]
fn every_unit_can_be_filled() {
    let mut slots: TextureSlots<usize> = TextureSlots::new();
    for i in 0..TEXTURE_SLOTS {
        assert_eq!(slots.add_texture(i, TextureIndex::from_index(i).unwrap()), Ok(()));
    }
    let occupied = slots.occupied();
    assert_eq!(occupied.len(), TEXTURE_SLOTS);
    for (i, t) in occupied.iter().enumerate() {
        assert_eq!(t.index(), i);
        assert_eq!(slots.get(*t), Some(&i));
    }
}

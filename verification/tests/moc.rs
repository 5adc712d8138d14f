use cubism::error::CubismError;
use cubism::mdl::moc::{Moc, RawParameter};

fn ids(names: &[&str]) -> Vec<Vec<u8>> {
    names.iter().map(|n| n.as_bytes().to_vec()).collect()
}

fn parameter(id: &str, default: f32, max: f32, min: f32) -> RawParameter {
    RawParameter {
        id: id.as_bytes().to_vec(),
        default: default.to_bits(),
        max: max.to_bits(),
        min: min.to_bits(),
    }
}

fn revived(size: usize) -> Moc {
    let mem = Moc::stage(&vec![7u8; size]).unwrap();
    let address = mem.as_ptr();
    Moc::new(mem, address).unwrap()
}

#[test]
fn sixteen_zero_bytes_are_rejected() {
    // The runtime does not accept sixteen zero bytes as a moc: it returns null.
    let mem = Moc::stage(&[0u8; 16]).unwrap();
    assert_eq!(Moc::revive_size(&mem), 16);
    assert_eq!(mem.as_ptr() % 64, 0);
    let r = Moc::new(mem, 0);
    assert!(matches!(r, Err(CubismError::VendorRejected)));
}

#[test]
fn a_revived_moc_has_no_ids_yet() {
    let mem = Moc::stage(&[1u8, 2, 3, 4, 5]).unwrap();
    let address = mem.as_ptr();
    let mut moc = Moc::new(mem, address).unwrap();
    assert_eq!(moc.as_ptr(), address);
    assert_eq!(moc.as_mut_ptr(), address);
    assert_eq!(moc.as_ptr() % 64, 0);
    assert!(!moc.is_populated());
    assert_eq!(moc.parameter_count(), 0);
    assert_eq!(moc.part_count(), 0);
    assert_eq!(moc.drawable_count(), 0);
    assert!(moc.parameter_ids().is_empty());
    assert!(moc.part_ids().is_empty());
    assert!(moc.drawable_ids().is_empty());
    assert!(moc.parameter_default().is_empty());
    assert!(moc.parameter_max().is_empty());
    assert!(moc.parameter_min().is_empty());
}

#[test]
fn any_address_but_null_counts_as_revived() {
    let mem = Moc::stage(&[0u8; 64]).unwrap();
    assert!(Moc::new(mem, 1).is_ok());
    let mem = Moc::stage(&[0u8; 64]).unwrap();
    assert!(Moc::new(mem, usize::MAX).is_ok());
}

#[test]
fn init_id_vec_decodes_every_id() {
    let decoded = Moc::init_id_vec(&ids(&["ParamAngleX", "", "目", "Part 01"])).unwrap();
    assert_eq!(decoded, vec!["ParamAngleX", "", "目", "Part 01"]);
    let decoded = Moc::init_id_vec(&Vec::new()).unwrap();
    assert!(decoded.is_empty());
}

#[test]
fn init_id_vec_rejects_bytes_that_are_not_text() {
    let mut raw = ids(&["ParamAngleX", "ParamAngleY"]);
    raw.push(vec![b'P', 0xff, b'a']);
    raw.push(b"ParamEyeLOpen".to_vec());
    assert!(matches!(Moc::init_id_vec(&raw), Err(CubismError::InvalidId(_))));
    // A sequence that is cut short is not text either.
    let raw = vec![vec![0xe7, 0x9b]];
    assert!(matches!(Moc::init_id_vec(&raw), Err(CubismError::InvalidId(_))));
    // Nor is an overlong encoding, nor a surrogate.
    let raw = vec![vec![0xc0, 0x80]];
    assert!(matches!(Moc::init_id_vec(&raw), Err(CubismError::InvalidId(_))));
    let raw = vec![vec![0xed, 0xa0, 0x80]];
    assert!(matches!(Moc::init_id_vec(&raw), Err(CubismError::InvalidId(_))));
}

#[test]
fn init_id_vec_reports_where_the_text_ends() {
    let raw = vec![b"abc".to_vec(), vec![b'o', b'k', 0x80, b'x']];
    match Moc::init_id_vec(&raw) {
        Err(CubismError::InvalidId(e)) => assert_eq!(e.valid_up_to(), 2),
        other => panic!("unexpected result {:?}", other),
    }
}

#[test]
fn init_ids_fills_in_ids_and_bounds() {
    let mut moc = revived(128);
    let parameters = vec![
        parameter("ParamAngleX", 0.0, 30.0, -30.0),
        parameter("ParamAngleY", 0.0, 30.0, -30.0),
        parameter("ParamEyeLOpen", 1.0, 1.0, 0.0),
    ];
    let r = moc.init_ids(&parameters, &ids(&["PartA", "PartB"]), &ids(&["D0", "D1", "D2", "D3"]));
    assert!(r.is_ok());
    assert!(moc.is_populated());
    assert_eq!(moc.parameter_count(), 3);
    assert_eq!(moc.part_count(), 2);
    assert_eq!(moc.drawable_count(), 4);
    assert_eq!(moc.parameter_ids(), ["ParamAngleX", "ParamAngleY", "ParamEyeLOpen"]);
    assert_eq!(moc.part_ids(), ["PartA", "PartB"]);
    assert_eq!(moc.drawable_ids(), ["D0", "D1", "D2", "D3"]);
    assert_eq!(moc.parameter_default(), [0.0f32.to_bits(), 0.0f32.to_bits(), 1.0f32.to_bits()]);
    assert_eq!(moc.parameter_max(), [30.0f32.to_bits(), 30.0f32.to_bits(), 1.0f32.to_bits()]);
    assert_eq!(
        moc.parameter_min(),
        [(-30.0f32).to_bits(), (-30.0f32).to_bits(), 0.0f32.to_bits()]
    );
    assert_eq!(f32::from_bits(moc.parameter_min()[0]), -30.0);
    assert_eq!(moc.parameter_max().len(), moc.parameter_count());
    assert_eq!(moc.parameter_min().len(), moc.parameter_count());
    assert_eq!(moc.parameter_default().len(), moc.parameter_count());
}

#[test]
fn init_ids_of_an_empty_moc() {
    let mut moc = revived(8);
    assert!(moc.init_ids(&Vec::new(), &Vec::new(), &Vec::new()).is_ok());
    assert!(moc.is_populated());
    assert_eq!(moc.parameter_count(), 0);
    assert_eq!(moc.part_count(), 0);
    assert_eq!(moc.drawable_count(), 0);
}

#[test]
fn init_ids_leaves_the_moc_alone_when_an_id_is_invalid() {
    let good = vec![parameter("ParamAngleX", 0.0, 30.0, -30.0)];
    let bad_parameter = vec![RawParameter { id: vec![0xff], default: 0, max: 0, min: 0 }];
    let bad = vec![vec![0xc3u8]];

    let mut moc = revived(32);
    let r = moc.init_ids(&bad_parameter, &ids(&["PartA"]), &ids(&["D0"]));
    assert!(matches!(r, Err(CubismError::InvalidId(_))));
    assert!(!moc.is_populated());
    assert_eq!(moc.parameter_count(), 0);
    assert_eq!(moc.part_count(), 0);
    assert_eq!(moc.drawable_count(), 0);

    let r = moc.init_ids(&good, &bad, &ids(&["D0"]));
    assert!(matches!(r, Err(CubismError::InvalidId(_))));
    assert!(!moc.is_populated());
    assert_eq!(moc.parameter_count(), 0);
    assert!(moc.parameter_default().is_empty());

    let r = moc.init_ids(&good, &ids(&["PartA"]), &bad);
    assert!(matches!(r, Err(CubismError::InvalidId(_))));
    assert!(!moc.is_populated());
    assert_eq!(moc.part_count(), 0);

    // After the failures the moc can still be populated.
    assert!(moc.init_ids(&good, &ids(&["PartA"]), &ids(&["D0"])).is_ok());
    assert!(moc.is_populated());
    assert_eq!(moc.parameter_ids(), ["ParamAngleX"]);
}

#[test]
fn stage_model_allocates_at_the_alignment_of_a_model() {
    let moc = revived(100);
    for size in [0u32, 1, 16, 100, 4096, 65_536] {
        let mem = moc.stage_model(size).unwrap();
        assert_eq!(mem.as_ptr() % 16, 0);
        assert_eq!(mem.layout().size(), size as usize);
        assert_eq!(mem.layout().align(), 16);
    }
}

#[test]
fn init_new_model_rejects_a_null_model() {
    let moc = revived(100);
    let mem = moc.stage_model(256).unwrap();
    assert!(matches!(moc.init_new_model(mem, 0), Err(CubismError::VendorRejected)));
}

#[test]
fn init_new_model_hands_the_arena_on() {
    let moc = revived(100);
    let mem = moc.stage_model(256).unwrap();
    let address = mem.as_ptr();
    let mem = moc.init_new_model(mem, address).unwrap();
    assert_eq!(mem.as_ptr(), address);
    assert_eq!(mem.layout().size(), 256);
}

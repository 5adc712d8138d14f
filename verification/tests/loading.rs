use cubism::error::CubismError;
use cubism::flags::{ConstantFlags, DynamicFlags};
use cubism::mdl::drawables::Drawables;
use cubism::mdl::loading::{Loading, Progress, Reply, Request};
use cubism::mdl::moc::RawParameter;
use cubism::mdl::model::{InstanceData, Model, ModelState};

fn bits(values: &[f32]) -> Vec<u32> {
    values.iter().map(|v| v.to_bits()).collect()
}

fn drawables(n: usize) -> Drawables {
    Drawables {
        render_orders: (0..n as i32).collect(),
        draw_orders: vec![500; n],
        texture_indices: vec![0; n],
        opacities: vec![1.0f32.to_bits(); n],
        constant_flags: vec![ConstantFlags::empty(); n],
        dynamic_flags: vec![DynamicFlags::visible(); n],
        index_counts: vec![3; n],
        indices: vec![vec![0, 1, 2]; n],
        vertex_counts: vec![3; n],
        vertex_positions: vec![vec![(0, 0), (1, 0), (0, 1)]; n],
        vertex_uvs: vec![vec![(0, 0), (1, 0), (0, 1)]; n],
        mask_counts: vec![1; n],
        masks: vec![vec![0]; n],
    }
}

/// A runtime that accepts every moc, with five parameters, two parts and ten
/// drawables in each.
fn answer(request: Request) -> Reply {
    match request {
        Request::Revive { address, .. } => Reply::Address(address),
        Request::SizeofModel { .. } => Reply::Size(2048),
        Request::InitializeModel { address, .. } => Reply::Address(address),
        Request::ReadIds { .. } => Reply::Ids {
            parameters: (0..5)
                .map(|i| RawParameter {
                    id: format!("Param{}", i).into_bytes(),
                    default: 0.0f32.to_bits(),
                    max: (i as f32 + 1.0).to_bits(),
                    min: (-1.0f32).to_bits(),
                })
                .collect(),
            parts: vec![b"PartA".to_vec(), b"PartB".to_vec()],
            drawables: (0..10).map(|i| format!("ArtMesh{}", i).into_bytes()).collect(),
        },
        Request::ReadInstance { parameters, parts, drawables: n, .. } => {
            Reply::Instance(InstanceData {
                parameter_values: vec![0.0f32.to_bits(); parameters],
                part_opacities: vec![1.0f32.to_bits(); parts],
                canvas: ((1, 2), (3, 4), 5),
                drawables: drawables(n),
            })
        }
    }
}

fn run(mut loading: Loading, runtime: &dyn Fn(Request) -> Reply) -> Result<Model, CubismError> {
    loop {
        match {
        let request = loading.request();
        loading.advance(runtime(request))
    }? {
            Progress::Pending(next) => loading = next,
            Progress::Ready(model) => return Ok(model),
        }
    }
}

#[test]
fn a_model_is_loaded_in_five_steps() {
    let blob = vec![9u8; 300];
    let loading = Model::from_bytes(&blob).unwrap();
    let moc_address = match loading.request() {
        Request::Revive { address, size } => {
            assert_eq!(address % 64, 0);
            assert_eq!(size, 300);
            address
        }
        other => panic!("unexpected request {:?}", other),
    };
    let loading = match loading.advance(Reply::Address(moc_address)).unwrap() {
        Progress::Pending(next) => next,
        Progress::Ready(_) => panic!("too early"),
    };
    assert_eq!(loading.request(), Request::SizeofModel { moc: moc_address });
    let loading = match loading.advance(Reply::Size(1234)).unwrap() {
        Progress::Pending(next) => next,
        Progress::Ready(_) => panic!("too early"),
    };
    let model_address = match loading.request() {
        Request::InitializeModel { moc, address, size } => {
            assert_eq!(moc, moc_address);
            assert_eq!(address % 16, 0);
            assert_eq!(size, 1234);
            address
        }
        other => panic!("unexpected request {:?}", other),
    };
    let loading = match loading.advance(Reply::Address(model_address)).unwrap() {
        Progress::Pending(next) => next,
        Progress::Ready(_) => panic!("too early"),
    };
    // The ids are read through the model that was just built.
    assert_eq!(loading.request(), Request::ReadIds { model: model_address });
    let loading = match {
        let request = loading.request();
        loading.advance(answer(request))
    }.unwrap() {
        Progress::Pending(next) => next,
        Progress::Ready(_) => panic!("too early"),
    };
    assert_eq!(
        loading.request(),
        Request::ReadInstance { model: model_address, parameters: 5, parts: 2, drawables: 10 }
    );
    let model = match {
        let request = loading.request();
        loading.advance(answer(request))
    }.unwrap() {
        Progress::Pending(_) => panic!("too late"),
        Progress::Ready(model) => model,
    };
    assert_eq!(model.as_ptr(), model_address);
    assert_eq!(model.moc().as_ptr(), moc_address);
    assert_eq!(model.state(), ModelState::Constructed);
    assert_eq!(model.parameter_values().len(), 5);
    assert_eq!(model.part_opacities().len(), 2);
    assert_eq!(model.drawable_count(), 10);
    assert_eq!(model.parameter_ids(), ["Param0", "Param1", "Param2", "Param3", "Param4"]);
    assert_eq!(model.parameter_max(), bits(&[1.0, 2.0, 3.0, 4.0, 5.0]));
    assert_eq!(model.canvas_info(), ((1, 2), (3, 4), 5));
}

#[test]
fn a_blob_that_the_runtime_refuses_is_vendor_rejected() {
    let loading = Model::from_bytes(&[0u8; 16]).unwrap();
    assert!(matches!(loading.request(), Request::Revive { size: 16, .. }));
    let r = loading.advance(Reply::Address(0));
    assert!(matches!(r, Err(CubismError::VendorRejected)));
}

#[test]
fn a_model_that_the_runtime_refuses_is_vendor_rejected() {
    let refuse = |request: Request| match request {
        Request::InitializeModel { .. } => Reply::Address(0),
        other => answer(other),
    };
    let r = run(Model::from_bytes(&[1u8; 40]).unwrap(), &refuse);
    assert!(matches!(r, Err(CubismError::VendorRejected)));
}

#[test]
fn an_id_that_is_not_text_ends_the_loading() {
    let garbled = |request: Request| match request {
        Request::ReadIds { .. } => Reply::Ids {
            parameters: vec![RawParameter { id: b"ok".to_vec(), default: 0, max: 0, min: 0 }],
            parts: vec![vec![0x80]],
            drawables: Vec::new(),
        },
        other => answer(other),
    };
    let r = run(Model::from_bytes(&[1u8; 40]).unwrap(), &garbled);
    assert!(matches!(r, Err(CubismError::InvalidId(_))));
}

#[test]
fn a_state_that_does_not_fit_the_moc_ends_the_loading() {
    let short = |request: Request| match request {
        Request::ReadInstance { parameters, parts, drawables: n, .. } => {
            Reply::Instance(InstanceData {
                parameter_values: vec![0; parameters - 1],
                part_opacities: vec![0; parts],
                canvas: ((0, 0), (0, 0), 0),
                drawables: drawables(n),
            })
        }
        other => answer(other),
    };
    let r = run(Model::from_bytes(&[1u8; 40]).unwrap(), &short);
    assert!(matches!(r, Err(CubismError::Other(_))));
}

#[test]
fn an_answer_to_another_question_ends_the_loading() {
    let r = Model::from_bytes(&[1u8; 40]).unwrap().advance(Reply::Size(12));
    assert!(matches!(r, Err(CubismError::Other(_))));

    let loading = Model::from_bytes(&[1u8; 40]).unwrap();
    let loading = match loading.advance(Reply::Address(64)).unwrap() {
        Progress::Pending(next) => next,
        Progress::Ready(_) => panic!("too early"),
    };
    let r = loading.advance(Reply::Address(64));
    assert!(matches!(r, Err(CubismError::Other(_))));

    let model = run(Model::from_bytes(&[1u8; 40]).unwrap(), &answer).unwrap();
    let r = model.try_clone_from().advance(answer(Request::ReadIds { model: 16 }));
    assert!(matches!(r, Err(CubismError::Other(_))));
}

#[test]
fn a_clone_starts_with_the_values_of_its_source() {
    let mut source = run(Model::from_bytes(&[3u8; 64]).unwrap(), &answer).unwrap();
    source.set_parameter_value(0, 0.75f32.to_bits());
    source.set_parameter_value(4, (-2.0f32).to_bits());
    source.set_part_opacity(1, 0.5f32.to_bits());
    source.update(drawables(10)).unwrap();

    let cloning = source.try_clone_from();
    // The moc is not revived again and its ids are not read again.
    assert_eq!(cloning.request(), Request::SizeofModel { moc: source.moc().as_ptr() });
    let cloning = match cloning.advance(Reply::Size(2048)).unwrap() {
        Progress::Pending(next) => next,
        Progress::Ready(_) => panic!("too early"),
    };
    let address = match cloning.request() {
        Request::InitializeModel { moc, address, size } => {
            assert_eq!(moc, source.moc().as_ptr());
            assert_eq!(size, 2048);
            assert_eq!(address % 16, 0);
            address
        }
        other => panic!("unexpected request {:?}", other),
    };
    let cloning = match cloning.advance(Reply::Address(address)).unwrap() {
        Progress::Pending(next) => next,
        Progress::Ready(_) => panic!("too early"),
    };
    assert_eq!(
        cloning.request(),
        Request::ReadInstance { model: address, parameters: 5, parts: 2, drawables: 10 }
    );
    let mut clone = match {
        let request = cloning.request();
        cloning.advance(answer(request))
    }.unwrap() {
        Progress::Pending(_) => panic!("too late"),
        Progress::Ready(model) => model,
    };

    assert_eq!(clone.parameter_values(), bits(&[0.75, 0.0, 0.0, 0.0, -2.0]));
    assert_eq!(clone.part_opacities(), bits(&[1.0, 0.5]));
    assert_eq!(clone.parameter_values(), source.parameter_values());
    assert_eq!(clone.part_opacities(), source.part_opacities());
    assert_eq!(clone.moc().as_ptr(), source.moc().as_ptr());
    assert_ne!(clone.as_ptr(), source.as_ptr());
    assert_eq!(clone.state(), ModelState::Constructed);
    assert_eq!(source.state(), ModelState::Updated);

    // A write to the clone is no write to the source, and the other way round.
    clone.set_parameter_value(1, 9.0f32.to_bits());
    clone.part_opacities_mut()[0] = 0.0f32.to_bits();
    source.set_parameter_value(2, 4.0f32.to_bits());
    assert_eq!(clone.parameter_values(), bits(&[0.75, 9.0, 0.0, 0.0, -2.0]));
    assert_eq!(clone.part_opacities(), bits(&[0.0, 0.5]));
    assert_eq!(source.parameter_values(), bits(&[0.75, 0.0, 4.0, 0.0, -2.0]));
    assert_eq!(source.part_opacities(), bits(&[1.0, 0.5]));
}

#[test]
fn a_clone_takes_the_values_when_it_is_started() {
    let mut source = run(Model::from_bytes(&[3u8; 64]).unwrap(), &answer).unwrap();
    source.set_parameter_value(3, 0.5f32.to_bits());
    let cloning = source.try_clone_from();
    source.set_parameter_value(3, 0.9f32.to_bits());
    let clone = run(cloning, &answer).unwrap();
    assert_eq!(clone.parameter_values()[3], 0.5f32.to_bits());
    assert_eq!(source.parameter_values()[3], 0.9f32.to_bits());
}

#[test]
fn a_failed_clone_leaves_the_source_alone() {
    let mut source = run(Model::from_bytes(&[3u8; 64]).unwrap(), &answer).unwrap();
    source.set_parameter_value(0, 0.75f32.to_bits());
    let refuse = |request: Request| match request {
        Request::InitializeModel { .. } => Reply::Address(0),
        other => answer(other),
    };
    let r = run(source.try_clone_from(), &refuse);
    assert!(matches!(r, Err(CubismError::VendorRejected)));
    assert_eq!(source.parameter_values(), bits(&[0.75, 0.0, 0.0, 0.0, 0.0]));
    assert_eq!(source.drawable_count(), 10);
    assert_eq!(source.parameter_ids().len(), 5);
    // The moc outlives the failed clone and a dropped one.
    let clone = run(source.try_clone_from(), &answer).unwrap();
    drop(source);
    assert_eq!(clone.parameter_ids()[4], "Param4");
    assert_eq!(clone.moc().as_ptr() % 64, 0);
}

#[test]
fn another_model_of_a_moc_shares_the_moc_and_nothing_else() {
    let mut first = run(Model::from_bytes(&[3u8; 64]).unwrap(), &answer).unwrap();
    let loading = Model::from_existing_definition(first.shared_moc()).unwrap();
    // The moc is neither revived nor identified again.
    assert_eq!(loading.request(), Request::SizeofModel { moc: first.moc().as_ptr() });
    let mut second = run(loading, &answer).unwrap();
    assert_eq!(second.moc().as_ptr(), first.moc().as_ptr());
    assert_ne!(second.as_ptr(), first.as_ptr());
    assert_eq!(second.parameter_ids(), first.parameter_ids());

    first.set_parameter_value(0, 1.0f32.to_bits());
    first.parameter_values_mut()[1] = 2.0f32.to_bits();
    first.set_part_opacity(0, 0.25f32.to_bits());
    assert_eq!(first.parameter_values(), bits(&[1.0, 2.0, 0.0, 0.0, 0.0]));
    assert_eq!(second.parameter_values(), bits(&[0.0; 5]));
    assert_eq!(second.part_opacities(), bits(&[1.0, 1.0]));

    second.set_parameter_value(4, 3.0f32.to_bits());
    assert_eq!(first.parameter_values(), bits(&[1.0, 2.0, 0.0, 0.0, 0.0]));
    assert_eq!(second.parameter_values(), bits(&[0.0, 0.0, 0.0, 0.0, 3.0]));

    // The moc lives as long as one of its models does.
    drop(first);
    assert_eq!(second.parameter_ids().len(), 5);
    assert_eq!(second.parameter_index("Param3"), Some(3));
}

#[test]
fn a_moc_without_ids_is_no_definition() {
    let mem = cubism::Moc::stage(&[0u8; 32]).unwrap();
    let moc = cubism::Moc::new(mem, 64).unwrap();
    let r = Model::from_existing_definition(std::rc::Rc::new(moc));
    assert!(matches!(r, Err(CubismError::Other(_))));
}

#[test]
fn from_bytes_stages_the_bytes() {
    let loading = Model::from_bytes(&[5u8; 70_000]).unwrap();
    match loading.request() {
        Request::Revive { address, size } => {
            assert_eq!(address % 64, 0);
            assert_eq!(size, 70_000);
        }
        other => panic!("unexpected request {:?}", other),
    }
    let loading = Model::from_bytes(&[]).unwrap();
    assert!(matches!(loading.request(), Request::Revive { size: 0, .. }));
}

use canary_engine::action::{Action, Slot};
use canary_engine::engine::{CanaryConfig, CanaryEngine};
use canary_engine::loader::LoadedModels;
use canary_engine::slots::Slots;
use canary_engine::tensor::{FloatTensor, IntTensor};

const ALL: [Slot; 8] = [
    Slot::Waveforms,
    Slot::WaveformsLens,
    Slot::Features,
    Slot::FeaturesLens,
    Slot::EncoderEmbeddings,
    Slot::EncoderMask,
    Slot::InputIds,
    Slot::DecoderMems,
];

#[test]
fn slots_hold_what_was_put_last() {
    let mut slots: Slots<usize> = Slots::new();
    for slot in ALL {
        assert_eq!(slots.get(slot), None);
    }
    for (i, slot) in ALL.into_iter().enumerate() {
        slots.put(slot, i);
    }
    slots.put(Slot::InputIds, 100);
    for (i, slot) in ALL.into_iter().enumerate() {
        let expected = if slot == Slot::InputIds { 100 } else { i };
        assert_eq!(slots.get(slot), Some(&expected));
    }
}

#[test]
fn a_tensor_that_was_not_created_is_not_kept() {
    let mut slots: Slots<u8> = Slots::new();
    slots.keep(Slot::Features, Ok(1)).unwrap();
    let e = slots.keep(Slot::Features, Err(ort::Error::new("no"))).unwrap_err();
    assert_eq!(e.to_string(), "no");
    assert_eq!(slots.get(Slot::Features), Some(&1));
}

#[test]
fn every_run_finds_its_slots_filled() {
    let mut engine = CanaryEngine::new();
    engine
        .load_model(Ok(LoadedModels { preprocessor: 0, encoder: 1, decoder: 2, vocab: 3 }))
        .unwrap();
    let config = CanaryConfig { use_pnc: true, max_sequence_length: 3 };
    let mut t = engine.transcribe(vec![7], None, None, &config).unwrap();
    let mut slots: Slots<String> = Slots::new();
    let mut runs = 0;
    loop {
        match t.action() {
            Action::CreateFloat { slot, floats } => {
                slots.put(slot, format!("{:?}{:?}", floats.shape, floats.bits));
                t.on_created(Ok(())).unwrap();
            }
            Action::CreateInt { slot, ints } => {
                slots.put(slot, format!("{:?}{:?}", ints.shape, ints.data));
                t.on_created(Ok(())).unwrap();
            }
            Action::CreateEmpty { slot, shape } => {
                slots.put(slot, format!("{:?}", shape));
                t.on_created(Ok(())).unwrap();
            }
            Action::Run { inputs, .. } => {
                let found: Vec<&String> =
                    inputs.iter().map(|b| slots.get(b.slot).unwrap()).collect();
                let expected: Vec<&str> = match runs {
                    0 => vec!["[1, 1][7]", "[1][1]"],
                    1 => vec!["[1, 1, 1][9]", "[1][5]"],
                    2 => vec!["[1, 1][40]", "[1, 1, 1][9]", "[1][5]", "[2, 1, 0, 4]"],
                    _ => vec!["[1, 1][0]", "[1, 1, 1][9]", "[1][5]", "[1, 1, 1][9]"],
                };
                assert_eq!(found, expected);
                runs += 1;
                t.on_run(Ok(())).unwrap();
            }
            Action::ReadFloat { .. } => {
                t.on_float(Ok(FloatTensor { shape: vec![1, 1, 1], bits: vec![9] })).unwrap();
            }
            Action::ReadInt { .. } => {
                t.on_int(Ok(IntTensor { shape: vec![1], data: vec![5] })).unwrap();
            }
            Action::BuildPrompt { .. } => t.on_prompt(Ok((vec![40], 1))).unwrap(),
            Action::InspectDecoder => t.on_decoder_shape(Ok((2, 4))).unwrap(),
            Action::Detokenize { .. } => break,
            Action::Stopped => panic!("nothing has failed"),
        }
    }
    assert_eq!(runs, 5);
}

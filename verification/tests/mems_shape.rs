use canary_engine::decoder::decoder_mems_shape;
use canary_engine::runtime::{describe_inputs, InputInfo, InputKind};
use ort::session::Input;
use ort::tensor::{Shape, SymbolicDimensions, TensorElementType};
use ort::value::ValueType;

fn tensor(name: &str, dims: &[i64]) -> InputInfo {
    InputInfo { name: name.to_string(), kind: InputKind::Tensor(dims.to_vec()) }
}

fn message(inputs: Vec<InputInfo>) -> String {
    decoder_mems_shape(&inputs).unwrap_err().to_string()
}

fn ort_tensor(name: &str, dims: &[i64]) -> Input {
    Input {
        name: name.to_string(),
        input_type: ValueType::Tensor {
            ty: TensorElementType::Float32,
            shape: Shape::new(dims.iter().copied()),
            dimension_symbols: SymbolicDimensions::empty(dims.len()),
        },
    }
}

#[test]
fn fixed_dimensions_are_read() {
    let inputs = vec![tensor("input_ids", &[-1, -1]), tensor("decoder_mems", &[10, -1, -1, 1024])];
    assert_eq!(decoder_mems_shape(&inputs).unwrap(), (10, 1024));
}

#[test]
fn the_first_input_of_the_name_decides() {
    let inputs = vec![tensor("decoder_mems", &[1, 2, 3, 4]), tensor("decoder_mems", &[5, 6, 7, 8])];
    assert_eq!(decoder_mems_shape(&inputs).unwrap(), (1, 4));
}

#[test]
fn a_missing_input_is_an_error() {
    let expected = "Inference error: Decoder model missing 'decoder_mems' input";
    assert_eq!(message(vec![]), expected);
    assert_eq!(message(vec![tensor("decoder_mem", &[1, 1, 1, 1])]), expected);
}

#[test]
fn four_dimensions_are_expected() {
    assert_eq!(
        message(vec![tensor("decoder_mems", &[10, -1, 1024])]),
        "Inference error: Expected 4D decoder_mems, got 3D"
    );
    assert_eq!(
        message(vec![tensor("decoder_mems", &[1; 12])]),
        "Inference error: Expected 4D decoder_mems, got 12D"
    );
}

#[test]
fn dynamic_dimensions_are_an_error() {
    assert_eq!(
        message(vec![tensor("decoder_mems", &[-1, -1, -1, 1024])]),
        "Inference error: decoder_mems has dynamic num_layers (-1) or hidden_dim (1024); expected fixed"
    );
    assert_eq!(
        message(vec![tensor("decoder_mems", &[10, 1, 1, 0])]),
        "Inference error: decoder_mems has dynamic num_layers (10) or hidden_dim (0); expected fixed"
    );
}

#[test]
fn other_types_are_an_error() {
    let inputs = vec![InputInfo {
        name: "decoder_mems".to_string(),
        kind: InputKind::Other("Sequence(..)".to_string()),
    }];
    assert_eq!(
        message(inputs),
        "Inference error: decoder_mems input is not a tensor: Sequence(..)"
    );
}

#[test]
fn runtime_inputs_are_described() {
    let map = ValueType::Map { key: TensorElementType::Int64, value: TensorElementType::Float32 };
    let debug_text = format!("{:?}", map);
    let inputs = vec![
        ort_tensor("input_ids", &[-1, -1]),
        ort_tensor("decoder_mems", &[10, -1, -1, 1024]),
        Input { name: "extra".to_string(), input_type: map },
    ];
    let infos = describe_inputs(&inputs);
    assert_eq!(infos.len(), 3);
    assert_eq!(infos[0].name, "input_ids");
    assert!(matches!(&infos[0].kind, InputKind::Tensor(d) if *d == vec![-1, -1]));
    assert_eq!(infos[1].name, "decoder_mems");
    assert!(matches!(&infos[1].kind, InputKind::Tensor(d) if *d == vec![10, -1, -1, 1024]));
    assert_eq!(infos[2].name, "extra");
    assert!(matches!(&infos[2].kind, InputKind::Other(t) if *t == debug_text));
    assert_eq!(decoder_mems_shape(&infos).unwrap(), (10, 1024));
}

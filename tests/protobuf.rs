use std::collections::HashMap;
use tfrecord::protobuf::feature::Kind;
use tfrecord::protobuf::{BytesList, Example, Feature, Features, FloatList};

#[test]
fn example_holds_features() {
    assert_eq!(Example::default().features, None);
    let mut feature = HashMap::new();
    feature.insert(
        "label".to_string(),
        Feature { kind: Some(Kind::BytesList(BytesList { value: vec![b"cat".to_vec()] })) },
    );
    feature.insert(
        "score".to_string(),
        Feature { kind: Some(Kind::FloatList(FloatList { value: vec![1.5f32.to_bits()] })) },
    );
    let example = Example { features: Some(Features { feature }) };
    let features = example.features.as_ref().unwrap();
    assert_eq!(features.feature.len(), 2);
    match &features.feature["score"].kind {
        Some(Kind::FloatList(list)) => assert_eq!(f32::from_bits(list.value[0]), 1.5),
        _ => panic!("score is a float list"),
    }
}

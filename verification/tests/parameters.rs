use usercamera_pose::parameters::{
    encode_value, parameter_path_segments, select_value, EncodedArgument, JsonNumber,
    OscQueryType, RequestValue, SendError, ValueSelection,
};
use vrchat_osc::models::{OscNode, OscValue};

#[test]
fn encodes_values_using_the_parameter_type() {
    let float = encode_value(Some(OscQueryType::Float32), RequestValue::Number(JsonNumber::PosInt(1)));
    assert!(matches!(
        float,
        Ok(EncodedArgument::FloatFrom(JsonNumber::PosInt(value))) if value as f64 as f32 == 1.0
    ));
    assert!(matches!(
        encode_value(Some(OscQueryType::True), RequestValue::Bool(true)),
        Ok(EncodedArgument::Bool(true))
    ));
}

#[test]
fn rejects_a_value_that_does_not_match_the_parameter_type() {
    assert!(matches!(
        encode_value(
            Some(OscQueryType::Int32),
            RequestValue::Number(JsonNumber::Float(1.5f64.to_bits()))
        ),
        Err(SendError::InvalidValue("a 32-bit integer"))
    ));
}

#[test]
fn encodes_integers_only_within_32_bits() {
    assert!(matches!(
        encode_value(Some(OscQueryType::Int32), RequestValue::Number(JsonNumber::NegInt(-7))),
        Ok(EncodedArgument::Int(-7))
    ));
    assert!(matches!(
        encode_value(Some(OscQueryType::Int32), RequestValue::Number(JsonNumber::PosInt(2147483647))),
        Ok(EncodedArgument::Int(2147483647))
    ));
    assert!(matches!(
        encode_value(Some(OscQueryType::Int32), RequestValue::Number(JsonNumber::PosInt(2147483648))),
        Err(SendError::InvalidValue("a 32-bit integer"))
    ));
    assert!(matches!(
        encode_value(Some(OscQueryType::Int32), RequestValue::Number(JsonNumber::PosInt(u64::MAX))),
        Err(SendError::InvalidValue("a 32-bit integer"))
    ));
}

#[test]
fn encodes_strings_and_refuses_other_types() {
    assert!(matches!(
        encode_value(Some(OscQueryType::Symbol), RequestValue::String("hi".to_owned())),
        Ok(EncodedArgument::String(s)) if s == "hi"
    ));
    assert!(matches!(
        encode_value(Some(OscQueryType::OscString), RequestValue::Null),
        Err(SendError::InvalidValue("a string"))
    ));
    assert!(matches!(
        encode_value(Some(OscQueryType::False), RequestValue::Array),
        Err(SendError::InvalidValue("a boolean"))
    ));
    assert!(matches!(
        encode_value(Some(OscQueryType::Float32), RequestValue::Bool(true)),
        Err(SendError::InvalidValue("a finite number"))
    ));
    assert!(matches!(
        encode_value(Some(OscQueryType::Double), RequestValue::Number(JsonNumber::PosInt(1))),
        Err(SendError::UnsupportedType)
    ));
    assert!(matches!(
        encode_value(None, RequestValue::Bool(true)),
        Err(SendError::UnsupportedType)
    ));
}

fn node_at<'a>(root: &'a mut OscNode, segments: &[String]) -> Option<&'a mut OscNode> {
    segments.iter().try_fold(root, |node, segment| node.contents.get_mut(segment))
}

#[test]
fn replaces_a_nested_parameter_value() {
    let mut root = OscNode {
        contents: [(
            "usercamera".to_owned(),
            OscNode {
                contents: [("Pose".to_owned(), OscNode::default())].into(),
                ..Default::default()
            },
        )]
        .into(),
        ..Default::default()
    };

    let segments = parameter_path_segments("/usercamera/Pose");
    assert_eq!(segments, vec!["usercamera".to_owned(), "Pose".to_owned()]);
    let node = node_at(&mut root, &segments);
    assert!(node.is_some());
    node.unwrap().value = Some(vec![OscValue::Float(1.0)]);
    assert!(matches!(
        root.contents["usercamera"].contents["Pose"].value.as_deref(),
        Some([OscValue::Float(value)]) if *value == 1.0
    ));
}

#[test]
fn cuts_parameter_paths_like_trim_and_split() {
    for address in ["/usercamera/Pose", "//a//b//", "", "/", "a", "/a/", "x/y/z", "a//b", "ü/ß/"] {
        let expected: Vec<String> =
            address.trim_matches('/').split('/').map(|s| s.to_owned()).collect();
        assert_eq!(parameter_path_segments(address), expected, "address {address:?}");
    }
}

#[test]
fn serializes_single_values_directly_and_multiple_values_as_an_array() {
    fn value(values: Option<Vec<OscValue>>) -> Option<serde_json::Value> {
        match select_value(values) {
            None => None,
            Some(ValueSelection::Single(value)) => Some(serde_json::to_value(value).unwrap()),
            Some(ValueSelection::All(values)) => Some(serde_json::to_value(values).unwrap()),
        }
    }
    let single = Some(vec![OscValue::Int(1)]);
    let multiple = Some(vec![OscValue::Int(1), OscValue::Bool(true)]);

    assert_eq!(value(single), Some(serde_json::Value::from(1)));
    assert_eq!(
        value(multiple),
        Some(serde_json::Value::Array(vec![serde_json::Value::from(1), serde_json::Value::Bool(true)]))
    );
    assert_eq!(value(None), None);
    assert_eq!(value(Some(Vec::new())), Some(serde_json::Value::Array(Vec::new())));
}

#[test]
fn outer_slashes_name_the_same_node() {
    let bare = parameter_path_segments("usercamera/Pose");
    assert_eq!(parameter_path_segments("/usercamera/Pose"), bare);
    assert_eq!(parameter_path_segments("/usercamera/Pose/"), bare);
    assert_eq!(parameter_path_segments("///usercamera/Pose//"), bare);
}

use flutter_rust_bridge::ffi::ffi::DartCObjectType;
use hub_bridge::api::{Operation, RustResponse, RustResponseUnique, RustSignal};
use hub_bridge::call::{BridgeCall, CallMode};
use hub_bridge::dart::DartValue;
use hub_bridge::wire::Wire2Api;

fn decode_operation(code: i32) -> Operation {
    code.wire2api()
}

#[test]
fn operation_codes_decode() {
    assert_eq!(decode_operation(0), Operation::Create);
    assert_eq!(decode_operation(1), Operation::Read);
    assert_eq!(decode_operation(2), Operation::Update);
    assert_eq!(decode_operation(3), Operation::Delete);
}

#[test]
fn plain_integers_pass_through() {
    let n: i32 = (-17i32).wire2api();
    assert_eq!(n, -17);
    let m: i32 = i32::MAX.wire2api();
    assert_eq!(m, i32::MAX);
    let b: u8 = 255u8.wire2api();
    assert_eq!(b, 255);
}

#[test]
fn response_layout() {
    let v = RustResponse { successful: true, bytes: vec![1, 2, 3] }.into_dart_value();
    match v {
        DartValue::List(items) => {
            assert_eq!(items.len(), 2);
            assert!(matches!(items[0], DartValue::Bool(true)));
            match &items[1] {
                DartValue::Bytes(b) => assert_eq!(b, &vec![1u8, 2, 3]),
                other => panic!("expected bytes, got {:?}", other),
            }
        }
        other => panic!("expected a list, got {:?}", other),
    }
}

#[test]
fn response_unique_layout() {
    let r = RustResponseUnique {
        id: 42,
        response: RustResponse { successful: false, bytes: Vec::new() },
    };
    match r.into_dart_value() {
        DartValue::List(items) => {
            assert_eq!(items.len(), 2);
            assert!(matches!(items[0], DartValue::Int32(42)));
            match &items[1] {
                DartValue::List(inner) => {
                    assert_eq!(inner.len(), 2);
                    assert!(matches!(inner[0], DartValue::Bool(false)));
                    assert!(matches!(&inner[1], DartValue::Bytes(b) if b.is_empty()));
                }
                other => panic!("expected a list, got {:?}", other),
            }
        }
        other => panic!("expected a list, got {:?}", other),
    }
}

#[test]
fn signal_layout() {
    let s = RustSignal { address: "counter".to_string(), bytes: vec![9] };
    match s.into_dart_value() {
        DartValue::List(items) => {
            assert_eq!(items.len(), 2);
            assert!(matches!(&items[0], DartValue::Text(t) if t == "counter"));
            assert!(matches!(&items[1], DartValue::Bytes(b) if b == &vec![9u8]));
        }
        other => panic!("expected a list, got {:?}", other),
    }
}

#[test]
fn dart_objects_have_the_right_kind() {
    assert_eq!(DartValue::Bool(true).into_dart().into_dart_abi().ty, DartCObjectType::DartBool);
    assert_eq!(DartValue::Int32(7).into_dart().into_dart_abi().ty, DartCObjectType::DartInt32);
    assert_eq!(DartValue::Text("a".to_string()).into_dart().into_dart_abi().ty, DartCObjectType::DartString);
    assert_eq!(DartValue::Bytes(vec![1, 2]).into_dart().into_dart_abi().ty, DartCObjectType::DartTypedData);
    let signal = RustSignal { address: "x".to_string(), bytes: vec![0] };
    assert_eq!(signal.into_dart_value().into_dart().into_dart_abi().ty, DartCObjectType::DartArray);
    let empty = DartValue::List(Vec::new());
    assert_eq!(empty.into_dart().into_dart_abi().ty, DartCObjectType::DartArray);
}

#[test]
fn nested_response_encodes() {
    let r = RustResponseUnique {
        id: 1,
        response: RustResponse { successful: true, bytes: vec![5, 6] },
    };
    assert_eq!(r.into_dart_value().into_dart().into_dart_abi().ty, DartCObjectType::DartArray);
}

#[test]
fn call_modes() {
    assert_eq!(BridgeCall::PrepareRustSignalStream.mode(), CallMode::Stream);
    assert_eq!(BridgeCall::PrepareRustResponseStream.mode(), CallMode::Stream);
    assert_eq!(BridgeCall::PrepareChannels.mode(), CallMode::Sync);
    assert_eq!(BridgeCall::StartRustLogic.mode(), CallMode::Normal);
    assert_eq!(BridgeCall::RequestToRust.mode(), CallMode::Sync);
}

#[test]
fn call_names() {
    assert_eq!(BridgeCall::PrepareRustSignalStream.debug_name(), "prepare_rust_signal_stream");
    assert_eq!(BridgeCall::PrepareRustResponseStream.debug_name(), "prepare_rust_response_stream");
    assert_eq!(BridgeCall::PrepareChannels.debug_name(), "prepare_channels");
    assert_eq!(BridgeCall::StartRustLogic.debug_name(), "start_rust_logic");
    assert_eq!(BridgeCall::RequestToRust.debug_name(), "request_to_rust");
}

#[test]
fn call_info_carries_the_port() {
    let info = BridgeCall::StartRustLogic.call_info(Some(77));
    assert_eq!(info.port, Some(77));
    assert_eq!(info.mode, CallMode::Normal);
    assert_eq!(info.debug_name, "start_rust_logic");
    let sync = BridgeCall::RequestToRust.call_info(None);
    assert_eq!(sync.port, None);
    assert_eq!(sync.mode, CallMode::Sync);
    assert_eq!(sync.debug_name, "request_to_rust");
}

#[test]
fn text_with_nul_still_encodes_as_a_string() {
    let v = DartValue::Text("a\0b".to_string());
    assert_eq!(v.into_dart().into_dart_abi().ty, DartCObjectType::DartString);
}

#[test]
fn nested_lists_encode() {
    let inner = DartValue::List(vec![DartValue::Int32(1), DartValue::Bool(false)]);
    let outer = DartValue::List(vec![inner, DartValue::Bytes(Vec::new())]);
    assert_eq!(outer.into_dart().into_dart_abi().ty, DartCObjectType::DartArray);
}

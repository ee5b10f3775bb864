use rpc_dispatch::CallError;
use rpc_dispatch::Marshaller;
use rpc_dispatch::MarshallerBytes;
use rpc_dispatch::MarshallerU32;
use rpc_dispatch::MethodDescriptor;
use rpc_dispatch::MethodHandler;
use rpc_dispatch::MethodHandlerEcho;
use rpc_dispatch::MethodHandlerFn;
use rpc_dispatch::ServerMethod;
use rpc_dispatch::ServerServiceDefinition;

const DEFAULT_ROUTE: &str = "/helloworld.Greeter/SayHello";

fn add_handler(k: u32) -> impl Fn(u32) -> u32 {
    move |x: u32| x.wrapping_add(k)
}

fn adder_method(name: &str, k: u32) -> ServerMethod<
    rpc_dispatch::MethodHandlerDispatchImpl<
        u32,
        u32,
        MarshallerU32,
        MarshallerU32,
        MethodHandlerFn<u32, u32, impl Fn(u32) -> u32>,
    >,
> {
    ServerMethod::new(
        MethodDescriptor::new(
            name.to_owned(),
            false,
            false,
            MarshallerU32,
            MarshallerU32,
        ),
        MethodHandlerFn::new(add_handler(k)),
    )
}

#[test]
fn default_route_name_is_wired() {
    assert_eq!(rpc_dispatch::default_route(), DEFAULT_ROUTE);
    let sd = ServerServiceDefinition::<rpc_dispatch::EchoDispatch>::new(vec![]);
    assert!(sd.find_method(&rpc_dispatch::default_route()).is_ok());
}

#[test]
fn echo_handler_is_identity() {
    let h = MethodHandlerEcho;
    let out: Vec<u8> = h.handle(vec![5, 6, 7]);
    assert_eq!(out, vec![5, 6, 7]);
}

#[test]
fn fn_adapter_applies_function() {
    let h = MethodHandlerFn::new(|x: u32| x.wrapping_mul(2));
    assert_eq!(h.handle(21), 42);
}

#[test]
fn descriptor_keeps_fields() {
    let d = MethodDescriptor::<Vec<u8>, Vec<u8>, _, _>::new(
        "/a.B/C".to_owned(),
        true,
        false,
        MarshallerBytes,
        MarshallerBytes,
    );
    assert_eq!(d.name, "/a.B/C");
    assert!(d.input_streaming);
    assert!(!d.output_streaming);
}

#[test]
fn server_method_records_name() {
    let m = ServerMethod::new(
        MethodDescriptor::<Vec<u8>, Vec<u8>, _, _>::new(
            "/a.B/C".to_owned(),
            false,
            false,
            MarshallerBytes,
            MarshallerBytes,
        ),
        MethodHandlerEcho,
    );
    assert_eq!(m.name().as_str(), "/a.B/C");
}

#[test]
fn echo_scenario() {
    let sd = ServerServiceDefinition::new(vec![adder_method("/test.Calc/Add1", 1)]);
    let out = sd.handle_method(DEFAULT_ROUTE, &[0x01, 0x02, 0x03]).unwrap();
    assert_eq!(out, vec![0x01, 0x02, 0x03]);
}

#[test]
fn default_route_present_on_empty_registry() {
    let sd = ServerServiceDefinition::<rpc_dispatch::EchoDispatch>::new(vec![]);
    let found = sd.find_method(DEFAULT_ROUTE);
    assert!(found.is_ok());
    assert_eq!(found.unwrap().name().as_str(), DEFAULT_ROUTE);
    let out = sd.handle_method(DEFAULT_ROUTE, &[9, 8, 7]).unwrap();
    assert_eq!(out, vec![9, 8, 7]);
}

#[test]
fn unknown_method_fails() {
    let sd = ServerServiceDefinition::<rpc_dispatch::EchoDispatch>::new(vec![]);
    let r = sd.handle_method("/not/registered", &[1, 2, 3]);
    assert_eq!(r, Err(CallError::UnknownMethod));
}

#[test]
fn without_default_route_answers_nothing_when_empty() {
    let sd = ServerServiceDefinition::<rpc_dispatch::EchoDispatch>::new_without_default_route(
        vec![],
    );
    assert_eq!(
        sd.handle_method(DEFAULT_ROUTE, &[1]),
        Err(CallError::UnknownMethod)
    );
    assert!(sd.find_method(DEFAULT_ROUTE).is_err());
}

#[test]
fn dispatch_correctness_scenario() {
    let sd = ServerServiceDefinition::new(vec![adder_method("/test.Calc/Inc", 1)]);
    let payload = MarshallerU32.write(&41);
    let out = sd.handle_method("/test.Calc/Inc", &payload).unwrap();
    assert_eq!(out, MarshallerU32.write(&42));
    assert_eq!(MarshallerU32.read(&out).unwrap(), 42);
}

#[test]
fn dispatch_reports_decode_failure() {
    let sd = ServerServiceDefinition::new(vec![adder_method("/test.Calc/Inc", 1)]);
    let r = sd.handle_method("/test.Calc/Inc", &[1, 2]);
    assert_eq!(r, Err(CallError::DecodeFailure));
}

#[test]
fn name_collision_dispatches_first_registered() {
    let sd = ServerServiceDefinition::new(vec![
        adder_method("/test.Calc/Go", 1),
        adder_method("/test.Calc/Go", 2),
    ]);
    let payload = MarshallerU32.write(&10);
    for _ in 0..3 {
        let out = sd.handle_method("/test.Calc/Go", &payload).unwrap();
        assert_eq!(MarshallerU32.read(&out).unwrap(), 11);
    }
}

#[test]
fn user_method_shadows_default_route() {
    let sd = ServerServiceDefinition::new(vec![adder_method(DEFAULT_ROUTE, 5)]);
    let payload = MarshallerU32.write(&10);
    let out = sd.handle_method(DEFAULT_ROUTE, &payload).unwrap();
    assert_eq!(MarshallerU32.read(&out).unwrap(), 15);
}

#[test]
fn repeated_calls_are_stateless() {
    let sd = ServerServiceDefinition::new(vec![
        adder_method("/test.Calc/A", 1),
        adder_method("/test.Calc/B", 2),
    ]);
    let payload = MarshallerU32.write(&100);
    let b_before = sd.handle_method("/test.Calc/B", &payload);
    let a1 = sd.handle_method("/test.Calc/A", &payload);
    let a2 = sd.handle_method("/test.Calc/A", &payload);
    let b_after = sd.handle_method("/test.Calc/B", &payload);
    assert_eq!(a1, a2);
    assert_eq!(b_before, b_after);
    assert_eq!(MarshallerU32.read(&a1.unwrap()).unwrap(), 101);
    assert_eq!(MarshallerU32.read(&b_after.unwrap()).unwrap(), 102);
}

use nanorpc::compile::{compile_interface, CompiledInterface};
use nanorpc::decl::{FnInput, InterfaceDeclaration, MethodDeclaration, Parameter, TraitMember};
use nanorpc::dispatch::{
    bind_arguments, BoundArgument, DecodeFailure, ErrorReport, FallibleOutcome, OpaqueValue,
    PlainOutcome, ProtocolHandler, ServerError, Service, GENERIC_ERROR_CODE,
};

fn param(name: &str, ty: &str) -> Parameter {
    Parameter { name: name.to_string(), ty: ty.to_string() }
}

fn method(name: &str, inputs: Vec<FnInput>, return_type: &str) -> MethodDeclaration {
    MethodDeclaration { name: name.to_string(), inputs, return_type: return_type.to_string() }
}

/// The `EchoProtocol` scenario: `echo(self, msg: string) -> string` and
/// `fail(self, x: int) -> Result<int, string>`, plus a two-parameter method
/// for the ordering checks.
fn echo_interface() -> CompiledInterface {
    let decl = InterfaceDeclaration {
        name: "EchoProtocol".to_string(),
        members: vec![
            TraitMember::Method(method(
                "echo",
                vec![FnInput::Receiver, FnInput::Typed(param("msg", "string"))],
                "string",
            )),
            TraitMember::Method(method(
                "fail",
                vec![FnInput::Receiver, FnInput::Typed(param("x", "int"))],
                "Result<int, string>",
            )),
            TraitMember::Method(method(
                "concat",
                vec![
                    FnInput::Receiver,
                    FnInput::Typed(param("a", "string")),
                    FnInput::Typed(param("b", "string")),
                ],
                "string",
            )),
        ],
    };
    compile_interface(&decl).unwrap()
}

struct EchoImpl;

impl ProtocolHandler for EchoImpl {
    fn handle_infallible(&self, method: &str, args: Vec<BoundArgument>) -> PlainOutcome {
        match method {
            "echo" => match args.into_iter().next() {
                Some(BoundArgument { value: OpaqueValue::Str(s), .. }) => {
                    PlainOutcome::Returned { value: OpaqueValue::Str(s) }
                }
                _ => PlainOutcome::Undecodable { index: 0 },
            },
            "concat" => {
                let mut joined = String::new();
                for (i, bound) in args.into_iter().enumerate() {
                    match bound.value {
                        OpaqueValue::Str(s) => {
                            if i > 0 {
                                joined.push('|');
                            }
                            joined.push_str(bound.param.name.as_str());
                            joined.push('=');
                            joined.push_str(s.as_str());
                        }
                        _ => return PlainOutcome::Undecodable { index: i },
                    }
                }
                PlainOutcome::Returned { value: OpaqueValue::Str(joined) }
            }
            _ => PlainOutcome::Returned { value: OpaqueValue::Null },
        }
    }

    fn handle_fallible(&self, _method: &str, args: Vec<BoundArgument>) -> FallibleOutcome {
        match args.into_iter().next() {
            Some(BoundArgument { value: OpaqueValue::Int(5), .. }) => FallibleOutcome::Returned {
                result: Err(ErrorReport {
                    message: "bad input".to_string(),
                    details: OpaqueValue::Str("bad input".to_string()),
                }),
            },
            Some(BoundArgument { value: OpaqueValue::Int(x), .. }) => {
                FallibleOutcome::Returned { result: Ok(OpaqueValue::Int(x)) }
            }
            _ => FallibleOutcome::Undecodable { index: 0 },
        }
    }
}

#[test]
fn echo_dispatch_present_success() {
    let interface = echo_interface();
    let r = interface.respond(
        &EchoImpl,
        "echo",
        &vec![OpaqueValue::Str("hi".to_string())],
    );
    assert_eq!(r, Ok(Some(Ok(OpaqueValue::Str("hi".to_string())))));
}

#[test]
fn fail_dispatch_present_failure() {
    let interface = echo_interface();
    let r = interface.respond(&EchoImpl, "fail", &vec![OpaqueValue::Int(5)]);
    assert_eq!(
        r,
        Ok(Some(Err(ServerError {
            code: GENERIC_ERROR_CODE,
            message: "bad input".to_string(),
            details: OpaqueValue::Str("bad input".to_string()),
        })))
    );
}

#[test]
fn fail_dispatch_present_success() {
    let interface = echo_interface();
    let r = interface.respond(&EchoImpl, "fail", &vec![OpaqueValue::Int(3)]);
    assert_eq!(r, Ok(Some(Ok(OpaqueValue::Int(3)))));
}

#[test]
fn missing_method_absent() {
    let interface = echo_interface();
    let r = interface.respond(&EchoImpl, "missing", &vec![]);
    assert_eq!(r, Ok(None));
}

#[test]
fn missing_argument_reported() {
    let interface = echo_interface();
    let r = interface.respond(&EchoImpl, "echo", &vec![]);
    assert_eq!(r, Err(DecodeFailure::MissingArgument { index: 0 }));
}

#[test]
fn undecodable_argument_aborts() {
    let interface = echo_interface();
    let r = interface.respond(&EchoImpl, "echo", &vec![OpaqueValue::Int(3)]);
    assert_eq!(r, Err(DecodeFailure::Undecodable { index: 0 }));
}

#[test]
fn extra_arguments_ignored() {
    let interface = echo_interface();
    let r = interface.respond(
        &EchoImpl,
        "echo",
        &vec![OpaqueValue::Str("hi".to_string()), OpaqueValue::Int(1)],
    );
    assert_eq!(r, Ok(Some(Ok(OpaqueValue::Str("hi".to_string())))));
}

#[test]
fn argument_order_round_trip() {
    let interface = echo_interface();
    let r = interface.respond(
        &EchoImpl,
        "concat",
        &vec![
            OpaqueValue::Str("x".to_string()),
            OpaqueValue::Str("y".to_string()),
        ],
    );
    assert_eq!(r, Ok(Some(Ok(OpaqueValue::Str("a=x|b=y".to_string())))));
}

#[test]
fn bind_pairs_values_with_parameters() {
    let interface = echo_interface();
    let concat = &interface.methods[2];
    let bound = bind_arguments(
        concat,
        &vec![
            OpaqueValue::Str("x".to_string()),
            OpaqueValue::Str("y".to_string()),
        ],
    )
    .unwrap();
    assert_eq!(bound.len(), 2);
    assert_eq!(bound[0].param.name, "a");
    assert_eq!(bound[0].value, OpaqueValue::Str("x".to_string()));
    assert_eq!(bound[1].param.name, "b");
    assert_eq!(bound[1].value, OpaqueValue::Str("y".to_string()));
}

#[test]
fn first_missing_position_reported() {
    let interface = echo_interface();
    // "concat" declares two parameters; one argument is supplied, so the
    // first missing position is 1.
    let r = interface.respond(
        &EchoImpl,
        "concat",
        &vec![OpaqueValue::Str("x".to_string())],
    );
    assert_eq!(r, Err(DecodeFailure::MissingArgument { index: 1 }));
}

#[test]
fn service_wrapper_dispatches() {
    let service = Service::new(echo_interface(), EchoImpl);
    let r = service.respond("echo", &vec![OpaqueValue::Str("hi".to_string())]);
    assert_eq!(r, Ok(Some(Ok(OpaqueValue::Str("hi".to_string())))));
    assert_eq!(service.respond("missing", &vec![]), Ok(None));
}

#[test]
fn first_declared_method_wins() {
    let decl = InterfaceDeclaration {
        name: "DupProtocol".to_string(),
        members: vec![
            TraitMember::Method(method("dup", vec![FnInput::Receiver], "string")),
            TraitMember::Method(method(
                "dup",
                vec![FnInput::Receiver],
                "Result<int, string>",
            )),
        ],
    };
    let interface = compile_interface(&decl).unwrap();
    // The first declared "dup" is infallible, so the infallible path runs.
    let r = interface.respond(&EchoImpl, "dup", &vec![]);
    assert_eq!(r, Ok(Some(Ok(OpaqueValue::Null))));
}

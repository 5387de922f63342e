use nanorpc::compile::{compile_interface, classify_return, compile_method, CompileError, ReturnShape};
use nanorpc::decl::{FnInput, InterfaceDeclaration, MethodDeclaration, Parameter, TraitMember};

fn param(name: &str, ty: &str) -> Parameter {
    Parameter { name: name.to_string(), ty: ty.to_string() }
}

fn method(name: &str, inputs: Vec<FnInput>, return_type: &str) -> MethodDeclaration {
    MethodDeclaration { name: name.to_string(), inputs, return_type: return_type.to_string() }
}

fn echo_method() -> MethodDeclaration {
    method(
        "echo",
        vec![FnInput::Receiver, FnInput::Typed(param("msg", "string"))],
        "string",
    )
}

#[test]
fn naming_error_without_suffix() {
    let decl = InterfaceDeclaration {
        name: "Echo".to_string(),
        members: vec![TraitMember::Method(echo_method())],
    };
    assert_eq!(compile_interface(&decl), Err(CompileError::NamingError));
}

#[test]
fn unsupported_member_rejected() {
    let decl = InterfaceDeclaration {
        name: "EchoProtocol".to_string(),
        members: vec![
            TraitMember::Method(echo_method()),
            TraitMember::Other("MAX_LEN".to_string()),
        ],
    };
    assert_eq!(
        compile_interface(&decl),
        Err(CompileError::UnsupportedMemberError { index: 1 })
    );
}

#[test]
fn derived_names() {
    let decl = InterfaceDeclaration {
        name: "EchoProtocol".to_string(),
        members: vec![],
    };
    let compiled = compile_interface(&decl).unwrap();
    assert_eq!(compiled.protocol_name, "EchoProtocol");
    assert_eq!(compiled.service_name, "EchoService");
    assert_eq!(compiled.client_name, "EchoClient");
    assert!(compiled.methods.is_empty());
}

#[test]
fn repeated_suffix_stripped() {
    let decl = InterfaceDeclaration {
        name: "FooProtocolProtocol".to_string(),
        members: vec![],
    };
    let compiled = compile_interface(&decl).unwrap();
    assert_eq!(compiled.service_name, "FooService");
    assert_eq!(compiled.client_name, "FooClient");
}

#[test]
fn bare_suffix_name_strips_to_empty() {
    let decl = InterfaceDeclaration {
        name: "Protocol".to_string(),
        members: vec![],
    };
    let compiled = compile_interface(&decl).unwrap();
    assert_eq!(compiled.service_name, "Service");
    assert_eq!(compiled.client_name, "Client");
}

#[test]
fn classify_fallible_by_marker() {
    assert_eq!(classify_return("Result<int, string>"), ReturnShape::Fallible);
    assert_eq!(classify_return("string"), ReturnShape::Infallible);
    // The classification is a textual heuristic: a return type that merely
    // mentions the marker is classified fallible too.
    assert_eq!(classify_return("ResultSet"), ReturnShape::Fallible);
}

#[test]
fn receiver_offset_excludes_receiver() {
    let m = method(
        "pair",
        vec![
            FnInput::Typed(param("a", "string")),
            FnInput::Receiver,
            FnInput::Typed(param("b", "int")),
        ],
        "string",
    );
    let compiled = compile_method(&m);
    assert!(compiled.has_receiver);
    assert_eq!(compiled.params.len(), 2);
    assert_eq!(compiled.params[0].name, "a");
    assert_eq!(compiled.params[1].name, "b");
}

#[test]
fn method_without_receiver_compiles() {
    let m = method("free", vec![FnInput::Typed(param("x", "int"))], "int");
    let compiled = compile_method(&m);
    assert!(!compiled.has_receiver);
    assert_eq!(compiled.params.len(), 1);
    assert_eq!(compiled.params[0].name, "x");
}

#[test]
fn compiled_methods_in_declaration_order() {
    let decl = InterfaceDeclaration {
        name: "EchoProtocol".to_string(),
        members: vec![
            TraitMember::Method(echo_method()),
            TraitMember::Method(method(
                "fail",
                vec![FnInput::Receiver, FnInput::Typed(param("x", "int"))],
                "Result<int, string>",
            )),
        ],
    };
    let compiled = compile_interface(&decl).unwrap();
    assert_eq!(compiled.methods.len(), 2);
    assert_eq!(compiled.methods[0].name, "echo");
    assert_eq!(compiled.methods[0].shape, ReturnShape::Infallible);
    assert_eq!(compiled.methods[1].name, "fail");
    assert_eq!(compiled.methods[1].shape, ReturnShape::Fallible);
}

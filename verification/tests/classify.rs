use win32gen::model::{
    ErrorStyle, MethodParam, MethodSignature, ParamFlags, ParamInfo, SignatureKind, TypeKind,
    TypeSignature,
};

fn cl_prim(name: &str) -> TypeKind {
    TypeKind::Primitive { name: name.to_string(), abi: name.to_string() }
}

fn cl_udt(name: &str) -> TypeKind {
    TypeKind::Udt { name: name.to_string(), abi: name.to_string(), convertible: false }
}

fn cl_param(name: &str, output: bool, kind: TypeKind, pointers: usize) -> MethodParam {
    MethodParam {
        param: ParamInfo {
            name: name.to_string(),
            flags: ParamFlags { input: !output, output, optional: false },
        },
        signature: TypeSignature { kind, pointers },
    }
}

fn cl_sig(
    params: Vec<MethodParam>,
    return_sig: Option<TypeSignature>,
    style: ErrorStyle,
) -> MethodSignature {
    MethodSignature { params, return_sig, style }
}

#[test]
fn classify_status_with_trailing_out_pointer_is_result_value() {
    let sig = cl_sig(
        vec![
            cl_param("flags", false, cl_prim("u32"), 0),
            cl_param("value", true, cl_prim("u32"), 1),
        ],
        None,
        ErrorStyle::StatusCode,
    );
    assert_eq!(sig.kind(), SignatureKind::ResultValue);
}

#[test]
fn classify_status_without_params_is_result_void() {
    let sig = cl_sig(vec![], None, ErrorStyle::StatusCode);
    assert_eq!(sig.kind(), SignatureKind::ResultVoid);
}

#[test]
fn classify_status_with_input_last_param_is_result_void() {
    let sig = cl_sig(
        vec![cl_param("flags", false, cl_prim("u32"), 1)],
        None,
        ErrorStyle::StatusCode,
    );
    assert_eq!(sig.kind(), SignatureKind::ResultVoid);
}

#[test]
fn classify_status_with_nonpointer_last_param_is_result_void() {
    let sig = cl_sig(
        vec![cl_param("value", true, cl_prim("u32"), 0)],
        None,
        ErrorStyle::StatusCode,
    );
    assert_eq!(sig.kind(), SignatureKind::ResultVoid);
}

#[test]
fn classify_identity_query_is_query_interface() {
    let sig = cl_sig(vec![], None, ErrorStyle::IdentityQuery);
    assert_eq!(sig.kind(), SignatureKind::QueryInterface);
}

#[test]
fn classify_preserve_with_primitive_return_is_preserve_sig() {
    let ret = TypeSignature { kind: cl_prim("i32"), pointers: 0 };
    let sig = cl_sig(vec![], Some(ret), ErrorStyle::Preserve);
    assert_eq!(sig.kind(), SignatureKind::PreserveSig);
}

#[test]
fn classify_preserve_without_return_is_preserve_sig() {
    let sig = cl_sig(vec![], None, ErrorStyle::Preserve);
    assert_eq!(sig.kind(), SignatureKind::PreserveSig);
}

#[test]
fn classify_preserve_with_udt_return_is_return_struct() {
    let ret = TypeSignature { kind: cl_udt("RECT"), pointers: 0 };
    let sig = cl_sig(vec![], Some(ret), ErrorStyle::Preserve);
    assert_eq!(sig.kind(), SignatureKind::ReturnStruct);
}

#[test]
fn result_value_classification_needs_output_last_param() {
    // The last parameter decides: flipping its output flag demotes the
    // signature from the value convention to the void convention.
    let with_out = cl_sig(
        vec![
            cl_param("flags", false, cl_prim("u32"), 0),
            cl_param("value", true, cl_prim("u32"), 1),
        ],
        None,
        ErrorStyle::StatusCode,
    );
    let without_out = cl_sig(
        vec![
            cl_param("flags", false, cl_prim("u32"), 0),
            cl_param("value", false, cl_prim("u32"), 1),
        ],
        None,
        ErrorStyle::StatusCode,
    );
    assert_eq!(with_out.kind(), SignatureKind::ResultValue);
    assert!(with_out.params.last().unwrap().param.flags.output);
    assert_eq!(without_out.kind(), SignatureKind::ResultVoid);
}
